//! The bridge with a VM in it: what the natives leave behind, how answers reach a script,
//! what a script sees of the frame, and what the host hears back.

use rubevy::{pending_command_count, Answer, Request, ScriptStatus, ScriptTask, ScriptWorld, WorldAction};
use rubevy::vm::{ruby_value, value_of, RubyValue};
use sabiruby::Value;

fn compile(src: &str) -> Vec<u8> {
    let opts = sabiruby_compiler::Options { filename: "t.rb".into(), debug_info: true, ..Default::default() };
    sabiruby_compiler::compile(src.as_bytes(), &opts).expect("compiles")
}

fn entity() -> u64 {
    bevy::ecs::world::World::new().spawn_empty().id().to_bits()
}

fn number(v: &RubyValue) -> f64 {
    match v {
        RubyValue::Int(i) => *i as f64,
        RubyValue::Float(x) => match value_of(RubyValue::Float(*x)) {
            Value::Float(f) => f,
            _ => panic!("not a Float"),
        },
        _ => panic!("not a number: {v:?}"),
    }
}

/// Runs `n` frames, answering every request with what `answer` says, and collects the
/// requests and the actions.
fn frames(
    world: &mut ScriptWorld,
    n: usize,
    answer: &dyn Fn(&Request<RubyValue>) -> Answer<RubyValue>,
) -> (Vec<Request<RubyValue>>, Vec<WorldAction>) {
    let (mut seen, mut actions) = (Vec::new(), Vec::new());
    for _ in 0..n {
        world.vm.task_advance_ticks(1);
        world.run_frame().expect("the scheduler runs");
        actions.extend(world.drain_commands());
        for r in world.take_requests() {
            world.answer(&r, answer(&r)).expect("answered");
            seen.push(r);
        }
    }
    (seen, actions)
}

fn nil(_: &Request<RubyValue>) -> Answer<RubyValue> {
    Answer::Nil
}

fn reported(seen: &[Request<RubyValue>]) -> Vec<String> {
    seen.iter().filter(|r| r.kind == "report").map(|r| r.text(0).unwrap_or("").to_string()).collect()
}

#[test]
fn a_fresh_world_has_nothing_waiting() {
    let mut world = ScriptWorld::new().expect("the VM starts");
    assert_eq!(world.budget, 200_000);
    assert_eq!(world.frame_time, Some(std::time::Duration::from_millis(8)));
    assert_eq!(world.overrun, Some(std::time::Duration::from_millis(50)));
    assert!(world.take_requests().is_empty());
    assert_eq!(pending_command_count(&world), 0);
    assert!(world.drain_commands().is_empty());
    assert_eq!(world.freed_entities(), 0);
}

#[test]
fn the_natives_leave_commands_for_the_world() {
    let mut world = ScriptWorld::new().expect("the VM starts");
    let me = entity();
    let src = r#"
          Rubevy.log "hello"
          Rubevy.spawn "npc", 1, 2.5, :nope
          Rubevy.move_to 4, 5, 6
          Rubevy.set_position Rubevy.entity, 7, 8, 9
          Rubevy.despawn 0
        "#;
    world.start_script(&compile(src), 128, None, me).expect("starts");
    world.run_frame().expect("runs");
    assert_eq!(pending_command_count(&world), 5, "five commands wait until the host drains them");
    let actions = world.drain_commands();
    assert_eq!(pending_command_count(&world), 0);
    assert_eq!(actions.len(), 4, "a despawn of bits that name no entity is dropped");
    assert!(matches!(&actions[0], WorldAction::Log(t) if t == "hello"));
    match &actions[1] {
        WorldAction::Spawn { name, x, y, z } => {
            assert_eq!(name, "npc");
            assert_eq!((number(x), number(y), number(z)), (1.0, 2.5, 0.0), "what is not a number is 0");
        }
        _ => panic!("a spawn"),
    }
    match &actions[2] {
        WorldAction::SetPosition { entity, x, y, z } => {
            assert_eq!(*entity, me, "move_to moves the script's own entity");
            assert_eq!((number(x), number(y), number(z)), (4.0, 5.0, 6.0));
        }
        _ => panic!("a move"),
    }
    assert!(matches!(&actions[3], WorldAction::SetPosition { entity, .. } if *entity == me));
}

#[test]
fn an_answer_reaches_the_script_as_a_ruby_value() {
    let mut world = ScriptWorld::new().expect("the VM starts");
    let src = r#"
          Rubevy.ask("report", Rubevy.ask("num").pop.inspect)
          Rubevy.ask("report", Rubevy.ask("text").pop.inspect)
          Rubevy.ask("report", Rubevy.ask("yes").pop.inspect)
          Rubevy.ask("report", Rubevy.ask("list").pop.inspect)
          Rubevy.ask("report", Rubevy.ask("rows").pop.inspect)
          Rubevy.ask("report", Rubevy.ask("nothing").pop.inspect)
          :done
        "#;
    world.start_script(&compile(src), 128, Some("answers".to_string()), entity()).expect("starts");
    let answer = |r: &Request<RubyValue>| match r.kind.as_str() {
        "num" => Answer::Num(ruby_value(Value::Float(7.0))),
        "text" => Answer::Text("hi".to_string()),
        "yes" => Answer::Bool(true),
        "list" => Answer::List(vec![ruby_value(Value::Float(3.0)), ruby_value(Value::Float(3.5))]),
        "rows" => Answer::Rows(vec![vec![ruby_value(Value::Float(1.0))], vec![ruby_value(Value::Float(2.0)), ruby_value(Value::Float(3.0))]]),
        _ => Answer::Nil,
    };
    let (seen, _) = frames(&mut world, 20, &answer);
    assert_eq!(reported(&seen), vec!["7.0", "\"hi\"", "true", "[3.0, 3.5]", "[[1.0], [2.0, 3.0]]", "nil"]);
}

#[test]
fn ask_reads_numbers_strings_symbols_and_entities() {
    let mut world = ScriptWorld::new().expect("the VM starts");
    let me = entity();
    world
        .start_script(&compile(r#"Rubevy.ask("mixed", 1, 2.5, "s", :sym, nil, Rubevy.entity).pop"#), 128, None, me)
        .expect("starts");
    let (seen, _) = frames(&mut world, 3, &nil);
    let r = &seen[0];
    assert_eq!(r.kind, "mixed");
    assert_eq!(r.entity, Some(me));
    assert_eq!(r.num(0).map(|v| number(&v)), Some(1.0));
    assert_eq!(r.num(1).map(|v| number(&v)), Some(2.5));
    assert_eq!(r.text(2), Some("s"));
    assert_eq!(r.text(3), Some("sym"));
    assert_eq!(r.text(4), Some(""), "nil is what to_s makes of it");
    assert_eq!(r.entity_arg(5), Some(me));
    assert_eq!(r.args.len(), 6);
}

#[test]
fn ask_without_what_to_ask_for_raises() {
    let mut world = ScriptWorld::new().expect("the VM starts");
    let src = r#"
          begin
            Rubevy.ask
          rescue ArgumentError => e
            Rubevy.ask("report", e.message)
          end
        "#;
    world.start_script(&compile(src), 128, None, entity()).expect("starts");
    let (seen, _) = frames(&mut world, 3, &nil);
    assert_eq!(reported(&seen), vec!["ask needs what to ask for"]);
}

#[test]
fn a_script_reads_the_frame_from_rubevy() {
    let mut world = ScriptWorld::new().expect("the VM starts");
    world
        .start_script(&compile(r##"Rubevy.ask("report", "#{$rubevy[:frame]} #{$rubevy[:delta]} #{$rubevy[:time]}")"##), 128, None, entity())
        .expect("starts");
    world.set_frame_state(42, ruby_value(Value::Float(0.5)), ruby_value(Value::Float(2.25)));
    world.run_frame().expect("runs");
    world.drain_commands();
    let seen = world.take_requests();
    assert_eq!(reported(&seen), vec!["42 0.5 2.25"]);
}

#[test]
fn what_a_script_prints_comes_out_line_by_line() {
    let mut world = ScriptWorld::new().expect("the VM starts");
    world.start_script(&compile("puts 'one'\nputs 'two'\np :three"), 128, None, entity()).expect("starts");
    world.run_frame().expect("runs");
    assert_eq!(world.take_output_lines(), vec!["one", "two", ":three"]);
    assert!(world.take_output_lines().is_empty(), "each line comes out once");
}

#[test]
fn text_a_script_passes_is_read_as_utf8() {
    let mut world = ScriptWorld::new().expect("the VM starts");
    world.start_script(&compile(r#"Rubevy.log "caf\u00e9"; Rubevy.log "a\xffb""#), 128, None, entity()).expect("starts");
    world.run_frame().expect("runs");
    let logged: Vec<String> = world
        .drain_commands()
        .into_iter()
        .filter_map(|a| match a {
            WorldAction::Log(t) => Some(t),
            _ => None,
        })
        .collect();
    assert_eq!(logged, vec!["café".to_string(), "a\u{fffd}b".to_string()], "what is not UTF-8 is U+FFFD");
}

#[test]
fn lines_end_at_crlf_too_and_an_empty_output_has_none() {
    let mut world = ScriptWorld::new().expect("the VM starts");
    assert!(world.take_output_lines().is_empty());
    world.start_script(&compile(r#"print "one\r\ntwo\n\nthree""#), 128, None, entity()).expect("starts");
    world.run_frame().expect("runs");
    assert_eq!(world.take_output_lines(), vec!["one", "two", "", "three"]);
}

#[test]
fn an_ended_script_is_reported_once_with_what_it_answered() {
    let mut world = ScriptWorld::new().expect("the VM starts");
    let (good, bad) = (entity(), entity());
    let ok = world.start_script(&compile(":done"), 128, None, good).expect("starts");
    let failing = world.start_script(&compile("raise 'broken'"), 128, None, bad).expect("starts");
    assert!(world.finish(good, ok).is_none(), "nothing has run yet");
    world.run_frame().expect("runs");
    let ended = world.finish(good, ok).expect("it ran to its end");
    assert_eq!((ended.entity, ended.status, ended.value.as_str()), (good, ScriptStatus::Finished, ":done"));
    let ended = world.finish(bad, failing).expect("it ran to its end");
    assert_eq!(ended.status, ScriptStatus::Failed);
    assert!(ended.value.contains("broken"), "{}", ended.value);
}

#[test]
fn a_script_that_cannot_load_is_named_in_the_refusal() {
    let mut world = ScriptWorld::new().expect("the VM starts");
    let e = entity();
    let why = world.start_script(b"not a program", 128, Some("scout".to_string()), e).err().expect("refused");
    assert!(why.starts_with("scout failed to load: "), "{why}");
    let why = world.start_script(b"not a program", 128, None, e).err().expect("refused");
    let label = format!("{}", bevy::ecs::entity::Entity::from_bits(e));
    assert!(why.starts_with(&format!("{label} failed to load: ")), "{why}");
}

#[test]
fn stats_show_what_a_script_spent_and_where_it_is() {
    let mut world = ScriptWorld::new().expect("the VM starts");
    let task = world.start_script(&compile("x = 0\nloop { x += 1; sleep 1 }"), 128, None, entity()).expect("starts");
    world.run_frame().expect("runs");
    let stats = world.stats(&ScriptTask::new(task));
    assert!(stats.instructions > 0);
    assert!(!stats.finished);
    assert_eq!(stats.location.map(|(file, _)| file), Some("t.rb".to_string()));
    assert_eq!(world.stop_task(task, true), None);
    assert!(world.stats(&ScriptTask::new(task)).finished, "a stopped task has ended");
}

#[test]
fn the_task_of_a_script_is_what_start_script_answered() {
    let mut world = ScriptWorld::new().expect("the VM starts");
    let task = world.start_script(&compile(":x"), 128, None, entity()).expect("starts");
    assert_eq!(ScriptTask::new(task).task(), task);
}

#[test]
fn a_frame_is_limited_by_budget_time_and_overrun() {
    let world = ScriptWorld::new().expect("the VM starts");
    assert_eq!(world.frame_limits(), (Some(200_000), Some(8_000_000), Some(50_000_000)));
}

#[test]
fn answers_become_ruby_values() {
    let mut world = ScriptWorld::new().expect("the VM starts");
    assert!(matches!(world.answer_value(Answer::Nil), RubyValue::Nil));
    assert!(matches!(world.answer_value(Answer::Bool(true)), RubyValue::True));
    assert!(matches!(world.answer_value(Answer::Bool(false)), RubyValue::False));
    assert!(matches!(world.answer_value(Answer::Num(RubyValue::Int(5))), RubyValue::Int(5)));
    assert!(matches!(world.answer_value(Answer::Text("hi".to_string())), RubyValue::Obj(_)));
    let bits = entity();
    let made = world.answer_value(Answer::Entity(bits));
    assert_eq!(world.vm.data_of(rubevy::vm::value_of(made)), Some((rubevy::ENTITY_TAG, bits)));
}

#[test]
fn a_task_without_an_entity_asks_for_none() {
    let mut world = ScriptWorld::new().expect("the VM starts");
    let src = r#"
        t = Task.new(name: "orphan") { Rubevy.ask("orphan").pop }
        t.instance_variable_set(:@rubevy_entity, nil)
        sleep 0.05
    "#;
    world.start_script(&compile(src), 128, None, entity()).expect("starts");
    let (seen, _) = frames(&mut world, 25, &nil);
    let r = seen.iter().find(|r| r.kind == "orphan").expect("the task asked");
    assert_eq!(r.entity, None);
}

#[test]
fn answers_keep_their_contents() {
    let mut world = ScriptWorld::new().expect("the VM starts");
    let text = world.answer_value(Answer::Text("hi".to_string()));
    assert_eq!(world.vm.inspect_str(value_of(text)).expect("inspects"), "\"hi\"");
    let list = world.answer_value(Answer::List(vec![RubyValue::Int(1), RubyValue::Int(2)]));
    assert_eq!(world.vm.inspect_str(value_of(list)).expect("inspects"), "[1, 2]");
    let rows = world.answer_value(Answer::Rows(vec![vec![RubyValue::Int(1)], vec![RubyValue::Int(2), RubyValue::Int(3)]]));
    assert_eq!(world.vm.inspect_str(value_of(rows)).expect("inspects"), "[[1], [2, 3]]");
}

#[test]
fn only_values_of_the_vm_are_readable() {
    let world = ScriptWorld::new().expect("the VM starts");
    assert!(rubevy::host_api::readable(&world.vm, RubyValue::Int(3)));
    assert!(rubevy::host_api::readable(&world.vm, RubyValue::Nil));
    assert!(!rubevy::host_api::readable(&world.vm, RubyValue::Obj(sabiruby::value::ObjId(u32::MAX - 1))));
    assert!(!rubevy::host_api::readable(&world.vm, RubyValue::Sym(sabiruby::symbol::Sym(u32::MAX - 1))));
}

#[test]
fn the_run_limits_are_the_frame_limits() {
    let world = ScriptWorld::new().expect("the VM starts");
    let limits = world.frame_run_limits();
    assert_eq!(limits.instructions, Some(200_000));
    assert_eq!(limits.time_ns, Some(8_000_000));
    assert_eq!(limits.overrun_ns, Some(50_000_000));
}

#[test]
fn a_task_is_spawned_with_the_priority_and_name_given() {
    let mut world = ScriptWorld::new().expect("the VM starts");
    let task = world
        .start_script(&compile("Rubevy.log(Task.current.name); Rubevy.log(Task.current.priority.to_s)"), 77, Some("named".to_string()), entity())
        .expect("starts");
    let (_, actions) = frames(&mut world, 3, &nil);
    let logged: Vec<String> = actions.iter().filter_map(|a| match a { WorldAction::Log(t) => Some(t.clone()), _ => None }).collect();
    assert_eq!(logged, vec!["named".to_string(), "77".to_string()]);
    assert!(world.finish(1, task).is_some());
}
