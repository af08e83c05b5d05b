//! The values that cross the bridge, without a VM: requests and their arguments, the
//! command queue and its routing, entities, text, `.mrb` loading and the script settings.

use rubevy::entity::{entity_inspect, entity_of};
use rubevy::host_api::{arg_source, entity_handle, number_arg, ArgSource};
use rubevy::vm::{ruby_value, value_of};
use rubevy::world::output_lines;
use rubevy::script::script_ended;
use rubevy::text::decimal_string;
use rubevy::{
    route_commands, Arg, HostCommand, HostState, MrbLoadError, MrbLoader, Request, RubevyPlugin,
    Script, ScriptStats, ScriptStatus, WorldAction, ENTITY_TAG,
};
use sabiruby::value::ObjId;
use rubevy::vm::RubyValue;
use sabiruby::Value;

fn request(args: Vec<Arg<f64>>) -> Request<f64> {
    Request { entity: None, kind: "scan".to_string(), args, queue: ObjId(7) }
}

#[test]
fn each_argument_is_read_one_way() {
    let r = request(vec![Arg::Num(40.0), Arg::Text("north".to_string()), Arg::Entity(4294967297)]);
    assert_eq!(r.num(0), Some(40.0));
    assert_eq!(r.text(0), None);
    assert_eq!(r.entity_arg(0), None);
    assert_eq!(r.num(1), None);
    assert_eq!(r.text(1), Some("north"));
    assert_eq!(r.entity_arg(1), None);
    assert_eq!(r.num(2), None);
    assert_eq!(r.text(2), None);
    assert_eq!(r.entity_arg(2), Some(4294967297));
    // past the last argument nothing answers
    assert_eq!(r.num(3), None);
    assert_eq!(r.text(3), None);
    assert_eq!(r.entity_arg(3), None);
}

#[test]
fn num_or_falls_back_only_where_there_is_no_number() {
    let r = request(vec![Arg::Num(2.5), Arg::Text("x".to_string())]);
    assert_eq!(r.num_or(0, -1.0), 2.5);
    assert_eq!(r.num_or(1, -1.0), -1.0);
    assert_eq!(r.num_or(9, -1.0), -1.0);
}

#[test]
fn an_argument_reads_as_its_own_kind() {
    let n: Arg<f64> = Arg::Num(1.5);
    let t: Arg<f64> = Arg::Text("a".to_string());
    let e: Arg<f64> = Arg::Entity(5);
    assert_eq!((n.as_num(), n.as_text(), n.as_entity()), (Some(1.5), None, None));
    assert_eq!((t.as_num(), t.as_text(), t.as_entity()), (None, Some("a"), None));
    assert_eq!((e.as_num(), e.as_text(), e.as_entity()), (None, None, Some(5)));
}

#[test]
fn the_queue_gives_back_what_was_pushed_once() {
    let mut q = HostState::new();
    q.push(HostCommand::Log("one".to_string()));
    q.push(HostCommand::Despawn(9));
    assert_eq!(q.len(), 2);
    let taken = q.take();
    assert_eq!(taken.len(), 2);
    assert!(matches!(&taken[0], HostCommand::Log(t) if t == "one"));
    assert!(matches!(taken[1], HostCommand::Despawn(9)));
    assert_eq!(q.len(), 0);
    assert!(q.take().is_empty(), "nothing is taken twice");
}

#[test]
fn questions_become_requests_and_the_rest_actions() {
    let valid: u64 = (3u64 << 32) | 12;
    let commands = vec![
        HostCommand::Log("hello".to_string()),
        HostCommand::Ask { entity: valid, kind: "scan".to_string(), args: vec![Arg::Num(RubyValue::Int(40))], queue: ObjId(1) },
        HostCommand::Despawn(0),
        HostCommand::Despawn(valid),
        HostCommand::SetPosition { entity: 1u64 << 32, x: RubyValue::Int(1), y: RubyValue::Int(2), z: RubyValue::Int(3) },
        HostCommand::Spawn { name: "npc".to_string(), x: RubyValue::Int(0), y: ruby_value(Value::Float(1.5)), z: RubyValue::Int(0) },
        HostCommand::Ask { entity: 0, kind: "time".to_string(), args: vec![], queue: ObjId(2) },
    ];
    let mut requests = vec![Request { entity: None, kind: "earlier".to_string(), args: vec![], queue: ObjId(0) }];
    let actions = route_commands(commands, &mut requests);

    let kinds: Vec<&str> = requests.iter().map(|r| r.kind.as_str()).collect();
    assert_eq!(kinds, vec!["earlier", "scan", "time"], "questions join the waiting requests, in order");
    assert_eq!(requests[1].entity, Some(valid));
    assert_eq!(requests[1].queue, ObjId(1));
    assert_eq!(requests[2].entity, None, "a task without an entity asks for none");
    assert_eq!(requests[2].queue, ObjId(2));

    assert_eq!(actions.len(), 3, "a despawn or a move that names no entity is dropped");
    assert!(matches!(&actions[0], WorldAction::Log(t) if t == "hello"));
    assert!(matches!(actions[1], WorldAction::Despawn(b) if b == valid));
    assert!(matches!(&actions[2], WorldAction::Spawn { name, y: RubyValue::Float(y), .. } if name == "npc" && matches!(value_of(RubyValue::Float(*y)), Value::Float(f) if f == 1.5)));
}

#[test]
fn entity_bits_with_an_index_name_an_entity() {
    assert_eq!(entity_of(0), None);
    assert_eq!(entity_of(1u64 << 32), None, "a zero low half is no entity, whatever the generation");
    assert_eq!(entity_of(5), Some(5));
    assert_eq!(entity_of((2u64 << 32) | 5), Some((2u64 << 32) | 5));
    let e = bevy::ecs::world::World::new().spawn_empty().id();
    assert_eq!(entity_of(e.to_bits()), Some(e.to_bits()), "entity_of is the way back from to_bits");
}

#[test]
fn an_entity_object_inspects_as_bevys_name_or_as_its_bits() {
    let e = bevy::ecs::world::World::new().spawn_empty().id();
    assert_eq!(entity_inspect(e.to_bits()), format!("#<Rubevy::Entity {e}>"));
    assert_eq!(entity_inspect(0), "#<Rubevy::Entity bits=0>");
    assert_eq!(entity_inspect(1u64 << 32), "#<Rubevy::Entity bits=4294967296>");
}

#[test]
fn numbers_are_written_in_decimal() {
    assert_eq!(decimal_string(0), "0");
    assert_eq!(decimal_string(7), "7");
    assert_eq!(decimal_string(10), "10");
    assert_eq!(decimal_string(1234567890123), "1234567890123");
    assert_eq!(decimal_string(u64::MAX), u64::MAX.to_string());
}

#[test]
fn a_rite_binary_loads_and_anything_else_is_refused() {
    let opts = sabiruby_compiler::Options { filename: "t.rb".into(), ..Default::default() };
    let bytes = sabiruby_compiler::compile(b"1 + 1", &opts).expect("compiles");
    match MrbLoader.load(bytes.clone()) {
        Ok(asset) => assert_eq!(asset.bytes, bytes),
        Err(_) => panic!("a compiled program loads"),
    }
    match MrbLoader.load(b"XXXX0400 and then some more bytes".to_vec()) {
        Err(MrbLoadError::Rite(why)) => assert_eq!(why, "invalid RITE binary: bad identifier (expected RITE)"),
        _ => panic!("refused"),
    }
    let mut wrong_version = bytes.clone();
    wrong_version[4..8].copy_from_slice(b"0300");
    match MrbLoader.load(wrong_version) {
        Err(MrbLoadError::Rite(why)) => assert!(why.contains("unsupported binary version 0300"), "{why}"),
        _ => panic!("refused"),
    }
    assert!(matches!(MrbLoader.load(b"RIT".to_vec()), Err(MrbLoadError::Rite(_))));
    assert_eq!(MrbLoader.extensions(), vec!["mrb"]);
}

#[test]
fn a_script_starts_at_priority_128_without_a_name() {
    let s = Script::new(3u32);
    assert_eq!((s.source, s.priority, s.name.clone()), (3, 128, None));
    let s = s.with_priority(0).with_name("npc".to_string());
    assert_eq!((s.source, s.priority, s.name.as_deref()), (3, 0, Some("npc")));
    let s = s.with_priority(200);
    assert_eq!(s.name.as_deref(), Some("npc"), "a priority leaves the name alone");
}

#[test]
fn require_reads_from_scripts_then_the_asset_root() {
    assert_eq!(RubevyPlugin::default().asset_root, "assets");
    assert_eq!(RubevyPlugin::default().load_path(), vec!["assets/scripts", "assets"]);
    assert_eq!(RubevyPlugin::with_asset_root("game".to_string()).load_path(), vec!["game/scripts", "game"]);
}

#[test]
fn an_ended_script_failed_only_where_it_raised() {
    let ok = script_ended::<()>(9, false, Ok(":done".to_string()));
    assert_eq!((ok.entity, ok.status, ok.value.as_str()), (9, ScriptStatus::Finished, ":done"));
    let failed = script_ended::<()>(9, true, Ok("#<RuntimeError: no>".to_string()));
    assert_eq!(failed.status, ScriptStatus::Failed);
    let unreadable = script_ended(9, false, Err(()));
    assert_eq!(unreadable.value, "?");
    let stats = ScriptStats::default();
    assert_eq!((stats.instructions, stats.location, stats.frames.len(), stats.finished), (0, None, 0, false));
}

#[test]
fn an_ask_argument_is_an_entity_only_where_it_names_one() {
    assert_eq!(entity_handle(Some((ENTITY_TAG, 12))), Some(12));
    assert_eq!(entity_handle(Some((ENTITY_TAG + 1, 12))), None, "a Data object of another kind");
    assert_eq!(entity_handle(None), None);
    assert!(matches!(arg_source(Some((ENTITY_TAG, 12)), RubyValue::Obj(ObjId(3))), ArgSource::Entity(12)));
    assert!(matches!(arg_source(Some((ENTITY_TAG, 1u64 << 32)), RubyValue::Obj(ObjId(3))), ArgSource::Text));
    assert!(matches!(arg_source(None, RubyValue::Int(4)), ArgSource::Number));
    assert!(matches!(arg_source(None, ruby_value(Value::Float(0.5))), ArgSource::Number));
    assert!(matches!(arg_source(None, RubyValue::Nil), ArgSource::Text));
}

fn batch() -> Vec<HostCommand> {
    vec![
        HostCommand::Ask { entity: 5, kind: "a".to_string(), args: vec![], queue: ObjId(1) },
        HostCommand::Log("l".to_string()),
        HostCommand::Despawn(5),
        HostCommand::Ask { entity: 0, kind: "b".to_string(), args: vec![], queue: ObjId(2) },
        HostCommand::Despawn(1u64 << 32),
        HostCommand::Ask { entity: 6, kind: "c".to_string(), args: vec![], queue: ObjId(3) },
    ]
}

fn summary(requests: &[Request<RubyValue>], actions: &[WorldAction]) -> (Vec<(String, Option<u64>, ObjId)>, Vec<String>) {
    let r = requests.iter().map(|r| (r.kind.clone(), r.entity, r.queue)).collect();
    let a = actions
        .iter()
        .map(|a| match a {
            WorldAction::Log(t) => format!("log {t}"),
            WorldAction::Despawn(b) => format!("despawn {b}"),
            WorldAction::Spawn { name, .. } => format!("spawn {name}"),
            WorldAction::SetPosition { entity, .. } => format!("move {entity}"),
        })
        .collect();
    (r, a)
}

#[test]
fn routing_in_two_batches_is_routing_at_once() {
    let mut all = Vec::new();
    let at_once = route_commands(batch(), &mut all);
    let mut split = Vec::new();
    let mut commands = batch();
    let rest = commands.split_off(2);
    let mut in_batches = route_commands(commands, &mut split);
    in_batches.extend(route_commands(rest, &mut split));
    assert_eq!(summary(&all, &at_once), summary(&split, &in_batches));
    let (requests, actions) = summary(&all, &at_once);
    assert_eq!(
        requests,
        vec![("a".to_string(), Some(5), ObjId(1)), ("b".to_string(), None, ObjId(2)), ("c".to_string(), Some(6), ObjId(3))],
        "one request per question, in order, each with its queue"
    );
    assert_eq!(actions, vec!["log l".to_string(), "despawn 5".to_string()]);
}

#[test]
fn a_coordinate_is_a_number_or_zero() {
    assert!(matches!(number_arg(Some(RubyValue::Int(3))), RubyValue::Int(3)));
    assert!(matches!(value_of(number_arg(Some(ruby_value(Value::Float(1.5))))), Value::Float(f) if f == 1.5));
    assert!(matches!(number_arg(Some(RubyValue::Nil)), RubyValue::Int(0)));
    assert!(matches!(number_arg(Some(RubyValue::True)), RubyValue::Int(0)));
    assert!(matches!(number_arg(Some(RubyValue::Obj(ObjId(4)))), RubyValue::Int(0)));
    assert!(matches!(number_arg(None), RubyValue::Int(0)));
}

#[test]
fn output_is_split_into_lines() {
    assert!(output_lines(Vec::new()).is_empty());
    assert_eq!(output_lines(b"one\ntwo\n".to_vec()), vec!["one".to_string(), "two".to_string()]);
    assert_eq!(output_lines(b"a\r\nb".to_vec()), vec!["a".to_string(), "b".to_string()]);
    assert_eq!(output_lines(vec![b'x', 0xff]), vec!["x\u{fffd}".to_string()]);
}

#[test]
fn a_values_round_trip_through_the_vm_form() {
    assert!(matches!(ruby_value(value_of(RubyValue::Int(-7))), RubyValue::Int(-7)));
    assert!(matches!(ruby_value(value_of(RubyValue::Nil)), RubyValue::Nil));
    assert!(matches!(ruby_value(value_of(RubyValue::Obj(ObjId(9)))), RubyValue::Obj(ObjId(9))));
    assert!(matches!(value_of(ruby_value(Value::Float(2.5))), Value::Float(f) if f == 2.5) && matches!(ruby_value(Value::Float(2.5)), RubyValue::Float(_)));
}

#[test]
fn an_entity_is_shown_by_index_and_generation() {
    assert_eq!(entity_inspect(1), "#<Rubevy::Entity PLACEHOLDER>");
    let bits: u64 = (2u64 << 32) | u64::from(u32::MAX - 5);
    assert_eq!(entity_inspect(bits), "#<Rubevy::Entity 5v2>");
    assert_eq!(entity_inspect(1u64 << 32 | 1), "#<Rubevy::Entity 4294967294v1>");
}
