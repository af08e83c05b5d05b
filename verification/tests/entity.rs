//! Entities cross the boundary as objects, not as numbers: `Rubevy.entity` and
//! `Answer::Entity` hand out a `Rubevy::Entity`, a Data object carrying `Entity::to_bits` as
//! its handle, and `Rubevy.ask` reads one back as `Arg::Entity`. The Integer form still works
//! where a script has one, and the free hook runs when the collector takes an object.
//!
//! The game's systems are played by hand here: a frame starts the scripts, runs the
//! scheduler, routes what the scripts asked for, and answers the requests.

use bevy::ecs::entity::Entity;
use rubevy::{Answer, Request, ScriptWorld, WorldAction};
use rubevy::vm::{ruby_value, value_of, RubyValue};
use sabiruby::Value;

fn compile(src: &str) -> Vec<u8> {
    let opts = sabiruby_compiler::Options { filename: "t.rb".into(), ..Default::default() };
    sabiruby_compiler::compile(src.as_bytes(), &opts).expect("compiles")
}

fn number(v: &RubyValue) -> f64 {
    match v {
        RubyValue::Int(i) => *i as f64,
        RubyValue::Float(x) => match value_of(RubyValue::Float(*x)) {
            Value::Float(f) => f,
            _ => panic!("not a Float"),
        },
        _ => panic!("not a number: {v:?}"),
    }
}

fn entities(n: usize) -> Vec<Entity> {
    let mut world = bevy::ecs::world::World::new();
    (0..n).map(|_| world.spawn_empty().id()).collect()
}

/// One frame: the clock moves on, the scripts run, and what they asked for is routed;
/// every request is answered by `answer` and kept in `seen`.
fn frame(
    world: &mut ScriptWorld,
    seen: &mut Vec<Request<RubyValue>>,
    actions: &mut Vec<WorldAction>,
    answer: &dyn Fn(&Request<RubyValue>) -> Answer<RubyValue>,
) {
    world.vm.task_advance_ticks(1);
    world.run_frame().expect("the scheduler runs");
    actions.extend(world.drain_commands());
    for r in world.take_requests() {
        world.answer(&r, answer(&r)).expect("answered");
        seen.push(r);
    }
}

fn nil(_: &Request<RubyValue>) -> Answer<RubyValue> {
    Answer::Nil
}

#[test]
fn a_script_holds_its_entity_as_an_object() {
    let mut world = ScriptWorld::new().expect("the VM starts");
    let entity = entities(1)[0];
    let src = r#"
          e = Rubevy.entity
          Rubevy.ask("who", e, e.to_i, e.class.to_s, (e == Rubevy.entity).to_s, e.inspect).pop
        "#;
    world.start_script(&compile(src), 128, None, entity.to_bits()).expect("starts");
    let (mut seen, mut actions) = (Vec::new(), Vec::new());
    for _ in 0..10 {
        frame(&mut world, &mut seen, &mut actions, &nil);
    }

    let r = seen.first().expect("the script asked");
    assert_eq!(r.kind, "who");
    assert_eq!(r.entity, Some(entity.to_bits()), "the request knows whose script it is");
    // the object itself: the entity comes back as an entity, not as a number or a string
    assert_eq!(r.entity_arg(0), Some(entity.to_bits()));
    assert!(r.num(0).is_none());
    assert_eq!(r.text(0), None);
    // and what Ruby can see of it
    assert_eq!(r.num(1).map(|v| number(&v)), Some(entity.to_bits() as f64), "to_i is Entity::to_bits");
    assert_eq!(r.text(2), Some("Rubevy::Entity"));
    assert_eq!(r.text(3), Some("true"), "two objects for one entity are ==");
    assert_eq!(r.text(4), Some(format!("#<Rubevy::Entity {entity}>").as_str()));
}

#[test]
fn an_entity_the_game_answered_with_comes_back_the_same() {
    let mut world = ScriptWorld::new().expect("the VM starts");
    let ids = entities(3);
    let (script, as_object, as_bits) = (ids[0], ids[1], ids[2]);
    let src = r#"
          a = Rubevy.ask("target").pop
          b = Rubevy.ask("bits").pop
          Rubevy.ask("check", a, a.class.to_s, a.to_i).pop
          Rubevy.despawn a         # the object
          Rubevy.despawn b.to_i    # the number a game may still send
          Rubevy.ask("done").pop
        "#;
    world.start_script(&compile(src), 128, None, script.to_bits()).expect("starts");
    let answer = move |r: &Request<RubyValue>| match r.kind.as_str() {
        "target" => Answer::Entity(as_object.to_bits()),
        "bits" => Answer::Num(ruby_value(Value::Float(as_bits.to_bits() as f64))),
        _ => Answer::Nil,
    };
    let (mut seen, mut actions) = (Vec::new(), Vec::new());
    for _ in 0..20 {
        frame(&mut world, &mut seen, &mut actions, &answer);
    }

    let kinds: Vec<&str> = seen.iter().map(|r| r.kind.as_str()).collect();
    assert_eq!(kinds, vec!["target", "bits", "check", "done"]);
    let check = &seen[2];
    assert_eq!(check.entity_arg(0), Some(as_object.to_bits()), "it is the entity the game answered with");
    assert_eq!(check.text(1), Some("Rubevy::Entity"));
    assert_eq!(check.num(2).map(|v| number(&v)), Some(as_object.to_bits() as f64));
    let despawned: Vec<u64> = actions
        .iter()
        .filter_map(|a| match a {
            WorldAction::Despawn(bits) => Some(*bits),
            _ => None,
        })
        .collect();
    assert_eq!(despawned, vec![as_object.to_bits(), as_bits.to_bits()], "despawned through the object, then through the number");
}

#[test]
fn the_host_is_told_when_an_entity_object_is_collected() {
    let mut world = ScriptWorld::new().expect("the VM starts");
    let entity = entities(1)[0];
    let src = r#"
          300.times { Rubevy.entity }
          GC.start
          Rubevy.ask("collected").pop
        "#;
    world.start_script(&compile(src), 128, None, entity.to_bits()).expect("starts");
    let (mut seen, mut actions) = (Vec::new(), Vec::new());
    for _ in 0..10 {
        frame(&mut world, &mut seen, &mut actions, &nil);
    }

    assert_eq!(seen.len(), 1, "the script got that far");
    let freed = world.freed_entities();
    assert!(freed > 250, "the collector took the dropped objects: {freed}");
}
