//! A task a script makes with `Task.new` speaks for the entity it carries: the natives read
//! the entity off the task the scheduler is running (`@rubevy_entity`), so a script that
//! writes it on a task of its own makes that task speak for another entity.

use bevy::ecs::entity::Entity;
use rubevy::{Answer, Request, ScriptWorld};
use rubevy::vm::{ruby_value, value_of, RubyValue};
use sabiruby::Value;

fn compile(src: &str) -> Vec<u8> {
    let opts = sabiruby_compiler::Options { filename: "t.rb".into(), ..Default::default() };
    sabiruby_compiler::compile(src.as_bytes(), &opts).expect("compiles")
}

fn number(v: &RubyValue) -> f64 {
    match v {
        RubyValue::Int(i) => *i as f64,
        RubyValue::Float(x) => match value_of(RubyValue::Float(*x)) {
            Value::Float(f) => f,
            _ => panic!("not a Float"),
        },
        _ => panic!("not a number: {v:?}"),
    }
}

fn frames(world: &mut ScriptWorld, seen: &mut Vec<Request<RubyValue>>, n: usize) {
    for _ in 0..n {
        world.vm.task_advance_ticks(1);
        world.run_frame().expect("the scheduler runs");
        world.drain_commands();
        for r in world.take_requests() {
            world.answer(&r, Answer::Nil).expect("answered");
            seen.push(r);
        }
    }
}

#[test]
fn a_task_may_speak_for_another_entity_if_it_says_so() {
    let mut world = ScriptWorld::new().expect("the VM starts");
    let mut ecs = bevy::ecs::world::World::new();
    let (script, other): (Entity, Entity) = (ecs.spawn_empty().id(), ecs.spawn_empty().id());
    let src = format!(
        r#"
          t = Task.new(name: "stand-in") {{ Rubevy.ask("stand_in", Rubevy.entity.to_i).pop }}
          t.instance_variable_set(:@rubevy_entity, {bits})
          sleep 0.05
        "#,
        bits = other.to_bits()
    );
    world.start_script(&compile(&src), 128, None, script.to_bits()).expect("starts");
    let mut seen = Vec::new();
    frames(&mut world, &mut seen, 25);

    let r = seen.iter().find(|r| r.kind == "stand_in").expect("the child task asked");
    assert_eq!(r.entity, Some(other.to_bits()), "what a script writes itself wins over what it inherited");
    assert_eq!(r.num(0).map(|v| number(&v)), Some(other.to_bits() as f64));
}
