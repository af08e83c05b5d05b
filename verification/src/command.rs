//! What a script asks the host to do, and where each request goes.
//!
//! A native cannot touch the game's world: it gets the VM and nothing else. So it leaves a
//! [`HostCommand`] in the VM's host state ([`HostState`]), and after the frame's scripts have
//! run the commands are taken and routed: a question (`Rubevy.ask`) becomes a [`Request`] the
//! game answers, everything else a [`WorldAction`] the game carries out.
use vstd::prelude::*;
use crate::vm::RubyValue;
use sabiruby::value::ObjId;
use crate::entity::{entity_of, is_entity_bits};
use crate::request::{Arg, Request};

verus! {

/// What a script asked the host to do. Numbers are the script's own values (an Integer or
/// a Float); the game turns them into coordinates.
pub enum HostCommand {
    Log(String),
    Spawn { name: String, x: RubyValue, y: RubyValue, z: RubyValue },
    /// The entity's bits, as the script named it.
    Despawn(u64),
    SetPosition { entity: u64, x: RubyValue, y: RubyValue, z: RubyValue },
    /// `Rubevy.ask`: the script is parked on `queue` until the game answers it. `entity` is
    /// 0, bits that name no entity, where the asking task carries none.
    Ask { entity: u64, kind: String, args: Vec<Arg<RubyValue>>, queue: ObjId },
}

/// What the game carries out for a script, in the order the scripts asked.
pub enum WorldAction {
    /// A line for the game's log.
    Log(String),
    /// An entity marked `SpawnedByScript { name }`, at the coordinates.
    Spawn { name: String, x: RubyValue, y: RubyValue, z: RubyValue },
    /// That entity is despawned.
    Despawn(u64),
    /// That entity is moved, where it has a transform.
    SetPosition { entity: u64, x: RubyValue, y: RubyValue, z: RubyValue },
}

/// What this plugin keeps inside the VM (`Vm::set_host_state`), for the natives to reach
/// through the `&mut Vm` they are given: the queue a native writes and the host drains.
/// One per VM, so two apps in one process have a queue each.
pub struct HostState {
    commands: Vec<HostCommand>,
}

impl HostState {
    /// The commands waiting, oldest first.
    pub closed spec fn queued(self) -> Seq<HostCommand> {
        self.commands@
    }

    /// An empty queue.
    pub fn new() -> (s: HostState)
        ensures
            s.queued() == Seq::<HostCommand>::empty(),
    {
        HostState { commands: Vec::new() }
    }

    /// Puts a command at the end of the queue.
    pub fn push(&mut self, c: HostCommand)
        ensures
            final(self).queued() == old(self).queued().push(c),
    {
        self.commands.push(c);
    }

    /// Takes every command waiting, oldest first, and leaves the queue empty.
    pub fn take(&mut self) -> (r: Vec<HostCommand>)
        ensures
            r@ == old(self).queued(),
            final(self).queued() == Seq::<HostCommand>::empty(),
    {
        let mut taken = Vec::new();
        std::mem::swap(&mut taken, &mut self.commands);
        taken
    }

    /// How many commands are waiting.
    pub fn len(&self) -> (r: usize)
        ensures
            r == self.queued().len(),
    {
        self.commands.len()
    }
}

/// The queue after each of `cs` was pushed onto `q`, in turn.
pub open spec fn pushed_all(q: Seq<HostCommand>, cs: Seq<HostCommand>) -> Seq<HostCommand>
    decreases cs.len(),
{
    if cs.len() == 0 {
        q
    } else {
        pushed_all(q, cs.drop_last()).push(cs.last())
    }
}

/// Commands pushed one by one are taken in the order they were pushed, after those already
/// waiting, and each push makes one more command waiting: what a frame's natives leave is
/// what the host drains, and the count of what waits grows by one per command.
pub proof fn lemma_pushes_then_take(q: Seq<HostCommand>, cs: Seq<HostCommand>)
    ensures
        pushed_all(q, cs) == q + cs,
        pushed_all(q, cs).len() == q.len() + cs.len(),
    decreases cs.len(),
{
    if cs.len() == 0 {
        assert(q + cs =~= q);
    } else {
        lemma_pushes_then_take(q, cs.drop_last());
        assert((q + cs.drop_last()).push(cs.last()) =~= q + cs);
    }
}

/// The request a command is, where it is a question: the entity the task carries becomes
/// `None` where its bits name no entity.
pub open spec fn request_of(c: HostCommand) -> Seq<Request<RubyValue>> {
    match c {
        HostCommand::Ask { entity, kind, args, queue } => seq![Request {
            entity: if is_entity_bits(entity) { Some(entity) } else { None },
            kind,
            args,
            queue,
        }],
        _ => Seq::empty(),
    }
}

/// The action a command is, where it is one the world carries out: a despawn or a move of
/// bits that name no entity is dropped.
pub open spec fn action_of(c: HostCommand) -> Seq<WorldAction> {
    match c {
        HostCommand::Log(text) => seq![WorldAction::Log(text)],
        HostCommand::Spawn { name, x, y, z } => seq![WorldAction::Spawn { name, x, y, z }],
        HostCommand::Despawn(bits) => if is_entity_bits(bits) {
            seq![WorldAction::Despawn(bits)]
        } else {
            Seq::empty()
        },
        HostCommand::SetPosition { entity, x, y, z } => if is_entity_bits(entity) {
            seq![WorldAction::SetPosition { entity, x, y, z }]
        } else {
            Seq::empty()
        },
        HostCommand::Ask { .. } => Seq::empty(),
    }
}

/// The requests a run of commands makes, in order.
pub open spec fn routed_requests(cs: Seq<HostCommand>) -> Seq<Request<RubyValue>>
    decreases cs.len(),
{
    if cs.len() == 0 {
        Seq::empty()
    } else {
        routed_requests(cs.drop_last()) + request_of(cs.last())
    }
}

/// The actions a run of commands makes, in order.
pub open spec fn routed_actions(cs: Seq<HostCommand>) -> Seq<WorldAction>
    decreases cs.len(),
{
    if cs.len() == 0 {
        Seq::empty()
    } else {
        routed_actions(cs.drop_last()) + action_of(cs.last())
    }
}

/// Routes the commands, in order: each question is added to `requests` (they wait there for
/// the game, after those already waiting), and each other command becomes the action the
/// world carries out, except a despawn or a move whose bits name no entity.
pub fn route_commands(commands: Vec<HostCommand>, requests: &mut Vec<Request<RubyValue>>) -> (r: Vec<WorldAction>)
    ensures
        final(requests)@ == old(requests)@ + routed_requests(commands@),
        r@ == routed_actions(commands@),
{
    let ghost cs = commands@;
    let mut actions: Vec<WorldAction> = Vec::new();
    for c in it: commands
        invariant
            it.seq() == cs,
            requests@ == old(requests)@ + routed_requests(cs.take(it.index() as int)),
            actions@ == routed_actions(cs.take(it.index() as int)),
    {
        let ghost k = it.index() as int;
        proof {
            assert(cs.take(k + 1).drop_last() =~= cs.take(k));
            assert(cs.take(k + 1).last() == c);
        }
        match c {
            HostCommand::Ask { entity, kind, args, queue } => {
                requests.push(Request { entity: entity_of(entity), kind, args, queue });
            }
            HostCommand::Log(text) => {
                actions.push(WorldAction::Log(text));
            }
            HostCommand::Spawn { name, x, y, z } => {
                actions.push(WorldAction::Spawn { name, x, y, z });
            }
            HostCommand::Despawn(bits) => {
                if let Some(e) = entity_of(bits) {
                    actions.push(WorldAction::Despawn(e));
                }
            }
            HostCommand::SetPosition { entity, x, y, z } => {
                if let Some(e) = entity_of(entity) {
                    actions.push(WorldAction::SetPosition { entity: e, x, y, z });
                }
            }
        }
        proof {
            assert(requests@ =~= old(requests)@ + routed_requests(cs.take(k + 1)));
            assert(actions@ =~= routed_actions(cs.take(k + 1)));
        }
    }
    proof {
        assert(cs.take(cs.len() as int) =~= cs);
    }
    actions
}

/// The queues the questions among the commands wait on, in order.
pub open spec fn asked_queues(cs: Seq<HostCommand>) -> Seq<ObjId>
    decreases cs.len(),
{
    if cs.len() == 0 {
        Seq::empty()
    } else {
        asked_queues(cs.drop_last()) + match cs.last() {
            HostCommand::Ask { queue, .. } => seq![queue],
            _ => Seq::<ObjId>::empty(),
        }
    }
}

/// Routing in two batches gives what routing at once gives: draining the queue after one
/// part of a frame's commands and again after the rest hands the game the same requests and
/// the same actions, in the same order, as draining once.
pub proof fn lemma_route_in_batches(a: Seq<HostCommand>, b: Seq<HostCommand>)
    ensures
        routed_requests(a + b) == routed_requests(a) + routed_requests(b),
        routed_actions(a + b) == routed_actions(a) + routed_actions(b),
    decreases b.len(),
{
    if b.len() == 0 {
        assert(a + b =~= a);
        assert(routed_requests(a) + routed_requests(b) =~= routed_requests(a));
        assert(routed_actions(a) + routed_actions(b) =~= routed_actions(a));
    } else {
        lemma_route_in_batches(a, b.drop_last());
        assert((a + b).drop_last() =~= a + b.drop_last());
        assert((a + b).last() == b.last());
        assert(routed_requests(a + b) =~= routed_requests(a) + routed_requests(b));
        assert(routed_actions(a + b) =~= routed_actions(a) + routed_actions(b));
    }
}

/// Routing carries out what each script asked, as it asked it: where the `i`th command is a
/// log line, a spawn, or a despawn or a move of an entity, the action it becomes stands right
/// after the actions of the commands before it, with the same text, name, entity and
/// coordinates; a question becomes the request right after those of the commands before it,
/// for the same queue, kind and arguments.
pub proof fn lemma_routing_keeps_each_command(cs: Seq<HostCommand>, i: int)
    requires
        0 <= i < cs.len(),
    ensures
        cs[i] matches HostCommand::Spawn { name, x, y, z } ==> routed_actions(cs)[routed_actions(cs.take(i)).len() as int]
            == (WorldAction::Spawn { name, x, y, z }),
        cs[i] matches HostCommand::Log(t) ==> routed_actions(cs)[routed_actions(cs.take(i)).len() as int]
            == WorldAction::Log(t),
        cs[i] matches HostCommand::Despawn(b) ==> (is_entity_bits(b) ==> routed_actions(cs)[routed_actions(cs.take(i)).len() as int]
            == WorldAction::Despawn(b)),
        cs[i] matches HostCommand::SetPosition { entity, x, y, z } ==> (is_entity_bits(entity)
            ==> routed_actions(cs)[routed_actions(cs.take(i)).len() as int] == (WorldAction::SetPosition { entity, x, y, z })),
        cs[i] matches HostCommand::Ask { entity, kind, args, queue } ==> routed_requests(cs)[routed_requests(cs.take(i)).len() as int]
            == (Request { entity: if is_entity_bits(entity) { Some(entity) } else { None }, kind, args, queue }),
{
    let front = cs.take(i);
    let one = seq![cs[i]];
    let back = cs.skip(i + 1);
    assert(cs =~= front + one + back);
    lemma_route_in_batches(front + one, back);
    lemma_route_in_batches(front, one);
    assert(one.drop_last() =~= Seq::<HostCommand>::empty());
    assert(one.last() == cs[i]);
    assert(routed_actions(one.drop_last()) =~= Seq::<WorldAction>::empty());
    assert(routed_requests(one.drop_last()) =~= Seq::<Request<RubyValue>>::empty());
    assert(routed_actions(one) =~= action_of(cs[i]));
    assert(routed_requests(one) =~= request_of(cs[i]));
}

/// No question is lost and none is made up: routing makes exactly one request per
/// `Rubevy.ask`, in the order they were asked, and each carries the queue its script waits on.
pub proof fn lemma_one_request_per_question(cs: Seq<HostCommand>)
    ensures
        routed_requests(cs).map_values(|r: Request<RubyValue>| r.queue) == asked_queues(cs),
    decreases cs.len(),
{
    if cs.len() > 0 {
        lemma_one_request_per_question(cs.drop_last());
        let front = routed_requests(cs.drop_last());
        let back = request_of(cs.last());
        assert((front + back).map_values(|r: Request<RubyValue>| r.queue)
            =~= front.map_values(|r: Request<RubyValue>| r.queue) + back.map_values(|r: Request<RubyValue>| r.queue));
        assert(back.map_values(|r: Request<RubyValue>| r.queue) =~= match cs.last() {
            HostCommand::Ask { queue, .. } => seq![queue],
            _ => Seq::<ObjId>::empty(),
        });
    } else {
        assert(routed_requests(cs).map_values(|r: Request<RubyValue>| r.queue) =~= Seq::<ObjId>::empty());
    }
}

} // verus!
