//! The one VM the scripts share, and the queue between them and the world.
use vstd::prelude::*;
use vstd::string::StringExecFns;
use std::sync::Arc;
use std::sync::atomic::{AtomicU64, Ordering};
use std::time::Duration;
use sabiruby::{RunLimits, Vm};
use sabiruby::value::ObjId;
use sabiruby::symbol::Sym;
use crate::command::{route_commands, routed_actions, routed_requests, HostState, WorldAction};
use crate::asset::rite_refusal;
use crate::entity::{entity_label, entity_label_string, is_entity_bits, ENTITY_TAG};
use crate::host_api::{commands_left, install_host_api, queued_commands, queued_in, take_commands, ENTITY_IVAR};
use crate::request::{Answer, Request};
use crate::script::{script_ended, RubevyPlugin, ScriptEnded, ScriptStats, ScriptStatus, ScriptTask};
use crate::text::{lines_of, lossy_text, text_lines, utf8_lossy};
use crate::vm::{
    array_items, class_of, const_of, core_object, data_of_value, duration_from_millis, duration_nanos,
    error_debug, exception_value, gc_count, global_of, hash_entry, heap_same, holds_host_state,
    host_commands, interned, ivar_of, keeps_host, lemma_heap_same_trans, lemma_live_kept,
    limits_of, millis, nanos_of, on_heap, output_of, run_limits, string_bytes, sym_hash,
    sym_count, symbol_of, task_done, task_priority, task_result, task_spent, task_title, value_live,
    values_live, vm_ary_new, vm_const_get, vm_data_new, vm_describe_error, vm_funcall,
    vm_gc_register, vm_gc_unregister, vm_global_set, vm_hash_new, vm_hash_set, vm_inspect_str,
    vm_intern, vm_is_exception, vm_ivar_set, vm_load, vm_object_class, vm_set_host_state,
    vm_set_load_path, vm_set_on_free, vm_str_new, vm_take_output, vm_task_external_clock,
    vm_task_finished, vm_task_frames, vm_task_instructions, vm_task_location,
    vm_task_queue_push, vm_task_run_limits, vm_task_spawn, vm_task_value, vm_with_mrblib,
    RubyValue,
};

verus! {

/// Instructions the scheduler may spend per frame, over all tasks, unless the game says
/// otherwise.
pub const DEFAULT_BUDGET: u64 = 200_000;

/// Counts a Data object the collector took, where it was a `Rubevy::Entity`.
pub fn note_freed(counter: &AtomicU64, tag: u32) {
    if tag == ENTITY_TAG {
        counter.fetch_add(1, Ordering::Relaxed);
    }
}

/// Makes the collector run at the scheduler's idle points (`GC.scheduler_driven = true`),
/// so that a script that allocates never pauses a frame for it. A VM whose `Object` has no
/// constant `GC` has nothing to set; otherwise the setter's exception, where it raises one, is
/// the error.
pub fn enable_scheduler_gc(vm: &mut Vm) -> (r: Result<(), String>)
    ensures
        interned(*old(vm), "GC"@)
            && const_of(*old(vm), core_object(*old(vm)), symbol_of(*old(vm), "GC"@)) is None ==> r is Ok,
{
    let gc = vm_intern(vm, "GC");
    let object = vm_object_class(vm);
    match vm_const_get(vm, object, gc) {
        None => Ok(()),
        Some(gc) => {
            let ghost before = *vm;
            let m = vm_intern(vm, "scheduler_driven=");
            proof { lemma_live_kept(before, *vm, gc); }
            match vm_funcall(vm, gc, m, vec![RubyValue::True], RubyValue::Nil) {
                Ok(_) => Ok(()),
                Err(e) => Err(vm_describe_error(vm, &e)),
            }
        }
    }
}

/// The name a script is shown under: its own, or Bevy's name for its entity.
pub open spec fn script_label(name: Option<String>, entity: u64) -> Seq<char> {
    match name {
        Some(n) => n@,
        None => entity_label(entity),
    }
}

/// `message` is `prefix` followed by something.
pub open spec fn starts_with(message: Seq<char>, prefix: Seq<char>) -> bool {
    prefix.len() <= message.len() && message.subrange(0, prefix.len() as int) == prefix
}

/// `v` is what a script's `Rubevy.ask` gets for this answer: nil for nil; true exactly for
/// true and false exactly for false; the number itself; and a new object for a text, a list,
/// rows or an entity.
pub open spec fn answered_as(answer: Answer<RubyValue>, v: RubyValue) -> bool {
    match answer {
        Answer::Nil => v == RubyValue::Nil,
        Answer::Bool(b) => (v == RubyValue::True) == b && (v == RubyValue::False) == !b,
        Answer::Num(n) => v == n,
        _ => v is Obj,
    }
}

/// What `answer` hands a script follows the answer: a yes is `true`, a no `false`, never
/// the other, and a number is handed as it is, so two different answers of these kinds
/// never reach the script as the same value.
pub proof fn lemma_answers_are_told_apart(a: Answer<RubyValue>, b: Answer<RubyValue>, va: RubyValue, vb: RubyValue)
    requires
        answered_as(a, va),
        answered_as(b, vb),
        a is Bool || a is Num || a is Nil,
        b is Bool || b is Num || b is Nil,
        !(a is Num) && !(b is Num),
        a != b,
    ensures
        va != vb,
{
}

/// `r` is a new Array of Arrays, one for each row, with the row's numbers.
pub open spec fn rows_made(vm: Vm, r: RubyValue, rows: Seq<Vec<RubyValue>>) -> bool {
    match array_items(vm, r) {
        Some(items) => items.len() == rows.len()
            && forall|j: int| 0 <= j < rows.len() ==> #[trigger] array_items(vm, items[j]) == Some(rows[j]@),
        None => false,
    }
}

/// `$rubevy` holds a Hash with `:frame`, `:delta` and `:time`.
pub open spec fn frame_state_is(vm: Vm, frame: u32, delta: RubyValue, time: RubyValue) -> bool {
    let h = global_of(vm, "$rubevy"@);
    &&& hash_entry(vm, h, RubyValue::Sym(symbol_of(vm, "frame"@))) == Some(RubyValue::Int(frame as i64))
    &&& hash_entry(vm, h, RubyValue::Sym(symbol_of(vm, "delta"@))) == Some(delta)
    &&& hash_entry(vm, h, RubyValue::Sym(symbol_of(vm, "time"@))) == Some(time)
}

/// Setting a Symbol key of a Hash of Symbol keys leaves what could be read readable, the
/// Hash one of Symbol keys, and what it held under other keys.
proof fn lemma_kept_by_set(before: Vm, after: Vm, h: RubyValue, k: Sym, x: RubyValue)
    requires
        sym_hash(before, h),
        value_live(before, h),
        value_live(before, x),
        sym_hash(after, h),
        forall|o: ObjId| #[trigger] on_heap(before, o) && sym_hash(before, h) && RubyValue::Sym(k) is Sym ==> on_heap(after, o),
        sym_count(before) <= sym_count(after),
    ensures
        value_live(after, x),
{
    match x {
        RubyValue::Obj(o) => { assert(on_heap(before, o)); }
        _ => {}
    }
}

/// `a` then `b`.
fn joined(a: String, b: &str) -> (r: String)
    ensures
        r@ == a@ + b@,
{
    a.concat(b)
}

/// The one VM the scripts share, and the queue between them and the world.
pub struct ScriptWorld {
    pub vm: Vm,
    /// Instructions the scheduler may spend per frame, over all tasks.
    pub budget: u64,
    /// Time the scripts may take per frame, on the VM's clock. `None`: instructions only.
    pub frame_time: Option<Duration>,
    /// Past this, a script that cannot be switched out gets `Task::Overrun` rather than
    /// holding the frame. `None`: no such limit.
    pub overrun: Option<Duration>,
    /// What scripts asked the game for and are waiting on (`Rubevy.ask`).
    requests: Vec<Request<RubyValue>>,
    /// The `Rubevy::Entity` class, for `answer` to build an entity object with.
    entity_class: ObjId,
    /// How many entity objects the collector has taken, counted by the free hook.
    freed_entities: Arc<AtomicU64>,
    /// Every value `answer` handed to a queue, with the queue, in the order handed.
    handed: Ghost<Seq<(ObjId, RubyValue)>>,
}

impl ScriptWorld {
    /// The requests waiting for the game, oldest first.
    pub closed spec fn pending(self) -> Seq<Request<RubyValue>> {
        self.requests@
    }

    /// The VM, as it stands.
    pub closed spec fn vm_state(self) -> Vm {
        self.vm
    }

    /// The instructions a frame may spend.
    pub closed spec fn budget_spec(self) -> u64 {
        self.budget
    }

    /// The time a frame's scripts may take.
    pub closed spec fn frame_time_spec(self) -> Option<Duration> {
        self.frame_time
    }

    /// The time past which a script that cannot be switched out is stopped.
    pub closed spec fn overrun_spec(self) -> Option<Duration> {
        self.overrun
    }

    /// The values handed to the scripts' queues by [`ScriptWorld::answer`], each with its
    /// queue, oldest first.
    pub closed spec fn answers_handed(self) -> Seq<(ObjId, RubyValue)> {
        self.handed@
    }

    /// The `Rubevy::Entity` class, which entity answers are made of.
    pub closed spec fn entity_class_spec(self) -> ObjId {
        self.entity_class
    }

    /// The limits of one frame: the budget in instructions, and the frame's time and the
    /// overrun in nanoseconds, where they are set.
    pub open spec fn frame_limits_spec(self) -> (Option<u64>, Option<u64>, Option<u64>) {
        (
            Some(self.budget_spec()),
            match self.frame_time_spec() { Some(d) => Some(nanos_of(d)), None => None::<u64> },
            match self.overrun_spec() { Some(d) => Some(nanos_of(d)), None => None::<u64> },
        )
    }

    /// A VM with mrblib, whose clock the host moves, whose collector runs at the
    /// scheduler's idle points, with the `Rubevy` module in it, the free hook counting entity
    /// objects, and the plugin's state with an empty queue. 200,000 instructions, 8 ms and an
    /// overrun of 50 ms a frame; nothing asked yet. `Err` says what could not be set up.
    pub fn new() -> (r: Result<ScriptWorld, String>)
        ensures
            r matches Ok(w) ==> w.budget_spec() == DEFAULT_BUDGET
                && w.frame_time_spec() == Some(millis(8)) && w.overrun_spec() == Some(millis(50))
                && w.frame_limits_spec() == (Some(200_000u64), Some(8_000_000u64), Some(50_000_000u64))
                && w.pending().len() == 0 && holds_host_state(w.vm_state())
                && host_commands(w.vm_state()).len() == 0,
    {
        let mut vm = match vm_with_mrblib() {
            Ok(vm) => vm,
            Err(e) => return Err(joined(String::from_str("mrblib: "), error_debug(&e).as_str())),
        };
        vm_task_external_clock(&mut vm, true);
        match enable_scheduler_gc(&mut vm) {
            Ok(()) => {}
            Err(e) => return Err(joined(String::from_str("GC.scheduler_driven: "), e.as_str())),
        }
        let entity_class = install_host_api(&mut vm)?;
        let freed_entities = Arc::new(AtomicU64::new(0));
        let counter = freed_entities.clone();
        vm_set_on_free(&mut vm, move |tag: u32, handle: u64| note_freed(&counter, tag));
        vm_set_host_state(&mut vm, HostState::new());
        Ok(ScriptWorld {
            vm,
            budget: DEFAULT_BUDGET,
            frame_time: Some(duration_from_millis(8)),
            overrun: Some(duration_from_millis(50)),
            requests: Vec::new(),
            entity_class,
            freed_entities,
            handed: Ghost(Seq::empty()),
        })
    }

    /// What a script has spent and where it is, for a HUD or a debugger panel. Its task must
    /// still be on the heap: the entity's `ScriptTask` keeps it there until it has finished.
    pub fn stats(&self, script: &ScriptTask) -> (r: ScriptStats)
        requires
            on_heap(self.vm_state(), script.task_spec()),
        ensures
            r.instructions == task_spent(self.vm_state(), script.task_spec()),
            r.finished == task_done(self.vm_state(), script.task_spec()),
    {
        let task = script.task();
        ScriptStats {
            instructions: vm_task_instructions(&self.vm, task),
            location: vm_task_location(&self.vm, task),
            frames: vm_task_frames(&self.vm, task),
            finished: vm_task_finished(&self.vm, task),
        }
    }

    /// Terminates a task that is still running (`Task#terminate`) and, where `release`, drops
    /// the registration that kept it from the collector. Answers why it could not be
    /// terminated, where it could not; a task that had already finished is left as it is.
    pub fn stop_task(&mut self, task: ObjId, release: bool) -> (r: Option<String>)
        requires
            on_heap(old(self).vm_state(), task),
        ensures
            task_done(old(self).vm_state(), task) ==> r is None,
            task_done(old(self).vm_state(), task) && !release ==> final(self).vm_state() == old(self).vm_state(),
            !release ==> gc_count(final(self).vm_state(), task) >= gc_count(old(self).vm_state(), task),
            release && task_done(old(self).vm_state(), task) ==> gc_count(final(self).vm_state(), task)
                == (if gc_count(old(self).vm_state(), task) > 0 { (gc_count(old(self).vm_state(), task) - 1) as nat } else { 0 }),
            final(self).pending() == old(self).pending(),
            final(self).budget_spec() == old(self).budget_spec(),
    {
        let mut failed = None;
        if !vm_task_finished(&self.vm, task) {
            let terminate = vm_intern(&mut self.vm, "terminate");
            match vm_funcall(&mut self.vm, RubyValue::Obj(task), terminate, Vec::new(), RubyValue::Nil) {
                Ok(_) => {}
                Err(e) => failed = Some(vm_describe_error(&mut self.vm, &e)),
            }
        }
        if release {
            vm_gc_unregister(&mut self.vm, task);
        }
        failed
    }

    /// The requests scripts made since the last call, oldest first, for a system of the game
    /// to answer. A request stays valid until it is answered: keep the ones you cannot
    /// answer yet and hand them back to `answer` on a later frame.
    pub fn take_requests(&mut self) -> (r: Vec<Request<RubyValue>>)
        ensures
            r@ == old(self).pending(),
            final(self).pending().len() == 0,
            final(self).budget_spec() == old(self).budget_spec(),
    {
        let mut taken = Vec::new();
        std::mem::swap(&mut taken, &mut self.requests);
        taken
    }

    /// How many `Rubevy::Entity` objects the collector has taken since the VM started, as the
    /// free hook counted them.
    pub fn freed_entities(&self) -> u64 {
        self.freed_entities.load(Ordering::Relaxed)
    }

    /// The values of an answer, numbers or rows of numbers, are ones this VM can read.
    pub open spec fn answer_live(self, answer: Answer<RubyValue>) -> bool {
        match answer {
            Answer::Num(n) => value_live(self.vm_state(), n),
            Answer::List(ns) => values_live(self.vm_state(), ns@),
            Answer::Rows(rows) => forall|i: int| 0 <= i < rows@.len() ==> #[trigger] values_live(self.vm_state(), rows@[i]@),
            _ => true,
        }
    }

    /// The value a script's `Rubevy.ask` returns for an answer: nil, true or false, a number
    /// as it is, a new String of the text's bytes, a new Array of the numbers, a new Array of
    /// Arrays for rows, or a new `Rubevy::Entity` carrying the entity's bits.
    pub fn answer_value(&mut self, answer: Answer<RubyValue>) -> (r: RubyValue)
        requires
            old(self).answer_live(answer),
        ensures
            answer is Nil ==> r == RubyValue::Nil,
            answer matches Answer::Bool(b) ==> r == (if b { RubyValue::True } else { RubyValue::False }),
            answer matches Answer::Num(n) ==> r == n,
            answer is Text || answer is List || answer is Rows || answer is Entity ==> r is Obj,
            answer matches Answer::Text(t) ==> string_bytes(final(self).vm_state(), r) == Some(vstd::utf8::encode_utf8(t@)),
            answer matches Answer::List(ns) ==> array_items(final(self).vm_state(), r) == Some(ns@),
            answer matches Answer::Rows(rows) ==> rows_made(final(self).vm_state(), r, rows@),
            answer matches Answer::Entity(bits) ==> data_of_value(final(self).vm_state(), r) == Some((ENTITY_TAG, bits))
                && class_of(final(self).vm_state(), r) == old(self).entity_class_spec(),
            value_live(final(self).vm_state(), r),
            keeps_host(old(self).vm_state(), final(self).vm_state()),
            heap_same(old(self).vm_state(), final(self).vm_state()),
            final(self).pending() == old(self).pending(),
            final(self).budget_spec() == old(self).budget_spec(),
            final(self).entity_class_spec() == old(self).entity_class_spec(),
            final(self).answers_handed() == old(self).answers_handed(),
    {
        match answer {
            Answer::Nil => RubyValue::Nil,
            Answer::Bool(b) => if b { RubyValue::True } else { RubyValue::False },
            Answer::Num(n) => n,
            Answer::Text(t) => vm_str_new(&mut self.vm, t.as_str().as_bytes()),
            Answer::List(items) => vm_ary_new(&mut self.vm, items),
            Answer::Entity(bits) => vm_data_new(&mut self.vm, self.entity_class, ENTITY_TAG, bits),
            Answer::Rows(rows) => {
                let mut items: Vec<RubyValue> = Vec::new();
                let ghost start = self.vm;
                let ghost rs = rows@;
                let ghost waiting = self.requests@;
                let ghost budget = self.budget;
                let ghost class = self.entity_class;
                let ghost log = self.handed@;
                assert forall|j: int| 0 <= j < rs.len() implies #[trigger] values_live(start, rs[j]@) by {
                    assert(values_live(old(self).vm_state(), rows@[j]@));
                }
                for row in it: rows
                    invariant
                        it.seq() == rs,
                        items@.len() == it.index(),
                        self.requests@ == waiting,
                        self.budget == budget,
                        self.entity_class == class,
                        self.handed@ == log,
                        keeps_host(start, self.vm),
                        heap_same(start, self.vm),
                        forall|j: int| 0 <= j < rs.len() ==> #[trigger] values_live(start, rs[j]@),
                        forall|j: int| 0 <= j < items@.len() ==> value_live(self.vm, #[trigger] items@[j])
                            && array_items(self.vm, items@[j]) == Some(rs[j]@),
                {
                    let ghost k = it.index() as int;
                    let ghost before = self.vm;
                    assert forall|m: int| 0 <= m < row@.len() implies #[trigger] value_live(before, row@[m]) by {
                        assert(values_live(start, rs[k]@));
                        assert(value_live(start, rs[k]@[m]));
                        lemma_live_kept(start, before, row@[m]);
                    }
                    let made = vm_ary_new(&mut self.vm, row);
                    proof {
                        lemma_heap_same_trans(start, before, self.vm);
                        assert forall|j: int| 0 <= j < items@.len() implies value_live(self.vm, #[trigger] items@[j])
                            && array_items(self.vm, items@[j]) == Some(rs[j]@) by {
                            lemma_live_kept(before, self.vm, items@[j]);
                        }
                    }
                    items.push(made);
                }
                assert(values_live(self.vm, items@));
                let ghost before = self.vm;
                let r = vm_ary_new(&mut self.vm, items);
                proof {
                    lemma_heap_same_trans(start, before, self.vm);
                    assert forall|j: int| 0 <= j < items@.len() implies #[trigger] array_items(self.vm, items@[j]) == Some(rs[j]@) by {
                        lemma_live_kept(before, self.vm, items@[j]);
                    }
                }
                r
            }
        }
    }

    /// Answers a request: [`ScriptWorld::answer_value`] of the answer is pushed onto the
    /// queue the script waits on (a `push` sent to its items), its task becomes ready again,
    /// and the registration that kept the queue from the collector is dropped. Answer each
    /// request once: a request answered is no longer registered. Answers why the queue
    /// refused the value, where it did.
    pub fn answer<N>(&mut self, request: &Request<N>, answer: Answer<RubyValue>) -> (r: Result<(), String>)
        requires
            on_heap(old(self).vm_state(), request.queue),
            gc_count(old(self).vm_state(), request.queue) > 0,
            old(self).answer_live(answer),
        ensures
            gc_count(final(self).vm_state(), request.queue) + 1 >= gc_count(old(self).vm_state(), request.queue),
            final(self).answers_handed().len() == old(self).answers_handed().len() + 1,
            final(self).answers_handed().drop_last() == old(self).answers_handed(),
            final(self).answers_handed().last().0 == request.queue,
            answered_as(answer, final(self).answers_handed().last().1),
            final(self).pending() == old(self).pending(),
            final(self).budget_spec() == old(self).budget_spec(),
    {
        let ghost asked = answer;
        let value = self.answer_value(answer);
        proof {
            assert(answered_as(asked, value));
        }
        self.handed = Ghost(self.handed@.push((request.queue, value)));
        let r = match vm_task_queue_push(&mut self.vm, request.queue, value) {
            Ok(()) => Ok(()),
            Err(e) => Err(vm_describe_error(&mut self.vm, &e)),
        };
        vm_gc_unregister(&mut self.vm, request.queue);
        r
    }

    /// Makes a script's program a task of the scheduler, for the entity with these bits: the
    /// task runs at `priority`, is named after the script (or, without a name, after its
    /// entity), kept from the collector while the entity holds it, and carries its entity for
    /// `Rubevy.entity`. A program the VM cannot load or start is refused with a line that
    /// names the script.
    pub fn start_script(&mut self, bytes: &[u8], priority: u8, name: Option<String>, entity: u64) -> (r: Result<ObjId, String>)
        requires
            is_entity_bits(entity),
        ensures
            r matches Err(m) ==> starts_with(m@, script_label(name, entity)),
            rite_refusal(bytes@) is Some ==> r is Err,
            r matches Ok(task) ==> on_heap(final(self).vm_state(), task)
                && gc_count(final(self).vm_state(), task) > 0
                && task_priority(final(self).vm_state(), task) == priority
                && task_title(final(self).vm_state(), task) == script_label(name, entity)
                && ivar_of(final(self).vm_state(), task, ENTITY_IVAR@) == RubyValue::Int(entity as i64),
            r is Ok ==> keeps_host(old(self).vm_state(), final(self).vm_state()),
            final(self).pending() == old(self).pending(),
            final(self).budget_spec() == old(self).budget_spec(),
    {
        let label = match name {
            Some(n) => n,
            None => entity_label_string(entity),
        };
        let ghost shown = label@;
        let irep: usize = match vm_load(&mut self.vm, bytes) {
            Ok(irep) => irep,
            Err(e) => {
                let why = vm_describe_error(&mut self.vm, &e);
                let m = joined(joined(label, " failed to load: "), why.as_str());
                assert(m@.subrange(0, shown.len() as int) =~= shown);
                return Err(m);
            }
        };
        match vm_task_spawn(&mut self.vm, irep, priority, label.as_str()) {
            Ok(task) => {
                vm_ivar_set(&mut self.vm, task, ENTITY_IVAR, RubyValue::Int(entity as i64));
                vm_gc_register(&mut self.vm, task);
                Ok(task)
            }
            Err(e) => {
                let why = vm_describe_error(&mut self.vm, &e);
                let m = joined(joined(label, " failed to start: "), why.as_str());
                assert(m@.subrange(0, shown.len() as int) =~= shown);
                Err(m)
            }
        }
    }

    /// `$rubevy`, refreshed at the head of every frame: a new Hash of `:frame` (the count),
    /// `:delta` (seconds since the last frame) and `:time` (seconds since the start), the
    /// last two as the VM's Floats.
    pub fn set_frame_state(&mut self, frame: u32, delta: RubyValue, time: RubyValue)
        requires
            value_live(old(self).vm_state(), delta),
            value_live(old(self).vm_state(), time),
        ensures
            frame_state_is(final(self).vm_state(), frame, delta, time),
            keeps_host(old(self).vm_state(), final(self).vm_state()),
            final(self).pending() == old(self).pending(),
            final(self).budget_spec() == old(self).budget_spec(),
    {
        let ghost v0 = self.vm;
        let h = vm_hash_new(&mut self.vm);
        let ghost v1 = self.vm;
        let kf = vm_intern(&mut self.vm, "frame");
        let ghost v2 = self.vm;
        proof {
            lemma_heap_same_trans(v0, v1, v2);
            lemma_live_kept(v0, v2, delta);
            lemma_live_kept(v0, v2, time);
            lemma_live_kept(v1, v2, h);
        }
        let _ = vm_hash_set(&mut self.vm, h, RubyValue::Sym(kf), RubyValue::Int(frame as i64));
        let ghost v3 = self.vm;
        proof {
            lemma_kept_by_set(v2, v3, h, kf, delta);
            lemma_kept_by_set(v2, v3, h, kf, time);
            lemma_kept_by_set(v2, v3, h, kf, h);
        }
        let kd = vm_intern(&mut self.vm, "delta");
        let ghost v4 = self.vm;
        proof {
            lemma_live_kept(v3, v4, delta);
            lemma_live_kept(v3, v4, time);
            lemma_live_kept(v3, v4, h);
        }
        let _ = vm_hash_set(&mut self.vm, h, RubyValue::Sym(kd), delta);
        let ghost v5 = self.vm;
        proof {
            lemma_kept_by_set(v4, v5, h, kd, time);
            lemma_kept_by_set(v4, v5, h, kd, h);
        }
        let kt = vm_intern(&mut self.vm, "time");
        let ghost v6 = self.vm;
        proof {
            lemma_live_kept(v5, v6, time);
            lemma_live_kept(v5, v6, h);
        }
        let _ = vm_hash_set(&mut self.vm, h, RubyValue::Sym(kt), time);
        let ghost v7 = self.vm;
        proof { lemma_kept_by_set(v6, v7, h, kt, h); }
        vm_global_set(&mut self.vm, "$rubevy", h);
        proof {
            let f = self.vm;
            reveal_strlit("frame");
            reveal_strlit("delta");
            reveal_strlit("time");
            assert("frame"@[0] != "delta"@[0]);
            assert("frame"@ != "delta"@);
            assert("frame"@.len() != "time"@.len());
            assert("frame"@ != "time"@);
            assert("delta"@ != "time"@);
            assert(interned(v3, "frame"@));
            assert(symbol_of(v3, "frame"@) == kf);
            assert(kd != kf);
            assert(symbol_of(v5, "frame"@) == kf);
            assert(symbol_of(v5, "delta"@) == kd);
            assert(kt != kf);
            assert(kt != kd);
            assert(RubyValue::Sym(kt) != RubyValue::Sym(kf));
            assert(RubyValue::Sym(kt) != RubyValue::Sym(kd));
            assert(RubyValue::Sym(kd) != RubyValue::Sym(kf));
            assert(hash_entry(v7, h, RubyValue::Sym(kf)) == Some(RubyValue::Int(frame as i64)));
            assert(hash_entry(v7, h, RubyValue::Sym(kd)) == Some(delta));
            assert(hash_entry(f, h, RubyValue::Sym(kt)) == Some(time));
            assert(symbol_of(f, "frame"@) == kf);
            assert(symbol_of(f, "delta"@) == kd);
            assert(symbol_of(f, "time"@) == kt);
        }
    }

    /// The limits of one frame: the budget in instructions, and the frame's time and the
    /// overrun in nanoseconds, where they are set.
    pub fn frame_limits(&self) -> (r: (Option<u64>, Option<u64>, Option<u64>))
        ensures
            r == self.frame_limits_spec(),
    {
        let time_ns = match &self.frame_time {
            Some(d) => Some(duration_nanos(d)),
            None => None,
        };
        let overrun_ns = match &self.overrun {
            Some(d) => Some(duration_nanos(d)),
            None => None,
        };
        (Some(self.budget), time_ns, overrun_ns)
    }

    /// The `RunLimits` a frame runs under: [`ScriptWorld::frame_limits`].
    pub fn frame_run_limits(&self) -> (r: RunLimits)
        ensures
            limits_of(r) == self.frame_limits_spec(),
    {
        let (instructions, time_ns, overrun_ns) = self.frame_limits();
        run_limits(instructions, time_ns, overrun_ns)
    }

    /// One frame of the scheduler, under [`ScriptWorld::frame_run_limits`]: the ready tasks
    /// run until the budget is spent, the frame's time is up, or nothing is ready. Answers the
    /// instructions spent, or what the scheduler itself raised (a task's own exception never
    /// gets here).
    pub fn run_frame(&mut self) -> (r: Result<u64, String>)
        ensures
            final(self).pending() == old(self).pending(),
            final(self).budget_spec() == old(self).budget_spec(),
            final(self).frame_limits_spec() == old(self).frame_limits_spec(),
    {
        let limits = self.frame_run_limits();
        match vm_task_run_limits(&mut self.vm, limits) {
            Ok(spent) => Ok(spent),
            Err(e) => Err(vm_describe_error(&mut self.vm, &e)),
        }
    }

    /// The lines `puts`, `p` and `print` wrote since the last call, as
    /// [`output_lines`] reads them; the VM's output is empty afterwards.
    pub fn take_output_lines(&mut self) -> (r: Vec<String>)
        ensures
            r.deep_view() == (if output_of(old(self).vm_state()).len() == 0 {
                Seq::<Seq<char>>::empty()
            } else {
                lines_of(lossy_text(output_of(old(self).vm_state())))
            }),
            output_of(final(self).vm_state()) == Seq::<u8>::empty(),
            final(self).pending() == old(self).pending(),
            keeps_host(old(self).vm_state(), final(self).vm_state()),
    {
        let out = vm_take_output(&mut self.vm);
        output_lines(out)
    }

    /// What became of a script's task, where it has run to its end: the report of it (its
    /// entity, `Failed` where its value is an exception and `Finished` otherwise, and what
    /// `inspect` answered for it), and one registration of the task dropped. `None` while it
    /// runs.
    pub fn finish(&mut self, entity: u64, task: ObjId) -> (r: Option<ScriptEnded>)
        requires
            on_heap(old(self).vm_state(), task),
        ensures
            r is None <==> !task_done(old(self).vm_state(), task),
            r matches Some(e) ==> e.entity == entity && e.status == (if exception_value(old(self).vm_state(),
                task_result(old(self).vm_state(), task)) { ScriptStatus::Failed } else { ScriptStatus::Finished }),
            r is None ==> final(self).vm_state() == old(self).vm_state(),
            final(self).pending() == old(self).pending(),
    {
        if !vm_task_finished(&self.vm, task) {
            return None;
        }
        let value = vm_task_value(&self.vm, task);
        let exception = vm_is_exception(&self.vm, value);
        let inspected = vm_inspect_str(&mut self.vm, value);
        let ended = script_ended(entity, exception, inspected);
        vm_gc_unregister(&mut self.vm, task);
        Some(ended)
    }

    /// Carries what the scripts asked for this frame out of the VM: each question joins the
    /// requests waiting for the game, after those already there; everything else comes back
    /// as the actions the world carries out, in the order the scripts asked.
    pub fn drain_commands(&mut self) -> (r: Vec<WorldAction>)
        ensures
            final(self).pending() == old(self).pending() + routed_requests(queued_in(old(self).vm_state())),
            r@ == routed_actions(queued_in(old(self).vm_state())),
            holds_host_state(final(self).vm_state()) == holds_host_state(old(self).vm_state()),
            host_commands(final(self).vm_state()) == commands_left(old(self).vm_state()),
            final(self).budget_spec() == old(self).budget_spec(),
    {
        let commands = take_commands(&mut self.vm);
        route_commands(commands, &mut self.requests)
    }

    /// Where a `require` reads from: the plugin's load path.
    pub fn set_load_path(&mut self, plugin: &RubevyPlugin)
        ensures
            final(self).pending() == old(self).pending(),
    {
        let paths = plugin.load_path();
        vm_set_load_path(&mut self.vm, &paths);
    }
}

/// The lines of what a script wrote: none for nothing written, else the lines of the text
/// the bytes are (invalid UTF-8 replaced).
pub fn output_lines(out: Vec<u8>) -> (r: Vec<String>)
    ensures
        r.deep_view() == (if out@.len() == 0 {
            Seq::<Seq<char>>::empty()
        } else {
            lines_of(lossy_text(out@))
        }),
{
    if out.len() == 0 {
        let r: Vec<String> = Vec::new();
        assert(r.deep_view() =~= Seq::<Seq<char>>::empty());
        return r;
    }
    let text = utf8_lossy(out.as_slice());
    text_lines(text.as_str())
}

/// What the scripts asked for this frame and has not been carried out yet.
pub fn pending_command_count(world: &ScriptWorld) -> (r: usize)
    ensures
        r == queued_in(world.vm_state()).len(),
{
    queued_commands(&world.vm)
}

} // verus!
