//! The Ruby side of the bridge: the `Rubevy` module, its natives, and `Rubevy::Entity`.
//!
//! A native gets the VM and nothing else, so everything that touches the world is left in
//! the VM's host state as a [`HostCommand`] for the host to carry out after the frame's
//! scripts have run.
use vstd::prelude::*;
use vstd::string::StringExecFns;
use sabiruby::{Value, Vm, VmError};
use sabiruby::value::ObjId;
use crate::command::{HostCommand, HostState};
use crate::entity::{entity_inspect, entity_inspect_text, entity_of, entity_to_i, is_entity_bits, ENTITY_TAG};
use crate::request::Arg;
use crate::text::{lossy_text, utf8_lossy};
use crate::vm::{
    lemma_values_round_trip, ruby_of, value_spec, class_of, data_of_value, gc_count, has_native, heap_same, holds_host_state, host_commands,
    is_class_obj, ivar_of, keeps_host, lemma_heap_same_trans, lemma_live_kept, natives_kept,
    on_heap, running_task, ruby_value, string_bytes, sym_count, sym_index, sym_ok, sym_text,
    value_live, value_of, values_live, vm_as_string, vm_class_class, vm_data_new, vm_data_of,
    vm_define_closure, vm_define_handle_int, vm_define_handle_text, vm_define_module,
    vm_describe_error, vm_expect_int, vm_funcall, vm_gc_register, vm_host_state, vm_intern,
    vm_is_class, vm_ivar_get, vm_object_class, vm_raise_arg, vm_replace_host_state,
    vm_singleton_class, vm_slot_free, vm_sym_count, vm_sym_name, sym_number, vm_task_queue_new,
    vm_task_running, RubyValue,
};

verus! {

/// The instance variable each task carries its entity in (`Entity::to_bits` as an Integer),
/// read back by the natives through the task the scheduler is running. A script can see it,
/// but the name is not one a script would write by accident.
pub const ENTITY_IVAR: &'static str = "@rubevy_entity";

/// The commands waiting in the VM's queue, where it has one; none otherwise.
pub open spec fn queued_in(vm: Vm) -> Seq<HostCommand> {
    if holds_host_state(vm) { host_commands(vm) } else { Seq::empty() }
}

/// The queue once `c` is pushed onto it, where there is one.
pub open spec fn commands_pushed(vm: Vm, c: HostCommand) -> Seq<HostCommand> {
    if holds_host_state(vm) { host_commands(vm).push(c) } else { host_commands(vm) }
}

/// What is left in the VM's queue once its commands were taken.
pub open spec fn commands_left(vm: Vm) -> Seq<HostCommand> {
    if holds_host_state(vm) { Seq::empty() } else { host_commands(vm) }
}

/// Exactly one command was put at the end of the queue, where there is one; nothing changed
/// where there is none.
pub open spec fn one_pushed(before: Vm, after: Vm) -> bool {
    &&& holds_host_state(after) == holds_host_state(before)
    &&& holds_host_state(before) ==> host_commands(after).len() == host_commands(before).len() + 1
        && host_commands(after).drop_last() == host_commands(before)
    &&& !holds_host_state(before) ==> host_commands(after) == host_commands(before)
}

/// The newest command in the VM's queue.
pub open spec fn newest(vm: Vm) -> HostCommand {
    host_commands(vm).last()
}

/// Leaves a command at the end of the queue in the VM's host state, where there is one: the
/// state is taken out, the command pushed, and the state put back.
pub fn push_command(vm: &mut Vm, c: HostCommand)
    ensures
        holds_host_state(*final(vm)) == holds_host_state(*old(vm)),
        host_commands(*final(vm)) == commands_pushed(*old(vm), c),
        one_pushed(*old(vm), *final(vm)),
        holds_host_state(*old(vm)) ==> newest(*final(vm)) == c,
        heap_same(*old(vm), *final(vm)),
{
    proof {
        assert(host_commands(*old(vm)).push(c).drop_last() =~= host_commands(*old(vm)));
    }
    let ghost start = *vm;
    match vm_replace_host_state(vm, HostState::new()) {
        Some(mut state) => {
            state.push(c);
            let ghost mid = *vm;
            let _ = vm_replace_host_state(vm, state);
            proof { lemma_heap_same_trans(start, mid, *vm); }
        }
        None => {}
    }
}

/// What a native leaves is what the host takes next: on a VM that holds the host state, a
/// command pushed is the last of the commands waiting, after those that were there before.
pub proof fn lemma_pushed_is_taken(before: Vm, after: Vm, c: HostCommand)
    requires
        holds_host_state(before),
        holds_host_state(after) == holds_host_state(before),
        host_commands(after) == commands_pushed(before, c),
    ensures
        queued_in(after) == queued_in(before).push(c),
        queued_in(after).last() == c,
{
}

/// Takes every command the natives left, oldest first, leaving the queue empty; none where
/// the VM holds no host state.
pub fn take_commands(vm: &mut Vm) -> (r: Vec<HostCommand>)
    ensures
        r@ == queued_in(*old(vm)),
        holds_host_state(*final(vm)) == holds_host_state(*old(vm)),
        host_commands(*final(vm)) == commands_left(*old(vm)),
        heap_same(*old(vm), *final(vm)),
{
    match vm_replace_host_state(vm, HostState::new()) {
        Some(mut state) => state.take(),
        None => Vec::new(),
    }
}

/// How many commands wait in the VM's host state; 0 where it holds none.
pub fn queued_commands(vm: &Vm) -> (r: usize)
    ensures
        r == queued_in(*vm).len(),
{
    match vm_host_state(vm) {
        Some(state) => state.len(),
        None => 0,
    }
}

/// The entity the running task carries: the Integer in its entity variable, or nil where
/// nothing runs.
pub open spec fn current_entity_spec(vm: Vm) -> RubyValue {
    match running_task(vm) {
        Some(task) => ivar_of(vm, task, ENTITY_IVAR@),
        None => RubyValue::Nil,
    }
}

/// The entity of the task the scheduler is running, as the Integer it carries; nil where
/// nothing runs or the task carries none.
pub fn current_entity(vm: &Vm) -> (r: RubyValue)
    ensures
        r == current_entity_spec(*vm),
{
    match vm_task_running(vm) {
        Some(task) => vm_ivar_get(vm, task, ENTITY_IVAR),
        None => RubyValue::Nil,
    }
}

/// The bits a question is asked for: the running task's entity, or 0 (bits that name no
/// entity) where it carries none.
pub open spec fn asking_entity(current: RubyValue) -> u64 {
    match current {
        RubyValue::Int(bits) => bits as u64,
        _ => 0,
    }
}

/// The handle of a `Rubevy::Entity`, where `data_of` found a Data object of that kind.
pub open spec fn entity_handle_spec(data: Option<(u32, u64)>) -> Option<u64> {
    match data {
        Some((tag, handle)) => if tag == ENTITY_TAG { Some(handle) } else { None },
        None => None,
    }
}

/// The handle of a `Rubevy::Entity`, from what `data_of` answered for a value.
pub fn entity_handle(data: Option<(u32, u64)>) -> (r: Option<u64>)
    ensures
        r == entity_handle_spec(data),
{
    match data {
        Some((tag, handle)) => if tag == ENTITY_TAG { Some(handle) } else { None },
        None => None,
    }
}

/// Whether the VM can read a value: its object on the heap, its symbol in the table. A value
/// a native is handed always can; the bridge asks before it reads one.
pub fn readable(vm: &Vm, v: RubyValue) -> (r: bool)
    ensures
        r == value_live(*vm, v),
{
    match v {
        RubyValue::Obj(o) => !vm_slot_free(vm, o),
        RubyValue::Sym(s) => (sym_number(s) as usize) < vm_sym_count(vm),
        _ => true,
    }
}

/// The entity an argument names without asking the VM to convert it: none given is 0, an
/// Integer its 64 bits, a `Rubevy::Entity` its handle. `None` for anything else.
pub open spec fn known_entity(vm: Vm, v: Option<RubyValue>) -> Option<u64> {
    match v {
        None => Some(0),
        Some(RubyValue::Int(i)) => Some(i as u64),
        Some(x) => if value_live(vm, x) { entity_handle_spec(data_of_value(vm, x)) } else { None },
    }
}

/// The entity an argument names: a `Rubevy::Entity` object by its handle, or an Integer of
/// `Entity::to_bits` (the form the host API took before there were objects, and the one a
/// script has from a number the game answered), taken as its 64 bits. Anything else is read
/// as `mrb_get_args("i")` reads an Integer. No argument names 0.
pub fn entity_arg(vm: &mut Vm, v: Option<RubyValue>) -> (r: Result<u64, VmError>)
    ensures
        known_entity(*old(vm), v) is Some ==> r == Ok::<u64, VmError>(known_entity(*old(vm), v).unwrap())
            && *final(vm) == *old(vm),
{
    match v {
        Some(RubyValue::Int(i)) => Ok(i as u64),
        Some(x) => {
            if !readable(vm, x) {
                return Err(vm_raise_arg(vm, "not a value of this VM"));
            }
            match entity_handle(vm_data_of(vm, x)) {
                Some(handle) => Ok(handle),
                None => {
                    let i: i64 = vm_expect_int(vm, x)?;
                    Ok(i as u64)
                }
            }
        },
        None => Ok(0),
    }
}

/// The `i`th argument, where there is one.
pub open spec fn arg_spec(args: Seq<RubyValue>, i: int) -> Option<RubyValue> {
    if 0 <= i < args.len() { Some(args[i]) } else { None }
}

/// The `i`th argument, where there is one.
pub fn arg_at(args: &[RubyValue], i: usize) -> (r: Option<RubyValue>)
    ensures
        r == arg_spec(args@, i as int),
{
    if i < args.len() { Some(args[i]) } else { None }
}

/// A coordinate as a script passed it: an Integer or a Float as it is, and 0 for anything
/// else or for a missing argument.
pub open spec fn number_spec(v: Option<RubyValue>) -> RubyValue {
    match v {
        Some(RubyValue::Int(i)) => RubyValue::Int(i),
        Some(RubyValue::Float(f)) => RubyValue::Float(f),
        _ => RubyValue::Int(0),
    }
}

/// A coordinate a script passed.
pub fn number_arg(v: Option<RubyValue>) -> (r: RubyValue)
    ensures
        r == number_spec(v),
{
    match v {
        Some(RubyValue::Int(i)) => RubyValue::Int(i),
        Some(RubyValue::Float(f)) => RubyValue::Float(f),
        _ => RubyValue::Int(0),
    }
}

/// The text of a string argument, where it is read without running Ruby code: empty for no
/// argument, the text of a String's bytes (invalid UTF-8 replaced) for a String.
pub open spec fn string_arg(vm: Vm, v: Option<RubyValue>) -> Option<Seq<char>> {
    match v {
        None => Some(Seq::empty()),
        Some(x) => if value_live(vm, x) && string_bytes(vm, x) is Some {
            Some(lossy_text(string_bytes(vm, x).unwrap()))
        } else {
            None
        },
    }
}

/// A string argument, as text: a String's own, what `to_s` answers for anything else, and an
/// empty one where there is none.
pub fn text_arg(vm: &mut Vm, v: Option<RubyValue>) -> (r: Result<String, VmError>)
    ensures
        string_arg(*old(vm), v) is Some ==> (r matches Ok(t) && t@ == string_arg(*old(vm), v).unwrap())
            && *final(vm) == *old(vm),
        r matches Ok(t) ==> (v is None || exists|bytes: Seq<u8>| t@ == lossy_text(bytes)),
{
    match v {
        Some(x) => {
            if !readable(vm, x) {
                return Err(vm_raise_arg(vm, "not a value of this VM"));
            }
            let bytes = vm_as_string(vm, x)?;
            Ok(utf8_lossy(bytes.as_slice()))
        }
        None => Ok(String::new()),
    }
}

/// Where an argument of `Rubevy.ask` is read from.
pub enum ArgSource {
    /// A `Rubevy::Entity` naming an entity: these bits.
    Entity(u64),
    /// An Integer or a Float, handed on as a number.
    Number,
    /// A Symbol: its name.
    SymbolName(sabiruby::symbol::Sym),
    /// Anything else: its text (a String's own, else what `to_s` makes of it).
    Text,
}

/// How an argument of `Rubevy.ask` is read, from what `data_of` answered for it and the
/// value itself. An entity the script was given keeps its identity across the boundary;
/// everything else is a number or a string.
pub open spec fn arg_source_spec(data: Option<(u32, u64)>, v: RubyValue) -> ArgSource {
    match entity_handle_spec(data) {
        Some(handle) if is_entity_bits(handle) => ArgSource::Entity(handle),
        _ => match v {
            RubyValue::Int(_) | RubyValue::Float(_) => ArgSource::Number,
            RubyValue::Sym(s) => ArgSource::SymbolName(s),
            _ => ArgSource::Text,
        },
    }
}

/// How an argument of `Rubevy.ask` is read.
pub fn arg_source(data: Option<(u32, u64)>, v: RubyValue) -> (r: ArgSource)
    ensures
        r == arg_source_spec(data, v),
{
    let as_entity = match entity_handle(data) {
        Some(handle) => entity_of(handle),
        None => None,
    };
    match as_entity {
        Some(bits) => ArgSource::Entity(bits),
        None => match v {
            RubyValue::Int(_) | RubyValue::Float(_) => ArgSource::Number,
            RubyValue::Sym(s) => ArgSource::SymbolName(s),
            _ => ArgSource::Text,
        },
    }
}

/// `a` is what an argument of `Rubevy.ask` becomes in this VM: an entity by its bits, a
/// number as it is, a Symbol's name, a String's text; for anything else what `to_s` makes of
/// it, or 0 where that raises. A value the VM cannot read is 0.
pub open spec fn reads_as(vm: Vm, v: RubyValue, a: Arg<RubyValue>) -> bool {
    if !value_live(vm, v) {
        a == Arg::<RubyValue>::Num(RubyValue::Int(0))
    } else {
        match arg_source_spec(data_of_value(vm, v), v) {
            ArgSource::Entity(bits) => a == Arg::<RubyValue>::Entity(bits),
            ArgSource::Number => a == Arg::<RubyValue>::Num(v),
            ArgSource::SymbolName(s) => a.text_spec() == Some(sym_text(vm, s)),
            ArgSource::Text => match string_bytes(vm, v) {
                Some(b) => a.text_spec() == Some(lossy_text(b)),
                None => a is Text || a == Arg::<RubyValue>::Num(RubyValue::Int(0)),
            },
        }
    }
}

/// An argument read without running Ruby code: anything but a value whose text `to_s` makes.
pub open spec fn plain_arg(vm: Vm, v: RubyValue) -> bool {
    ||| !value_live(vm, v)
    ||| !(arg_source_spec(data_of_value(vm, v), v) is Text)
    ||| string_bytes(vm, v) is Some
}

/// An argument of `Rubevy.ask` as the game reads it (see [`reads_as`]).
pub fn ask_arg(vm: &mut Vm, v: RubyValue) -> (r: Arg<RubyValue>)
    ensures
        reads_as(*old(vm), v, r),
        plain_arg(*old(vm), v) ==> *final(vm) == *old(vm),
        v is Int || v is Float ==> r == Arg::<RubyValue>::Num(v) && *final(vm) == *old(vm),
        r matches Arg::Entity(bits) ==> is_entity_bits(bits),
{
    if !readable(vm, v) {
        return Arg::Num(RubyValue::Int(0));
    }
    match arg_source(vm_data_of(vm, v), v) {
        ArgSource::Entity(bits) => Arg::Entity(bits),
        ArgSource::Number => Arg::Num(v),
        ArgSource::SymbolName(s) => Arg::Text(vm_sym_name(vm, s)),
        ArgSource::Text => match vm_as_string(vm, v) {
            Ok(bytes) => Arg::Text(utf8_lossy(bytes.as_slice())),
            Err(_) => Arg::Num(RubyValue::Int(0)),
        },
    }
}

/// The arguments a native was called with, as the bridge reads them.
pub fn ruby_args(args: &[Value]) -> (r: Vec<RubyValue>)
    ensures
        r@.len() == args@.len(),
        forall|i: int| 0 <= i < args@.len() ==> #[trigger] r@[i] == ruby_of(args@[i]),
{
    let mut out: Vec<RubyValue> = Vec::new();
    let mut i: usize = 0;
    while i < args.len()
        invariant
            i <= args@.len(),
            out@.len() == i,
            forall|j: int| 0 <= j < i ==> #[trigger] out@[j] == ruby_of(args@[j]),
        decreases args@.len() - i,
    {
        out.push(ruby_value(args[i]));
        i = i + 1;
    }
    out
}

/// A native reads the arguments it was called with: each is the value the VM passed, and an
/// Integer, a Symbol, an object, nil, true and false are each read as themselves.
pub proof fn lemma_natives_read_their_arguments(args: Seq<Value>, read: Seq<RubyValue>, i: int)
    requires
        read.len() == args.len(),
        forall|j: int| 0 <= j < args.len() ==> #[trigger] read[j] == ruby_of(args[j]),
        0 <= i < args.len(),
    ensures
        value_spec(read[i]) == args[i],
        args[i] matches Value::Int(n) ==> read[i] == RubyValue::Int(n),
        args[i] matches Value::Sym(s) ==> read[i] == RubyValue::Sym(s),
        args[i] matches Value::Obj(o) ==> read[i] == RubyValue::Obj(o),
        args[i] is Nil ==> read[i] == RubyValue::Nil,
        args[i] is True ==> read[i] == RubyValue::True,
        args[i] is False ==> read[i] == RubyValue::False,
{
    lemma_values_round_trip(args[i]);
}

/// What a native answers, as the VM takes it.
pub fn native_result(r: Result<RubyValue, VmError>) -> (out: Result<Value, VmError>)
    ensures
        r matches Ok(v) ==> out == Ok::<Value, VmError>(value_spec(v)),
        r matches Err(e) ==> out == Err::<Value, VmError>(e),
{
    match r {
        Ok(v) => Ok(value_of(v)),
        Err(e) => Err(e),
    }
}

/// `Rubevy.log "text"`: a line for the game's log.
fn native_log(vm: &mut Vm, args: &[RubyValue]) -> (r: Result<RubyValue, VmError>)
    ensures
        r is Ok ==> r == Ok::<RubyValue, VmError>(RubyValue::Nil),
        string_arg(*old(vm), arg_spec(args@, 0)) is Some ==> r is Ok && one_pushed(*old(vm), *final(vm))
            && heap_same(*old(vm), *final(vm)),
        string_arg(*old(vm), arg_spec(args@, 0)) is Some && holds_host_state(*old(vm))
            ==> (newest(*final(vm)) matches HostCommand::Log(t) && t@ == string_arg(*old(vm), arg_spec(args@, 0)).unwrap()),
        r is Ok && holds_host_state(*final(vm)) ==> newest(*final(vm)) is Log,
{
    let text = text_arg(vm, arg_at(args, 0))?;
    push_command(vm, HostCommand::Log(text));
    Ok(RubyValue::Nil)
}

/// The coordinates `x`, `y`, `z` are the arguments from `first` on, read as numbers.
pub open spec fn at_coordinates(x: RubyValue, y: RubyValue, z: RubyValue, args: Seq<RubyValue>, first: int) -> bool {
    &&& x == number_spec(arg_spec(args, first))
    &&& y == number_spec(arg_spec(args, first + 1))
    &&& z == number_spec(arg_spec(args, first + 2))
}

/// `Rubevy.spawn "name", x, y, z`: an entity marked with the name, at the coordinates.
fn native_spawn(vm: &mut Vm, args: &[RubyValue]) -> (r: Result<RubyValue, VmError>)
    ensures
        r is Ok ==> r == Ok::<RubyValue, VmError>(RubyValue::Nil),
        string_arg(*old(vm), arg_spec(args@, 0)) is Some ==> r is Ok && one_pushed(*old(vm), *final(vm))
            && heap_same(*old(vm), *final(vm)),
        string_arg(*old(vm), arg_spec(args@, 0)) is Some && holds_host_state(*old(vm))
            ==> (newest(*final(vm)) matches HostCommand::Spawn { name, .. } && name@ == string_arg(*old(vm), arg_spec(args@, 0)).unwrap()),
        r is Ok && holds_host_state(*final(vm)) ==> (newest(*final(vm)) matches HostCommand::Spawn { x, y, z, .. }
            && at_coordinates(x, y, z, args@, 1)),
{
    let name = text_arg(vm, arg_at(args, 0))?;
    let x = number_arg(arg_at(args, 1));
    let y = number_arg(arg_at(args, 2));
    let z = number_arg(arg_at(args, 3));
    push_command(vm, HostCommand::Spawn { name, x, y, z });
    Ok(RubyValue::Nil)
}

/// `Rubevy.despawn entity`: that entity is despawned.
fn native_despawn(vm: &mut Vm, args: &[RubyValue]) -> (r: Result<RubyValue, VmError>)
    ensures
        r is Ok ==> r == Ok::<RubyValue, VmError>(RubyValue::Nil),
        known_entity(*old(vm), arg_spec(args@, 0)) matches Some(bits) ==> r is Ok
            && holds_host_state(*final(vm)) == holds_host_state(*old(vm))
            && host_commands(*final(vm)) == commands_pushed(*old(vm), HostCommand::Despawn(bits))
            && heap_same(*old(vm), *final(vm)),
        r is Ok && holds_host_state(*final(vm)) ==> newest(*final(vm)) is Despawn,
{
    let bits = entity_arg(vm, arg_at(args, 0))?;
    push_command(vm, HostCommand::Despawn(bits));
    Ok(RubyValue::Nil)
}

/// `Rubevy.entity`: the entity this script is attached to, as a fresh `Rubevy::Entity`
/// (two of them for one entity are `==`), or nil. Reads the task the scheduler is running,
/// so a task a script made speaks for the same entity where it carries it.
fn native_entity(vm: &mut Vm, entity_class: ObjId) -> (r: Result<RubyValue, VmError>)
    ensures
        keeps_host(*old(vm), *final(vm)),
        heap_same(*old(vm), *final(vm)),
        current_entity_spec(*old(vm)) matches RubyValue::Int(bits) ==> (r matches Ok(v) && v is Obj
            && data_of_value(*final(vm), v) == Some((ENTITY_TAG, bits as u64))
            && class_of(*final(vm), v) == entity_class),
        !(current_entity_spec(*old(vm)) is Int) ==> r == Ok::<RubyValue, VmError>(RubyValue::Nil),
{
    match current_entity(vm) {
        RubyValue::Int(bits) => Ok(vm_data_new(vm, entity_class, ENTITY_TAG, bits as u64)),
        _ => Ok(RubyValue::Nil),
    }
}

/// `Rubevy.move_to x, y, z`: the script's own entity is moved; nothing where the task
/// carries no entity.
fn native_move_to(vm: &mut Vm, args: &[RubyValue]) -> (r: Result<RubyValue, VmError>)
    ensures
        r == Ok::<RubyValue, VmError>(RubyValue::Nil),
        heap_same(*old(vm), *final(vm)),
        current_entity_spec(*old(vm)) matches RubyValue::Int(bits) ==> (
            holds_host_state(*final(vm)) == holds_host_state(*old(vm))
            && host_commands(*final(vm)) == commands_pushed(*old(vm), HostCommand::SetPosition {
                entity: bits as u64,
                x: number_spec(arg_spec(args@, 0)),
                y: number_spec(arg_spec(args@, 1)),
                z: number_spec(arg_spec(args@, 2)),
            })),
        !(current_entity_spec(*old(vm)) is Int) ==> *final(vm) == *old(vm),
{
    match current_entity(vm) {
        RubyValue::Int(bits) => {
            let x = number_arg(arg_at(args, 0));
            let y = number_arg(arg_at(args, 1));
            let z = number_arg(arg_at(args, 2));
            push_command(vm, HostCommand::SetPosition { entity: bits as u64, x, y, z });
        }
        _ => {}
    }
    Ok(RubyValue::Nil)
}

/// `Rubevy.set_position entity, x, y, z`: any entity is moved.
fn native_set_position(vm: &mut Vm, args: &[RubyValue]) -> (r: Result<RubyValue, VmError>)
    ensures
        r is Ok ==> r == Ok::<RubyValue, VmError>(RubyValue::Nil),
        known_entity(*old(vm), arg_spec(args@, 0)) matches Some(bits) ==> r is Ok
            && holds_host_state(*final(vm)) == holds_host_state(*old(vm))
            && host_commands(*final(vm)) == commands_pushed(*old(vm), HostCommand::SetPosition {
                entity: bits,
                x: number_spec(arg_spec(args@, 1)),
                y: number_spec(arg_spec(args@, 2)),
                z: number_spec(arg_spec(args@, 3)),
            })
            && heap_same(*old(vm), *final(vm)),
        r is Ok && holds_host_state(*final(vm)) ==> (newest(*final(vm)) matches HostCommand::SetPosition { x, y, z, .. }
            && at_coordinates(x, y, z, args@, 1)),
{
    let bits = entity_arg(vm, arg_at(args, 0))?;
    let x = number_arg(arg_at(args, 1));
    let y = number_arg(arg_at(args, 2));
    let z = number_arg(arg_at(args, 3));
    push_command(vm, HostCommand::SetPosition { entity: bits, x, y, z });
    Ok(RubyValue::Nil)
}

/// The arguments of a question as the game gets them: `asked[i]` stands for `args[i + 1]`,
/// and a number is handed on as it is.
pub open spec fn asked_as(asked: Seq<Arg<RubyValue>>, args: Seq<RubyValue>) -> bool {
    &&& asked.len() + 1 == args.len()
    &&& forall|i: int| 0 <= i < asked.len() && (args[i + 1] is Int || args[i + 1] is Float)
        ==> #[trigger] asked[i] == Arg::Num(args[i + 1])
}

/// A question read without running Ruby code: what is asked for is a String, and every
/// other argument is read plainly.
pub open spec fn all_plain(vm: Vm, args: Seq<RubyValue>) -> bool {
    &&& args.len() > 0
    &&& string_arg(vm, Some(args[0])) is Some
    &&& forall|j: int| 1 <= j < args.len() ==> #[trigger] plain_arg(vm, args[j])
}

/// The question `Rubevy.ask` left, for the queue `q`: asked for by the task's entity (0 where
/// it carries none), its numbers as they are, and, where nothing had to be converted by Ruby
/// code, what is asked for and every argument exactly as [`reads_as`] reads them.
pub open spec fn asked_on(c: HostCommand, q: ObjId, before: Vm, args: Seq<RubyValue>) -> bool {
    match c {
        HostCommand::Ask { entity, kind, args: asked, queue } => {
            &&& entity == asking_entity(current_entity_spec(before))
            &&& queue == q
            &&& asked_as(asked@, args)
            &&& all_plain(before, args) ==> kind@ == string_arg(before, Some(args[0])).unwrap()
                && forall|j: int| 0 <= j < asked@.len() ==> #[trigger] reads_as(before, args[j + 1], asked@[j])
        },
        _ => false,
    }
}

/// What `Rubevy.ask` answered: on success the queue its question waits on, registered with
/// the collector, and the question the newest command where the VM holds a queue.
pub open spec fn asked_with(r: Result<RubyValue, VmError>, before: Vm, after: Vm, args: Seq<RubyValue>) -> bool {
    match r {
        Ok(RubyValue::Obj(q)) => gc_count(after, q) > 0
            && (holds_host_state(after) ==> asked_on(newest(after), q, before, args)),
        Ok(_) => false,
        Err(_) => true,
    }
}

/// `Rubevy.ask("scan", 40)`: the game answers it, this frame or a later one, and the script
/// waits on the queue this answers meanwhile (its task is parked, so it costs nothing).
/// Without the name of what is asked for it raises ArgumentError and leaves nothing: no
/// command, no registration.
fn native_ask(vm: &mut Vm, args: &[RubyValue]) -> (r: Result<RubyValue, VmError>)
    ensures
        args@.len() == 0 ==> r is Err && keeps_host(*old(vm), *final(vm)) && heap_same(*old(vm), *final(vm)),
        asked_with(r, *old(vm), *final(vm), args@),
{
    if args.len() == 0 {
        return Err(vm_raise_arg(vm, "ask needs what to ask for"));
    }
    let ghost start = *vm;
    let entity = match current_entity(vm) {
        RubyValue::Int(bits) => bits as u64,
        _ => 0,
    };
    let kind = text_arg(vm, arg_at(args, 0))?;
    let mut asked: Vec<Arg<RubyValue>> = Vec::new();
    let mut i: usize = 1;
    while i < args.len()
        invariant
            1 <= i <= args@.len(),
            asked@.len() == i - 1,
            forall|j: int| 0 <= j < asked@.len() && (args@[j + 1] is Int || args@[j + 1] is Float)
                ==> #[trigger] asked@[j] == Arg::Num(args@[j + 1]),
            all_plain(start, args@) ==> *vm == start
                && (forall|j: int| 0 <= j < asked@.len() ==> #[trigger] reads_as(start, args@[j + 1], asked@[j])),
        decreases args@.len() - i,
    {
        proof {
            if all_plain(start, args@) {
                assert(plain_arg(start, args@[i as int]));
            }
        }
        let a = ask_arg(vm, args[i]);
        asked.push(a);
        i = i + 1;
    }
    let queue = vm_task_queue_new(vm)?;
    vm_gc_register(vm, queue);
    let c = HostCommand::Ask { entity, kind, args: asked, queue };
    push_command(vm, c);
    Ok(RubyValue::Obj(queue))
}

/// The natives as the VM calls them: the arguments read, the native run, its answer handed
/// back.
fn call_log(vm: &mut Vm, args: &[Value]) -> Result<Value, VmError> {
    let args = ruby_args(args);
    native_result(native_log(vm, args.as_slice()))
}

fn call_spawn(vm: &mut Vm, args: &[Value]) -> Result<Value, VmError> {
    let args = ruby_args(args);
    native_result(native_spawn(vm, args.as_slice()))
}

fn call_despawn(vm: &mut Vm, args: &[Value]) -> Result<Value, VmError> {
    let args = ruby_args(args);
    native_result(native_despawn(vm, args.as_slice()))
}

fn call_entity(vm: &mut Vm, entity_class: ObjId) -> Result<Value, VmError> {
    native_result(native_entity(vm, entity_class))
}

fn call_move_to(vm: &mut Vm, args: &[Value]) -> Result<Value, VmError> {
    let args = ruby_args(args);
    native_result(native_move_to(vm, args.as_slice()))
}

fn call_set_position(vm: &mut Vm, args: &[Value]) -> Result<Value, VmError> {
    let args = ruby_args(args);
    native_result(native_set_position(vm, args.as_slice()))
}

fn call_ask(vm: &mut Vm, args: &[Value]) -> Result<Value, VmError> {
    let args = ruby_args(args);
    native_result(native_ask(vm, args.as_slice()))
}

/// `c` is the class `Rubevy::Entity` was made as: a class on the heap, with `to_i`, `inspect`
/// and `to_s` of its own.
pub open spec fn entity_class_ready(vm: Vm, c: ObjId) -> bool {
    &&& on_heap(vm, c)
    &&& is_class_obj(vm, c)
    &&& has_native(vm, c, "to_i"@)
    &&& has_native(vm, c, "inspect"@)
    &&& has_native(vm, c, "to_s"@)
}

/// `sc` has the methods of `Rubevy`.
pub open spec fn rubevy_natives(vm: Vm, sc: ObjId) -> bool {
    &&& has_native(vm, sc, "log"@)
    &&& has_native(vm, sc, "spawn"@)
    &&& has_native(vm, sc, "despawn"@)
    &&& has_native(vm, sc, "entity"@)
    &&& has_native(vm, sc, "move_to"@)
    &&& has_native(vm, sc, "ask"@)
    &&& has_native(vm, sc, "set_position"@)
}

/// Defines a method of `Rubevy::Entity` that answers an entity object's text: `f` is given
/// the object's handle and answers what Bevy's name for the entity makes of it
/// ([`entity_inspect_text`]), whatever the handle.
fn define_entity_text<F>(vm: &mut Vm, class: ObjId, name: &str, f: F)
    where F: Fn(u64) -> String + Send + Sync + 'static,
    requires
        on_heap(*old(vm), class),
        is_class_obj(*old(vm), class),
        forall|h: u64, s: String| #[trigger] call_ensures(f, (h,), s) ==> s@ == entity_inspect_text(h),
    ensures
        has_native(*final(vm), class, name@),
        natives_kept(*old(vm), *final(vm)),
        keeps_host(*old(vm), *final(vm)),
        heap_same(*old(vm), *final(vm)),
{
    vm_define_handle_text(vm, class, name, f);
}

/// Defines a method of `Rubevy::Entity` that answers an entity object's Integer: `f` is
/// given the object's handle and answers its 64 bits, as an Integer, whatever the handle.
fn define_entity_int<F>(vm: &mut Vm, class: ObjId, name: &str, f: F)
    where F: Fn(u64) -> i64 + Send + Sync + 'static,
    requires
        on_heap(*old(vm), class),
        is_class_obj(*old(vm), class),
        forall|h: u64, i: i64| #[trigger] call_ensures(f, (h,), i) ==> i == h as i64,
    ensures
        has_native(*final(vm), class, name@),
        natives_kept(*old(vm), *final(vm)),
        keeps_host(*old(vm), *final(vm)),
        heap_same(*old(vm), *final(vm)),
{
    vm_define_handle_int(vm, class, name, f);
}

/// Defines `Rubevy::Entity`, the class of the object a script holds an entity in, and
/// answers it. The class is made and named the way Ruby does it, `Class.new(Object)` and
/// `Rubevy.const_set(:Entity, it)`, which also gives it its name. `==`, `eql?` and `hash`
/// are the VM's own for Data objects (by handle); `to_i` answers the handle, `inspect` and
/// `to_s` Bevy's name for the entity ([`entity_to_i`], [`entity_inspect`]).
pub fn define_entity_class(vm: &mut Vm, module: ObjId) -> (r: Result<ObjId, String>)
    requires
        on_heap(*old(vm), module),
    ensures
        r matches Ok(c) ==> entity_class_ready(*final(vm), c),
{
    let new = vm_intern(vm, "new");
    let object = RubyValue::Obj(vm_object_class(vm));
    let class = RubyValue::Obj(vm_class_class(vm));
    let made = match vm_funcall(vm, class, new, vec![object], RubyValue::Nil) {
        Ok(v) => v,
        Err(e) => return Err(vm_describe_error(vm, &e)),
    };
    if !readable(vm, RubyValue::Obj(module)) {
        return Err(String::from_str("the module Rubevy is gone"));
    }
    let ghost after_new = *vm;
    let const_set = vm_intern(vm, "const_set");
    let ghost mid = *vm;
    let name = RubyValue::Sym(vm_intern(vm, "Entity"));
    proof {
        lemma_heap_same_trans(after_new, mid, *vm);
        lemma_live_kept(after_new, *vm, made);
        lemma_live_kept(after_new, *vm, RubyValue::Obj(module));
    }
    match vm_funcall(vm, RubyValue::Obj(module), const_set, vec![name, made], RubyValue::Nil) {
        Ok(_) => {}
        Err(e) => return Err(vm_describe_error(vm, &e)),
    }
    let entity = match made {
        RubyValue::Obj(o) => o,
        _ => return Err(String::from_str("Class.new answered something other than a class")),
    };
    if vm_slot_free(vm, entity) || !vm_is_class(vm, entity) {
        return Err(String::from_str("Class.new answered something other than a class"));
    }
    define_entity_int(vm, entity, "to_i", |handle: u64| -> (i: i64)
        ensures
            i == handle as i64,
        { entity_to_i(handle) });
    define_entity_text(vm, entity, "inspect", |handle: u64| -> (s: String)
        ensures
            s@ == entity_inspect_text(handle),
        { entity_inspect(handle) });
    define_entity_text(vm, entity, "to_s", |handle: u64| -> (s: String)
        ensures
            s@ == entity_inspect_text(handle),
        { entity_inspect(handle) });
    Ok(entity)
}

/// Defines the `Rubevy` module and its methods, and answers the `Rubevy::Entity` class.
/// The methods are closures: they carry the entity class, which is what lets
/// `Rubevy.entity` build entity objects.
pub fn install_host_api(vm: &mut Vm) -> (r: Result<ObjId, String>)
    ensures
        r matches Ok(c) ==> entity_class_ready(*final(vm), c),
        r is Ok ==> exists|sc: ObjId| #[trigger] rubevy_natives(*final(vm), sc),
{
    let m = vm_define_module(vm, "Rubevy");
    let entity_class = define_entity_class(vm, m)?;
    if !readable(vm, RubyValue::Obj(m)) {
        return Err(String::from_str("the module Rubevy is gone"));
    }
    let sc = match vm_singleton_class(vm, m) {
        Ok(c) => c,
        Err(e) => return Err(vm_describe_error(vm, &e)),
    };
    vm_define_closure(vm, sc, "log", |vm: &mut Vm, s: Value, a: &[Value], b: Value| call_log(vm, a));
    vm_define_closure(vm, sc, "spawn", |vm: &mut Vm, s: Value, a: &[Value], b: Value| call_spawn(vm, a));
    vm_define_closure(vm, sc, "despawn", |vm: &mut Vm, s: Value, a: &[Value], b: Value| call_despawn(vm, a));
    vm_define_closure(vm, sc, "entity", move |vm: &mut Vm, s: Value, a: &[Value], b: Value| call_entity(vm, entity_class));
    vm_define_closure(vm, sc, "move_to", |vm: &mut Vm, s: Value, a: &[Value], b: Value| call_move_to(vm, a));
    vm_define_closure(vm, sc, "ask", |vm: &mut Vm, s: Value, a: &[Value], b: Value| call_ask(vm, a));
    vm_define_closure(vm, sc, "set_position", |vm: &mut Vm, s: Value, a: &[Value], b: Value| call_set_position(vm, a));
    assert(rubevy_natives(*vm, sc));
    Ok(entity_class)
}

} // verus!
