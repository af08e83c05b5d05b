//! The SabiRuby VM as the bridge uses it: its types, and one trusted item per entry point.
//!
//! The VM's state is modelled as far as the bridge reads it back, each part as a name for
//! what the VM answers: which heap slots hold an object and which of those are classes, how
//! often the host registered an object with the collector, how many symbols there are, the
//! host value and its queue, the running task, instance variables, Data objects, Strings,
//! Arrays, Hashes with Symbol keys, globals, constants, native methods, a task's progress, and
//! what was written. An entry point that takes an object requires it to be on the heap, as
//! the VM indexes its heap with it. One that runs no Ruby code says which of these it leaves
//! as they were ([`heap_same`]); one that may run Ruby code says only what a collection and
//! Ruby code leave standing ([`ruby_ran`]): registered objects stay, registrations are not
//! taken away (Ruby code reaches them only through this library's natives, which only add).
use vstd::prelude::*;
use sabiruby::{RunLimits, Value, Vm, VmError};
use sabiruby::symbol::Sym;
use sabiruby::value::ObjId;
use crate::asset::rite_refusal;
use crate::command::{HostCommand, HostState};
use std::time::Duration;

verus! {

/// `sabiruby::Vm`: the one VM the scripts share.
#[verifier::external_type_specification]
#[verifier::external_body]
pub struct ExVm(sabiruby::Vm);

/// `sabiruby::Value`: a Ruby value, with its variants, read through [`ruby_value`].
#[verifier::external_type_specification]
pub struct ExValue(sabiruby::Value);

/// `sabiruby::value::ObjId`: a handle to an object on the VM's heap.
#[verifier::external_type_specification]
#[verifier::external_body]
pub struct ExObjId(sabiruby::value::ObjId);

/// `sabiruby::symbol::Sym`: a symbol of the VM's table.
#[verifier::external_type_specification]
#[verifier::external_body]
pub struct ExSym(sabiruby::symbol::Sym);

/// `sabiruby::VmError`: an exception being raised, or a failure of the VM.
#[verifier::external_type_specification]
#[verifier::external_body]
pub struct ExVmError(sabiruby::VmError);

/// `sabiruby::RunLimits`: what one turn of the scheduler may spend.
#[verifier::external_type_specification]
#[verifier::external_body]
pub struct ExRunLimits(sabiruby::RunLimits);

/// A Float of the VM, as the VM's own value. Only [`ruby_value`] makes one, from a Float.
#[derive(Clone, Copy, Debug)]
pub struct FloatValue {
    v: Value,
}

/// A Ruby value as the bridge reads it: an immediate with what it carries, or a handle to
/// an object on the VM's heap. The bridge hands Floats on and never computes with one.
#[derive(Clone, Copy, Debug)]
pub enum RubyValue {
    Nil,
    False,
    True,
    Int(i64),
    Float(FloatValue),
    Sym(Sym),
    Obj(ObjId),
}

/// The [`RubyValue`] a `sabiruby::Value` is: the same variant with the same payload; a Float
/// is kept as it is.
pub closed spec fn ruby_of(v: Value) -> RubyValue {
    match v {
        Value::Nil => RubyValue::Nil,
        Value::False => RubyValue::False,
        Value::True => RubyValue::True,
        Value::Int(i) => RubyValue::Int(i),
        Value::Float(_) => RubyValue::Float(FloatValue { v }),
        Value::Sym(s) => RubyValue::Sym(s),
        Value::Obj(o) => RubyValue::Obj(o),
    }
}

/// The `sabiruby::Value` a [`RubyValue`] stands for.
pub closed spec fn value_spec(r: RubyValue) -> Value {
    match r {
        RubyValue::Nil => Value::Nil,
        RubyValue::False => Value::False,
        RubyValue::True => Value::True,
        RubyValue::Int(i) => Value::Int(i),
        RubyValue::Float(f) => f.v,
        RubyValue::Sym(s) => Value::Sym(s),
        RubyValue::Obj(o) => Value::Obj(o),
    }
}

/// A `FloatValue` holds a Float.
pub closed spec fn is_float(f: FloatValue) -> bool {
    f.v is Float
}

/// A `sabiruby::Value` as a [`RubyValue`]: its variant, its payload moved over.
pub fn ruby_value(v: Value) -> (r: RubyValue)
    ensures
        r == ruby_of(v),
        r matches RubyValue::Float(f) ==> is_float(f),
{
    match v {
        Value::Nil => RubyValue::Nil,
        Value::False => RubyValue::False,
        Value::True => RubyValue::True,
        Value::Int(i) => RubyValue::Int(i),
        Value::Float(_) => RubyValue::Float(FloatValue { v }),
        Value::Sym(s) => RubyValue::Sym(s),
        Value::Obj(o) => RubyValue::Obj(o),
    }
}

/// A [`RubyValue`] as the `sabiruby::Value` it stands for.
pub fn value_of(r: RubyValue) -> (v: Value)
    ensures
        v == value_spec(r),
{
    match r {
        RubyValue::Nil => Value::Nil,
        RubyValue::False => Value::False,
        RubyValue::True => Value::True,
        RubyValue::Int(i) => Value::Int(i),
        RubyValue::Float(f) => f.v,
        RubyValue::Sym(s) => Value::Sym(s),
        RubyValue::Obj(o) => Value::Obj(o),
    }
}

/// Reading a VM value and handing it back gives the value itself, and an Integer, a
/// Symbol or an object is read as itself: conversion loses nothing.
pub proof fn lemma_values_round_trip(v: Value)
    ensures
        value_spec(ruby_of(v)) == v,
        v matches Value::Int(i) ==> ruby_of(v) == RubyValue::Int(i),
        v matches Value::Obj(o) ==> ruby_of(v) == RubyValue::Obj(o),
        v matches Value::Sym(s) ==> ruby_of(v) == RubyValue::Sym(s),
        v is Nil ==> ruby_of(v) == RubyValue::Nil,
        v is True ==> ruby_of(v) == RubyValue::True,
        v is False ==> ruby_of(v) == RubyValue::False,
        v is Float <==> ruby_of(v) is Float,
{
}

/// Handing a value to the VM and reading it back gives the value itself.
pub proof fn lemma_values_back_and_forth(r: RubyValue)
    requires
        r matches RubyValue::Float(f) ==> is_float(f),
    ensures
        ruby_of(value_spec(r)) == r,
{
}

// ---------------------------------------------------------------- the heap

/// Whether the heap slot of `id` holds an object (`!Heap::is_free`).
pub uninterp spec fn on_heap(vm: Vm, id: ObjId) -> bool;

/// Whether the object in the slot of `id` is a class or a module.
pub uninterp spec fn is_class_obj(vm: Vm, id: ObjId) -> bool;

/// How many registrations `Vm::gc_register` holds for `id`.
pub uninterp spec fn gc_count(vm: Vm, id: ObjId) -> nat;

/// How many symbols the VM's table holds.
pub uninterp spec fn sym_count(vm: Vm) -> nat;

/// The number of a symbol (`Sym.0`).
pub uninterp spec fn sym_index(s: Sym) -> nat;

/// `s` is a symbol of this VM's table.
pub open spec fn sym_ok(vm: Vm, s: Sym) -> bool {
    sym_index(s) < sym_count(vm)
}

/// A value the VM can read: an object must be on the heap, a symbol in the table.
pub open spec fn value_live(vm: Vm, v: RubyValue) -> bool {
    match v {
        RubyValue::Obj(o) => on_heap(vm, o),
        RubyValue::Sym(s) => sym_ok(vm, s),
        _ => true,
    }
}

/// Every value of `vs` can be read.
pub open spec fn values_live(vm: Vm, vs: Seq<RubyValue>) -> bool {
    forall|i: int| 0 <= i < vs.len() ==> #[trigger] value_live(vm, vs[i])
}

/// The class `Object`.
pub uninterp spec fn core_object(vm: Vm) -> ObjId;

/// The `(tag, handle)` of a Data object (`Vm::data_of`), `None` for any other value.
pub uninterp spec fn data_of_value(vm: Vm, v: RubyValue) -> Option<(u32, u64)>;

/// The bytes of a String (`Vm::str_bytes`), `None` for any other value.
pub uninterp spec fn string_bytes(vm: Vm, v: RubyValue) -> Option<Seq<u8>>;

/// The items of an Array, `None` for any other value.
pub uninterp spec fn array_items(vm: Vm, v: RubyValue) -> Option<Seq<RubyValue>>;

/// A Hash, not frozen, whose keys are all Symbols: what `hash_set` fills without running
/// Ruby code.
pub uninterp spec fn sym_hash(vm: Vm, h: RubyValue) -> bool;

/// The value a Hash holds under a key, where it holds one.
pub uninterp spec fn hash_entry(vm: Vm, h: RubyValue, k: RubyValue) -> Option<RubyValue>;

/// The global variable `name` (written with its `$`).
pub uninterp spec fn global_of(vm: Vm, name: Seq<char>) -> RubyValue;

/// Whether `class` has a native method `name` of its own.
pub uninterp spec fn has_native(vm: Vm, class: ObjId, name: Seq<char>) -> bool;

/// The exception object an error carries, or what an error describes, is still there to be
/// read.
pub uninterp spec fn err_live(vm: Vm, e: VmError) -> bool;

/// What a call that runs no Ruby code leaves as it was: every object stays where it is and
/// what it is, every registration, every symbol, what Data objects, Strings, Arrays and Hashes
/// hold, and the class `Object`. New objects and symbols may come.
pub open spec fn heap_same(before: Vm, after: Vm) -> bool {
    &&& forall|id: ObjId| #[trigger] on_heap(before, id) ==> on_heap(after, id)
        && is_class_obj(after, id) == is_class_obj(before, id)
    &&& forall|id: ObjId| #[trigger] gc_count(after, id) == gc_count(before, id)
    &&& sym_count(before) <= sym_count(after)
    &&& core_object(after) == core_object(before)
    &&& forall|v: RubyValue| #[trigger] value_live(before, v) ==> data_of_value(after, v) == data_of_value(before, v)
        && string_bytes(after, v) == string_bytes(before, v) && array_items(after, v) == array_items(before, v)
        && sym_hash(after, v) == sym_hash(before, v)
    &&& forall|h: RubyValue, k: RubyValue| value_live(before, h) ==> #[trigger] hash_entry(after, h, k) == hash_entry(before, h, k)
    &&& symbols_kept(before, after)
    &&& forall|t: ObjId| #[trigger] on_heap(before, t) ==> task_priority(after, t) == task_priority(before, t)
        && task_title(after, t) == task_title(before, t)
}

/// Symbols, once made, stay, and keep their names.
pub open spec fn symbols_kept(before: Vm, after: Vm) -> bool {
    forall|n: Seq<char>| #[trigger] interned(before, n) ==> interned(after, n) && symbol_of(after, n) == symbol_of(before, n)
}

/// What stands after Ruby code ran, a collection perhaps among it: registered objects stay
/// where they are and what they are, registrations and symbols are not taken away, and the
/// class `Object` is the same.
pub open spec fn ruby_ran(before: Vm, after: Vm) -> bool {
    &&& forall|id: ObjId| #[trigger] on_heap(before, id) && gc_count(before, id) > 0 ==> on_heap(after, id)
        && is_class_obj(after, id) == is_class_obj(before, id)
    &&& forall|id: ObjId| #[trigger] gc_count(after, id) >= gc_count(before, id)
    &&& sym_count(before) <= sym_count(after)
    &&& core_object(after) == core_object(before)
    &&& symbols_kept(before, after)
}

/// What can be read before a call that runs no Ruby code can be read after it.
pub proof fn lemma_live_kept(before: Vm, after: Vm, v: RubyValue)
    requires
        heap_same(before, after),
        value_live(before, v),
    ensures
        value_live(after, v),
{
    match v {
        RubyValue::Obj(o) => { assert(on_heap(before, o)); }
        _ => {}
    }
}

/// Two calls that run no Ruby code leave, together, what each leaves.
pub proof fn lemma_heap_same_trans(a: Vm, b: Vm, c: Vm)
    requires
        heap_same(a, b),
        heap_same(b, c),
    ensures
        heap_same(a, c),
{
    assert forall|v: RubyValue| #[trigger] value_live(a, v) implies value_live(c, v)
        && data_of_value(c, v) == data_of_value(a, v) && string_bytes(c, v) == string_bytes(a, v)
        && array_items(c, v) == array_items(a, v) && sym_hash(c, v) == sym_hash(a, v) by {
        lemma_live_kept(a, b, v);
        lemma_live_kept(b, c, v);
    }
    assert forall|h: RubyValue, k: RubyValue| value_live(a, h) implies #[trigger] hash_entry(c, h, k) == hash_entry(a, h, k) by {
        lemma_live_kept(a, b, h);
    }
    assert forall|t: ObjId| #[trigger] on_heap(a, t) implies on_heap(c, t) && is_class_obj(c, t) == is_class_obj(a, t)
        && task_priority(c, t) == task_priority(a, t) && task_title(c, t) == task_title(a, t) by {
        assert(on_heap(b, t));
    }
    assert forall|n: Seq<char>| #[trigger] interned(a, n) implies interned(c, n) && symbol_of(c, n) == symbol_of(a, n) by {
        assert(interned(b, n));
    }
    assert forall|id: ObjId| #[trigger] gc_count(c, id) == gc_count(a, id) by {
        assert(gc_count(b, id) == gc_count(a, id));
    }
}

/// Native methods defined before are defined still.
pub open spec fn natives_kept(before: Vm, after: Vm) -> bool {
    forall|c: ObjId, n: Seq<char>| #[trigger] has_native(before, c, n) ==> has_native(after, c, n)
}

/// `Heap::is_free`: whether the slot of `id` holds nothing (a slot past the end, which a
/// sweep cut off, included).
#[verifier::external_body]
pub(crate) fn vm_slot_free(vm: &Vm, id: ObjId) -> (r: bool)
    ensures
        r == !on_heap(*vm, id),
{
    vm.heap.is_free(id)
}

/// `Heap::is_class`: whether an object is a class or a module.
#[verifier::external_body]
pub(crate) fn vm_is_class(vm: &Vm, id: ObjId) -> (r: bool)
    requires
        on_heap(*vm, id),
    ensures
        r == is_class_obj(*vm, id),
{
    vm.heap.is_class(id)
}

/// `Interner::len`: how many symbols the table holds.
#[verifier::external_body]
pub(crate) fn vm_sym_count(vm: &Vm) -> (r: usize)
    ensures
        r == sym_count(*vm),
{
    vm.syms.len()
}

/// `Sym.0`: the number of a symbol.
#[verifier::external_body]
pub(crate) fn sym_number(s: Sym) -> (r: u32)
    ensures
        r == sym_index(s),
{
    s.0
}

// ---------------------------------------------------------------- the host value

/// Whether the VM holds a `HostState`: what `Vm::set_host_state` left there, where it was
/// one. The VM keeps one host value and never looks inside it.
pub uninterp spec fn holds_host_state(vm: Vm) -> bool;

/// The commands waiting in the `HostState` the VM holds, oldest first.
pub uninterp spec fn host_commands(vm: Vm) -> Seq<HostCommand>;

/// The host value is as it was: a call that does not reach it.
pub open spec fn keeps_host(before: Vm, after: Vm) -> bool {
    &&& holds_host_state(after) == holds_host_state(before)
    &&& host_commands(after) == host_commands(before)
}

/// `r` is what was in the VM before `state` went in: the `HostState` it held, now holding
/// `state`; or `None`, and the VM as it was, where it held none.
pub open spec fn swapped_in(r: Option<HostState>, before: Vm, after: Vm, state: HostState) -> bool {
    if holds_host_state(before) {
        &&& holds_host_state(after)
        &&& host_commands(after) == state.queued()
        &&& r is Some
        &&& r.unwrap().queued() == host_commands(before)
    } else {
        &&& r is None
        &&& keeps_host(before, after)
    }
}

/// `r` is the `HostState` the VM holds, where it holds one.
pub open spec fn host_view(r: Option<&HostState>, vm: Vm) -> bool {
    match r {
        Some(s) => holds_host_state(vm) && s.queued() == host_commands(vm),
        None => !holds_host_state(vm),
    }
}

/// `Vm::set_host_state`: leaves the plugin's state in the VM, replacing what was there. The
/// VM then holds that `HostState`, and its queue is what the state's queue was.
#[verifier::external_body]
pub(crate) fn vm_set_host_state(vm: &mut Vm, state: HostState)
    ensures
        holds_host_state(*final(vm)),
        host_commands(*final(vm)) == state.queued(),
        heap_same(*old(vm), *final(vm)),
{
    vm.set_host_state(state)
}

/// `Vm::host_state_mut`, and `std::mem::replace` on what it answers: `state` goes in where
/// the VM holds a `HostState`, and the one it held comes out.
#[verifier::external_body]
pub(crate) fn vm_replace_host_state(vm: &mut Vm, state: HostState) -> (r: Option<HostState>)
    ensures
        swapped_in(r, *old(vm), *final(vm), state),
        heap_same(*old(vm), *final(vm)),
{
    vm.host_state_mut::<HostState>().map(|slot| std::mem::replace(slot, state))
}

/// `Vm::host_state`: the `HostState` the VM holds, where it holds one.
#[verifier::external_body]
pub(crate) fn vm_host_state(vm: &Vm) -> (r: Option<&HostState>)
    ensures
        host_view(r, *vm),
{
    vm.host_state::<HostState>()
}

// ---------------------------------------------------------------- the VM

/// `Vm::with_mrblib`: a VM with the core classes and mruby's mrblib loaded. A new VM holds
/// no host value.
#[verifier::external_body]
pub(crate) fn vm_with_mrblib() -> (r: Result<Vm, VmError>)
    ensures
        r matches Ok(vm) ==> !holds_host_state(vm),
{
    Vm::with_mrblib()
}

/// `VmError`'s `Debug` text.
#[verifier::external_body]
pub(crate) fn error_debug(e: &VmError) -> String {
    format!("{e:?}")
}

/// `Vm::task_external_clock`: whether the host moves the scheduler's clock itself.
#[verifier::external_body]
pub(crate) fn vm_task_external_clock(vm: &mut Vm, yes: bool)
    ensures
        keeps_host(*old(vm), *final(vm)),
        heap_same(*old(vm), *final(vm)),
{
    vm.task_external_clock(yes)
}

/// The symbol a name has in this VM's table, where [`interned`] says it has one.
pub uninterp spec fn symbol_of(vm: Vm, name: Seq<char>) -> Sym;

/// Whether the VM's table has a symbol for this name.
pub uninterp spec fn interned(vm: Vm, name: Seq<char>) -> bool;

/// `Vm::intern`: the symbol for a name, made where there is none.
#[verifier::external_body]
pub(crate) fn vm_intern(vm: &mut Vm, name: &str) -> (r: Sym)
    ensures
        r == symbol_of(*final(vm), name@),
        interned(*final(vm), name@),
        sym_ok(*final(vm), r),
        forall|n: Seq<char>| #[trigger] interned(*old(vm), n) && n != name@ ==> symbol_of(*old(vm), n) != r,
        forall|c: ObjId, n: Sym| #[trigger] const_of(*final(vm), c, n) == const_of(*old(vm), c, n),
        keeps_host(*old(vm), *final(vm)),
        heap_same(*old(vm), *final(vm)),
        natives_kept(*old(vm), *final(vm)),
{
    vm.intern(name)
}

/// `vm.core.object`: the class `Object`, which the VM always holds.
#[verifier::external_body]
pub(crate) fn vm_object_class(vm: &Vm) -> (r: ObjId)
    ensures
        r == core_object(*vm),
        on_heap(*vm, r),
        is_class_obj(*vm, r),
{
    vm.core.object
}

/// `vm.core.class`: the class `Class`, which the VM always holds.
#[verifier::external_body]
pub(crate) fn vm_class_class(vm: &Vm) -> (r: ObjId)
    ensures
        on_heap(*vm, r),
        is_class_obj(*vm, r),
{
    vm.core.class
}

/// A constant of a class or its ancestors, where it has one.
pub uninterp spec fn const_of(vm: Vm, class: ObjId, name: Sym) -> Option<RubyValue>;

/// `Vm::const_get`: walks the class and its ancestors; no Ruby code runs. What a constant
/// holds is on the heap.
#[verifier::external_body]
pub(crate) fn vm_const_get(vm: &Vm, class: ObjId, name: Sym) -> (r: Option<RubyValue>)
    requires
        on_heap(*vm, class),
        is_class_obj(*vm, class),
    ensures
        r == const_of(*vm, class, name),
        r matches Some(v) ==> value_live(*vm, v),
{
    vm.const_get(class, name).map(ruby_value)
}

/// `Vm::funcall`: sends `mid` to `recv` with `args` and the block `blk`. Runs Ruby code.
#[verifier::external_body]
pub(crate) fn vm_funcall(vm: &mut Vm, recv: RubyValue, mid: Sym, args: Vec<RubyValue>, blk: RubyValue) -> (r: Result<RubyValue, VmError>)
    requires
        value_live(*old(vm), recv),
        values_live(*old(vm), args@),
        value_live(*old(vm), blk),
        sym_ok(*old(vm), mid),
    ensures
        ruby_ran(*old(vm), *final(vm)),
        r matches Ok(v) ==> value_live(*final(vm), v),
        r matches Err(e) ==> err_live(*final(vm), e),
{
    let args: Vec<Value> = args.into_iter().map(value_of).collect();
    vm.funcall(value_of(recv), mid, &args, value_of(blk)).map(ruby_value)
}

/// `Vm::describe_error`: an error as a line of text. May run Ruby code (`message`).
#[verifier::external_body]
pub(crate) fn vm_describe_error(vm: &mut Vm, e: &VmError) -> (r: String)
    requires
        err_live(*old(vm), *e),
    ensures
        ruby_ran(*old(vm), *final(vm)),
{
    vm.describe_error(e)
}

/// `Vm::set_on_free`: what to run, with a Data object's `(tag, handle)`, when the collector
/// takes one.
#[verifier::external_body]
pub(crate) fn vm_set_on_free<F>(vm: &mut Vm, hook: F)
    where F: Fn(u32, u64) + Send + Sync + 'static,
    ensures
        keeps_host(*old(vm), *final(vm)),
        heap_same(*old(vm), *final(vm)),
{
    vm.set_on_free(Box::new(hook))
}

/// `Vm::define_module`: the object the constant `name` of `Object` holds, or a new module
/// of that name where there is none.
#[verifier::external_body]
pub(crate) fn vm_define_module(vm: &mut Vm, name: &str) -> (r: ObjId)
    ensures
        on_heap(*final(vm), r),
        keeps_host(*old(vm), *final(vm)),
        heap_same(*old(vm), *final(vm)),
        natives_kept(*old(vm), *final(vm)),
{
    vm.define_module(name)
}

/// The singleton class of an object, where it has one.
pub uninterp spec fn singleton_of(vm: Vm, o: ObjId) -> ObjId;

/// `Vm::singleton_class` of an object: its singleton class, made where there is none.
#[verifier::external_body]
pub(crate) fn vm_singleton_class(vm: &mut Vm, o: ObjId) -> (r: Result<ObjId, VmError>)
    requires
        on_heap(*old(vm), o),
    ensures
        r matches Ok(c) ==> c == singleton_of(*final(vm), o) && on_heap(*final(vm), c) && is_class_obj(*final(vm), c),
        r matches Err(e) ==> err_live(*final(vm), e),
        keeps_host(*old(vm), *final(vm)),
        heap_same(*old(vm), *final(vm)),
        natives_kept(*old(vm), *final(vm)),
{
    vm.singleton_class(Value::Obj(o))
}

/// `Vm::define_closure`: the native method `name` of `class` is the closure `f`. Installs it
/// without hooks, so no Ruby code runs.
#[verifier::external_body]
pub(crate) fn vm_define_closure<F>(vm: &mut Vm, class: ObjId, name: &str, f: F)
    where F: Fn(&mut Vm, Value, &[Value], Value) -> Result<Value, VmError> + Send + Sync + 'static,
    requires
        on_heap(*old(vm), class),
        is_class_obj(*old(vm), class),
    ensures
        has_native(*final(vm), class, name@),
        natives_kept(*old(vm), *final(vm)),
        keeps_host(*old(vm), *final(vm)),
        heap_same(*old(vm), *final(vm)),
{
    vm.define_closure(class, name, f)
}

/// `Vm::define_fn` for a method of a Data object that answers an Integer: `f` is given
/// the object's handle (`This<DataRef>`).
#[verifier::external_body]
pub(crate) fn vm_define_handle_int<F>(vm: &mut Vm, class: ObjId, name: &str, f: F)
    where F: Fn(u64) -> i64 + Send + Sync + 'static,
    requires
        on_heap(*old(vm), class),
        is_class_obj(*old(vm), class),
    ensures
        has_native(*final(vm), class, name@),
        natives_kept(*old(vm), *final(vm)),
        keeps_host(*old(vm), *final(vm)),
        heap_same(*old(vm), *final(vm)),
{
    vm.define_fn(class, name, move |this: sabiruby::convert::This<sabiruby::convert::DataRef>| f(this.handle))
}

/// `Vm::define_fn` for a method of a Data object that answers a String: `f` is given the
/// object's handle (`This<DataRef>`).
#[verifier::external_body]
pub(crate) fn vm_define_handle_text<F>(vm: &mut Vm, class: ObjId, name: &str, f: F)
    where F: Fn(u64) -> String + Send + Sync + 'static,
    requires
        on_heap(*old(vm), class),
        is_class_obj(*old(vm), class),
    ensures
        has_native(*final(vm), class, name@),
        natives_kept(*old(vm), *final(vm)),
        keeps_host(*old(vm), *final(vm)),
        heap_same(*old(vm), *final(vm)),
{
    vm.define_fn(class, name, move |this: sabiruby::convert::This<sabiruby::convert::DataRef>| f(this.handle))
}

/// `Vm::as_string`: the bytes of a String, read without running anything; for anything
/// else what `to_s` answers (Ruby code).
#[verifier::external_body]
pub(crate) fn vm_as_string(vm: &mut Vm, v: RubyValue) -> (r: Result<Vec<u8>, VmError>)
    requires
        value_live(*old(vm), v),
    ensures
        string_bytes(*old(vm), v) is Some ==> (r matches Ok(b) && b@ == string_bytes(*old(vm), v).unwrap())
            && *final(vm) == *old(vm),
        ruby_ran(*old(vm), *final(vm)),
        r matches Err(e) ==> err_live(*final(vm), e),
{
    vm.as_string(value_of(v))
}

/// `Vm::data_of`.
#[verifier::external_body]
pub(crate) fn vm_data_of(vm: &Vm, v: RubyValue) -> (r: Option<(u32, u64)>)
    requires
        value_live(*vm, v),
    ensures
        r == data_of_value(*vm, v),
        !(v is Obj) ==> r is None,
{
    vm.data_of(value_of(v))
}

/// The class an object was made of.
pub uninterp spec fn class_of(vm: Vm, v: RubyValue) -> ObjId;

/// `Vm::data_new`: a new Data object of `class` carrying `(tag, handle)`, which `data_of`
/// reads back. It allocates and does nothing else.
#[verifier::external_body]
pub(crate) fn vm_data_new(vm: &mut Vm, class: ObjId, tag: u32, handle: u64) -> (r: RubyValue)
    ensures
        r is Obj,
        value_live(*final(vm), r),
        data_of_value(*final(vm), r) == Some((tag, handle)),
        class_of(*final(vm), r) == class,
        keeps_host(*old(vm), *final(vm)),
        heap_same(*old(vm), *final(vm)),
{
    ruby_value(vm.data_new(class, tag, handle))
}

/// `Vm::expect_int`: a value read as an Integer, as `mrb_get_args("i")` reads it.
#[verifier::external_body]
pub(crate) fn vm_expect_int(vm: &mut Vm, v: RubyValue) -> (r: Result<i64, VmError>)
    requires
        value_live(*old(vm), v),
    ensures
        ruby_ran(*old(vm), *final(vm)),
        r matches Err(e) ==> err_live(*final(vm), e),
{
    vm.expect_int(value_of(v), "entity")
}

/// The task the scheduler is running in this VM, where it is running one.
pub uninterp spec fn running_task(vm: Vm) -> Option<ObjId>;

/// `Vm::task_running`. The running task is on the heap.
#[verifier::external_body]
pub(crate) fn vm_task_running(vm: &Vm) -> (r: Option<ObjId>)
    ensures
        r == running_task(*vm),
        r matches Some(t) ==> on_heap(*vm, t),
{
    vm.task_running()
}

/// An instance variable of an object in this VM; nil where it has none.
pub uninterp spec fn ivar_of(vm: Vm, obj: ObjId, name: Seq<char>) -> RubyValue;

/// `Vm::ivar_get`.
#[verifier::external_body]
pub(crate) fn vm_ivar_get(vm: &Vm, obj: ObjId, name: &str) -> (r: RubyValue)
    requires
        on_heap(*vm, obj),
    ensures
        r == ivar_of(*vm, obj, name@),
{
    ruby_value(vm.ivar_get(obj, name))
}

/// `Vm::ivar_set`: sets an instance variable of an object, which `ivar_get` then answers.
#[verifier::external_body]
pub(crate) fn vm_ivar_set(vm: &mut Vm, obj: ObjId, name: &str, v: RubyValue)
    requires
        on_heap(*old(vm), obj),
        value_live(*old(vm), v),
    ensures
        ivar_of(*final(vm), obj, name@) == v,
        keeps_host(*old(vm), *final(vm)),
        heap_same(*old(vm), *final(vm)),
{
    vm.ivar_set(obj, name, value_of(v))
}

/// `Vm::raise_arg`: an ArgumentError with this message, to return from a native.
#[verifier::external_body]
pub(crate) fn vm_raise_arg(vm: &mut Vm, msg: &str) -> (r: VmError)
    ensures
        err_live(*final(vm), r),
        keeps_host(*old(vm), *final(vm)),
        heap_same(*old(vm), *final(vm)),
{
    vm.raise_arg(msg)
}

/// `Vm::task_queue_new`: a `Task::Queue` a script can wait on, made by sending `new` to the
/// class, so Ruby code may run.
#[verifier::external_body]
pub(crate) fn vm_task_queue_new(vm: &mut Vm) -> (r: Result<ObjId, VmError>)
    ensures
        ruby_ran(*old(vm), *final(vm)),
        r matches Ok(q) ==> on_heap(*final(vm), q),
        r matches Err(e) ==> err_live(*final(vm), e),
{
    vm.task_queue_new()
}

/// `Vm::task_queue_push`: puts a value in a queue (by sending `push` to its items, so Ruby
/// code may run) and makes what waits on it ready.
#[verifier::external_body]
pub(crate) fn vm_task_queue_push(vm: &mut Vm, queue: ObjId, v: RubyValue) -> (r: Result<(), VmError>)
    requires
        on_heap(*old(vm), queue),
        value_live(*old(vm), v),
    ensures
        ruby_ran(*old(vm), *final(vm)),
        r matches Err(e) ==> err_live(*final(vm), e),
{
    vm.task_queue_push(queue, value_of(v))
}

/// `Vm::gc_register`: one more registration; the collector does not take the object while
/// it has one.
#[verifier::external_body]
pub(crate) fn vm_gc_register(vm: &mut Vm, id: ObjId)
    ensures
        gc_count(*final(vm), id) == gc_count(*old(vm), id) + 1,
        forall|o: ObjId| o != id ==> #[trigger] gc_count(*final(vm), o) == gc_count(*old(vm), o),
        forall|o: ObjId| #[trigger] on_heap(*old(vm), o) ==> on_heap(*final(vm), o)
            && is_class_obj(*final(vm), o) == is_class_obj(*old(vm), o),
        forall|o: ObjId, name: Seq<char>| #[trigger] ivar_of(*final(vm), o, name) == ivar_of(*old(vm), o, name),
        forall|t: ObjId| #[trigger] on_heap(*old(vm), t) ==> task_priority(*final(vm), t) == task_priority(*old(vm), t)
            && task_title(*final(vm), t) == task_title(*old(vm), t),
        symbols_kept(*old(vm), *final(vm)),
        sym_count(*final(vm)) == sym_count(*old(vm)),
        keeps_host(*old(vm), *final(vm)),
{
    vm.gc_register(id)
}

/// `Vm::gc_unregister`: drops one registration, where there is one.
#[verifier::external_body]
pub(crate) fn vm_gc_unregister(vm: &mut Vm, id: ObjId)
    ensures
        gc_count(*final(vm), id) == (if gc_count(*old(vm), id) > 0 { (gc_count(*old(vm), id) - 1) as nat } else { 0 }),
        forall|o: ObjId| o != id ==> #[trigger] gc_count(*final(vm), o) == gc_count(*old(vm), o),
        forall|o: ObjId| #[trigger] on_heap(*old(vm), o) ==> on_heap(*final(vm), o)
            && is_class_obj(*final(vm), o) == is_class_obj(*old(vm), o),
        forall|t: ObjId| #[trigger] on_heap(*old(vm), t) ==> task_priority(*final(vm), t) == task_priority(*old(vm), t)
            && task_title(*final(vm), t) == task_title(*old(vm), t),
        symbols_kept(*old(vm), *final(vm)),
        sym_count(*final(vm)) == sym_count(*old(vm)),
        keeps_host(*old(vm), *final(vm)),
{
    vm.gc_unregister(id)
}

/// The name of a symbol of this VM.
pub uninterp spec fn sym_text(vm: Vm, s: Sym) -> Seq<char>;

/// `Vm::sym_name`.
#[verifier::external_body]
pub(crate) fn vm_sym_name(vm: &Vm, s: Sym) -> (r: String)
    requires
        sym_ok(*vm, s),
    ensures
        r@ == sym_text(*vm, s),
{
    vm.sym_name(s)
}

/// `Vm::str_new`: a new String with these bytes.
#[verifier::external_body]
pub(crate) fn vm_str_new(vm: &mut Vm, bytes: &[u8]) -> (r: RubyValue)
    ensures
        r is Obj,
        value_live(*final(vm), r),
        string_bytes(*final(vm), r) == Some(bytes@),
        keeps_host(*old(vm), *final(vm)),
        heap_same(*old(vm), *final(vm)),
{
    ruby_value(vm.str_new(bytes))
}

/// `Vm::ary_new`: a new Array of these values.
#[verifier::external_body]
pub(crate) fn vm_ary_new(vm: &mut Vm, items: Vec<RubyValue>) -> (r: RubyValue)
    requires
        values_live(*old(vm), items@),
    ensures
        r is Obj,
        value_live(*final(vm), r),
        array_items(*final(vm), r) == Some(items@),
        keeps_host(*old(vm), *final(vm)),
        heap_same(*old(vm), *final(vm)),
{
    ruby_value(vm.ary_new(items.into_iter().map(value_of).collect()))
}

/// `Vm::hash_new`: a new, empty Hash.
#[verifier::external_body]
pub(crate) fn vm_hash_new(vm: &mut Vm) -> (r: RubyValue)
    ensures
        r is Obj,
        value_live(*final(vm), r),
        sym_hash(*final(vm), r),
        keeps_host(*old(vm), *final(vm)),
        heap_same(*old(vm), *final(vm)),
{
    ruby_value(vm.hash_new())
}

/// `Vm::hash_set`: `h[k] = v`. On a Hash of Symbol keys, with a Symbol key, nothing but the
/// entry changes and no Ruby code runs; otherwise a key's `hash` or `eql?` may be Ruby code.
#[verifier::external_body]
pub(crate) fn vm_hash_set(vm: &mut Vm, h: RubyValue, k: RubyValue, v: RubyValue) -> (r: Result<(), VmError>)
    requires
        value_live(*old(vm), h),
        value_live(*old(vm), k),
        value_live(*old(vm), v),
    ensures
        sym_hash(*old(vm), h) && k is Sym ==> r is Ok && sym_hash(*final(vm), h)
            && hash_entry(*final(vm), h, k) == Some(v)
            && (forall|k2: RubyValue| k2 != k ==> #[trigger] hash_entry(*final(vm), h, k2) == hash_entry(*old(vm), h, k2))
            && keeps_host(*old(vm), *final(vm)),
        ruby_ran(*old(vm), *final(vm)),
        forall|o: ObjId| #[trigger] on_heap(*old(vm), o) && sym_hash(*old(vm), h) && k is Sym ==> on_heap(*final(vm), o),
        r matches Err(e) ==> err_live(*final(vm), e),
{
    vm.hash_set(value_of(h), value_of(k), value_of(v))
}

/// `Vm::global_set`: `$name = v`, which the global then holds.
#[verifier::external_body]
pub(crate) fn vm_global_set(vm: &mut Vm, name: &str, v: RubyValue)
    requires
        value_live(*old(vm), v),
    ensures
        global_of(*final(vm), name@) == v,
        keeps_host(*old(vm), *final(vm)),
        heap_same(*old(vm), *final(vm)),
{
    vm.global_set(name, value_of(v))
}

/// `Vm::set_load_path`: where `require` looks.
#[verifier::external_body]
pub(crate) fn vm_set_load_path(vm: &mut Vm, paths: &Vec<String>)
    ensures
        keeps_host(*old(vm), *final(vm)),
        heap_same(*old(vm), *final(vm)),
{
    let paths: Vec<&str> = paths.iter().map(|p| p.as_str()).collect();
    vm.set_load_path(&paths)
}

/// `Vm::load`: the program of a RITE binary, loaded into the VM; no Ruby code runs. It
/// fails exactly where `rite::parse` refuses the bytes.
#[verifier::external_body]
pub(crate) fn vm_load(vm: &mut Vm, bytes: &[u8]) -> (r: Result<usize, VmError>)
    ensures
        r is Ok <==> rite_refusal(bytes@) is None,
        r matches Err(e) ==> err_live(*final(vm), e),
        keeps_host(*old(vm), *final(vm)),
        heap_same(*old(vm), *final(vm)),
{
    vm.load(bytes)
}

/// The priority a task of this VM runs at.
pub uninterp spec fn task_priority(vm: Vm, task: ObjId) -> u8;

/// The name a task of this VM carries, as text.
pub uninterp spec fn task_title(vm: Vm, task: ObjId) -> Seq<char>;

/// `Vm::task_spawn`: a new task of the scheduler that runs the top level of `irep`, at this
/// priority and with this name, made ready; no Ruby code runs.
#[verifier::external_body]
pub(crate) fn vm_task_spawn(vm: &mut Vm, irep: usize, priority: u8, name: &str) -> (r: Result<ObjId, VmError>)
    ensures
        r matches Ok(t) ==> on_heap(*final(vm), t) && task_priority(*final(vm), t) == priority
            && task_title(*final(vm), t) == name@,
        r matches Err(e) ==> err_live(*final(vm), e),
        keeps_host(*old(vm), *final(vm)),
        heap_same(*old(vm), *final(vm)),
{
    vm.task_spawn(irep, priority, Some(name))
}

/// Whether a task of this VM has run to its end.
pub uninterp spec fn task_done(vm: Vm, task: ObjId) -> bool;

/// `Vm::task_finished`.
#[verifier::external_body]
pub(crate) fn vm_task_finished(vm: &Vm, task: ObjId) -> (r: bool)
    requires
        on_heap(*vm, task),
    ensures
        r == task_done(*vm, task),
{
    vm.task_finished(task)
}

/// What a task answered, or the exception it did not handle.
pub uninterp spec fn task_result(vm: Vm, task: ObjId) -> RubyValue;

/// `Vm::task_value`. The task holds what it answered, so it is still there.
#[verifier::external_body]
pub(crate) fn vm_task_value(vm: &Vm, task: ObjId) -> (r: RubyValue)
    requires
        on_heap(*vm, task),
    ensures
        r == task_result(*vm, task),
        value_live(*vm, r),
{
    ruby_value(vm.task_value(task))
}

/// Instructions a task of this VM has run since it was made.
pub uninterp spec fn task_spent(vm: Vm, task: ObjId) -> u64;

/// `Vm::task_instructions`.
#[verifier::external_body]
pub(crate) fn vm_task_instructions(vm: &Vm, task: ObjId) -> (r: u64)
    requires
        on_heap(*vm, task),
    ensures
        r == task_spent(*vm, task),
{
    vm.task_instructions(task)
}

/// `Vm::task_location`: file and line of the innermost frame of a task with debug info.
#[verifier::external_body]
pub(crate) fn vm_task_location(vm: &Vm, task: ObjId) -> Option<(String, u32)>
    requires
        on_heap(*vm, task),
{
    vm.task_location(task)
}

/// `Vm::task_frames`: file and line of every frame of a task with debug info, innermost
/// first.
#[verifier::external_body]
pub(crate) fn vm_task_frames(vm: &Vm, task: ObjId) -> Vec<(String, u32)>
    requires
        on_heap(*vm, task),
{
    vm.task_frames(task)
}

/// Whether a value is an exception object.
pub uninterp spec fn exception_value(vm: Vm, v: RubyValue) -> bool;

/// `Vm::is_exception`.
#[verifier::external_body]
pub(crate) fn vm_is_exception(vm: &Vm, v: RubyValue) -> (r: bool)
    requires
        value_live(*vm, v),
    ensures
        r == exception_value(*vm, v),
{
    vm.is_exception(value_of(v))
}

/// `Vm::inspect_str`: what `inspect` answers for a value (Ruby code).
#[verifier::external_body]
pub(crate) fn vm_inspect_str(vm: &mut Vm, v: RubyValue) -> (r: Result<String, VmError>)
    requires
        value_live(*old(vm), v),
    ensures
        ruby_ran(*old(vm), *final(vm)),
{
    vm.inspect_str(value_of(v))
}

/// What `puts`, `p` and `print` have written in this VM and nobody has taken yet.
pub uninterp spec fn output_of(vm: Vm) -> Seq<u8>;

/// `Vm::take_output`: what was written since the last call, leaving nothing behind.
#[verifier::external_body]
pub(crate) fn vm_take_output(vm: &mut Vm) -> (r: Vec<u8>)
    ensures
        r@ == output_of(*old(vm)),
        output_of(*final(vm)) == Seq::<u8>::empty(),
        keeps_host(*old(vm), *final(vm)),
        heap_same(*old(vm), *final(vm)),
{
    vm.take_output()
}

/// The instruction budget, the time and the overrun, in nanoseconds, a `RunLimits` sets.
pub uninterp spec fn limits_of(l: RunLimits) -> (Option<u64>, Option<u64>, Option<u64>);

/// `RunLimits` with these three limits and no overrun counted in instructions.
#[verifier::external_body]
pub(crate) fn run_limits(instructions: Option<u64>, time_ns: Option<u64>, overrun_ns: Option<u64>) -> (r: RunLimits)
    ensures
        limits_of(r) == (instructions, time_ns, overrun_ns),
{
    RunLimits { instructions, time_ns, overrun_ns, ..Default::default() }
}

/// `Vm::task_run_limits`: ready tasks get the CPU until a limit is reached or nothing is
/// ready; answers the instructions spent. Runs Ruby code.
#[verifier::external_body]
pub(crate) fn vm_task_run_limits(vm: &mut Vm, limits: RunLimits) -> (r: Result<u64, VmError>)
    ensures
        ruby_ran(*old(vm), *final(vm)),
        r matches Err(e) ==> err_live(*final(vm), e),
{
    vm.task_run_limits(limits)
}

/// The `Duration` of `ms` milliseconds.
pub uninterp spec fn millis(ms: u64) -> Duration;

/// A `Duration` in nanoseconds, cut to 64 bits as the scheduler takes it.
pub uninterp spec fn nanos_of(d: Duration) -> u64;

/// `Duration::from_millis`: `ms` milliseconds, which are `ms * 1_000_000` nanoseconds where
/// that fits in 64 bits.
#[verifier::external_body]
pub(crate) fn duration_from_millis(ms: u64) -> (r: Duration)
    ensures
        r == millis(ms),
        ms * 1_000_000 <= u64::MAX ==> nanos_of(r) == ms * 1_000_000,
{
    Duration::from_millis(ms)
}

/// `Duration::as_nanos`, cut to 64 bits.
#[verifier::external_body]
pub(crate) fn duration_nanos(d: &Duration) -> (r: u64)
    ensures
        r == nanos_of(*d),
{
    d.as_nanos() as u64
}

} // verus!
