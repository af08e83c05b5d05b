//! Entities as the bridge sees them: `Entity::to_bits`, a `u64`.
use vstd::prelude::*;
use vstd::string::StringExecFns;
use crate::text::{decimal, push_decimal};

verus! {

/// What a `Rubevy::Entity` object is, in the `tag` of `Vm::data_new`. A host that gives
/// its scripts Data objects of its own picks other numbers.
pub const ENTITY_TAG: u32 = 1;

/// The bits name an entity: Bevy's `Entity::try_from_bits` accepts exactly the `u64`s whose
/// low half (the index) is not zero.
pub open spec fn is_entity_bits(bits: u64) -> bool {
    bits % 0x1_0000_0000 != 0
}

/// What Bevy's `Display` for `Entity` writes for the entity with these bits: `PLACEHOLDER`
/// for `Entity::PLACEHOLDER` (bits 1), else `{index}v{generation}`. The low half holds the
/// index as `NonMaxU32` keeps it, the index's complement, and the high half the generation.
pub open spec fn entity_label(bits: u64) -> Seq<char> {
    if bits == 1 {
        "PLACEHOLDER"@
    } else {
        decimal((0xffff_ffff - bits % 0x1_0000_0000) as nat) + "v"@ + decimal((bits / 0x1_0000_0000) as nat)
    }
}

/// `bevy::ecs::entity::Entity::try_from_bits`, with the entity handed back as its bits.
/// Bevy's source builds the entity out of the low half as the index and the high half as
/// the generation, and refuses a zero low half; `to_bits` puts the two halves back where
/// they were, so what comes back is the argument itself.
#[verifier::external_body]
fn try_entity_from_bits(bits: u64) -> (r: Option<u64>)
    ensures
        r == (if is_entity_bits(bits) { Some(bits) } else { None::<u64> }),
{
    bevy::ecs::entity::Entity::try_from_bits(bits).map(|e| e.to_bits())
}

/// Bevy's `Display` for `Entity`, on the entity with these bits (`Entity::from_bits`, which
/// panics on bits that name no entity).
#[verifier::external_body]
pub(crate) fn entity_label_string(bits: u64) -> (r: String)
    requires
        is_entity_bits(bits),
    ensures
        r@ == entity_label(bits),
{
    format!("{}", bevy::ecs::entity::Entity::from_bits(bits))
}

/// The entity ids the plugin hands to Ruby are `Entity::to_bits`; this is the way back,
/// for a host that wants to read what a script asked about.
pub fn entity_of(bits: u64) -> (r: Option<u64>)
    ensures
        r == (if is_entity_bits(bits) { Some(bits) } else { None::<u64> }),
{
    try_entity_from_bits(bits)
}

/// What `inspect` and `to_s` of a `Rubevy::Entity` answer for the handle it carries.
pub open spec fn entity_inspect_text(handle: u64) -> Seq<char> {
    if is_entity_bits(handle) {
        "#<Rubevy::Entity "@ + entity_label(handle) + ">"@
    } else {
        "#<Rubevy::Entity bits="@ + decimal(handle as nat) + ">"@
    }
}

/// `inspect` of a `Rubevy::Entity`: Bevy's own name for the entity, or the bare bits
/// where they name none.
pub fn entity_inspect(handle: u64) -> (r: String)
    ensures
        r@ == entity_inspect_text(handle),
{
    match entity_of(handle) {
        Some(bits) => {
            let mut s = String::from_str("#<Rubevy::Entity ");
            let label = entity_label_string(bits);
            s.append(label.as_str());
            s.append(">");
            s
        }
        None => {
            let mut s = String::from_str("#<Rubevy::Entity bits=");
            push_decimal(&mut s, handle);
            s.append(">");
            s
        }
    }
}

/// What `to_i` of a `Rubevy::Entity` answers: its handle, `Entity::to_bits`, as a Ruby
/// Integer (the same 64 bits, read as signed).
pub fn entity_to_i(handle: u64) -> (r: i64)
    ensures
        r == handle as i64,
{
    handle as i64
}

} // verus!
