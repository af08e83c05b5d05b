//! What a script asks the game for (`Rubevy.ask`), and what the game answers with.
//!
//! A number crosses the boundary as `N`: the bridge never computes with one, it only hands
//! it on, so every type here is generic in it. The game reads and writes them as `f64`.
use vstd::prelude::*;
use sabiruby::value::ObjId;

verus! {

/// An argument of `Rubevy.ask`, after the name of what is being asked for.
pub enum Arg<N> {
    Num(N),
    Text(String),
    /// A `Rubevy::Entity` the script passed on, as `Entity::to_bits`: read back through its
    /// handle rather than through a number that has been past a float.
    Entity(u64),
}

impl<N> Arg<N> {
    /// The number this argument is, where it is one.
    pub open spec fn num_spec(self) -> Option<N> {
        match self {
            Arg::Num(n) => Some(n),
            _ => None,
        }
    }

    /// The text this argument is, where it is one.
    pub open spec fn text_spec(self) -> Option<Seq<char>> {
        match self {
            Arg::Text(t) => Some(t@),
            _ => None,
        }
    }

    /// The entity this argument is, where it is one.
    pub open spec fn entity_spec(self) -> Option<u64> {
        match self {
            Arg::Entity(e) => Some(e),
            _ => None,
        }
    }
}

impl<N: Copy> Arg<N> {
    /// The number, where the argument is one.
    pub fn as_num(&self) -> (r: Option<N>)
        ensures
            r == self.num_spec(),
    {
        match self {
            Arg::Num(n) => Some(*n),
            Arg::Text(_) | Arg::Entity(_) => None,
        }
    }

    /// The text, where the argument is a string.
    pub fn as_text(&self) -> (r: Option<&str>)
        ensures
            text_of_str(r) == self.text_spec(),
    {
        match self {
            Arg::Text(t) => Some(t.as_str()),
            Arg::Num(_) | Arg::Entity(_) => None,
        }
    }

    /// The entity, where the script passed a `Rubevy::Entity` object.
    pub fn as_entity(&self) -> (r: Option<u64>)
        ensures
            r == self.entity_spec(),
    {
        match self {
            Arg::Entity(e) => Some(*e),
            Arg::Num(_) | Arg::Text(_) => None,
        }
    }
}

/// The text an optional `&str` holds.
pub open spec fn text_of_str(s: Option<&str>) -> Option<Seq<char>> {
    match s {
        Some(t) => Some(t@),
        None => None,
    }
}

/// Something a script asked the game for and is waiting on (`Rubevy.ask`). Take them with
/// `ScriptWorld::take_requests`, work out the answer, and give it back with
/// `ScriptWorld::answer`: this frame or any later one. The script's task is parked
/// meanwhile.
pub struct Request<N> {
    /// The entity whose script asked (`Entity::to_bits`), where it has one.
    pub entity: Option<u64>,
    /// The first argument of `Rubevy.ask`, e.g. `"scan"`.
    pub kind: String,
    /// The rest of the arguments: numbers, strings and entities, in the order they were
    /// written.
    pub args: Vec<Arg<N>>,
    /// Hand this back to `ScriptWorld::answer`; it is the queue the script waits on.
    pub queue: ObjId,
}

impl<N> Request<N> {
    /// The `i`th argument, where there is one.
    pub open spec fn arg_spec(self, i: int) -> Option<Arg<N>> {
        if 0 <= i < self.args@.len() {
            Some(self.args@[i])
        } else {
            None
        }
    }

    /// The `i`th argument as a number, where it is one.
    pub open spec fn num_at(self, i: int) -> Option<N> {
        match self.arg_spec(i) {
            Some(a) => a.num_spec(),
            None => None,
        }
    }

    /// The `i`th argument as text, where it is one.
    pub open spec fn text_at(self, i: int) -> Option<Seq<char>> {
        match self.arg_spec(i) {
            Some(a) => a.text_spec(),
            None => None,
        }
    }

    /// The `i`th argument as an entity, where it is one.
    pub open spec fn entity_at(self, i: int) -> Option<u64> {
        match self.arg_spec(i) {
            Some(a) => a.entity_spec(),
            None => None,
        }
    }
}

impl<N: Copy> Request<N> {
    /// The `i`th argument as a number, where it is one.
    pub fn num(&self, i: usize) -> (r: Option<N>)
        ensures
            r == self.num_at(i as int),
    {
        if i < self.args.len() {
            self.args[i].as_num()
        } else {
            None
        }
    }

    /// The `i`th argument as a string, where it is one.
    pub fn text(&self, i: usize) -> (r: Option<&str>)
        ensures
            text_of_str(r) == self.text_at(i as int),
    {
        if i < self.args.len() {
            self.args[i].as_text()
        } else {
            None
        }
    }

    /// The `i`th argument as a number, or `or` where there is none.
    pub fn num_or(&self, i: usize, or: N) -> (r: N)
        ensures
            r == (match self.num_at(i as int) {
                Some(n) => n,
                None => or,
            }),
    {
        match self.num(i) {
            Some(n) => n,
            None => or,
        }
    }

    /// The `i`th argument as an entity, where the script passed a `Rubevy::Entity`.
    pub fn entity_arg(&self, i: usize) -> (r: Option<u64>)
        ensures
            r == self.entity_at(i as int),
    {
        if i < self.args.len() {
            self.args[i].as_entity()
        } else {
            None
        }
    }
}

/// An argument is read one way only: of `num(i)`, `text(i)` and `entity_arg(i)`, exactly one
/// answers where the script wrote an `i`th argument, and none where it did not.
pub proof fn lemma_one_reading_per_argument<N>(request: Request<N>, i: int)
    ensures
        0 <= i < request.args@.len() ==> (
            request.num_at(i) is Some || request.text_at(i) is Some || request.entity_at(i) is Some),
        !(request.num_at(i) is Some && request.text_at(i) is Some),
        !(request.num_at(i) is Some && request.entity_at(i) is Some),
        !(request.text_at(i) is Some && request.entity_at(i) is Some),
        !(0 <= i < request.args@.len()) ==> (
            request.num_at(i) is None && request.text_at(i) is None && request.entity_at(i) is None),
{
}

/// What a game answers a [`Request`] with.
pub enum Answer<N> {
    Nil,
    Bool(bool),
    Num(N),
    Text(String),
    /// A list of numbers, e.g. a position or what a sensor found.
    List(Vec<N>),
    /// A list of rows of numbers: a table, e.g. every robot with its team and hp.
    Rows(Vec<Vec<N>>),
    /// An entity (`Entity::to_bits`), as the `Rubevy::Entity` object a script can pass back
    /// to `Rubevy.despawn`, `Rubevy.set_position` or `Rubevy.ask`.
    Entity(u64),
}

} // verus!
