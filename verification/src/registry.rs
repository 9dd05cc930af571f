//! The function registry: which handler an opcode is bound to.
//!
//! Scripts call host functions by name; the interpreter turns the name into
//! the opcode under which it was registered. Registrations are kept in the
//! order in which they were made, and a later one of the same opcode takes
//! the place of an earlier one.

use vstd::prelude::*;
use crate::call::Resource;

verus! {

/// The host functions that a script can reach.
#[derive(Clone, Copy, Debug, PartialEq, Eq, Structural)]
pub enum Handler {
    Pset,
    Cls,
    UnicornTime,
    Print,
    Spr,
    Btnp,
    Sspr,
    Pal,
    Sfx,
    Music,
    Circ,
    Circfill,
    Line,
    Sspr2,
}

impl Handler {
    /// The one resource that the handler works on.
    pub open spec fn spec_resource(self) -> Resource {
        match self {
            Handler::UnicornTime => Resource::Info,
            Handler::Btnp => Resource::Players,
            Handler::Sfx | Handler::Music => Resource::Sound,
            _ => Resource::Screen,
        }
    }

    /// The handler reaches for its resource when it is called with `count`
    /// arguments. Every handler does, whatever the count, but `print`, which
    /// refuses a call with fewer than three.
    pub open spec fn spec_lends(self, count: nat) -> bool {
        !(self == Handler::Print && count < 3)
    }

    /// Whether the handler reaches for its resource when it is called with
    /// `count` arguments.
    pub fn lends(self, count: usize) -> (lends: bool)
        ensures
            lends == self.spec_lends(count as nat),
    {
        match self {
            Handler::Print => count >= 3,
            _ => true,
        }
    }

    /// The one resource that the handler works on.
    pub fn resource(self) -> (r: Resource)
        ensures
            r == self.spec_resource(),
    {
        match self {
            Handler::UnicornTime => Resource::Info,
            Handler::Btnp => Resource::Players,
            Handler::Sfx | Handler::Music => Resource::Sound,
            _ => Resource::Screen,
        }
    }
}

/// One registration: an opcode, the name under which scripts call it, the
/// number of arguments that the interpreter is told to expect, and the
/// handler. The arity is a hint for the interpreter; no handler relies on it.
#[derive(Debug, PartialEq)]
pub struct Binding {
    pub opcode: i32,
    pub name: String,
    pub arity: Option<u16>,
    pub handler: Handler,
}

impl Clone for Binding {
    fn clone(&self) -> (copy: Self)
        ensures
            copy == *self,
    {
        Binding {
            opcode: self.opcode,
            name: self.name.clone(),
            arity: self.arity,
            handler: self.handler,
        }
    }
}

/// A [`Binding`] as contracts see it.
pub struct BindingView {
    pub opcode: i32,
    pub name: Seq<char>,
    pub arity: Option<u16>,
    pub handler: Handler,
}

impl View for Binding {
    type V = BindingView;

    open spec fn view(&self) -> BindingView {
        BindingView {
            opcode: self.opcode,
            name: self.name@,
            arity: self.arity,
            handler: self.handler,
        }
    }
}

/// The table that a sequence of registrations amounts to: each opcode with
/// the last binding that was registered for it.
pub open spec fn table_of(log: Seq<BindingView>) -> Map<i32, BindingView>
    decreases log.len(),
{
    if log.len() == 0 {
        Map::empty()
    } else {
        table_of(log.drop_last()).insert(log.last().opcode, log.last())
    }
}

/// The registrations made so far.
pub struct Registry {
    bindings: Vec<Binding>,
}

impl Registry {
    /// The registrations in the order in which they were made.
    pub closed spec fn log(&self) -> Seq<BindingView> {
        self.bindings@.map_values(|binding: Binding| binding@)
    }

    /// The table in force.
    pub open spec fn table(&self) -> Map<i32, BindingView> {
        table_of(self.log())
    }

    /// A registry without registrations.
    pub fn new() -> (registry: Registry)
        ensures
            registry.log() == Seq::<BindingView>::empty(),
    {
        Registry { bindings: Vec::new() }
    }

    /// Binds `opcode` to `handler` under `name`. An earlier binding of the
    /// same opcode gives way; every other opcode keeps its binding.
    pub fn register(&mut self, opcode: i32, name: &str, handler: Handler, arity: Option<u16>)
        ensures
            final(self).log() == old(self).log().push(
                BindingView { opcode, name: name@, arity, handler },
            ),
            final(self).table() == old(self).table().insert(
                opcode,
                BindingView { opcode, name: name@, arity, handler },
            ),
    {
        let binding = Binding { opcode, name: name.to_owned(), arity, handler };
        self.bindings.push(binding);
        proof {
            assert(self.log() == old(self).log().push(binding@));
            assert(self.log().drop_last() == old(self).log());
        }
    }

    /// The binding in force for `opcode`, if there is one.
    pub fn lookup(&self, opcode: i32) -> (found: Option<&Binding>)
        ensures
            match found {
                Some(binding) => binding.opcode == opcode && self.table().contains_key(opcode)
                    && binding@ == self.table()[opcode],
                None => !self.table().contains_key(opcode),
            },
    {
        let mut i: usize = self.bindings.len();
        proof {
            assert(self.log().take(i as int) == self.log());
        }
        while i > 0
            invariant
                i <= self.bindings.len(),
                self.table().contains_key(opcode) == table_of(
                    self.log().take(i as int),
                ).contains_key(opcode),
                self.table().contains_key(opcode) ==> self.table()[opcode] == table_of(
                    self.log().take(i as int),
                )[opcode],
            decreases i,
        {
            i = i - 1;
            proof {
                assert(self.log().take(i + 1).drop_last() == self.log().take(i as int));
            }
            if self.bindings[i].opcode == opcode {
                return Some(&self.bindings[i]);
            }
        }
        None
    }

    /// The registrations in the order in which they were made, for whoever
    /// publishes the names to the interpreter.
    pub fn bindings(&self) -> (made: &Vec<Binding>)
        ensures
            made@.len() == self.log().len(),
            forall|i: int| 0 <= i < made@.len() ==> (#[trigger] made@[i])@ == self.log()[i],
    {
        &self.bindings
    }
}

} // verus!
