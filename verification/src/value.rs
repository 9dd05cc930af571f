//! The values that cross between a script and the host.

use vstd::prelude::*;
use crate::number::Number;

verus! {

/// One dynamically typed value: an argument of a host call, or its reply.
#[derive(Debug, PartialEq)]
pub enum Value {
    /// No value: what the interpreter puts where the script gave nothing.
    Undefined,
    Bool(bool),
    Number(Number),
    String(String),
}

/// A [`Value`] as contracts see it: a string counts by its characters.
pub enum ValueView {
    Undefined,
    Bool(bool),
    Number(Number),
    String(Seq<char>),
}

impl View for Value {
    type V = ValueView;

    open spec fn view(&self) -> ValueView {
        match *self {
            Value::Undefined => ValueView::Undefined,
            Value::Bool(b) => ValueView::Bool(b),
            Value::Number(n) => ValueView::Number(n),
            Value::String(s) => ValueView::String(s@),
        }
    }
}

impl Clone for Value {
    fn clone(&self) -> (copy: Self)
        ensures
            copy == *self,
    {
        match self {
            Value::Undefined => Value::Undefined,
            Value::Bool(flag) => Value::Bool(*flag),
            Value::Number(number) => Value::Number(*number),
            Value::String(text) => Value::String(text.clone()),
        }
    }
}

impl Value {
    /// The reply of a host call that has nothing to tell: the number zero.
    pub open spec fn spec_neutral() -> ValueView {
        ValueView::Number(Number { bits: 0 })
    }

    /// The reply of a host call that was refused: the number minus one.
    pub open spec fn spec_refused() -> ValueView {
        ValueView::Number(Number { bits: 0xBFF0_0000_0000_0000 })
    }

    /// The reply of a host call that has nothing to tell.
    pub fn neutral() -> (v: Value)
        ensures
            v@ == Value::spec_neutral(),
    {
        Value::Number(Number::zero())
    }

    /// The reply of a host call that was refused.
    pub fn refused() -> (v: Value)
        ensures
            v@ == Value::spec_refused(),
    {
        Value::Number(Number::minus_one())
    }
}

} // verus!
