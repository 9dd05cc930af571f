//! Argument marshaling.
//!
//! A host call arrives with any number of arguments of any type. Each
//! parameter of a handler is read from one position of that list: where the
//! position holds a value of the parameter's type the value is converted and
//! taken, and where it holds another type, or the list is too short, the
//! parameter keeps its default. Nothing here fails.

use vstd::prelude::*;
use crate::number::Number;
use crate::value::Value;

verus! {

/// The number at position `index`, if the list reaches that far and holds a
/// number there.
pub open spec fn number_at(args: Seq<Value>, index: int) -> Option<Number> {
    if 0 <= index < args.len() {
        match args[index] {
            Value::Number(n) => Some(n),
            _ => None,
        }
    } else {
        None
    }
}

/// The parameter of type `i8` read from position `index`.
pub open spec fn i8_at(args: Seq<Value>, index: int, default: i8) -> i8 {
    match number_at(args, index) {
        Some(n) => n.spec_i8(),
        None => default,
    }
}

/// The parameter of type `u8` read from position `index`.
pub open spec fn u8_at(args: Seq<Value>, index: int, default: u8) -> u8 {
    match number_at(args, index) {
        Some(n) => n.spec_u8(),
        None => default,
    }
}

/// The parameter of type `u16` read from position `index`.
pub open spec fn u16_at(args: Seq<Value>, index: int, default: u16) -> u16 {
    match number_at(args, index) {
        Some(n) => n.spec_u16(),
        None => default,
    }
}

/// The parameter of type `i32` read from position `index`.
pub open spec fn i32_at(args: Seq<Value>, index: int, default: i32) -> i32 {
    match number_at(args, index) {
        Some(n) => n.spec_i32(),
        None => default,
    }
}

/// The parameter of type `u32` read from position `index`.
pub open spec fn u32_at(args: Seq<Value>, index: int, default: u32) -> u32 {
    match number_at(args, index) {
        Some(n) => n.spec_u32(),
        None => default,
    }
}

/// The numeric parameter read from position `index` as it stands.
pub open spec fn real_at(args: Seq<Value>, index: int, default: Number) -> Number {
    match number_at(args, index) {
        Some(n) => n,
        None => default,
    }
}

/// The flag read from position `index`.
pub open spec fn bool_at(args: Seq<Value>, index: int, default: bool) -> bool {
    if 0 <= index < args.len() {
        match args[index] {
            Value::Bool(b) => b,
            _ => default,
        }
    } else {
        default
    }
}

/// The characters of the text read from position `index`; no characters
/// where there is no text.
pub open spec fn text_at(args: Seq<Value>, index: int) -> Seq<char> {
    if 0 <= index < args.len() {
        match args[index] {
            Value::String(s) => s@,
            _ => Seq::empty(),
        }
    } else {
        Seq::empty()
    }
}

/// Looks for a number at position `index`.
pub fn get_number(args: &[Value], index: usize) -> (r: Option<Number>)
    ensures
        r == number_at(args@, index as int),
{
    if index < args.len() {
        match &args[index] {
            Value::Number(n) => Some(*n),
            _ => None,
        }
    } else {
        None
    }
}

/// Reads a parameter of type `i8`.
pub fn get_i8(args: &[Value], index: usize, default: i8) -> (r: i8)
    ensures
        r == i8_at(args@, index as int, default),
{
    match get_number(args, index) {
        Some(n) => n.to_i8(),
        None => default,
    }
}

/// Reads a parameter of type `u8`.
pub fn get_u8(args: &[Value], index: usize, default: u8) -> (r: u8)
    ensures
        r == u8_at(args@, index as int, default),
{
    match get_number(args, index) {
        Some(n) => n.to_u8(),
        None => default,
    }
}

/// Reads a parameter of type `u16`.
pub fn get_u16(args: &[Value], index: usize, default: u16) -> (r: u16)
    ensures
        r == u16_at(args@, index as int, default),
{
    match get_number(args, index) {
        Some(n) => n.to_u16(),
        None => default,
    }
}

/// Reads a parameter of type `i32`.
pub fn get_i32(args: &[Value], index: usize, default: i32) -> (r: i32)
    ensures
        r == i32_at(args@, index as int, default),
{
    match get_number(args, index) {
        Some(n) => n.to_i32(),
        None => default,
    }
}

/// Reads a parameter of type `u32`.
pub fn get_u32(args: &[Value], index: usize, default: u32) -> (r: u32)
    ensures
        r == u32_at(args@, index as int, default),
{
    match get_number(args, index) {
        Some(n) => n.to_u32(),
        None => default,
    }
}

/// Reads a numeric parameter that the engine takes as it stands.
pub fn get_real(args: &[Value], index: usize, default: Number) -> (r: Number)
    ensures
        r == real_at(args@, index as int, default),
{
    match get_number(args, index) {
        Some(n) => n,
        None => default,
    }
}

/// Reads a flag.
pub fn get_bool(args: &[Value], index: usize, default: bool) -> (r: bool)
    ensures
        r == bool_at(args@, index as int, default),
{
    if index < args.len() {
        match &args[index] {
            Value::Bool(b) => *b,
            _ => default,
        }
    } else {
        default
    }
}

/// Reads a text; the empty text where there is none.
pub fn get_text(args: &[Value], index: usize) -> (r: String)
    ensures
        r@ == text_at(args@, index as int),
{
    if index < args.len() {
        match &args[index] {
            Value::String(s) => s.clone(),
            _ => String::new(),
        }
    } else {
        String::new()
    }
}

} // verus!
