//! Host side of an embedded scripting bridge.
//!
//! Scripts running inside an interpreter reach the engine through numbered
//! host calls. This crate holds the part of that bridge that decides things:
//! how a script number becomes a native integer, how a loosely typed argument
//! list becomes the parameters of one engine operation, which handler an
//! opcode is bound to, and when the per-frame hooks of a script may run.
//!
//! The engine resources and the interpreter stay outside. A handler answers
//! with an [`Outcome`](call::Outcome) that names one resource and one
//! operation on it; the caller performs it and hands the script the reply.

pub mod bridge;
pub mod call;
pub mod host;
pub mod laws;
pub mod marshal;
pub mod number;
pub mod registry;
pub mod value;

pub use bridge::JavascriptPlugin;
pub use call::Outcome;
pub use host::JavascriptPluginRust;
pub use number::Number;
pub use value::Value;
