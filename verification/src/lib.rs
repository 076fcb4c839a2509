//! Debug-printing helpers.
//!
//! A tagged debug emitter: it composes a diagnostic line of the form
//! `[file:line] expression = value` for a value, hands the value back
//! unchanged so the emitter can be used inline in expressions, and offers a
//! checked way to render a value through an explicitly named override type.
//! Composition of the diagnostic line is verified exactly; rendering through
//! an override type rests on the standard library's runtime type identity
//! check and terminates on a mismatched override, by contract.

pub mod decimal;
pub mod line;
pub mod reinterpret;

pub use reinterpret::safe_dbg_fmt;
