//! Rendering a value through an explicitly named override type.
//!
//! The checked variant of the reinterpret strategy: before the value is
//! rendered as the override type `O`, its runtime type identity is compared
//! with `O`. A mismatched override is a contract violation on the caller's
//! part, answered by immediate termination with a fixed message, never by a
//! wrong rendering.

use core::fmt::Debug;
use std::any::Any;
use vstd::prelude::*;

verus! {

/// Relies on `<dyn Any>::downcast_ref::<O>`, which returns `Some` exactly
/// when the value's runtime type is `O`, and on `O`'s `Debug` formatting for
/// the rendering. On a mismatched override type the call terminates the
/// process with a fixed message rather than returning, as the checked
/// variant's contract demands; nothing is promised of the rendered text,
/// which is whatever `O`'s `Debug` implementation writes.
#[verifier::external_body]
fn downcast_fmt<T: Any, O: 'static + Debug>(t: &T) -> (r: String) {
    let o: &O = (t as &dyn Any).downcast_ref().expect("Wrong type passed to safe_dbg!");
    format!("{:?}", o)
}

/// Renders `t` as the override type `O`, after the runtime check that `t`
/// really is an `O`. A mismatched override terminates the process; it never
/// yields text rendered under the wrong type.
pub fn safe_dbg_fmt<T: Any, O: 'static + Debug>(t: &T) -> String {
    downcast_fmt::<T, O>(t)
}

} // verus!
