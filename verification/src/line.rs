//! Composition of diagnostic lines.
//!
//! A diagnostic line names the call site and, when a value is present, the
//! source text of the expression and its rendered value:
//! `[file:line] expression = value`. A call without a value emits the
//! `[file:line]` part alone.

use vstd::prelude::*;
use vstd::string::StringExecFns;
use crate::decimal::decimal_rep;
use crate::decimal::u64_to_decimal;

verus! {

/// The call-site part of a diagnostic line: `[file:line]`.
pub open spec fn prefix_text(file: Seq<char>, line: nat) -> Seq<char> {
    seq!['['] + file + seq![':'] + decimal_rep(line) + seq![']']
}

/// A whole diagnostic line for one value: `[file:line] expression = value`.
pub open spec fn entry_text(file: Seq<char>, line: nat, expr: Seq<char>, value: Seq<char>) -> Seq<
    char,
> {
    prefix_text(file, line) + seq![' '] + expr + seq![' ', '=', ' '] + value
}

/// Composes the call-site part, `[file:line]`, and nothing more: a call
/// without a value is answered with exactly this text.
pub fn format_prefix(file: &str, line: u64) -> (r: String)
    ensures
        r@ == prefix_text(file@, line as nat),
{
    let mut r = String::from_str("[");
    r.append(file);
    r.append(":");
    let digits = u64_to_decimal(line);
    r.append(digits.as_str());
    r.append("]");
    proof {
        reveal_strlit("[");
        reveal_strlit(":");
        reveal_strlit("]");
        assert(r@ =~= prefix_text(file@, line as nat));
    }
    r
}

/// Composes the whole diagnostic line for one value.
pub fn format_entry(file: &str, line: u64, expr: &str, value_text: &str) -> (r: String)
    ensures
        r@ == entry_text(file@, line as nat, expr@, value_text@),
{
    let mut r = format_prefix(file, line);
    r.append(" ");
    r.append(expr);
    r.append(" = ");
    r.append(value_text);
    proof {
        reveal_strlit(" ");
        reveal_strlit(" = ");
        assert(r@ =~= entry_text(file@, line as nat, expr@, value_text@));
    }
    r
}

/// The emitter's computation for one value: the diagnostic line for it, and
/// the value itself, unchanged, so that a call can stand inline in an
/// expression. Writing the line to the diagnostic stream is the caller's
/// side of the bargain.
pub fn emit_entry<T>(v: T, file: &str, line: u64, expr: &str, value_text: &str) -> (r: (T, String))
    ensures
        r.0 == v,
        r.1@ == entry_text(file@, line as nat, expr@, value_text@),
{
    let text = format_entry(file, line, expr, value_text);
    (v, text)
}

/// Composes one diagnostic line per (expression, rendered value) pair, in
/// the pairs' own order: a call with several arguments treats each argument
/// independently through the single-value path, left to right, and yields
/// exactly one line per argument.
pub fn format_entries(file: &str, line: u64, items: &Vec<(String, String)>) -> (r: Vec<String>)
    ensures
        r@.len() == items@.len(),
        forall|i: int|
            0 <= i < items@.len() ==> r@[i]@ == entry_text(
                file@,
                line as nat,
                items@[i].0@,
                items@[i].1@,
            ),
{
    let mut r: Vec<String> = Vec::new();
    let mut k: usize = 0;
    while k < items.len()
        invariant
            k <= items@.len(),
            r@.len() == k,
            forall|i: int|
                0 <= i < k ==> r@[i]@ == entry_text(
                    file@,
                    line as nat,
                    items@[i].0@,
                    items@[i].1@,
                ),
        decreases items@.len() - k,
    {
        let text = format_entry(file, line, items[k].0.as_str(), items[k].1.as_str());
        r.push(text);
        k += 1;
    }
    r
}

} // verus!
