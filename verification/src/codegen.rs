use vstd::prelude::*;

use crate::cli::{ascii_digits, digits_value};
use crate::cpu::clamped;
use crate::text::{decimal, decimal_string, join2};
use vstd::string::StringExecFns;

verus! {

/// Nesting depth of a generated wrapper chain when none (or no number) is given.
pub const DEFAULT_CHAIN_DEPTH: usize = 8;
/// Deepest wrapper chain that is generated.
pub const MAX_CHAIN_DEPTH: usize = 64;

/// The `usize` a text stands for, read as `str::parse` reads it: an optional `+`,
/// then one or more ASCII digits, with a value that fits.
pub open spec fn usize_text(s: Seq<char>) -> Option<usize> {
    let t = if s.len() > 0 && s[0] == '+' {
        s.drop_first()
    } else {
        s
    };
    if ascii_digits(t) && digits_value(t) <= usize::MAX {
        Some(digits_value(t) as usize)
    } else {
        None
    }
}

/// Calls `str::parse::<usize>`, which reads an optional `+` and decimal digits and
/// fails on anything else or on overflow: the result is `usize_text` of the input.
#[verifier::external_body]
fn parse_usize(s: &str) -> (r: Option<usize>)
    ensures
        r == usize_text(s@),
{
    s.parse::<usize>().ok()
}

/// The depth of a wrapper chain asked for by `text`: the number it holds, 8 when it
/// holds none, clamped into `1..=64`.
pub open spec fn chain_depth_of(text: Seq<char>) -> usize {
    let asked = match usize_text(text) {
        Some(n) => n as nat,
        None => DEFAULT_CHAIN_DEPTH as nat,
    };
    clamped(asked, 1, MAX_CHAIN_DEPTH as nat) as usize
}

/// The depth of the wrapper chain that the text of a `generic_chain` invocation asks for.
pub fn chain_depth(text: &str) -> (r: usize)
    ensures
        r == chain_depth_of(text@),
        1 <= r <= MAX_CHAIN_DEPTH,
{
    let asked = match parse_usize(text) {
        Some(n) => n,
        None => DEFAULT_CHAIN_DEPTH,
    };
    if asked < 1 {
        1
    } else if asked > MAX_CHAIN_DEPTH {
        MAX_CHAIN_DEPTH
    } else {
        asked
    }
}

/// The name of the `i`-th wrapper type of a chain: `Wrap<i>`.
pub fn wrapper_name(i: usize) -> (r: String)
    ensures
        r@ == "Wrap"@ + decimal(i as nat),
{
    let d = decimal_string(i as u64);
    join2("Wrap", d.as_str())
}

/// The name of the companion function that `stress_expand` adds to function `name`:
/// `<name>_const_pressure`.
pub fn pressure_fn_name(name: &str) -> (r: String)
    ensures
        r@ == name@ + "_const_pressure"@,
{
    join2(name, "_const_pressure")
}

} // verus!
