//! The text of a fatal diagnostic: which function observed the failure, through
//! which operation, where, and the error's own text.
use vstd::prelude::*;
use vstd::string::*;
use crate::call_site::{CallSite, opt_view};

verus! {

/// The decimal digit of `d`, for `d < 10`.
pub open spec fn digit(d: nat) -> char {
    if d == 0 { '0' }
    else if d == 1 { '1' }
    else if d == 2 { '2' }
    else if d == 3 { '3' }
    else if d == 4 { '4' }
    else if d == 5 { '5' }
    else if d == 6 { '6' }
    else if d == 7 { '7' }
    else if d == 8 { '8' }
    else { '9' }
}

/// `n` written in decimal, without leading zeros.
pub open spec fn decimal(n: nat) -> Seq<char>
    decreases n,
{
    if n < 10 {
        seq![digit(n)]
    } else {
        decimal(n / 10).push(digit(n % 10))
    }
}

/// A text that may be missing, empty where it is.
pub open spec fn or_empty(o: Option<Seq<char>>) -> Seq<char> {
    match o {
        Some(s) => s,
        None => Seq::empty(),
    }
}

/// A line number in decimal, empty where it is missing.
pub open spec fn line_text(line: Option<u32>) -> Seq<char> {
    match line {
        Some(n) => decimal(n as nat),
        None => Seq::empty(),
    }
}

/// `PANIC - fn `<function>` calls `<operation>` @ <file>:<line> -> Error: <error>`, each
/// missing part of the site written as nothing.
pub open spec fn fatal_text(operation: Seq<char>, site: CallSite, error: Seq<char>) -> Seq<char> {
    "PANIC - fn `"@ + or_empty(opt_view(site.function)) + "` calls `"@ + operation + "` @ "@
        + or_empty(opt_view(site.file)) + ":"@ + line_text(site.line) + " -> Error: "@ + error
}

fn digit_str(d: u32) -> (r: &'static str)
    requires
        d < 10,
    ensures
        r@ == seq![digit(d as nat)],
{
    proof {
        reveal_strlit("0");
        reveal_strlit("1");
        reveal_strlit("2");
        reveal_strlit("3");
        reveal_strlit("4");
        reveal_strlit("5");
        reveal_strlit("6");
        reveal_strlit("7");
        reveal_strlit("8");
        reveal_strlit("9");
    }
    if d == 0 { "0" }
    else if d == 1 { "1" }
    else if d == 2 { "2" }
    else if d == 3 { "3" }
    else if d == 4 { "4" }
    else if d == 5 { "5" }
    else if d == 6 { "6" }
    else if d == 7 { "7" }
    else if d == 8 { "8" }
    else { "9" }
}

/// Appends `n` in decimal to `out`.
pub fn push_decimal(out: &mut String, n: u32)
    ensures
        final(out)@ == old(out)@ + decimal(n as nat),
    decreases n,
{
    if n >= 10 {
        push_decimal(out, n / 10);
    }
    out.append(digit_str(n % 10));
    proof {
        if n >= 10 {
            assert(decimal(n as nat) == decimal((n / 10) as nat).push(digit((n % 10) as nat)));
        }
    }
    assert(final(out)@ =~= old(out)@ + decimal(n as nat));
}

fn push_opt(out: &mut String, o: &Option<String>)
    ensures
        final(out)@ == old(out)@ + or_empty(opt_view(*o)),
{
    match o {
        Some(s) => out.append(s.as_str()),
        None => {
            assert(old(out)@ + Seq::<char>::empty() =~= old(out)@);
        },
    }
}

/// The fatal diagnostic for a failure observed through `operation` at `site`, whose
/// error reads `error`.
pub fn fatal_message(operation: &str, site: &CallSite, error: &str) -> (r: String)
    ensures
        r@ == fatal_text(operation@, *site, error@),
{
    let mut out = String::from_str("PANIC - fn `");
    push_opt(&mut out, &site.function);
    out.append("` calls `");
    out.append(operation);
    out.append("` @ ");
    push_opt(&mut out, &site.file);
    out.append(":");
    match site.line {
        Some(n) => push_decimal(&mut out, n),
        None => {},
    }
    out.append(" -> Error: ");
    out.append(error);
    assert(out@ =~= fatal_text(operation@, *site, error@));
    out
}

} // verus!
