//! What observing an outcome does: a success passes untouched and emits nothing; a
//! failure yields one record for the log, and either passes on or ends the flow.
use vstd::prelude::*;
use vstd::string::*;
use std::fmt::Display;
use crate::call_site::{CallSite, resolve_call_site};
use crate::diagnostic::{fatal_message, fatal_text};
use crate::severity::Severity;

verus! {

/// The name under which the fatal path reports itself in its diagnostic.
pub const UNWRAP_OPERATION: &'static str = "unwraps";

/// One record for the log: its severity and its text.
pub struct Emission {
    pub level: Severity,
    pub message: String,
}

/// `text` is what the `Display` of `e` writes.
pub open spec fn displays<E: Display>(e: &E, text: String) -> bool {
    to_string_from_display_ensures::<E>(e, text)
}

/// What passing `outcome` at `level` gives: the outcome itself, with no record where it
/// succeeded, and one record at `level` holding the error's text where it failed.
pub open spec fn passes<T, E: Display>(
    outcome: Result<T, E>,
    level: Severity,
    r: (Result<T, E>, Option<Emission>),
) -> bool {
    &&& r.0 == outcome
    &&& match outcome {
        Ok(_) => r.1 is None,
        Err(e) => r.1 matches Some(m) && m.level == level && displays(&e, m.message),
    }
}

/// Observes `outcome` at `level`: it comes back unchanged, together with the record
/// to log, which exists exactly where it failed.
pub fn logged_pass<T, E: Display>(outcome: Result<T, E>, level: Severity) -> (r: (
    Result<T, E>,
    Option<Emission>,
))
    ensures
        passes(outcome, level, r),
{
    let emission = match &outcome {
        Ok(_) => None,
        Err(e) => Some(Emission { level, message: e.to_string() }),
    };
    (outcome, emission)
}

/// The critical record for a failure observed at `site` whose error reads `error`.
pub fn fatal_emission(site: &CallSite, error: &str) -> (r: Emission)
    ensures
        r.level == Severity::Critical,
        r.message@ == fatal_text(UNWRAP_OPERATION@, *site, error@),
{
    Emission { level: Severity::Critical, message: fatal_message(UNWRAP_OPERATION, site, error) }
}

/// What the fatal path gives for `outcome`: the value where it succeeded; where it
/// failed, the error itself and one critical record that reads as the fatal diagnostic
/// of the `unwraps` operation, for the error's text and the site that the stack gave.
pub open spec fn halts_with<T, E: Display>(outcome: Result<T, E>, r: Result<T, (E, Emission)>) -> bool {
    match outcome {
        Ok(v) => r == Ok::<T, (E, Emission)>(v),
        Err(e) => r matches Err((e2, m)) && e2 == e && m.level == Severity::Critical && exists|
            site: CallSite,
            text: String,
        |
            displays(&e, text) && m.message@ == fatal_text(UNWRAP_OPERATION@, site, text@),
    }
}

/// Observes `outcome` on the fatal path: a success gives its value; a failure gives
/// the error back with the one critical record to log before the flow ends, naming the
/// function at `offset` frames out from this one (1 for the direct caller), where the
/// stack records it.
#[inline(never)]
pub fn logged_unwrap<T, E: Display>(outcome: Result<T, E>, offset: usize) -> (r: Result<
    T,
    (E, Emission),
>)
    ensures
        halts_with(outcome, r),
{
    match outcome {
        Ok(v) => Ok(v),
        Err(e) => {
            let site = if offset < usize::MAX {
                resolve_call_site(offset + 1)
            } else {
                CallSite::absent()
            };
            let text = e.to_string();
            let emission = fatal_emission(&site, text.as_str());
            Err((e, emission))
        },
    }
}

/// How many of `outcomes` failed.
pub open spec fn failures<T, E>(outcomes: Seq<Result<T, E>>) -> nat
    decreases outcomes.len(),
{
    if outcomes.len() == 0 {
        0
    } else {
        failures(outcomes.drop_last()) + if outcomes.last() is Err { 1nat } else { 0nat }
    }
}

/// How many records a run of passes gave.
pub open spec fn records<T, E>(results: Seq<(Result<T, E>, Option<Emission>)>) -> nat
    decreases results.len(),
{
    if results.len() == 0 {
        0
    } else {
        records(results.drop_last()) + if results.last().1 is Some { 1nat } else { 0nat }
    }
}

/// How many critical records a run of observations on the fatal path gave.
pub open spec fn critical_records<T, E>(results: Seq<Result<T, (E, Emission)>>) -> nat
    decreases results.len(),
{
    if results.len() == 0 {
        0
    } else {
        critical_records(results.drop_last()) + if (results.last() matches Err((_, m)) && m.level
            == Severity::Critical) { 1nat } else { 0nat }
    }
}

/// A run of passes, the `i`-th of `outcomes[i]` at `levels[i]`, gives as many records as
/// there were failures: each failing pass one record at its own level holding its own
/// error's text, each successful pass none: the same as each would give alone, so
/// nothing carries over from one pass to the next.
pub proof fn lemma_pass_run<T, E: Display>(
    outcomes: Seq<Result<T, E>>,
    levels: Seq<Severity>,
    results: Seq<(Result<T, E>, Option<Emission>)>,
)
    requires
        levels.len() == outcomes.len(),
        results.len() == outcomes.len(),
        forall|i: int| 0 <= i < outcomes.len() ==> passes(outcomes[i], levels[i], #[trigger] results[i]),
    ensures
        records(results) == failures(outcomes),
        forall|i: int|
            0 <= i < outcomes.len() ==> {
                &&& (#[trigger] results[i]).0 == outcomes[i]
                &&& outcomes[i] is Ok ==> results[i].1 is None
                &&& outcomes[i] matches Err(e) ==> results[i].1 matches Some(m) && m.level
                    == levels[i] && displays(&e, m.message)
            },
    decreases outcomes.len(),
{
    if outcomes.len() > 0 {
        let n = outcomes.len() - 1;
        lemma_pass_run(outcomes.drop_last(), levels.drop_last(), results.drop_last());
        assert(passes(outcomes[n], levels[n], results[n]));
    }
}

/// A run of failing observations on the fatal path, each caught, gives one critical
/// record per observation, each giving back its own error: nothing carries over from
/// one observation to the next.
pub proof fn lemma_unwrap_run<T, E: Display>(
    outcomes: Seq<Result<T, E>>,
    results: Seq<Result<T, (E, Emission)>>,
)
    requires
        results.len() == outcomes.len(),
        forall|i: int| 0 <= i < outcomes.len() ==> (#[trigger] outcomes[i]) is Err,
        forall|i: int| 0 <= i < outcomes.len() ==> halts_with(outcomes[i], #[trigger] results[i]),
    ensures
        critical_records(results) == outcomes.len(),
        forall|i: int|
            0 <= i < outcomes.len() ==> ((#[trigger] results[i]) matches Err((e, m)) && e
                == outcomes[i]->Err_0 && m.level == Severity::Critical),
    decreases outcomes.len(),
{
    if outcomes.len() > 0 {
        let n = outcomes.len() - 1;
        lemma_unwrap_run(outcomes.drop_last(), results.drop_last());
        assert(outcomes[n] is Err);
        assert(halts_with(outcomes[n], results[n]));
    }
}

} // verus!
