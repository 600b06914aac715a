use vstd::prelude::*;
use vstd::string::StringExecFns;

verus! {

/// Exit status of a process whose host application could not start.
pub const FAILURE_STATUS: i32 = 1;

/// The start of every fatal start-up diagnostic.
pub open spec fn spec_fatal_prefix() -> Seq<char> {
    "error while running Pierre desktop application: "@
}

/// The diagnostic printed when start-up fails with the given cause.
pub open spec fn spec_fatal_diagnostic(cause: Seq<char>) -> Seq<char> {
    spec_fatal_prefix() + cause
}

/// How the process ends once the host application has returned.
pub struct Termination {
    pub status: i32,
    pub diagnostic: String,
}

/// Decides how the process ends from the outcome of running the host
/// application: a clean exit, or a fatal diagnostic and a nonzero status.
/// There is no retry and no degraded mode.
pub fn conclude(outcome: Result<(), String>) -> (r: Termination)
    ensures
        match outcome {
            Ok(()) => r.status == 0 && r.diagnostic@ == Seq::<char>::empty(),
            Err(cause) => r.status == FAILURE_STATUS && r.diagnostic@ == spec_fatal_diagnostic(
                cause@,
            ),
        },
{
    match outcome {
        Ok(()) => Termination { status: 0, diagnostic: String::new() },
        Err(cause) => {
            let diagnostic = String::from_str("error while running Pierre desktop application: ")
                .concat(cause.as_str());
            Termination { status: FAILURE_STATUS, diagnostic }
        },
    }
}

/// A failed start-up always ends with a nonzero status and a diagnostic that names
/// the start-up failure ahead of its cause.
pub proof fn lemma_failure_is_reported(cause: Seq<char>)
    ensures
        FAILURE_STATUS != 0,
        spec_fatal_diagnostic(cause).len() > cause.len(),
        spec_fatal_diagnostic(cause).subrange(0, spec_fatal_prefix().len() as int)
            == spec_fatal_prefix(),
        spec_fatal_diagnostic(cause).subrange(
            spec_fatal_prefix().len() as int,
            spec_fatal_diagnostic(cause).len() as int,
        ) == cause,
{
    reveal_strlit("error while running Pierre desktop application: ");
    let p = spec_fatal_prefix();
    let d = spec_fatal_diagnostic(cause);
    assert(d.subrange(0, p.len() as int) =~= p);
    assert(d.subrange(p.len() as int, d.len() as int) =~= cause);
}

} // verus!
