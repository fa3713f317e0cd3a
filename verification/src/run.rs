//! What running an external command looks like from the library: the
//! command a tool decides to issue, the outcome the process runner
//! reports back, and the errors a tool surfaces.

use vstd::prelude::*;

verus! {

/// A subprocess invocation: a program and its arguments.
#[derive(Debug)]
pub struct CmdSpec {
    pub program: String,
    pub args: Vec<String>,
}

/// What the process runner reported for one invocation: success, or a
/// failure with the detail the runner captured.
#[derive(Debug)]
pub enum RunOutcome {
    Success,
    Failure(String),
}

/// The errors a tool's install or teardown surfaces.
#[derive(Debug)]
pub enum UpError {
    /// An external subprocess failed; the message carries the command
    /// and exit detail.
    Exec(String),
    /// External state is inconsistent in a way the tool cannot reason
    /// about; the caller aborts rather than repairs.
    Fatal(String),
}

/// The outcome at position `i` reports success.
pub open spec fn outcome_ok(os: Seq<RunOutcome>, i: int) -> bool {
    0 <= i < os.len() && os[i] is Success
}

/// The failure detail at position `i`; a missing outcome means the
/// command was never run.
pub open spec fn outcome_msg(os: Seq<RunOutcome>, i: int) -> Seq<char> {
    if 0 <= i < os.len() {
        match os[i] {
            RunOutcome::Failure(m) => m@,
            RunOutcome::Success => Seq::<char>::empty(),
        }
    } else {
        "command was not run"@
    }
}

/// The outcome at position `i` as a result, failures carried as
/// execution errors.
pub fn outcome_at(outcomes: &Vec<RunOutcome>, i: usize) -> (r: Result<(), UpError>)
    ensures
        match r {
            Ok(_) => outcome_ok(outcomes@, i as int),
            Err(e) => {
                &&& !outcome_ok(outcomes@, i as int)
                &&& e matches UpError::Exec(m) && m@ == outcome_msg(outcomes@, i as int)
            },
        },
{
    if i < outcomes.len() {
        match &outcomes[i] {
            RunOutcome::Success => Ok(()),
            RunOutcome::Failure(m) => Err(UpError::Exec(m.clone())),
        }
    } else {
        Err(UpError::Exec("command was not run".to_owned()))
    }
}

/// Relies on time::OffsetDateTime::now_utc and its unix_timestamp: the
/// result is whatever second the machine's clock shows; nothing more
/// is assumed of the value.
#[verifier::external_body]
pub(crate) fn now_unix() -> i64 {
    time::OffsetDateTime::now_utc().unix_timestamp()
}

} // verus!
