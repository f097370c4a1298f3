use vstd::prelude::*;

use crate::registry::{completed_as, AppState, StartError};

verus! {

/// A message the service sends over the persistent connection, besides
/// progress updates.
#[derive(Debug)]
pub enum Reply {
    /// The conversion produced a non-empty output.
    JobFinished { job_id: u128 },
    /// A request was refused or a conversion failed.
    Error { message: String },
}

/// The message reported when a conversion left no output.
pub open spec fn failure_message() -> Seq<char> {
    "oops -- your job failed!"@
}

/// Whether an output artifact of `len` bytes (`None`: missing) is a
/// successful conversion.
pub open spec fn output_ok(len: Option<u64>) -> bool {
    len matches Some(n) && n > 0
}

impl Reply {
    /// The error message for a refused `StartJob`.
    pub fn from_start_error(e: StartError) -> (r: Reply)
        ensures
            r matches Reply::Error { message } && message@ == e.message_spec(),
    {
        Reply::Error { message: String::from_str(e.message()) }
    }
}

/// Ends a conversion: the job is marked completed whatever the outcome;
/// the reply is `JobFinished` exactly when the output artifact exists and is
/// not empty, otherwise an error. The subprocess's exit status plays no part.
pub fn finish_job(state: &mut AppState, id: u128, output_len: Option<u64>) -> (r: Reply)
    requires
        old(state).wf(),
    ensures
        final(state).wf(),
        final(state)@.dom() == old(state)@.dom(),
        old(state)@.contains_key(id) ==> completed_as(old(state)@[id], final(state)@[id]),
        forall|k: u128| k != id && #[trigger] old(state)@.contains_key(k) ==> final(state)@[k] == old(state)@[k],
        output_ok(output_len) ==> r == (Reply::JobFinished { job_id: id }),
        !output_ok(output_len) ==> (r matches Reply::Error { message } && message@ == failure_message()),
{
    state.mark_completed(id);
    match output_len {
        Some(n) => if n > 0 {
            return Reply::JobFinished { job_id: id };
        },
        None => {},
    }
    Reply::Error { message: String::from_str("oops -- your job failed!") }
}

} // verus!
