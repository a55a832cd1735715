//! The answer to a restart request.
use vstd::prelude::*;
use crate::api::backend::get::result_view;
use crate::api::backend::start::start_answer;
use crate::api::backend::stop::stop_answer;
use crate::backend::{Reply, ReplyView};
use crate::error::{Error, ErrorKind, ErrorView};

verus! {

/// Whether the restart failed in its stop.
pub open spec fn failed_in_stop(result: Result<ReplyView, ErrorView>) -> bool {
    result is Err && result->Err_0.kind == ErrorKind::KillFailed
}

/// The answer to a restart request with this result: that of the stop where the stop
/// failed, else that of the start.
pub open spec fn restart_answer(result: Result<ReplyView, ErrorView>) -> Seq<char> {
    if failed_in_stop(result) {
        stop_answer(result)
    } else {
        start_answer(result)
    }
}

/// Writes the answer to a restart request from the result of the operation.
pub fn handler(result: &Result<Reply, Error>) -> (answer: String)
    ensures
        answer@ == restart_answer(result_view(*result)),
{
    let in_stop = match result {
        Ok(_) => false,
        Err(error) => match error.kind {
            ErrorKind::KillFailed => true,
            _ => false,
        },
    };
    if in_stop {
        crate::api::backend::stop::handler(result)
    } else {
        crate::api::backend::start::handler(result)
    }
}

} // verus!
