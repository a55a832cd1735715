//! The answer to a stop request.
use vstd::prelude::*;
use crate::api::backend::get::result_view;
use crate::backend::{reply_text, Reply, ReplyView};
use crate::error::{Error, ErrorView};

verus! {

/// The answer to a stop that failed for `cause`.
pub open spec fn stop_failed_text(cause: Seq<char>) -> Seq<char> {
    "Failed to stop backend: "@ + cause + "\n"@
}

/// The answer to a stop request with this result.
pub open spec fn stop_answer(result: Result<ReplyView, ErrorView>) -> Seq<char> {
    match result {
        Ok(reply) => reply_text(reply),
        Err(error) => stop_failed_text(error.message),
    }
}

/// Writes the answer to a stop request from the result of the operation.
pub fn handler(result: &Result<Reply, Error>) -> (answer: String)
    ensures
        answer@ == stop_answer(result_view(*result)),
{
    match result {
        Ok(reply) => reply.text(),
        Err(error) => {
            let mut answer = String::from_str("Failed to stop backend: ");
            answer.append(error.message.as_str());
            answer.append("\n");
            answer
        },
    }
}

} // verus!
