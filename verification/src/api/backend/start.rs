//! The answer to a start request.
use vstd::prelude::*;
use crate::api::backend::get::result_view;
use crate::backend::{reply_text, Reply, ReplyView};
use crate::error::{Error, ErrorView};

verus! {

/// The answer to a start that failed for `cause`.
pub open spec fn start_failed_text(cause: Seq<char>) -> Seq<char> {
    "Failed to start backend: "@ + cause + "\n"@
}

/// The answer to a start request with this result.
pub open spec fn start_answer(result: Result<ReplyView, ErrorView>) -> Seq<char> {
    match result {
        Ok(reply) => reply_text(reply),
        Err(error) => start_failed_text(error.message),
    }
}

/// Writes the answer to a start request from the result of the operation.
pub fn handler(result: &Result<Reply, Error>) -> (answer: String)
    ensures
        answer@ == start_answer(result_view(*result)),
{
    match result {
        Ok(reply) => reply.text(),
        Err(error) => {
            let mut answer = String::from_str("Failed to start backend: ");
            answer.append(error.message.as_str());
            answer.append("\n");
            answer
        },
    }
}

} // verus!
