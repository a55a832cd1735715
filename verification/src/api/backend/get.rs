//! The status query: version-control metadata of the deployment and the worker's output.
use vstd::prelude::*;
use crate::backend::{reply_text, Reply, ReplyView};
use crate::error::{Error, ErrorView};

verus! {

/// What stands in for the version-control metadata when the query failed.
pub open spec fn no_commit_info_text() -> Seq<char> {
    "Failed to get commit info"@
}

/// What stands in for the standard output when it could not be read.
pub open spec fn no_stdout_text() -> Seq<char> {
    "Failed to get stdout"@
}

/// What stands in for the standard error when it could not be read.
pub open spec fn no_stderr_text() -> Seq<char> {
    "Failed to get stderr"@
}

/// One section of the report: the reply in words, or the placeholder for a failure.
pub open spec fn section(result: Result<ReplyView, ErrorView>, placeholder: Seq<char>) -> Seq<
    char,
> {
    match result {
        Ok(reply) => reply_text(reply),
        Err(_) => placeholder,
    }
}

/// The report from its three sections.
pub open spec fn status_text(commit: Seq<char>, stdout: Seq<char>, stderr: Seq<char>) -> Seq<
    char,
> {
    "Commit Info:\n"@ + commit + "\n\nStandard Output:\n"@ + stdout
        + "\n\nStandard Error:\n"@ + stderr + "\n"@
}

/// The mathematical value of an operation's result.
pub open spec fn result_view(result: Result<Reply, Error>) -> Result<ReplyView, ErrorView> {
    match result {
        Ok(reply) => Ok(reply@),
        Err(error) => Err(error@),
    }
}

fn section_text(result: &Result<Reply, Error>, placeholder: &str) -> (text: String)
    ensures
        text@ == section(result_view(*result), placeholder@),
{
    match result {
        Ok(reply) => reply.text(),
        Err(_) => String::from_str(placeholder),
    }
}

/// Writes the status report from the results of the three queries. A query that failed
/// leaves a placeholder in its section; the report is given all the same.
pub fn handler(
    commit: &Result<Reply, Error>,
    stdout: &Result<Reply, Error>,
    stderr: &Result<Reply, Error>,
) -> (report: String)
    ensures
        report@ == status_text(
            section(result_view(*commit), no_commit_info_text()),
            section(result_view(*stdout), no_stdout_text()),
            section(result_view(*stderr), no_stderr_text()),
        ),
{
    let commit = section_text(commit, "Failed to get commit info");
    let stdout = section_text(stdout, "Failed to get stdout");
    let stderr = section_text(stderr, "Failed to get stderr");
    let mut report = String::from_str("Commit Info:\n");
    report.append(commit.as_str());
    report.append("\n\nStandard Output:\n");
    report.append(stdout.as_str());
    report.append("\n\nStandard Error:\n");
    report.append(stderr.as_str());
    report.append("\n");
    report
}

} // verus!
