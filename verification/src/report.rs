//! The messages that the supervisor hands to its operator.
use vstd::prelude::*;
use crate::command::{Output, OutputView};
use crate::text::{decode_lossy, lossy_text};

verus! {

/// What every query and `stop` answer while no worker is supervised.
pub open spec fn not_running_text() -> Seq<char> {
    "Backend is not running"@
}

/// What `start` reports when the build left no artifact.
pub open spec fn no_artifact_text() -> Seq<char> {
    "No jar found"@
}

/// What is reported when an outcome arrives that the operation in flight did not ask for.
pub open spec fn unexpected_text() -> Seq<char> {
    "Unexpected event; the operation in progress was abandoned"@
}

/// The account of a build: its exit status and what it printed, already decoded.
pub open spec fn build_report_of(status: Seq<char>, stdout: Seq<char>, stderr: Seq<char>) -> Seq<
    char,
> {
    "maven install status: "@ + status + "\nmaven install stdout: \n"@ + stdout
        + "maven install stderr: \n"@ + stderr + "\n"@
}

/// The account of a build, from what the build tool reported.
pub open spec fn build_report(output: OutputView) -> Seq<char> {
    build_report_of(output.status, lossy_text(output.stdout), lossy_text(output.stderr))
}

/// The account of a stop: the exit status and everything the worker printed.
pub open spec fn stop_report(status: Seq<char>, stdout: Seq<char>, stderr: Seq<char>) -> Seq<
    char,
> {
    "Backend stopped with status: "@ + status + "\nstdout: \n"@ + stdout + "\nstderr:\n "@
        + stderr + "\n"@
}

/// The build-output directory of the project in `dir`.
pub open spec fn output_dir(dir: Seq<char>) -> Seq<char> {
    dir + "/target"@
}

/// The path of the file `name` in the build-output directory of the project in `dir`.
pub open spec fn artifact_path(dir: Seq<char>, name: Seq<char>) -> Seq<char> {
    dir + "/target/"@ + name
}

/// A build report is never empty.
pub proof fn lemma_build_report_nonempty(output: OutputView)
    ensures
        build_report(output).len() > 0,
{
    reveal_strlit("\n");
}

/// Writes the account of a build from its parts.
pub fn build_report_text(status: &str, stdout: &str, stderr: &str) -> (text: String)
    ensures
        text@ == build_report_of(status@, stdout@, stderr@),
{
    let mut text = String::from_str("maven install status: ");
    text.append(status);
    text.append("\nmaven install stdout: \n");
    text.append(stdout);
    text.append("maven install stderr: \n");
    text.append(stderr);
    text.append("\n");
    text
}

/// Writes the account of a build from what the build tool reported.
pub fn build_report_for(output: &Output) -> (text: String)
    ensures
        text@ == build_report(output@),
{
    let stdout = decode_lossy(output.stdout.as_slice());
    let stderr = decode_lossy(output.stderr.as_slice());
    build_report_text(output.status.as_str(), stdout.as_str(), stderr.as_str())
}

/// Writes the account of a stop.
pub fn stop_report_text(status: &str, stdout: &str, stderr: &str) -> (text: String)
    ensures
        text@ == stop_report(status@, stdout@, stderr@),
{
    let mut text = String::from_str("Backend stopped with status: ");
    text.append(status);
    text.append("\nstdout: \n");
    text.append(stdout);
    text.append("\nstderr:\n ");
    text.append(stderr);
    text.append("\n");
    text
}

/// The path of the build-output directory of the project in `dir`.
pub fn output_dir_of(dir: &str) -> (path: String)
    ensures
        path@ == output_dir(dir@),
{
    let mut path = String::from_str(dir);
    path.append("/target");
    path
}

/// The path of the file `name` in the build-output directory of the project in `dir`.
pub fn artifact_path_of(dir: &str, name: &str) -> (path: String)
    ensures
        path@ == artifact_path(dir@, name@),
{
    let mut path = String::from_str(dir);
    path.append("/target/");
    path.append(name);
    path
}

} // verus!
