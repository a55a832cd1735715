//! Command lines that the supervisor asks its host to run, and what a finished run reports.
use vstd::prelude::*;

verus! {

/// A command line: the program, its arguments, and the directory to run it in.
#[derive(Debug, PartialEq, Eq)]
pub struct Command {
    pub program: String,
    pub args: Vec<String>,
    pub dir: Option<String>,
}

/// The mathematical value of a [`Command`].
pub struct CommandView {
    pub program: Seq<char>,
    pub args: Seq<Seq<char>>,
    pub dir: Option<Seq<char>>,
}

/// The text held by an optional string.
pub open spec fn text_of(text: Option<String>) -> Option<Seq<char>> {
    match text {
        Some(t) => Some(t@),
        None => None,
    }
}

impl View for Command {
    type V = CommandView;

    open spec fn view(&self) -> CommandView {
        CommandView {
            program: self.program@,
            args: self.args.deep_view(),
            dir: text_of(self.dir),
        }
    }
}

/// What a command that ran to its end reports.
#[derive(Debug, PartialEq, Eq)]
pub struct Output {
    /// Whether the command exited successfully.
    pub success: bool,
    /// The exit status in words, as the host renders it.
    pub status: String,
    /// The bytes captured from standard output.
    pub stdout: Vec<u8>,
    /// The bytes captured from standard error.
    pub stderr: Vec<u8>,
}

/// The mathematical value of an [`Output`].
pub struct OutputView {
    pub success: bool,
    pub status: Seq<char>,
    pub stdout: Seq<u8>,
    pub stderr: Seq<u8>,
}

impl View for Output {
    type V = OutputView;

    open spec fn view(&self) -> OutputView {
        OutputView {
            success: self.success,
            status: self.status@,
            stdout: self.stdout@,
            stderr: self.stderr@,
        }
    }
}

/// Appends `arg` to an argument list.
pub fn push_arg(args: &mut Vec<String>, arg: &str)
    ensures
        final(args).deep_view() == old(args).deep_view().push(arg@),
{
    args.push(String::from_str(arg));
    assert(final(args).deep_view() =~= old(args).deep_view().push(arg@));
}

/// An argument list without arguments.
pub fn no_args() -> (args: Vec<String>)
    ensures
        args.deep_view() == Seq::<Seq<char>>::empty(),
{
    let args: Vec<String> = Vec::new();
    assert(args.deep_view() =~= Seq::<Seq<char>>::empty());
    args
}

/// The build step: `mvn install`, run in the deployment directory.
pub open spec fn build_command(dir: Seq<char>) -> CommandView {
    CommandView { program: "mvn"@, args: seq!["install"@], dir: Some(dir) }
}

/// The version-control query: `git log -n 1`, run in the deployment directory.
pub open spec fn inspect_command(dir: Seq<char>) -> CommandView {
    CommandView { program: "git"@, args: seq!["log"@, "-n"@, "1"@], dir: Some(dir) }
}

/// The worker's command line: `java -jar` and the artifact.
pub open spec fn launch_command(artifact: Seq<char>) -> CommandView {
    CommandView { program: "java"@, args: seq!["-jar"@, artifact], dir: None }
}

/// The termination request: `kill` and the process id in decimal.
pub open spec fn kill_command(pid: u32) -> CommandView {
    CommandView { program: "kill"@, args: seq![crate::text::decimal(pid as nat)], dir: None }
}

/// The extraction of `archive` into `dest`: `tar -xf archive -C dest`, followed by
/// `--strip-components=1` when the archive's top-level directory is to be dropped.
pub open spec fn extract_command(archive: Seq<char>, dest: Seq<char>, strip: bool) -> CommandView {
    CommandView {
        program: "tar"@,
        args: if strip {
            seq!["-xf"@, archive, "-C"@, dest, "--strip-components=1"@]
        } else {
            seq!["-xf"@, archive, "-C"@, dest]
        },
        dir: None,
    }
}

impl Command {
    /// The build step for the project in `dir`.
    pub fn build(dir: &str) -> (command: Command)
        ensures
            command@ == build_command(dir@),
    {
        let mut args = no_args();
        push_arg(&mut args, "install");
        let command = Command {
            program: String::from_str("mvn"),
            args,
            dir: Some(String::from_str(dir)),
        };
        assert(command@.args =~= build_command(dir@).args);
        command
    }

    /// The version-control query for the project in `dir`.
    pub fn inspect(dir: &str) -> (command: Command)
        ensures
            command@ == inspect_command(dir@),
    {
        let mut args = no_args();
        push_arg(&mut args, "log");
        push_arg(&mut args, "-n");
        push_arg(&mut args, "1");
        let command = Command {
            program: String::from_str("git"),
            args,
            dir: Some(String::from_str(dir)),
        };
        assert(command@.args =~= inspect_command(dir@).args);
        command
    }

    /// The command line that runs `artifact` as the worker.
    pub fn launch(artifact: &str) -> (command: Command)
        ensures
            command@ == launch_command(artifact@),
    {
        let mut args = no_args();
        push_arg(&mut args, "-jar");
        push_arg(&mut args, artifact);
        let command = Command { program: String::from_str("java"), args, dir: None };
        assert(command@.args =~= launch_command(artifact@).args);
        command
    }

    /// The termination request for the process `pid`.
    pub fn kill(pid: u32) -> (command: Command)
        ensures
            command@ == kill_command(pid),
    {
        let number = crate::text::decimal_string(pid as u64);
        let mut args = no_args();
        push_arg(&mut args, number.as_str());
        let command = Command { program: String::from_str("kill"), args, dir: None };
        assert(command@.args =~= kill_command(pid).args);
        command
    }

    /// The extraction of `archive` into `dest`.
    pub fn extract(archive: &str, dest: &str, strip: bool) -> (command: Command)
        ensures
            command@ == extract_command(archive@, dest@, strip),
    {
        let mut args = no_args();
        push_arg(&mut args, "-xf");
        push_arg(&mut args, archive);
        push_arg(&mut args, "-C");
        push_arg(&mut args, dest);
        if strip {
            push_arg(&mut args, "--strip-components=1");
        }
        let command = Command { program: String::from_str("tar"), args, dir: None };
        assert(command@.args =~= extract_command(archive@, dest@, strip).args);
        command
    }
}

} // verus!
