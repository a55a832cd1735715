//! The handle of the supervised worker: its process id and what it has printed so far.
use vstd::prelude::*;
use crate::command::Command;
use crate::command::{kill_command, launch_command};
use crate::text::{decode_lossy, lossy_text};

verus! {

/// A live worker process with the text accumulated from its two output streams.
///
/// The accumulation starts empty when the handle is made and only ever grows.
#[derive(Debug, PartialEq, Eq)]
pub struct BackendProcess {
    pid: u32,
    stdout: String,
    stderr: String,
}

/// The mathematical value of a [`BackendProcess`].
pub struct ProcessView {
    pub pid: u32,
    pub stdout: Seq<char>,
    pub stderr: Seq<char>,
}

impl View for BackendProcess {
    type V = ProcessView;

    closed spec fn view(&self) -> ProcessView {
        ProcessView { pid: self.pid, stdout: self.stdout@, stderr: self.stderr@ }
    }
}

/// A handle as it is when the process has just been created.
pub open spec fn fresh_process(pid: u32) -> ProcessView {
    ProcessView { pid, stdout: Seq::empty(), stderr: Seq::empty() }
}

impl BackendProcess {
    /// The handle of the process `pid`, just created: nothing is accumulated yet.
    pub fn new(pid: u32) -> (process: BackendProcess)
        ensures
            process@ == fresh_process(pid),
    {
        BackendProcess { pid, stdout: String::new(), stderr: String::new() }
    }

    /// The command line that creates the worker from `artifact`.
    pub fn launch(artifact: &str) -> (command: Command)
        ensures
            command@ == launch_command(artifact@),
    {
        Command::launch(artifact)
    }

    /// The process id.
    pub fn pid(&self) -> (pid: u32)
        ensures
            pid == self@.pid,
    {
        self.pid
    }

    /// The termination request for this process.
    pub fn kill(&self) -> (command: Command)
        ensures
            command@ == kill_command(self@.pid),
    {
        Command::kill(self.pid)
    }

    /// Appends `text` to the accumulated standard output.
    pub fn append_stdout(&mut self, text: &str)
        ensures
            final(self)@ == (ProcessView { stdout: old(self)@.stdout + text@, ..old(self)@ }),
    {
        self.stdout.append(text);
    }

    /// Appends `text` to the accumulated standard error.
    pub fn append_stderr(&mut self, text: &str)
        ensures
            final(self)@ == (ProcessView { stderr: old(self)@.stderr + text@, ..old(self)@ }),
    {
        self.stderr.append(text);
    }

    /// Decodes one non-blocking read of the standard output pipe.
    ///
    /// With nothing available `None` is returned; otherwise the bytes, decoded leniently.
    /// The accumulation is left as it is: the caller appends what it keeps, with
    /// [`BackendProcess::append_stdout`].
    pub fn poll_stdout(&mut self, available: &[u8]) -> (polled: Option<String>)
        ensures
            final(self)@ == old(self)@,
            polled is None <==> available@.len() == 0,
            polled matches Some(text) ==> text@ == lossy_text(available@),
    {
        if available.len() == 0 {
            None
        } else {
            Some(decode_lossy(available))
        }
    }

    /// Decodes one non-blocking read of the standard error pipe, as
    /// [`BackendProcess::poll_stdout`] does for standard output.
    pub fn poll_stderr(&mut self, available: &[u8]) -> (polled: Option<String>)
        ensures
            final(self)@ == old(self)@,
            polled is None <==> available@.len() == 0,
            polled matches Some(text) ==> text@ == lossy_text(available@),
    {
        if available.len() == 0 {
            None
        } else {
            Some(decode_lossy(available))
        }
    }

    /// Everything accumulated from standard output.
    pub fn stdout(&self) -> (text: String)
        ensures
            text@ == self@.stdout,
    {
        self.stdout.clone()
    }

    /// Everything accumulated from standard error.
    pub fn stderr(&self) -> (text: String)
        ensures
            text@ == self@.stderr,
    {
        self.stderr.clone()
    }
}

} // verus!
