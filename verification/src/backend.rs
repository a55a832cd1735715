//! The supervisor of the single worker process, as a state machine without I/O.
//!
//! An operation is begun by [`Backend::start`], [`Backend::stop`], [`Backend::restart`],
//! [`Backend::stdout`], [`Backend::stderr`] or [`Backend::commit_info`]. Each returns an
//! [`Action`]: either the operation's result, or a piece of work for the host. The host does
//! the work and hands its outcome to [`Backend::advance`] as an [`Event`], which returns the
//! next action, until the result comes.
//!
//! Two policies are fixed here. Among several artifacts the one whose name sorts first is
//! run (see [`crate::artifact`]). And when a termination cannot be confirmed, the handle is
//! discarded all the same: after `KillFailed` the supervisor is stopped.
use vstd::prelude::*;
use crate::artifact::{select, select_artifact};
use crate::command::{build_command, inspect_command, kill_command, launch_command};
use crate::command::{Command, CommandView, Output, OutputView};
use crate::error::{Error, ErrorKind, ErrorView};
use crate::process::{fresh_process, BackendProcess, ProcessView};
use crate::report::{artifact_path, build_report, no_artifact_text, output_dir, stop_report};
use crate::report::{artifact_path_of, build_report_for, output_dir_of, stop_report_text};
use crate::report::unexpected_text;
use crate::text::{decode_lossy, lossy_text};

verus! {

/// Where the operation in flight stands. `Idle` when none is.
#[derive(Clone, Copy, Debug, PartialEq, Eq, Structural)]
pub enum Phase {
    Idle,
    /// The build runs.
    Building,
    /// The build-output directory is being listed.
    Locating,
    /// The artifact's path is being resolved.
    Resolving,
    /// The worker is being created.
    Spawning,
    /// The termination request is being sent.
    Killing { restart: bool },
    /// The worker's exit is awaited.
    Waiting { restart: bool },
    /// The version-control query runs.
    Inspecting,
    /// Standard output is being read.
    ReadingStdout,
    /// Standard error is being read.
    ReadingStderr,
}

/// The result of an operation that succeeded.
#[derive(Debug, PartialEq, Eq)]
pub enum Reply {
    /// `start` created the worker.
    Started,
    /// `start` found the worker running and did nothing.
    AlreadyRunning,
    /// `stop` ended the worker; the account of it.
    Stopped(String),
    /// There is no worker: nothing to stop, nothing to read.
    NotRunning,
    /// What the version-control query printed.
    CommitInfo { stdout: String, stderr: String },
    /// Everything the worker has written to standard output.
    Stdout(String),
    /// Everything the worker has written to standard error.
    Stderr(String),
}

/// The mathematical value of a [`Reply`].
pub enum ReplyView {
    Started,
    AlreadyRunning,
    Stopped(Seq<char>),
    NotRunning,
    CommitInfo { stdout: Seq<char>, stderr: Seq<char> },
    Stdout(Seq<char>),
    Stderr(Seq<char>),
}

impl View for Reply {
    type V = ReplyView;

    open spec fn view(&self) -> ReplyView {
        match *self {
            Reply::Started => ReplyView::Started,
            Reply::AlreadyRunning => ReplyView::AlreadyRunning,
            Reply::Stopped(text) => ReplyView::Stopped(text@),
            Reply::NotRunning => ReplyView::NotRunning,
            Reply::CommitInfo { stdout, stderr } => ReplyView::CommitInfo {
                stdout: stdout@,
                stderr: stderr@,
            },
            Reply::Stdout(text) => ReplyView::Stdout(text@),
            Reply::Stderr(text) => ReplyView::Stderr(text@),
        }
    }
}

/// What a successful start answers.
pub open spec fn started_text() -> Seq<char> {
    "Backend started\n"@
}

/// The reply in words, as the operator sees it.
pub open spec fn reply_text(reply: ReplyView) -> Seq<char> {
    match reply {
        ReplyView::Started => started_text(),
        ReplyView::AlreadyRunning => started_text(),
        ReplyView::Stopped(report) => report,
        ReplyView::NotRunning => crate::report::not_running_text(),
        ReplyView::CommitInfo { stdout, .. } => stdout,
        ReplyView::Stdout(text) => text,
        ReplyView::Stderr(text) => text,
    }
}

impl Reply {
    /// The reply in words, as the operator sees it.
    pub fn text(&self) -> (text: String)
        ensures
            text@ == reply_text(self@),
    {
        match self {
            Reply::Started => String::from_str("Backend started\n"),
            Reply::AlreadyRunning => String::from_str("Backend started\n"),
            Reply::Stopped(report) => report.clone(),
            Reply::NotRunning => String::from_str("Backend is not running"),
            Reply::CommitInfo { stdout, .. } => stdout.clone(),
            Reply::Stdout(text) => text.clone(),
            Reply::Stderr(text) => text.clone(),
        }
    }
}

/// What the supervisor asks of its host next.
#[derive(Debug, PartialEq, Eq)]
pub enum Action {
    /// Run the command to its end and capture what it prints; answer with [`Event::Ran`].
    Run(Command),
    /// List the file names in the directory; answer with [`Event::Listed`].
    List(String),
    /// Resolve the path to its canonical form; answer with [`Event::Resolved`].
    Resolve(String),
    /// Create the worker with both output streams captured; answer with [`Event::Spawned`].
    Spawn(Command),
    /// Wait for the worker's exit and read what is left in its pipes; answer with
    /// [`Event::Exited`].
    Wait,
    /// Read everything that standard output holds now, without waiting; answer with
    /// [`Event::Read`].
    ReadStdout,
    /// Read everything that standard error holds now, without waiting; answer with
    /// [`Event::Read`].
    ReadStderr,
    /// Nothing more: the operation has ended with this result.
    Done(Result<Reply, Error>),
}

/// The mathematical value of an [`Action`].
pub enum ActionView {
    Run(CommandView),
    List(Seq<char>),
    Resolve(Seq<char>),
    Spawn(CommandView),
    Wait,
    ReadStdout,
    ReadStderr,
    Done(Result<ReplyView, ErrorView>),
}

impl View for Action {
    type V = ActionView;

    open spec fn view(&self) -> ActionView {
        match *self {
            Action::Run(command) => ActionView::Run(command@),
            Action::List(dir) => ActionView::List(dir@),
            Action::Resolve(path) => ActionView::Resolve(path@),
            Action::Spawn(command) => ActionView::Spawn(command@),
            Action::Wait => ActionView::Wait,
            Action::ReadStdout => ActionView::ReadStdout,
            Action::ReadStderr => ActionView::ReadStderr,
            Action::Done(Ok(reply)) => ActionView::Done(Ok(reply@)),
            Action::Done(Err(error)) => ActionView::Done(Err(error@)),
        }
    }
}

/// The outcome of the work that the last [`Action`] asked for. A failure carries the
/// cause in words.
#[derive(Debug, PartialEq, Eq)]
pub enum Event {
    /// The command ran to its end, or could not be run.
    Ran(Result<Output, String>),
    /// The file names found in the directory, in any order.
    Listed(Result<Vec<String>, String>),
    /// The canonical path.
    Resolved(Result<String, String>),
    /// The id of the process created.
    Spawned(Result<u32, String>),
    /// The worker's exit status and the bytes that were left in its pipes.
    Exited(Result<Output, String>),
    /// The bytes that were available; none when the pipe is empty or closed.
    Read(Result<Vec<u8>, String>),
}

/// The mathematical value of an [`Event`].
pub enum EventView {
    Ran(Result<OutputView, Seq<char>>),
    Listed(Result<Seq<Seq<char>>, Seq<char>>),
    Resolved(Result<Seq<char>, Seq<char>>),
    Spawned(Result<u32, Seq<char>>),
    Exited(Result<OutputView, Seq<char>>),
    Read(Result<Seq<u8>, Seq<char>>),
}

impl View for Event {
    type V = EventView;

    open spec fn view(&self) -> EventView {
        match *self {
            Event::Ran(Ok(output)) => EventView::Ran(Ok(output@)),
            Event::Ran(Err(cause)) => EventView::Ran(Err(cause@)),
            Event::Listed(Ok(names)) => EventView::Listed(Ok(names.deep_view())),
            Event::Listed(Err(cause)) => EventView::Listed(Err(cause@)),
            Event::Resolved(Ok(path)) => EventView::Resolved(Ok(path@)),
            Event::Resolved(Err(cause)) => EventView::Resolved(Err(cause@)),
            Event::Spawned(Ok(pid)) => EventView::Spawned(Ok(pid)),
            Event::Spawned(Err(cause)) => EventView::Spawned(Err(cause@)),
            Event::Exited(Ok(output)) => EventView::Exited(Ok(output@)),
            Event::Exited(Err(cause)) => EventView::Exited(Err(cause@)),
            Event::Read(Ok(bytes)) => EventView::Read(Ok(bytes@)),
            Event::Read(Err(cause)) => EventView::Read(Err(cause@)),
        }
    }
}

/// The supervisor: the worker, if one runs, and the deployment directory.
#[derive(Debug)]
pub struct Backend {
    process: Option<BackendProcess>,
    path: String,
    phase: Phase,
}

/// The mathematical value of a [`Backend`].
pub struct BackendView {
    pub process: Option<ProcessView>,
    pub path: Seq<char>,
    pub phase: Phase,
}

impl View for Backend {
    type V = BackendView;

    closed spec fn view(&self) -> BackendView {
        BackendView {
            process: match self.process {
                Some(process) => Some(process@),
                None => None,
            },
            path: self.path@,
            phase: self.phase,
        }
    }
}

/// A supervisor for the deployment in `path`, stopped and idle.
pub open spec fn initial(path: Seq<char>) -> BackendView {
    BackendView { process: None, path, phase: Phase::Idle }
}

/// The state with the operation in flight moved to `phase`.
pub open spec fn in_phase(s: BackendView, phase: Phase) -> BackendView {
    BackendView { phase, ..s }
}

/// The state without a worker.
pub open spec fn stopped(s: BackendView) -> BackendView {
    BackendView { process: None, ..s }
}

/// The operation ends in success: the supervisor is idle again.
pub open spec fn done_ok(s: BackendView, reply: ReplyView) -> (BackendView, ActionView) {
    (in_phase(s, Phase::Idle), ActionView::Done(Ok(reply)))
}

/// The operation ends in failure: the supervisor is idle again.
pub open spec fn done_err(s: BackendView, kind: ErrorKind, message: Seq<char>) -> (
    BackendView,
    ActionView,
) {
    (in_phase(s, Phase::Idle), ActionView::Done(Err(ErrorView { kind, message })))
}

/// An accumulation after a read: unchanged when nothing was read, else extended by the
/// leniently decoded bytes.
pub open spec fn collected(text: Seq<char>, bytes: Seq<u8>) -> Seq<char> {
    if bytes.len() == 0 {
        text
    } else {
        text + lossy_text(bytes)
    }
}

/// A read extends the accumulation by the decoded bytes, also where there were none.
pub proof fn lemma_collected_appends(text: Seq<char>, bytes: Seq<u8>)
    ensures
        collected(text, bytes) == text + lossy_text(bytes),
        text.is_prefix_of(collected(text, bytes)),
{
    if bytes.len() == 0 {
        crate::text::lemma_lossy_text_of_nothing();
        assert(bytes =~= Seq::<u8>::empty());
        assert(text + lossy_text(bytes) =~= text);
    }
}

/// `start`: nothing to do when the worker runs; else the build is asked for.
pub open spec fn begin_start(s: BackendView) -> (BackendView, ActionView) {
    if s.process is Some {
        done_ok(s, ReplyView::AlreadyRunning)
    } else {
        (in_phase(s, Phase::Building), ActionView::Run(build_command(s.path)))
    }
}

/// `stop`: nothing to do when no worker runs; else its termination is asked for.
pub open spec fn begin_stop(s: BackendView) -> (BackendView, ActionView) {
    match s.process {
        None => done_ok(s, ReplyView::NotRunning),
        Some(process) => (
            in_phase(s, Phase::Killing { restart: false }),
            ActionView::Run(kill_command(process.pid)),
        ),
    }
}

/// `restart`: a stop which, once it has succeeded, goes on as a start.
pub open spec fn begin_restart(s: BackendView) -> (BackendView, ActionView) {
    match s.process {
        None => begin_start(s),
        Some(process) => (
            in_phase(s, Phase::Killing { restart: true }),
            ActionView::Run(kill_command(process.pid)),
        ),
    }
}

/// The standard output query: one read is asked for when a worker runs.
pub open spec fn begin_stdout(s: BackendView) -> (BackendView, ActionView) {
    match s.process {
        None => done_ok(s, ReplyView::NotRunning),
        Some(_) => (in_phase(s, Phase::ReadingStdout), ActionView::ReadStdout),
    }
}

/// The standard error query: one read is asked for when a worker runs.
pub open spec fn begin_stderr(s: BackendView) -> (BackendView, ActionView) {
    match s.process {
        None => done_ok(s, ReplyView::NotRunning),
        Some(_) => (in_phase(s, Phase::ReadingStderr), ActionView::ReadStderr),
    }
}

/// The version-control query.
pub open spec fn begin_commit_info(s: BackendView) -> (BackendView, ActionView) {
    (in_phase(s, Phase::Inspecting), ActionView::Run(inspect_command(s.path)))
}

/// The state and the next action after the outcome `e` of the work last asked for.
///
/// An outcome that the phase did not ask for ends the operation with `StateRecovered` and
/// leaves the worker as it was.
pub open spec fn advance_spec(s: BackendView, e: EventView) -> (BackendView, ActionView) {
    match (s.phase, e, s.process) {
        (Phase::Building, EventView::Ran(Ok(output)), None) => if output.success {
            (in_phase(s, Phase::Locating), ActionView::List(output_dir(s.path)))
        } else {
            done_err(s, ErrorKind::BuildFailed, build_report(output))
        },
        (Phase::Building, EventView::Ran(Err(cause)), None) => done_err(
            s,
            ErrorKind::BuildFailed,
            cause,
        ),
        (Phase::Locating, EventView::Listed(Ok(names)), None) => match select_artifact(names) {
            Some(name) => (
                in_phase(s, Phase::Resolving),
                ActionView::Resolve(artifact_path(s.path, name)),
            ),
            None => done_err(s, ErrorKind::ArtifactNotFound, no_artifact_text()),
        },
        (Phase::Locating, EventView::Listed(Err(cause)), None) => done_err(
            s,
            ErrorKind::ArtifactNotFound,
            cause,
        ),
        (Phase::Resolving, EventView::Resolved(Ok(path)), None) => (
            in_phase(s, Phase::Spawning),
            ActionView::Spawn(launch_command(path)),
        ),
        (Phase::Resolving, EventView::Resolved(Err(cause)), None) => done_err(
            s,
            ErrorKind::ArtifactNotFound,
            cause,
        ),
        (Phase::Spawning, EventView::Spawned(Ok(pid)), None) => done_ok(
            BackendView { process: Some(fresh_process(pid)), ..s },
            ReplyView::Started,
        ),
        (Phase::Spawning, EventView::Spawned(Err(cause)), None) => done_err(
            s,
            ErrorKind::SpawnFailed,
            cause,
        ),
        (Phase::Killing { restart }, EventView::Ran(Ok(_)), Some(_)) => (
            in_phase(s, Phase::Waiting { restart }),
            ActionView::Wait,
        ),
        (Phase::Killing { restart }, EventView::Ran(Err(cause)), Some(_)) => done_err(
            stopped(s),
            ErrorKind::KillFailed,
            cause,
        ),
        (Phase::Waiting { restart }, EventView::Exited(Ok(output)), Some(process)) => if restart {
            begin_start(stopped(s))
        } else {
            done_ok(
                stopped(s),
                ReplyView::Stopped(
                    stop_report(
                        output.status,
                        collected(process.stdout, output.stdout),
                        collected(process.stderr, output.stderr),
                    ),
                ),
            )
        },
        (Phase::Waiting { restart }, EventView::Exited(Err(cause)), Some(_)) => done_err(
            stopped(s),
            ErrorKind::KillFailed,
            cause,
        ),
        (Phase::Inspecting, EventView::Ran(Ok(output)), _) => done_ok(
            s,
            ReplyView::CommitInfo {
                stdout: lossy_text(output.stdout),
                stderr: lossy_text(output.stderr),
            },
        ),
        (Phase::Inspecting, EventView::Ran(Err(cause)), _) => done_err(
            s,
            ErrorKind::IoFailed,
            cause,
        ),
        (Phase::ReadingStdout, EventView::Read(Ok(bytes)), Some(process)) => done_ok(
            BackendView {
                process: Some(
                    ProcessView { stdout: collected(process.stdout, bytes), ..process },
                ),
                ..s
            },
            ReplyView::Stdout(collected(process.stdout, bytes)),
        ),
        (Phase::ReadingStdout, EventView::Read(Err(cause)), Some(_)) => done_err(
            s,
            ErrorKind::IoFailed,
            cause,
        ),
        (Phase::ReadingStderr, EventView::Read(Ok(bytes)), Some(process)) => done_ok(
            BackendView {
                process: Some(
                    ProcessView { stderr: collected(process.stderr, bytes), ..process },
                ),
                ..s
            },
            ReplyView::Stderr(collected(process.stderr, bytes)),
        ),
        (Phase::ReadingStderr, EventView::Read(Err(cause)), Some(_)) => done_err(
            s,
            ErrorKind::IoFailed,
            cause,
        ),
        _ => done_err(s, ErrorKind::StateRecovered, unexpected_text()),
    }
}

/// Takes one read of standard output into the accumulation.
fn collect_stdout(process: &mut BackendProcess, bytes: &[u8])
    ensures
        final(process)@ == (ProcessView {
            stdout: collected(old(process)@.stdout, bytes@),
            ..old(process)@
        }),
{
    match process.poll_stdout(bytes) {
        Some(text) => process.append_stdout(text.as_str()),
        None => {},
    }
}

/// Takes one read of standard error into the accumulation.
fn collect_stderr(process: &mut BackendProcess, bytes: &[u8])
    ensures
        final(process)@ == (ProcessView {
            stderr: collected(old(process)@.stderr, bytes@),
            ..old(process)@
        }),
{
    match process.poll_stderr(bytes) {
        Some(text) => process.append_stderr(text.as_str()),
        None => {},
    }
}

impl Backend {
    /// A supervisor for the deployment in `path`: stopped, with no operation in flight.
    pub fn new(path: String) -> (backend: Backend)
        ensures
            backend@ == initial(path@),
    {
        Backend { process: None, path, phase: Phase::Idle }
    }

    /// Whether a worker is supervised.
    pub fn running(&self) -> (running: bool)
        ensures
            running == (self@.process is Some),
    {
        self.process.is_some()
    }

    /// The deployment directory.
    pub fn path(&self) -> (path: String)
        ensures
            path@ == self@.path,
    {
        self.path.clone()
    }

    /// Where the operation in flight stands.
    pub fn phase(&self) -> (phase: Phase)
        ensures
            phase == self@.phase,
    {
        self.phase
    }

    /// The id of the worker process, if one is supervised.
    pub fn pid(&self) -> (pid: Option<u32>)
        ensures
            pid is Some == (self@.process is Some),
            pid matches Some(p) ==> p == self@.process->0.pid,
    {
        match &self.process {
            Some(process) => Some(process.pid()),
            None => None,
        }
    }

    fn finish_ok(&mut self, reply: Reply) -> (action: Action)
        ensures
            (final(self)@, action@) == done_ok(old(self)@, reply@),
    {
        self.phase = Phase::Idle;
        Action::Done(Ok(reply))
    }

    fn finish_err(&mut self, kind: ErrorKind, message: String) -> (action: Action)
        ensures
            (final(self)@, action@) == done_err(old(self)@, kind, message@),
    {
        self.phase = Phase::Idle;
        Action::Done(Err(Error::new(kind, message)))
    }

    fn recover(&mut self) -> (action: Action)
        ensures
            (final(self)@, action@) == done_err(
                old(self)@,
                ErrorKind::StateRecovered,
                unexpected_text(),
            ),
    {
        self.finish_err(
            ErrorKind::StateRecovered,
            String::from_str("Unexpected event; the operation in progress was abandoned"),
        )
    }

    /// Begins a start. An operation left in flight is abandoned.
    ///
    /// With a worker running this is a success at once and changes nothing. Otherwise the
    /// build is asked for; the worker exists once [`Backend::advance`] has answered
    /// `Done(Ok(Started))`.
    pub fn start(&mut self) -> (action: Action)
        ensures
            (final(self)@, action@) == begin_start(old(self)@),
    {
        if self.process.is_some() {
            self.finish_ok(Reply::AlreadyRunning)
        } else {
            self.phase = Phase::Building;
            Action::Run(Command::build(self.path.as_str()))
        }
    }

    /// Begins a stop. An operation left in flight is abandoned.
    ///
    /// With no worker this is a success at once and changes nothing. Otherwise the
    /// termination request is asked for; the worker is given up once
    /// [`Backend::advance`] has answered `Done`, whether with success or with `KillFailed`.
    pub fn stop(&mut self) -> (action: Action)
        ensures
            (final(self)@, action@) == begin_stop(old(self)@),
    {
        match &self.process {
            None => self.finish_ok(Reply::NotRunning),
            Some(process) => {
                let command = process.kill();
                self.phase = Phase::Killing { restart: false };
                Action::Run(command)
            },
        }
    }

    /// Begins a restart: a stop, and after its success, and only then, a start.
    pub fn restart(&mut self) -> (action: Action)
        ensures
            (final(self)@, action@) == begin_restart(old(self)@),
    {
        match &self.process {
            None => self.start(),
            Some(process) => {
                let command = process.kill();
                self.phase = Phase::Killing { restart: true };
                Action::Run(command)
            },
        }
    }

    /// Begins the standard output query: with a worker, one read of its pipe is asked for.
    ///
    /// The query ends with the answer to that read, whatever it found: what was available
    /// is appended to the accumulation, and the whole accumulation is the reply. Nothing
    /// that the worker writes later is waited for.
    pub fn stdout(&mut self) -> (action: Action)
        ensures
            (final(self)@, action@) == begin_stdout(old(self)@),
    {
        if self.process.is_some() {
            self.phase = Phase::ReadingStdout;
            Action::ReadStdout
        } else {
            self.finish_ok(Reply::NotRunning)
        }
    }

    /// Begins the standard error query: with a worker, one read of its pipe is asked for.
    /// It ends as [`Backend::stdout`] does.
    pub fn stderr(&mut self) -> (action: Action)
        ensures
            (final(self)@, action@) == begin_stderr(old(self)@),
    {
        if self.process.is_some() {
            self.phase = Phase::ReadingStderr;
            Action::ReadStderr
        } else {
            self.finish_ok(Reply::NotRunning)
        }
    }

    /// Begins the version-control query for the deployment directory.
    pub fn commit_info(&mut self) -> (action: Action)
        ensures
            (final(self)@, action@) == begin_commit_info(old(self)@),
    {
        self.phase = Phase::Inspecting;
        Action::Run(Command::inspect(self.path.as_str()))
    }

    fn built(&mut self, ran: Result<Output, String>) -> (action: Action)
        requires
            old(self)@.phase == Phase::Building,
            old(self)@.process is None,
        ensures
            (final(self)@, action@) == advance_spec(old(self)@, (Event::Ran(ran))@),
    {
        match ran {
            Ok(output) => {
                if output.success {
                    self.phase = Phase::Locating;
                    Action::List(output_dir_of(self.path.as_str()))
                } else {
                    let report = build_report_for(&output);
                    self.finish_err(ErrorKind::BuildFailed, report)
                }
            },
            Err(cause) => self.finish_err(ErrorKind::BuildFailed, cause),
        }
    }

    fn located(&mut self, listed: Result<Vec<String>, String>) -> (action: Action)
        requires
            old(self)@.phase == Phase::Locating,
            old(self)@.process is None,
        ensures
            (final(self)@, action@) == advance_spec(old(self)@, (Event::Listed(listed))@),
    {
        match listed {
            Ok(names) => match select(&names) {
                Some(name) => {
                    self.phase = Phase::Resolving;
                    Action::Resolve(artifact_path_of(self.path.as_str(), name.as_str()))
                },
                None => self.finish_err(
                    ErrorKind::ArtifactNotFound,
                    String::from_str("No jar found"),
                ),
            },
            Err(cause) => self.finish_err(ErrorKind::ArtifactNotFound, cause),
        }
    }

    fn resolved(&mut self, resolved: Result<String, String>) -> (action: Action)
        requires
            old(self)@.phase == Phase::Resolving,
            old(self)@.process is None,
        ensures
            (final(self)@, action@) == advance_spec(old(self)@, (Event::Resolved(resolved))@),
    {
        match resolved {
            Ok(path) => {
                self.phase = Phase::Spawning;
                Action::Spawn(BackendProcess::launch(path.as_str()))
            },
            Err(cause) => self.finish_err(ErrorKind::ArtifactNotFound, cause),
        }
    }

    fn spawned(&mut self, spawned: Result<u32, String>) -> (action: Action)
        requires
            old(self)@.phase == Phase::Spawning,
            old(self)@.process is None,
        ensures
            (final(self)@, action@) == advance_spec(old(self)@, (Event::Spawned(spawned))@),
    {
        match spawned {
            Ok(pid) => {
                self.process = Some(BackendProcess::new(pid));
                self.finish_ok(Reply::Started)
            },
            Err(cause) => self.finish_err(ErrorKind::SpawnFailed, cause),
        }
    }

    fn killed(&mut self, restart: bool, ran: Result<Output, String>) -> (action: Action)
        requires
            old(self)@.phase == (Phase::Killing { restart }),
            old(self)@.process is Some,
        ensures
            (final(self)@, action@) == advance_spec(old(self)@, (Event::Ran(ran))@),
    {
        match ran {
            Ok(_) => {
                self.phase = Phase::Waiting { restart };
                Action::Wait
            },
            Err(cause) => {
                self.process = None;
                self.finish_err(ErrorKind::KillFailed, cause)
            },
        }
    }

    fn exited(&mut self, restart: bool, exited: Result<Output, String>) -> (action: Action)
        requires
            old(self)@.phase == (Phase::Waiting { restart }),
            old(self)@.process is Some,
        ensures
            (final(self)@, action@) == advance_spec(old(self)@, (Event::Exited(exited))@),
    {
        let taken = self.process.take();
        match exited {
            Ok(output) => {
                if restart {
                    self.start()
                } else {
                    let mut process = taken.unwrap();
                    collect_stdout(&mut process, output.stdout.as_slice());
                    collect_stderr(&mut process, output.stderr.as_slice());
                    let stdout = process.stdout();
                    let stderr = process.stderr();
                    let report = stop_report_text(
                        output.status.as_str(),
                        stdout.as_str(),
                        stderr.as_str(),
                    );
                    self.finish_ok(Reply::Stopped(report))
                }
            },
            Err(cause) => self.finish_err(ErrorKind::KillFailed, cause),
        }
    }

    fn inspected(&mut self, ran: Result<Output, String>) -> (action: Action)
        requires
            old(self)@.phase == Phase::Inspecting,
        ensures
            (final(self)@, action@) == advance_spec(old(self)@, (Event::Ran(ran))@),
    {
        match ran {
            Ok(output) => {
                let stdout = decode_lossy(output.stdout.as_slice());
                let stderr = decode_lossy(output.stderr.as_slice());
                self.finish_ok(Reply::CommitInfo { stdout, stderr })
            },
            Err(cause) => self.finish_err(ErrorKind::IoFailed, cause),
        }
    }

    fn read_stdout(&mut self, read: Result<Vec<u8>, String>) -> (action: Action)
        requires
            old(self)@.phase == Phase::ReadingStdout,
            old(self)@.process is Some,
        ensures
            (final(self)@, action@) == advance_spec(old(self)@, (Event::Read(read))@),
    {
        match read {
            Ok(bytes) => {
                let mut process = self.process.take().unwrap();
                collect_stdout(&mut process, bytes.as_slice());
                let text = process.stdout();
                self.process = Some(process);
                self.finish_ok(Reply::Stdout(text))
            },
            Err(cause) => self.finish_err(ErrorKind::IoFailed, cause),
        }
    }

    fn read_stderr(&mut self, read: Result<Vec<u8>, String>) -> (action: Action)
        requires
            old(self)@.phase == Phase::ReadingStderr,
            old(self)@.process is Some,
        ensures
            (final(self)@, action@) == advance_spec(old(self)@, (Event::Read(read))@),
    {
        match read {
            Ok(bytes) => {
                let mut process = self.process.take().unwrap();
                collect_stderr(&mut process, bytes.as_slice());
                let text = process.stderr();
                self.process = Some(process);
                self.finish_ok(Reply::Stderr(text))
            },
            Err(cause) => self.finish_err(ErrorKind::IoFailed, cause),
        }
    }

    /// Takes the outcome of the work last asked for and says what comes next.
    ///
    /// The worker is created only by the answer to `Spawn`, and given up only by the
    /// answers to the termination request and to `Wait`. An outcome that was not asked for
    /// ends the operation with `StateRecovered` and leaves the worker as it was.
    pub fn advance(&mut self, event: Event) -> (action: Action)
        ensures
            (final(self)@, action@) == advance_spec(old(self)@, event@),
    {
        let running = self.process.is_some();
        match self.phase {
            Phase::Building => match event {
                Event::Ran(ran) if !running => self.built(ran),
                _ => self.recover(),
            },
            Phase::Locating => match event {
                Event::Listed(listed) if !running => self.located(listed),
                _ => self.recover(),
            },
            Phase::Resolving => match event {
                Event::Resolved(resolved) if !running => self.resolved(resolved),
                _ => self.recover(),
            },
            Phase::Spawning => match event {
                Event::Spawned(spawned) if !running => self.spawned(spawned),
                _ => self.recover(),
            },
            Phase::Killing { restart } => match event {
                Event::Ran(ran) if running => self.killed(restart, ran),
                _ => self.recover(),
            },
            Phase::Waiting { restart } => match event {
                Event::Exited(exited) if running => self.exited(restart, exited),
                _ => self.recover(),
            },
            Phase::Inspecting => match event {
                Event::Ran(ran) => self.inspected(ran),
                _ => self.recover(),
            },
            Phase::ReadingStdout => match event {
                Event::Read(read) if running => self.read_stdout(read),
                _ => self.recover(),
            },
            Phase::ReadingStderr => match event {
                Event::Read(read) if running => self.read_stderr(read),
                _ => self.recover(),
            },
            Phase::Idle => self.recover(),
        }
    }
}

} // verus!
