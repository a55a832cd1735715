//! Deployment: an uploaded archive replaces the files of the deployment directory.
//!
//! The upload is a multipart body. The first part named [`FIELD_NAME`] that can be staged
//! and extracted ends the request with success; a part that fails is given up, its cause
//! remembered, and the next part is tried. The archive is staged in a temporary file, and
//! the pipeline asks for that file to be discarded on every way out of a part, before it
//! asks for anything else. The worker is not restarted.
//!
//! Like the supervisor, the pipeline does no I/O: [`Upload::begin`] and [`handler`] return
//! an [`UploadAction`] for the host, which answers with an [`UploadEvent`].
use vstd::prelude::*;
use crate::command::{extract_command, text_of, Command, CommandView, Output, OutputView};
use crate::text::{decode_lossy, lossy_text};

verus! {

/// The name of the part that carries the archive.
pub const FIELD_NAME: &'static str = "spring-boot-tar-gz-archive";

/// The name of the part that carries the archive.
pub open spec fn field_name() -> Seq<char> {
    "spring-boot-tar-gz-archive"@
}

/// The answer to a request that held no part that could be deployed.
pub open spec fn no_part_text() -> Seq<char> {
    "No valid part provided"@
}

/// The answer to a request whose archive was extracted.
pub open spec fn uploaded_text() -> Seq<char> {
    "File uploaded successfully"@
}

/// The temporary file could not be created.
pub open spec fn create_failed_text(cause: Seq<char>) -> Seq<char> {
    "Failed to create temp file: "@ + cause
}

/// The part's bytes could not be read.
pub open spec fn receive_failed_text(cause: Seq<char>) -> Seq<char> {
    "Failed to read bytes from field: "@ + cause
}

/// The bytes could not be written to the temporary file.
pub open spec fn write_failed_text(cause: Seq<char>) -> Seq<char> {
    "Failed to write bytes to temp file: "@ + cause
}

/// The archive could not be extracted.
pub open spec fn extract_failed_text(cause: Seq<char>) -> Seq<char> {
    "Failed to extract file: "@ + cause
}

/// The cause reported for an extraction that ran and exited unsuccessfully, from its
/// status and its decoded standard error.
pub open spec fn extract_cause_of(status: Seq<char>, stderr: Seq<char>) -> Seq<char> {
    status + "\n"@ + stderr
}

/// The cause reported for an extraction that ran and exited unsuccessfully.
pub open spec fn extract_cause(output: OutputView) -> Seq<char> {
    extract_cause_of(output.status, lossy_text(output.stderr))
}

/// The answer when an outcome arrives that the pipeline did not ask for.
pub open spec fn out_of_turn_text() -> Seq<char> {
    "Unexpected event; the upload was abandoned"@
}

/// What follows once the staged file is discarded.
#[derive(Clone, Copy, Debug, PartialEq, Eq, Structural)]
pub enum After {
    /// The request ends with the message held, as a success or as a failure.
    Finish { uploaded: bool },
    /// The next part is tried.
    NextField,
}

/// Where the pipeline stands.
#[derive(Clone, Copy, Debug, PartialEq, Eq, Structural)]
pub enum Stage {
    /// The next part is awaited.
    AwaitField,
    /// The temporary file is being created.
    Creating,
    /// The part's bytes are being read.
    Receiving,
    /// The bytes are being written to the temporary file.
    Writing,
    /// The archive is being extracted.
    Extracting,
    /// The temporary file is being discarded.
    Discarding(After),
    /// The request has been answered.
    Finished,
}

/// What the pipeline asks of its host next.
#[derive(Debug, PartialEq, Eq)]
pub enum UploadAction {
    /// Read the next part of the body; answer with `Field` or `End`.
    NextField,
    /// Create a temporary file; answer with `Created`.
    CreateTemp,
    /// Read the bytes of the part at hand; answer with `Received`.
    ReadBytes,
    /// Write those bytes to the temporary file of this path; answer with `Written`.
    Write(String),
    /// Run the extraction to its end; answer with `Ran`.
    Run(Command),
    /// Delete the temporary file of this path; answer with `Discarded`.
    Discard(String),
    /// Nothing more: answer the request with this message. `uploaded` says whether the
    /// archive was extracted.
    Done { uploaded: bool, message: String },
}

/// The mathematical value of an [`UploadAction`].
pub enum UploadActionView {
    NextField,
    CreateTemp,
    ReadBytes,
    Write(Seq<char>),
    Run(CommandView),
    Discard(Seq<char>),
    Done { uploaded: bool, message: Seq<char> },
}

impl View for UploadAction {
    type V = UploadActionView;

    open spec fn view(&self) -> UploadActionView {
        match *self {
            UploadAction::NextField => UploadActionView::NextField,
            UploadAction::CreateTemp => UploadActionView::CreateTemp,
            UploadAction::ReadBytes => UploadActionView::ReadBytes,
            UploadAction::Write(path) => UploadActionView::Write(path@),
            UploadAction::Run(command) => UploadActionView::Run(command@),
            UploadAction::Discard(path) => UploadActionView::Discard(path@),
            UploadAction::Done { uploaded, message } => UploadActionView::Done {
                uploaded,
                message: message@,
            },
        }
    }
}

/// The outcome of the work that the last [`UploadAction`] asked for. A failure carries
/// the cause in words.
#[derive(Debug, PartialEq, Eq)]
pub enum UploadEvent {
    /// A part, with its name if it has one.
    Field(Option<String>),
    /// The body has no further part, or could not be read further.
    End,
    /// The path of the temporary file.
    Created(Result<String, String>),
    /// The part's bytes were read.
    Received(Result<(), String>),
    /// The bytes were written.
    Written(Result<(), String>),
    /// The extraction ran to its end, or could not be run.
    Ran(Result<Output, String>),
    /// The temporary file is gone.
    Discarded,
}

/// The mathematical value of an [`UploadEvent`].
pub enum UploadEventView {
    Field(Option<Seq<char>>),
    End,
    Created(Result<Seq<char>, Seq<char>>),
    Received(Result<(), Seq<char>>),
    Written(Result<(), Seq<char>>),
    Ran(Result<OutputView, Seq<char>>),
    Discarded,
}

impl View for UploadEvent {
    type V = UploadEventView;

    open spec fn view(&self) -> UploadEventView {
        match *self {
            UploadEvent::Field(name) => UploadEventView::Field(text_of(name)),
            UploadEvent::End => UploadEventView::End,
            UploadEvent::Created(Ok(path)) => UploadEventView::Created(Ok(path@)),
            UploadEvent::Created(Err(cause)) => UploadEventView::Created(Err(cause@)),
            UploadEvent::Received(Ok(_)) => UploadEventView::Received(Ok(())),
            UploadEvent::Received(Err(cause)) => UploadEventView::Received(Err(cause@)),
            UploadEvent::Written(Ok(_)) => UploadEventView::Written(Ok(())),
            UploadEvent::Written(Err(cause)) => UploadEventView::Written(Err(cause@)),
            UploadEvent::Ran(Ok(output)) => UploadEventView::Ran(Ok(output@)),
            UploadEvent::Ran(Err(cause)) => UploadEventView::Ran(Err(cause@)),
            UploadEvent::Discarded => UploadEventView::Discarded,
        }
    }
}

/// One deployment request in progress.
#[derive(Debug)]
pub struct Upload {
    dest: String,
    strip: bool,
    message: String,
    staged: Option<String>,
    stage: Stage,
}

/// The mathematical value of an [`Upload`].
pub struct UploadView {
    /// The deployment directory.
    pub dest: Seq<char>,
    /// Whether the archive's top-level directory is dropped on extraction.
    pub strip: bool,
    /// The answer that the request gets if it ends now.
    pub message: Seq<char>,
    /// The path of the temporary file, while one exists.
    pub staged: Option<Seq<char>>,
    pub stage: Stage,
}

impl View for Upload {
    type V = UploadView;

    closed spec fn view(&self) -> UploadView {
        UploadView {
            dest: self.dest@,
            strip: self.strip,
            message: self.message@,
            staged: text_of(self.staged),
            stage: self.stage,
        }
    }
}

/// A request of which nothing has been read yet.
pub open spec fn fresh_upload(dest: Seq<char>, strip: bool) -> UploadView {
    UploadView { dest, strip, message: no_part_text(), staged: None, stage: Stage::AwaitField }
}

/// The part at hand is given up for `message`. What is staged is discarded first; then
/// the next part is tried.
pub open spec fn give_up(s: UploadView, message: Seq<char>) -> (UploadView, UploadActionView) {
    match s.staged {
        Some(path) => (
            UploadView { message, stage: Stage::Discarding(After::NextField), ..s },
            UploadActionView::Discard(path),
        ),
        None => (
            UploadView { message, stage: Stage::AwaitField, ..s },
            UploadActionView::NextField,
        ),
    }
}

/// The request ends with `message`, as a success where `uploaded`. What is staged is
/// discarded first.
pub open spec fn conclude(s: UploadView, uploaded: bool, message: Seq<char>) -> (
    UploadView,
    UploadActionView,
) {
    match s.staged {
        Some(path) => (
            UploadView { message, stage: Stage::Discarding(After::Finish { uploaded }), ..s },
            UploadActionView::Discard(path),
        ),
        None => (
            UploadView { message, stage: Stage::Finished, ..s },
            UploadActionView::Done { uploaded, message },
        ),
    }
}

/// The first action of a request: the first part is asked for. A file still staged from
/// an abandoned request is discarded before that.
pub open spec fn begin_upload(s: UploadView) -> (UploadView, UploadActionView) {
    give_up(s, no_part_text())
}

/// The state and the next action after the outcome `e` of the work last asked for.
pub open spec fn upload_step(s: UploadView, e: UploadEventView) -> (
    UploadView,
    UploadActionView,
) {
    match (s.stage, e, s.staged) {
        (Stage::AwaitField, UploadEventView::Field(name), None) => if name == Some(field_name()) {
            (UploadView { stage: Stage::Creating, ..s }, UploadActionView::CreateTemp)
        } else {
            (s, UploadActionView::NextField)
        },
        (Stage::AwaitField, UploadEventView::End, None) => conclude(s, false, s.message),
        (Stage::Creating, UploadEventView::Created(Ok(path)), None) => (
            UploadView { staged: Some(path), stage: Stage::Receiving, ..s },
            UploadActionView::ReadBytes,
        ),
        (Stage::Creating, UploadEventView::Created(Err(cause)), None) => give_up(
            s,
            create_failed_text(cause),
        ),
        (Stage::Receiving, UploadEventView::Received(Ok(_)), Some(path)) => (
            UploadView { stage: Stage::Writing, ..s },
            UploadActionView::Write(path),
        ),
        (Stage::Receiving, UploadEventView::Received(Err(cause)), Some(_)) => give_up(
            s,
            receive_failed_text(cause),
        ),
        (Stage::Writing, UploadEventView::Written(Ok(_)), Some(path)) => (
            UploadView { stage: Stage::Extracting, ..s },
            UploadActionView::Run(extract_command(path, s.dest, s.strip)),
        ),
        (Stage::Writing, UploadEventView::Written(Err(cause)), Some(_)) => give_up(
            s,
            write_failed_text(cause),
        ),
        (Stage::Extracting, UploadEventView::Ran(Ok(output)), Some(_)) => if output.success {
            conclude(s, true, uploaded_text())
        } else {
            give_up(s, extract_failed_text(extract_cause(output)))
        },
        (Stage::Extracting, UploadEventView::Ran(Err(cause)), Some(_)) => give_up(
            s,
            extract_failed_text(cause),
        ),
        (Stage::Discarding(after), UploadEventView::Discarded, Some(_)) => match after {
            After::Finish { uploaded } => conclude(
                UploadView { staged: None, ..s },
                uploaded,
                s.message,
            ),
            After::NextField => give_up(UploadView { staged: None, ..s }, s.message),
        },
        _ => conclude(s, false, out_of_turn_text()),
    }
}

/// Writes `prefix` followed by `cause`.
fn prefixed(prefix: &str, cause: &str) -> (text: String)
    ensures
        text@ == prefix@ + cause@,
{
    let mut text = String::from_str(prefix);
    text.append(cause);
    text
}

/// Writes the cause of an extraction that exited unsuccessfully, from its parts.
pub fn extract_cause_text(status: &str, stderr: &str) -> (text: String)
    ensures
        text@ == extract_cause_of(status@, stderr@),
{
    let mut text = String::from_str(status);
    text.append("\n");
    text.append(stderr);
    text
}

/// Writes the cause of an extraction that exited unsuccessfully.
pub fn extract_cause_for(output: &Output) -> (text: String)
    ensures
        text@ == extract_cause(output@),
{
    let stderr = decode_lossy(output.stderr.as_slice());
    extract_cause_text(output.status.as_str(), stderr.as_str())
}

impl Upload {
    /// A request for the deployment directory `dest`, of which nothing has been read yet.
    /// With `strip`, the archive's top-level directory is dropped on extraction.
    pub fn new(dest: String, strip: bool) -> (upload: Upload)
        ensures
            upload@ == fresh_upload(dest@, strip),
    {
        Upload {
            dest,
            strip,
            message: String::from_str("No valid part provided"),
            staged: None,
            stage: Stage::AwaitField,
        }
    }

    /// Where the pipeline stands.
    pub fn stage(&self) -> (stage: Stage)
        ensures
            stage == self@.stage,
    {
        self.stage
    }

    /// The path of the temporary file, while one exists.
    pub fn staged(&self) -> (staged: Option<String>)
        ensures
            text_of(staged) == self@.staged,
    {
        match &self.staged {
            Some(path) => Some(path.clone()),
            None => None,
        }
    }

    /// The answer that the request gets if it ends now.
    pub fn message(&self) -> (message: String)
        ensures
            message@ == self@.message,
    {
        self.message.clone()
    }

    fn give_up(&mut self, message: String) -> (action: UploadAction)
        ensures
            (final(self)@, action@) == give_up(old(self)@, message@),
    {
        self.message = message;
        match &self.staged {
            Some(path) => {
                let path = path.clone();
                self.stage = Stage::Discarding(After::NextField);
                UploadAction::Discard(path)
            },
            None => {
                self.stage = Stage::AwaitField;
                UploadAction::NextField
            },
        }
    }

    fn conclude(&mut self, uploaded: bool, message: String) -> (action: UploadAction)
        ensures
            (final(self)@, action@) == conclude(old(self)@, uploaded, message@),
    {
        match &self.staged {
            Some(path) => {
                let path = path.clone();
                self.message = message;
                self.stage = Stage::Discarding(After::Finish { uploaded });
                UploadAction::Discard(path)
            },
            None => {
                self.message = message.clone();
                self.stage = Stage::Finished;
                UploadAction::Done { uploaded, message }
            },
        }
    }

    /// Begins the request: asks for the first part.
    pub fn begin(&mut self) -> (action: UploadAction)
        ensures
            (final(self)@, action@) == begin_upload(old(self)@),
    {
        self.give_up(String::from_str("No valid part provided"))
    }

    fn out_of_turn(&mut self) -> (action: UploadAction)
        ensures
            (final(self)@, action@) == conclude(old(self)@, false, out_of_turn_text()),
    {
        self.conclude(false, String::from_str("Unexpected event; the upload was abandoned"))
    }

    fn field(&mut self, name: Option<String>) -> (action: UploadAction)
        requires
            old(self)@.stage == Stage::AwaitField,
            old(self)@.staged is None,
        ensures
            (final(self)@, action@) == upload_step(old(self)@, (UploadEvent::Field(name))@),
    {
        let wanted = match &name {
            Some(name) => *name == String::from_str(FIELD_NAME),
            None => false,
        };
        if wanted {
            self.stage = Stage::Creating;
            UploadAction::CreateTemp
        } else {
            UploadAction::NextField
        }
    }

    fn extracted(&mut self, ran: Result<Output, String>) -> (action: UploadAction)
        requires
            old(self)@.stage == Stage::Extracting,
            old(self)@.staged is Some,
        ensures
            (final(self)@, action@) == upload_step(old(self)@, (UploadEvent::Ran(ran))@),
    {
        match ran {
            Ok(output) => {
                if output.success {
                    self.conclude(true, String::from_str("File uploaded successfully"))
                } else {
                    let cause = extract_cause_for(&output);
                    self.give_up(prefixed("Failed to extract file: ", cause.as_str()))
                }
            },
            Err(cause) => self.give_up(prefixed("Failed to extract file: ", cause.as_str())),
        }
    }

    fn discarded(&mut self, after: After) -> (action: UploadAction)
        requires
            old(self)@.stage == Stage::Discarding(after),
            old(self)@.staged is Some,
        ensures
            (final(self)@, action@) == upload_step(old(self)@, UploadEventView::Discarded),
    {
        self.staged = None;
        let message = self.message.clone();
        match after {
            After::Finish { uploaded } => self.conclude(uploaded, message),
            After::NextField => self.give_up(message),
        }
    }
}

/// Takes the outcome of the work last asked for and says what comes next.
///
/// Whenever the answer is `NextField` or `Done`, no temporary file is staged: a staged
/// file leaves the state only by the answer to `Discard`.
pub fn handler(upload: &mut Upload, event: UploadEvent) -> (action: UploadAction)
    ensures
        (final(upload)@, action@) == upload_step(old(upload)@, event@),
{
    let staged = upload.staged.is_some();
    match upload.stage {
        Stage::AwaitField => match event {
            UploadEvent::Field(name) if !staged => upload.field(name),
            UploadEvent::End if !staged => {
                let message = upload.message.clone();
                upload.conclude(false, message)
            },
            _ => upload.out_of_turn(),
        },
        Stage::Creating => match event {
            UploadEvent::Created(Ok(path)) if !staged => {
                upload.staged = Some(path);
                upload.stage = Stage::Receiving;
                UploadAction::ReadBytes
            },
            UploadEvent::Created(Err(cause)) if !staged => upload.give_up(
                prefixed("Failed to create temp file: ", cause.as_str()),
            ),
            _ => upload.out_of_turn(),
        },
        Stage::Receiving => match event {
            UploadEvent::Received(Ok(_)) if staged => {
                let path = upload.staged();
                upload.stage = Stage::Writing;
                UploadAction::Write(path.unwrap())
            },
            UploadEvent::Received(Err(cause)) if staged => upload.give_up(
                prefixed("Failed to read bytes from field: ", cause.as_str()),
            ),
            _ => upload.out_of_turn(),
        },
        Stage::Writing => match event {
            UploadEvent::Written(Ok(_)) if staged => {
                let path = upload.staged().unwrap();
                upload.stage = Stage::Extracting;
                UploadAction::Run(
                    Command::extract(path.as_str(), upload.dest.as_str(), upload.strip),
                )
            },
            UploadEvent::Written(Err(cause)) if staged => upload.give_up(
                prefixed("Failed to write bytes to temp file: ", cause.as_str()),
            ),
            _ => upload.out_of_turn(),
        },
        Stage::Extracting => match event {
            UploadEvent::Ran(ran) if staged => upload.extracted(ran),
            _ => upload.out_of_turn(),
        },
        Stage::Discarding(after) => match event {
            UploadEvent::Discarded if staged => upload.discarded(after),
            _ => upload.out_of_turn(),
        },
        Stage::Finished => upload.out_of_turn(),
    }
}

/// Whenever the pipeline asks for the next part or gives its answer, no temporary file is
/// staged; and a staged file is kept until the outcome of its `Discard` arrives.
pub proof fn lemma_nothing_left_staged(s: UploadView, e: UploadEventView)
    ensures
        upload_step(s, e).1 is Done || upload_step(s, e).1 is NextField ==> upload_step(
            s,
            e,
        ).0.staged is None,
        s.staged is Some && upload_step(s, e).0.staged != s.staged ==> e is Discarded
            && s.stage is Discarding,
        upload_step(s, e).0.stage is Discarding ==> upload_step(s, e).0.staged is Some
            && upload_step(s, e).1 == UploadActionView::Discard(upload_step(s, e).0.staged->0),
        upload_step(s, e).0.stage is Finished <==> upload_step(s, e).1 is Done,
{
}

/// The request is answered with success only after an extraction that exited
/// successfully, and only once the staged archive has been discarded.
pub proof fn lemma_success_after_extraction(s: UploadView, e: UploadEventView)
    ensures
        upload_step(s, e).1 is Done && upload_step(s, e).1->uploaded ==> s.stage
            == Stage::Discarding(After::Finish { uploaded: true }) && e is Discarded
            && upload_step(s, e).0.staged is None,
        upload_step(s, e).0.stage == Stage::Discarding(After::Finish { uploaded: true })
            ==> s.stage == Stage::Extracting && e is Ran && e->Ran_0 is Ok
            && e->Ran_0->Ok_0.success && upload_step(s, e).0.message == uploaded_text(),
{
}

/// A request whose only part is the archive: the archive is staged at `path`, extracted
/// into the deployment directory, and discarded before anything else is asked for,
/// whether the extraction succeeded or not. With success the request is answered at once;
/// without, the end of the body is awaited and the cause is the answer.
pub proof fn lemma_single_archive(
    dest: Seq<char>,
    strip: bool,
    path: Seq<char>,
    ran: Result<OutputView, Seq<char>>,
)
    ensures
        ({
            let begun = begin_upload(fresh_upload(dest, strip));
            let named = upload_step(begun.0, UploadEventView::Field(Some(field_name())));
            let created = upload_step(named.0, UploadEventView::Created(Ok(path)));
            let received = upload_step(created.0, UploadEventView::Received(Ok(())));
            let written = upload_step(received.0, UploadEventView::Written(Ok(())));
            let extracted = upload_step(written.0, UploadEventView::Ran(ran));
            let discarded = upload_step(extracted.0, UploadEventView::Discarded);
            let ended = upload_step(discarded.0, UploadEventView::End);
            &&& begun.1 == UploadActionView::NextField
            &&& named.1 == UploadActionView::CreateTemp
            &&& created.1 == UploadActionView::ReadBytes
            &&& received.1 == UploadActionView::Write(path)
            &&& written.1 == UploadActionView::Run(extract_command(path, dest, strip))
            &&& extracted.1 == UploadActionView::Discard(path)
            &&& discarded.0.staged is None
            &&& match ran {
                Ok(output) => if output.success {
                    discarded.1 == UploadActionView::Done {
                        uploaded: true,
                        message: uploaded_text(),
                    }
                } else {
                    &&& discarded.1 == UploadActionView::NextField
                    &&& ended.1 == UploadActionView::Done {
                        uploaded: false,
                        message: extract_failed_text(extract_cause(output)),
                    }
                    &&& ended.0.staged is None
                },
                Err(cause) => {
                    &&& discarded.1 == UploadActionView::NextField
                    &&& ended.1 == UploadActionView::Done {
                        uploaded: false,
                        message: extract_failed_text(cause),
                    }
                    &&& ended.0.staged is None
                },
            }
        }),
{
}

} // verus!
