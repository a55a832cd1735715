//! The command-line client: which request each command sends to the daemon.
//!
//! Nothing is sent from here. [`Cli::handle`] and [`SubCommand::handle`] return a
//! [`Plan`], which the host carries out.
use vstd::prelude::*;
use crate::api::backend::put::{begin_upload, field_name, fresh_upload, upload_step};
use crate::api::backend::put::{UploadActionView, UploadEventView, FIELD_NAME};
use crate::api::backend::Method;
use crate::cli::config::{Config, ConfigView};
use crate::command::text_of;
use crate::text::{decimal, push_decimal};

pub mod config;

verus! {

/// The command line, parsed.
#[derive(Debug, PartialEq, Eq)]
pub struct Cli {
    pub sub_cmd: SubCommand,
}

/// One command of the client.
#[derive(Debug, PartialEq, Eq)]
pub enum SubCommand {
    /// Get the status of the backend.
    Status,
    /// Start the backend.
    Start,
    /// Stop the backend.
    Stop,
    /// Restart the backend.
    Restart,
    /// Deploy a directory; the current one where none is named.
    Update { dir: Option<String> },
}

/// The mathematical value of a [`SubCommand`].
pub enum SubCommandView {
    Status,
    Start,
    Stop,
    Restart,
    Update { dir: Option<Seq<char>> },
}

impl View for SubCommand {
    type V = SubCommandView;

    open spec fn view(&self) -> SubCommandView {
        match *self {
            SubCommand::Status => SubCommandView::Status,
            SubCommand::Start => SubCommandView::Start,
            SubCommand::Stop => SubCommandView::Stop,
            SubCommand::Restart => SubCommandView::Restart,
            SubCommand::Update { dir } => SubCommandView::Update { dir: text_of(dir) },
        }
    }
}

impl View for Cli {
    type V = SubCommandView;

    open spec fn view(&self) -> SubCommandView {
        self.sub_cmd@
    }
}

/// A request to the daemon.
#[derive(Debug, PartialEq, Eq)]
pub struct Request {
    pub method: Method,
    pub url: String,
    /// The time allowed for the answer, in seconds, where it is limited.
    pub timeout: Option<u64>,
}

/// The mathematical value of a [`Request`].
pub struct RequestView {
    pub method: Method,
    pub url: Seq<char>,
    pub timeout: Option<u64>,
}

impl View for Request {
    type V = RequestView;

    open spec fn view(&self) -> RequestView {
        RequestView { method: self.method, url: self.url@, timeout: self.timeout }
    }
}

/// What the host is to do for a command.
#[derive(Debug, PartialEq, Eq)]
pub enum Plan {
    /// Send the request and print the answer.
    Send(Request),
    /// Pack the directory `dir` into a gzipped tar archive, its entries placed under
    /// `root`, in a file named by [`archive_name`]; then, the archive written and closed,
    /// send the request with that file as the part `field` of its body, and print the
    /// answer. The part bears the name that the deployment pipeline accepts.
    Upload { dir: String, root: String, field: String, request: Request },
}

/// The mathematical value of a [`Plan`].
pub enum PlanView {
    Send(RequestView),
    Upload { dir: Seq<char>, root: Seq<char>, field: Seq<char>, request: RequestView },
}

impl View for Plan {
    type V = PlanView;

    open spec fn view(&self) -> PlanView {
        match *self {
            Plan::Send(request) => PlanView::Send(request@),
            Plan::Upload { dir, root, field, request } => PlanView::Upload {
                dir: dir@,
                root: root@,
                field: field@,
                request: request@,
            },
        }
    }
}

/// The URL of the backend's routes at the configured daemon.
pub open spec fn prefix(config: ConfigView) -> Seq<char> {
    "http://"@ + config.addr + ":"@ + decimal(config.port as nat) + "/backend"@
}

/// The URL of the backend's routes at a daemon with the default address.
pub open spec fn default_prefix() -> Seq<char> {
    "http://127.0.0.1:8081/backend/"@
}

/// The directory that `update` deploys: the one named, else the current one.
pub open spec fn update_dir(dir: Option<Seq<char>>) -> Seq<char> {
    match dir {
        Some(dir) => dir,
        None => "."@,
    }
}

/// The seconds allowed for the answer to an upload.
pub open spec fn upload_timeout() -> u64 {
    300
}

/// The plan for `command` against the configured daemon.
pub open spec fn plan_for(command: SubCommandView, config: ConfigView) -> PlanView {
    match command {
        SubCommandView::Status => PlanView::Send(
            RequestView { method: Method::Get, url: prefix(config), timeout: None },
        ),
        SubCommandView::Start => PlanView::Send(
            RequestView { method: Method::Patch, url: prefix(config) + "/start"@, timeout: None },
        ),
        SubCommandView::Stop => PlanView::Send(
            RequestView { method: Method::Patch, url: prefix(config) + "/stop"@, timeout: None },
        ),
        SubCommandView::Restart => PlanView::Send(
            RequestView {
                method: Method::Patch,
                url: prefix(config) + "/restart"@,
                timeout: None,
            },
        ),
        SubCommandView::Update { dir } => PlanView::Upload {
            dir: update_dir(dir),
            root: Seq::empty(),
            field: field_name(),
            request: RequestView {
                method: Method::Put,
                url: prefix(config),
                timeout: Some(upload_timeout()),
            },
        },
    }
}

/// The plan for `command` against a daemon with the default address.
pub open spec fn default_plan_for(command: SubCommandView) -> PlanView {
    match command {
        SubCommandView::Status => PlanView::Send(
            RequestView { method: Method::Get, url: default_prefix(), timeout: None },
        ),
        SubCommandView::Start => PlanView::Send(
            RequestView {
                method: Method::Patch,
                url: default_prefix() + "start"@,
                timeout: None,
            },
        ),
        SubCommandView::Stop => PlanView::Send(
            RequestView { method: Method::Patch, url: default_prefix() + "stop"@, timeout: None },
        ),
        SubCommandView::Restart => PlanView::Send(
            RequestView {
                method: Method::Patch,
                url: default_prefix() + "restart"@,
                timeout: None,
            },
        ),
        SubCommandView::Update { dir } => PlanView::Upload {
            dir: update_dir(dir),
            root: "."@,
            field: field_name(),
            request: RequestView { method: Method::Put, url: default_prefix(), timeout: None },
        },
    }
}

/// The file name of the archive of a directory, from the directory's name without its
/// extension.
pub open spec fn archive_name_of(stem: Seq<char>) -> Seq<char> {
    stem + ".tar.gz"@
}

/// The file name of the archive of a directory whose name, without extension, is `stem`.
pub fn archive_name(stem: &str) -> (name: String)
    ensures
        name@ == archive_name_of(stem@),
{
    let mut name = String::from_str(stem);
    name.append(".tar.gz");
    name
}

/// Writes the URL of the backend's routes at the configured daemon.
pub fn prefix_of(config: &Config) -> (url: String)
    ensures
        url@ == prefix(config@),
{
    let mut url = String::from_str("http://");
    url.append(config.addr.as_str());
    url.append(":");
    push_decimal(&mut url, config.port as u64);
    url.append("/backend");
    url
}

fn send(method: Method, prefix: String, suffix: &str) -> (plan: Plan)
    ensures
        plan@ == PlanView::Send(
            RequestView { method, url: prefix@ + suffix@, timeout: None },
        ),
{
    let mut url = prefix;
    url.append(suffix);
    Plan::Send(Request { method, url, timeout: None })
}

fn dir_or_current(dir: Option<String>) -> (chosen: String)
    ensures
        chosen@ == update_dir(text_of(dir)),
{
    match dir {
        Some(dir) => dir,
        None => String::from_str("."),
    }
}

impl Cli {
    /// What is to be done for this command line against the configured daemon.
    pub fn handle(self, config: Config) -> (plan: Plan)
        ensures
            plan@ == plan_for(self@, config@),
    {
        let prefix = prefix_of(&config);
        match self.sub_cmd {
            SubCommand::Status => {
                let plan = Plan::Send(Request { method: Method::Get, url: prefix, timeout: None });
                plan
            },
            SubCommand::Start => send(Method::Patch, prefix, "/start"),
            SubCommand::Stop => send(Method::Patch, prefix, "/stop"),
            SubCommand::Restart => send(Method::Patch, prefix, "/restart"),
            SubCommand::Update { dir } => Plan::Upload {
                dir: dir_or_current(dir),
                root: String::new(),
                field: String::from_str(FIELD_NAME),
                request: Request { method: Method::Put, url: prefix, timeout: Some(300) },
            },
        }
    }
}

impl SubCommand {
    /// What is to be done for this command against a daemon with the default address.
    pub fn handle(self) -> (plan: Plan)
        ensures
            plan@ == default_plan_for(self@),
    {
        let prefix = String::from_str("http://127.0.0.1:8081/backend/");
        match self {
            SubCommand::Status => {
                let plan = Plan::Send(Request { method: Method::Get, url: prefix, timeout: None });
                plan
            },
            SubCommand::Start => send(Method::Patch, prefix, "start"),
            SubCommand::Stop => send(Method::Patch, prefix, "stop"),
            SubCommand::Restart => send(Method::Patch, prefix, "restart"),
            SubCommand::Update { dir } => Plan::Upload {
                dir: dir_or_current(dir),
                root: String::from_str("."),
                field: String::from_str(FIELD_NAME),
                request: Request { method: Method::Put, url: prefix, timeout: None },
            },
        }
    }
}

/// What `update` uploads is what the daemon deploys: the archive travels in a part of the
/// name that the deployment pipeline takes up, so the pipeline answers that part by
/// staging it, wherever the daemon is and whatever is deployed.
pub proof fn lemma_update_is_taken_up(
    dir: Option<Seq<char>>,
    config: ConfigView,
    dest: Seq<char>,
    strip: bool,
)
    ensures
        plan_for(SubCommandView::Update { dir }, config) is Upload,
        default_plan_for(SubCommandView::Update { dir }) is Upload,
        plan_for(SubCommandView::Update { dir }, config)->field == field_name(),
        default_plan_for(SubCommandView::Update { dir })->field == field_name(),
        upload_step(
            begin_upload(fresh_upload(dest, strip)).0,
            UploadEventView::Field(
                Some(plan_for(SubCommandView::Update { dir }, config)->field),
            ),
        ).1 == UploadActionView::CreateTemp,
        upload_step(
            begin_upload(fresh_upload(dest, strip)).0,
            UploadEventView::Field(Some(default_plan_for(SubCommandView::Update { dir })->field)),
        ).1 == UploadActionView::CreateTemp,
{
}

} // verus!
