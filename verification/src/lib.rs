//! The core of a daemon that supervises one worker process, and of its command-line
//! client, without any I/O of its own.
//!
//! [`backend::Backend`] is the supervisor's state machine; [`api::backend`] holds the
//! deployment pipeline and the answers of the control surface; [`cli`] plans the client's
//! requests. The host does what these ask for: it runs the commands, reads the pipes,
//! serves the routes.
pub mod api;
pub mod artifact;
pub mod backend;
pub mod cli;
pub mod command;
pub mod error;
pub mod process;
pub mod report;
pub mod text;
pub mod trace;
