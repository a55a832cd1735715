//! Where the command-line client finds the daemon.
use vstd::prelude::*;

verus! {

/// The daemon's address, as it is written in a URL, and its port.
#[derive(Debug, PartialEq, Eq)]
pub struct Config {
    pub addr: String,
    pub port: u16,
}

/// The mathematical value of a [`Config`].
pub struct ConfigView {
    pub addr: Seq<char>,
    pub port: u16,
}

impl View for Config {
    type V = ConfigView;

    open spec fn view(&self) -> ConfigView {
        ConfigView { addr: self.addr@, port: self.port }
    }
}

} // verus!
