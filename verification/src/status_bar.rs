//! The line at the foot of the window.

use crate::settings::Environment;
use vstd::prelude::*;

verus! {

/// The status line: it names the file of the hosts.
#[derive(Debug)]
pub struct StatusBar {
    host_path: String,
}

impl View for StatusBar {
    type V = Seq<char>;

    /// The path that the line names.
    closed spec fn view(&self) -> Seq<char> {
        self.host_path@
    }
}

impl StatusBar {
    /// The path that is named where none was given.
    pub const DEFAULT_PATH: &'static str = "~/.rsnitch-rs/hosts.json";

    /// The status line for this environment: it names the path that was
    /// given, else `~/.rsnitch-rs/hosts.json`.
    pub fn new(env: &Environment) -> (bar: StatusBar)
        ensures
            bar@ == match env.hosts_path {
                Some(path) => path@,
                None => "~/.rsnitch-rs/hosts.json"@,
            },
    {
        let host_path = match &env.hosts_path {
            Some(path) => path.clone(),
            None => Self::DEFAULT_PATH.to_owned(),
        };
        StatusBar { host_path }
    }

    /// The text of the line: the path, four spaces, and the filter.
    pub fn text(&self, filter: &str) -> (line: String)
        ensures
            line@ == self@ + "    "@ + filter@,
    {
        let mut line = self.host_path.clone();
        line.append("    ");
        line.append(filter);
        line
    }
}

} // verus!
