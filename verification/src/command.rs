//! The requests that the front-end makes of the tool, and the command line
//! that each of them becomes.

use vstd::prelude::*;

verus! {

/// One request to the tool.
#[derive(Clone, Debug, PartialEq, Eq)]
pub enum WarpCommand {
    /// Bring the tunnel up.
    Connect,
    /// Take the tunnel down.
    Disconnect,
    /// Ask what state the tunnel is in.
    Status,
    /// Ask for the tool's settings.
    Settings,
    /// Switch the tool to the named mode. The name is handed on as it is.
    Mode(String),
}

/// The name under which the tool is started.
pub open spec fn program_name() -> Seq<char> {
    "warp-cli"@
}

/// The name under which the tool is started.
pub fn program() -> (name: &'static str)
    ensures
        name@ == program_name(),
{
    "warp-cli"
}

impl WarpCommand {
    /// The words that follow the tool's name on the command line.
    pub open spec fn words(self) -> Seq<Seq<char>> {
        match self {
            WarpCommand::Connect => seq!["connect"@],
            WarpCommand::Disconnect => seq!["disconnect"@],
            WarpCommand::Status => seq!["status"@],
            WarpCommand::Settings => seq!["settings"@],
            WarpCommand::Mode(name) => seq!["mode"@, name@],
        }
    }

    /// The words that follow the tool's name on the command line.
    pub fn args(&self) -> (words: Vec<String>)
        ensures
            words.deep_view() == self.words(),
    {
        let mut words: Vec<String> = Vec::new();
        match self {
            WarpCommand::Connect => {
                words.push("connect".to_owned());
            },
            WarpCommand::Disconnect => {
                words.push("disconnect".to_owned());
            },
            WarpCommand::Status => {
                words.push("status".to_owned());
            },
            WarpCommand::Settings => {
                words.push("settings".to_owned());
            },
            WarpCommand::Mode(name) => {
                words.push("mode".to_owned());
                words.push(name.clone());
            },
        }
        assert(words.deep_view() =~= self.words());
        words
    }
}

} // verus!
