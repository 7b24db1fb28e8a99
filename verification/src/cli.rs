//! What the user asks for on the command line.

use vstd::prelude::*;

verus! {

/// The command line, once its words are sorted out.
#[derive(Debug, PartialEq, Eq)]
pub struct Cli {
    /// The directory that holds the flake, where the user names one.
    pub path: Option<String>,
    /// What to do.
    pub command: Commands,
}

/// What to do.
#[derive(Debug, PartialEq, Eq)]
pub enum Commands {
    /// List the shells of the flake.
    List,
    /// Run a command in a shell.
    Run {
        /// The shell's name.
        name: String,
        /// The command, as one line for `bash -c`.
        cmd: String,
    },
    /// Enter a shell.
    Use {
        /// The shell's name.
        name: String,
    },
}

impl Commands {
    /// The name of the shell that the command is about; empty for a command
    /// that is about none.
    pub fn shell_name(&self) -> (name: &str)
        ensures
            name@ == match *self {
                Commands::List => Seq::<char>::empty(),
                Commands::Use { name } => name@,
                Commands::Run { name, cmd } => name@,
            },
    {
        match self {
            Commands::List => {
                proof {
                    reveal_strlit("");
                }
                assert(""@ =~= Seq::<char>::empty());
                ""
            },
            Commands::Use { name } => name.as_str(),
            Commands::Run { name, .. } => name.as_str(),
        }
    }
}

} // verus!
