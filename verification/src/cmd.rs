//! The commands that are handed to the tool for one flake and one shell.

use crate::errors::FetchError;
use crate::reader::{output_text, output_view, text_of_output, ToolOutput};
use vstd::prelude::*;
use vstd::string::StringExecFns;

verus! {

/// The program that evaluates flakes.
pub const TOOL: &'static str = "nix";

/// A shell of a flake: the platform it is built for, the directory of the
/// flake, and the shell's name.
#[derive(Debug, Clone, PartialEq, Eq)]
pub struct NixFlake {
    /// The platform's tag.
    pub archi: String,
    /// The directory that holds the flake.
    pub path: String,
    /// The shell's name; empty where no shell is meant.
    pub name: String,
}

/// The tool's address of a directory: `path:` and the directory.
pub open spec fn flake_address(path: Seq<char>) -> Seq<char> {
    "path:"@ + path
}

/// The tool's address of a shell: the directory, `#`, and the shell's name.
pub open spec fn shell_reference(path: Seq<char>, name: Seq<char>) -> Seq<char> {
    path + "#"@ + name
}

/// The arguments that make the tool list, as JSON, what the flake in `path`
/// holds.
pub open spec fn show_arguments(path: Seq<char>) -> Seq<Seq<char>> {
    seq!["flake"@, "show"@, flake_address(path), "--json"@]
}

/// The arguments that make the tool open the shell `name` of the flake in
/// `path`.
pub open spec fn shell_arguments(path: Seq<char>, name: Seq<char>) -> Seq<Seq<char>> {
    seq!["develop"@, shell_reference(path, name)]
}

/// The arguments that make the tool run `command`, through `bash -c`, in the
/// shell `name` of the flake in `path`.
pub open spec fn command_arguments(path: Seq<char>, name: Seq<char>, command: Seq<char>) -> Seq<
    Seq<char>,
> {
    seq!["develop"@, shell_reference(path, name), "--command"@, "bash"@, "-c"@, command]
}

/// A call of the tool that takes over the terminal: its arguments, and what
/// to tell the user afterwards.
#[derive(Debug, PartialEq, Eq)]
pub struct Launch {
    /// The arguments of the call.
    pub args: Vec<String>,
    /// The line to print once the tool has started and ended; none where
    /// nothing is to be said.
    pub done: Option<String>,
    /// The line to print where the tool could not be started.
    pub failed: String,
}

/// A call of the tool, as contracts see it.
pub struct LaunchView {
    pub args: Seq<Seq<char>>,
    pub done: Option<Seq<char>>,
    pub failed: Seq<char>,
}

impl View for Launch {
    type V = LaunchView;

    open spec fn view(&self) -> LaunchView {
        LaunchView {
            args: self.args.deep_view(),
            done: match self.done {
                Some(line) => Some(line@),
                None => None,
            },
            failed: self.failed@,
        }
    }
}

/// The call that opens the shell `name` of the flake in `path`. The user is
/// told when the shell is left, and when it did not start.
pub open spec fn shell_launch(path: Seq<char>, name: Seq<char>) -> LaunchView {
    LaunchView {
        args: shell_arguments(path, name),
        done: Some("Nix DevShell: Bye! Leaving "@ + shell_reference(path, name)),
        failed: "Nix DevShell didn't start"@,
    }
}

/// The call that runs `command` in the shell `name` of the flake in `path`.
/// The user is told only when it did not start.
pub open spec fn command_launch(
    path: Seq<char>,
    name: Seq<char>,
    command: Seq<char>,
) -> LaunchView {
    LaunchView {
        args: command_arguments(path, name, command),
        done: None,
        failed: "Error: Could not run command"@,
    }
}

impl Launch {
    /// The line to print once the call was tried: `started` says whether the
    /// tool could be started. None where nothing is to be said.
    pub fn report(&self, started: bool) -> (line: Option<String>)
        ensures
            started ==> line == self.done,
            !started ==> line == Some(self.failed),
    {
        if started {
            match &self.done {
                Some(line) => Some(line.clone()),
                None => None,
            }
        } else {
            Some(self.failed.clone())
        }
    }
}

impl NixFlake {
    /// The shell `name` of the flake in `path`, for the platform `archi`.
    pub fn new(archi: &str, path: &str, name: &str) -> (flake: Self)
        ensures
            flake.archi@ == archi@,
            flake.path@ == path@,
            flake.name@ == name@,
    {
        Self { archi: archi.to_owned(), path: path.to_owned(), name: name.to_owned() }
    }

    /// The shell's address, as the tool wants it.
    pub fn reference(&self) -> (r: String)
        ensures
            r@ == shell_reference(self.path@, self.name@),
    {
        let mut r = self.path.clone();
        r.append("#");
        r.append(self.name.as_str());
        r
    }

    /// The arguments of the call that lists the flake's contents.
    pub fn show_args(&self) -> (args: Vec<String>)
        ensures
            args.deep_view() == show_arguments(self.path@),
    {
        let mut address = String::from_str("path:");
        address.append(self.path.as_str());
        let mut args: Vec<String> = Vec::new();
        args.push(String::from_str("flake"));
        args.push(String::from_str("show"));
        args.push(address);
        args.push(String::from_str("--json"));
        assert(args.deep_view() =~= show_arguments(self.path@));
        args
    }

    /// The JSON text that the tool wrote in answer to `show_args`. `output`
    /// is how its run ended, or nothing where it could not be started.
    pub fn to_json(&self, output: Option<ToolOutput>) -> (r: Result<String, FetchError>)
        ensures
            match r {
                Ok(text) => text_of_output(output_view(output)) == Ok::<Seq<char>, FetchError>(
                    text@,
                ),
                Err(e) => text_of_output(output_view(output)) == Err::<Seq<char>, FetchError>(e),
            },
    {
        output_text(output)
    }

    /// The call that opens the shell.
    pub fn spawn_shell(&self) -> (launch: Launch)
        ensures
            launch@ == shell_launch(self.path@, self.name@),
    {
        let mut done = String::from_str("Nix DevShell: Bye! Leaving ");
        done.append(self.reference().as_str());
        Launch {
            args: self.shell_args(),
            done: Some(done),
            failed: String::from_str("Nix DevShell didn't start"),
        }
    }

    /// The call that runs `command` in the shell.
    pub fn run_command(&self, command: &str) -> (launch: Launch)
        ensures
            launch@ == command_launch(self.path@, self.name@, command@),
    {
        Launch {
            args: self.command_args(command),
            done: None,
            failed: String::from_str("Error: Could not run command"),
        }
    }

    /// The arguments of the call that opens the shell.
    pub fn shell_args(&self) -> (args: Vec<String>)
        ensures
            args.deep_view() == shell_arguments(self.path@, self.name@),
    {
        let mut args: Vec<String> = Vec::new();
        args.push(String::from_str("develop"));
        args.push(self.reference());
        assert(args.deep_view() =~= shell_arguments(self.path@, self.name@));
        args
    }

    /// The arguments of the call that runs `command` in the shell.
    pub fn command_args(&self, command: &str) -> (args: Vec<String>)
        ensures
            args.deep_view() == command_arguments(self.path@, self.name@, command@),
    {
        let mut args: Vec<String> = Vec::new();
        args.push(String::from_str("develop"));
        args.push(self.reference());
        args.push(String::from_str("--command"));
        args.push(String::from_str("bash"));
        args.push(String::from_str("-c"));
        args.push(String::from_str(command));
        assert(args.deep_view() =~= command_arguments(self.path@, self.name@, command@));
        args
    }
}

} // verus!
