//! What to do for a command, once the catalog is at hand.

use crate::cli::Commands;
use crate::cmd::{command_launch, shell_launch, Launch, LaunchView, NixFlake};
use crate::data::{has_shell, listing, Catalog, NixFlakeData};
use vstd::prelude::*;

verus! {

/// The platform whose shells are listed and launched.
pub const ARCHI: &'static str = "x86_64-linux";

/// The next thing to do.
#[derive(Debug, PartialEq, Eq)]
pub enum Step {
    /// Print the lines to standard output, one after the other.
    Print(Vec<String>),
    /// Call the tool, wait until it ends, and print what the launch's report
    /// says.
    Call(Launch),
    /// Do nothing, and say nothing.
    Nothing,
}

/// The next thing to do, as contracts see it.
pub enum StepView {
    Print(Seq<Seq<char>>),
    Call(LaunchView),
    Nothing,
}

impl View for Step {
    type V = StepView;

    open spec fn view(&self) -> StepView {
        match self {
            Step::Print(lines) => StepView::Print(lines.deep_view()),
            Step::Call(launch) => StepView::Call(launch@),
            Step::Nothing => StepView::Nothing,
        }
    }
}

/// What a command asks for, given the catalog, the names that the catalog
/// lists for the platform in their order, the platform and the flake's
/// directory. Listing prints the names, or the line that says that there
/// are none. Entering a shell, or running a command in one, calls the tool
/// where the catalog holds the shell; where it does not, nothing is done.
pub open spec fn planned(
    command: Commands,
    catalog: Catalog,
    names: Seq<Seq<char>>,
    archi: Seq<char>,
    path: Seq<char>,
) -> StepView {
    match command {
        Commands::List => StepView::Print(listing(names, archi)),
        Commands::Use { name } => {
            if has_shell(catalog, archi, name@) {
                StepView::Call(shell_launch(path, name@))
            } else {
                StepView::Nothing
            }
        },
        Commands::Run { name, cmd } => {
            if has_shell(catalog, archi, name@) {
                StepView::Call(command_launch(path, name@, cmd@))
            } else {
                StepView::Nothing
            }
        },
    }
}

/// The next thing to do for `command`, with the catalog `data` of the flake
/// in `path` and for the platform `archi`.
pub fn dispatch(command: &Commands, archi: &str, path: &str, data: &NixFlakeData) -> (step: Step)
    ensures
        step@ == planned(*command, data@, data.name_order(archi@), archi@, path@),
{
    match command {
        Commands::List => Step::Print(data.print_shells(archi)),
        Commands::Use { name } => {
            if data.shell_exists(archi, name.as_str()) {
                Step::Call(NixFlake::new(archi, path, name.as_str()).spawn_shell())
            } else {
                Step::Nothing
            }
        },
        Commands::Run { name, cmd } => {
            if data.shell_exists(archi, name.as_str()) {
                Step::Call(NixFlake::new(archi, path, name.as_str()).run_command(cmd.as_str()))
            } else {
                Step::Nothing
            }
        },
    }
}

} // verus!
