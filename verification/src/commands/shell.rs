use vstd::prelude::*;
use vstd::string::*;
use crate::commands::plan::plan_command;
use crate::commands::process::{joined, texts};
use crate::commands::uninstall::{removes, text_of, uninstall_command, UninstallPlan};

verus! {

/// The commands of the assistant's own shell.
#[derive(Debug)]
pub enum AppCommands {
    /// Make a new plan.
    Plan { goal: Vec<String> },
    /// Analyze the implementations.
    Analyze,
    /// View the history.
    View,
    /// Uninstall the assistant and take it off the search path.
    Uninstall,
}

/// What a shell command comes to.
#[derive(Debug)]
pub enum AppResponse {
    /// Print this line.
    Say(String),
    /// Carry out this removal.
    Uninstall(UninstallPlan),
}

/// Decides what a shell command comes to: a line to print, or, for
/// `Uninstall`, the removal planned for a system that is not Windows, with
/// `home` as the home directory.
pub fn handle_app(cmd: AppCommands, home: Option<&str>) -> (response: AppResponse)
    ensures
        match cmd {
            AppCommands::Plan { goal } => response is Say && response->Say_0@
                == "Creating plan: "@ + joined(texts(goal@), " "@),
            AppCommands::Analyze => response is Say && response->Say_0@ == "Analyzing..."@,
            AppCommands::View => response is Say && response->Say_0@ == "Viewing history..."@,
            AppCommands::Uninstall => response is Uninstall && removes(
                response->Uninstall_0,
                false,
                text_of(home),
            ),
        },
{
    match cmd {
        AppCommands::Plan { goal } => {
            let mut line = String::from_str("Creating plan: ");
            let words = plan_command(&goal);
            line.append(words.as_str());
            AppResponse::Say(line)
        },
        AppCommands::Analyze => AppResponse::Say(String::from_str("Analyzing...")),
        AppCommands::View => AppResponse::Say(String::from_str("Viewing history...")),
        AppCommands::Uninstall => AppResponse::Uninstall(uninstall_command(false, home)),
    }
}

} // verus!
