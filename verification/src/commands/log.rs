use vstd::prelude::*;
use crate::commands::process::{contains, occurs_in};

verus! {

/// Why words on the command line are no log entry.
#[derive(Debug, Clone, Copy, PartialEq, Eq, Structural)]
pub enum LogError {
    /// The first word holds no space, or there is no word at all: this was
    /// meant as a command, not as an entry.
    InvalidLogCommand,
}

/// Whether `text` can be a log entry: it holds a space.
pub open spec fn is_entry(text: Seq<char>) -> bool {
    occurs_in(" "@, text)
}

/// The log entry in what was typed where a command was expected: the first
/// word, if it holds a space.
pub fn log_command(args: &Vec<String>) -> (entry: Result<&String, LogError>)
    ensures
        match entry {
            Ok(text) => args@.len() > 0 && *text == args@[0] && is_entry(text@),
            Err(_) => args@.len() == 0 || !is_entry(args@[0]@),
        },
{
    if args.len() == 0 {
        return Err(LogError::InvalidLogCommand);
    }
    if contains(args[0].as_str(), " ") {
        Ok(&args[0])
    } else {
        Err(LogError::InvalidLogCommand)
    }
}

} // verus!
