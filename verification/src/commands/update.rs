use vstd::prelude::*;
use crate::commands::process::Invocation;

verus! {

/// The command line that updates the assistant on a system of the given
/// kind.
pub open spec fn updater(windows: bool) -> Seq<Seq<char>> {
    if windows {
        seq!["powershell"@, "-Command"@, "irm https://api.iepok.com/imp/install.ps1 | iex"@]
    } else {
        seq!["sh"@, "-c"@, "curl -fsSL https://api.iepok.com/imp/install | sh"@]
    }
}

/// The program that updates the assistant: the installer, fetched and run by
/// the system's own shell.
pub fn update_command(windows: bool) -> (invocation: Invocation)
    ensures
        invocation.line() == updater(windows),
{
    if windows {
        Invocation::new("powershell").arg("-Command").arg(
            "irm https://api.iepok.com/imp/install.ps1 | iex",
        )
    } else {
        Invocation::new("sh").arg("-c").arg("curl -fsSL https://api.iepok.com/imp/install | sh")
    }
}

} // verus!
