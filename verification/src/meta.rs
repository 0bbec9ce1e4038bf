use vstd::prelude::*;
use vstd::string::*;
use crate::commands::process::Invocation;
use crate::commands::uninstall::{base_or_here, text_of};

verus! {

/// The commands that work on the assistant's own source tree.
#[derive(Debug)]
pub enum MetaCommands {
    /// Open the source in the editor.
    Edit,
    /// Install the assistant from its source.
    Install,
    /// Add, commit and push with a message.
    Commit { message: String },
}

/// What a command on the source tree consists of: programs to run in the
/// project directory, one after the other, until one fails. Where the last
/// of them fails and a fallback is given, the fallback is run in its place.
#[derive(Debug)]
pub struct MetaPlan {
    pub directory: String,
    pub steps: Vec<Invocation>,
    pub fallback: Option<Invocation>,
}

/// The command lines of a sequence of invocations.
pub open spec fn lines(steps: Seq<Invocation>) -> Seq<Seq<Seq<char>>> {
    steps.map_values(|step: Invocation| step.line())
}

/// The project directory under a home directory.
pub open spec fn project_dir(home: Option<Seq<char>>) -> Seq<char> {
    base_or_here(home) + "/projects/imp"@
}

/// The programs that `cmd` runs.
pub open spec fn steps_of(cmd: MetaCommands) -> Seq<Seq<Seq<char>>> {
    match cmd {
        MetaCommands::Edit => seq![seq!["nvim"@, "src/main.rs"@]],
        MetaCommands::Install => seq![seq!["cargo"@, "install"@, "--path"@, "."@]],
        MetaCommands::Commit { message } => seq![
            seq!["git"@, "add"@, "."@],
            seq!["git"@, "commit"@, "-m"@, message@],
            seq!["git"@, "push"@],
        ],
    }
}

/// The program that `cmd` runs where its last step failed.
pub open spec fn fallback_of(cmd: MetaCommands) -> Option<Seq<Seq<char>>> {
    match cmd {
        MetaCommands::Commit { message } => Some(
            seq!["git"@, "push"@, "--set-upstream"@, "origin"@, "HEAD"@],
        ),
        _ => None,
    }
}

/// The project directory: `projects/imp` under the home directory, or under
/// the current directory where no home directory is known.
pub fn get_project_dir(home: Option<&str>) -> (directory: String)
    ensures
        directory@ == project_dir(text_of(home)),
{
    let mut directory = match home {
        Some(home) => String::from_str(home),
        None => String::from_str("."),
    };
    directory.append("/projects/imp");
    directory
}

/// Plans a command on the source tree: the editor on the main source file,
/// the installation from the project directory, or add, commit and push,
/// with a push that sets the upstream branch where the plain push fails.
pub fn handle_meta(cmd: MetaCommands, home: Option<&str>) -> (plan: MetaPlan)
    ensures
        plan.directory@ == project_dir(text_of(home)),
        lines(plan.steps@) == steps_of(cmd),
        match fallback_of(cmd) {
            Some(line) => plan.fallback is Some && plan.fallback->0.line() == line,
            None => plan.fallback is None,
        },
{
    let directory = get_project_dir(home);
    let mut steps: Vec<Invocation> = Vec::new();
    match cmd {
        MetaCommands::Edit => {
            let edit = Invocation::new("nvim").arg("src/main.rs");
            assert(edit.line() =~= seq!["nvim"@, "src/main.rs"@]);
            steps.push(edit);
            assert(lines(steps@) =~= steps_of(cmd));
            MetaPlan { directory, steps, fallback: None }
        },
        MetaCommands::Install => {
            let install = Invocation::new("cargo").arg("install").arg("--path").arg(".");
            assert(install.line() =~= seq!["cargo"@, "install"@, "--path"@, "."@]);
            steps.push(install);
            assert(lines(steps@) =~= steps_of(cmd));
            MetaPlan { directory, steps, fallback: None }
        },
        MetaCommands::Commit { message } => {
            let add = Invocation::new("git").arg("add").arg(".");
            let commit = Invocation::new("git").arg("commit").arg("-m").arg(message.as_str());
            let push = Invocation::new("git").arg("push");
            let upstream = Invocation::new("git").arg("push").arg("--set-upstream").arg(
                "origin",
            ).arg("HEAD");
            assert(add.line() =~= seq!["git"@, "add"@, "."@]);
            assert(commit.line() =~= seq!["git"@, "commit"@, "-m"@, message@]);
            assert(push.line() =~= seq!["git"@, "push"@]);
            assert(upstream.line() =~= seq![
                "git"@,
                "push"@,
                "--set-upstream"@,
                "origin"@,
                "HEAD"@,
            ]);
            steps.push(add);
            steps.push(commit);
            steps.push(push);
            assert(lines(steps@) =~= steps_of(cmd));
            MetaPlan { directory, steps, fallback: Some(upstream) }
        },
    }
}

} // verus!
