use vstd::prelude::*;
use vstd::string::*;
use crate::commands::process::{contains, occurs_in, texts, Invocation};

verus! {

/// What uninstalling the assistant consists of.
#[derive(Debug)]
pub struct UninstallPlan {
    /// The installed binary, to be removed.
    pub binary: String,
    /// The directory that held it, to be removed if it is then empty.
    pub directory: Option<String>,
    /// Shell profiles to be cleaned of the line that put the binary on the
    /// search path.
    pub profiles: Vec<String>,
    /// The command that takes the directory off the user's search path.
    pub path_update: Option<Invocation>,
}

/// The directory under which the assistant is installed: `base`, or the
/// current directory where none is known.
pub open spec fn base_or_here(base: Option<Seq<char>>) -> Seq<char> {
    match base {
        Some(base) => base,
        None => "."@,
    }
}

/// The script that takes `directory` off the user's search path.
pub open spec fn path_script(directory: Seq<char>) -> Seq<char> {
    "\n        $p = [Environment]::GetEnvironmentVariable('Path','User')\n        $new = ($p -split ';' | Where-Object { $_ -ne '"@
        + directory
        + "' }) -join ';'\n        [Environment]::SetEnvironmentVariable('Path',$new,'User')\n        "@
}

/// Whether uninstalling keeps a line of a shell profile: every line but
/// those that name both the local binary directory and the assistant.
pub open spec fn keeps(line: Seq<char>) -> bool {
    !occurs_in(".local/bin"@, line) || !occurs_in("imp"@, line)
}

/// Whether uninstalling keeps this line of a shell profile.
pub fn keeps_line(line: &str) -> (kept: bool)
    ensures
        kept == keeps(line@),
{
    !contains(line, ".local/bin") || !contains(line, "imp")
}

/// The lines of a shell profile that stay when the assistant is
/// uninstalled, in their order.
pub fn remove_path_from_file(lines: &Vec<String>) -> (kept: Vec<String>)
    ensures
        texts(kept@) == texts(lines@).filter(|line: Seq<char>| keeps(line)),
{
    let ghost stays = |line: Seq<char>| keeps(line);
    let mut kept: Vec<String> = Vec::new();
    let mut i: usize = 0;
    assert(texts(lines@.take(0)) =~= Seq::<Seq<char>>::empty());
    while i < lines.len()
        invariant
            i <= lines.len(),
            stays == |line: Seq<char>| keeps(line),
            texts(kept@) =~= texts(lines@.take(i as int)).filter(stays),
        decreases lines.len() - i,
    {
        let line = &lines[i];
        proof {
            let seen = texts(lines@.take(i as int));
            assert(texts(lines@.take(i + 1)) =~= seen.push(line@));
            Seq::lemma_filter_push(seen, line@, stays);
        }
        if keeps_line(line.as_str()) {
            let ghost before = kept@;
            kept.push(line.clone());
            assert(texts(kept@) =~= texts(before).push(line@));
        }
        i += 1;
    }
    assert(lines@.take(lines.len() as int) =~= lines@);
    kept
}

/// The text of a directory that may be unknown.
pub open spec fn text_of(base: Option<&str>) -> Option<Seq<char>> {
    match base {
        Some(base) => Some(base@),
        None => None,
    }
}

/// Whether `plan` is the removal of an installation under `base`.
///
/// On Windows the binary and its directory go, and a script takes the
/// directory off the search path. Elsewhere the binary goes and the two
/// shell profiles are cleaned.
pub open spec fn removes(plan: UninstallPlan, windows: bool, base: Option<Seq<char>>) -> bool {
    let root = base_or_here(base);
    if windows {
        let directory = root + "\\imp"@;
        &&& plan.binary@ == directory + "\\imp.exe"@
        &&& plan.directory is Some && plan.directory->0@ == directory
        &&& plan.profiles@.len() == 0
        &&& plan.path_update is Some && plan.path_update->0.line() == seq![
            "powershell"@,
            "-NoProfile"@,
            "-Command"@,
            path_script(directory),
        ]
    } else {
        &&& plan.binary@ == root + "/.local/bin/imp"@
        &&& plan.directory is None
        &&& texts(plan.profiles@) == seq![root + "/.bashrc"@, root + "/.zshrc"@]
        &&& plan.path_update is None
    }
}

fn path_of(base: Option<&str>) -> (path: String)
    ensures
        path@ == base_or_here(text_of(base)),
{
    match base {
        Some(base) => String::from_str(base),
        None => String::from_str("."),
    }
}

/// Plans the removal of the assistant. `base` is the home directory, or on
/// Windows the local application data directory; without one the current
/// directory stands in.
pub fn uninstall_command(windows: bool, base: Option<&str>) -> (plan: UninstallPlan)
    ensures
        removes(plan, windows, text_of(base)),
{
    let root = path_of(base);
    if windows {
        let mut directory = root;
        directory.append("\\imp");
        let mut binary = directory.clone();
        binary.append("\\imp.exe");
        let mut script = String::from_str(
            "\n        $p = [Environment]::GetEnvironmentVariable('Path','User')\n        $new = ($p -split ';' | Where-Object { $_ -ne '",
        );
        script.append(directory.as_str());
        script.append(
            "' }) -join ';'\n        [Environment]::SetEnvironmentVariable('Path',$new,'User')\n        ",
        );
        let path_update = Invocation::new("powershell").arg("-NoProfile").arg("-Command").arg(
            script.as_str(),
        );
        assert(path_update.line() =~= seq![
            "powershell"@,
            "-NoProfile"@,
            "-Command"@,
            path_script(directory@),
        ]);
        UninstallPlan {
            binary,
            directory: Some(directory),
            profiles: Vec::new(),
            path_update: Some(path_update),
        }
    } else {
        let mut binary = root.clone();
        binary.append("/.local/bin/imp");
        let mut bashrc = root.clone();
        bashrc.append("/.bashrc");
        let mut zshrc = root;
        zshrc.append("/.zshrc");
        let mut profiles: Vec<String> = Vec::new();
        profiles.push(bashrc);
        profiles.push(zshrc);
        assert(texts(profiles@) =~= seq![bashrc@, zshrc@]);
        UninstallPlan { binary, directory: None, profiles, path_update: None }
    }
}

} // verus!
