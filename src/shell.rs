//! The shells for which an integration script exists.

use vstd::prelude::*;

verus! {

/// A supported shell.
#[derive(PartialEq, Eq, Structural)]
pub enum Shell {
    Fish,
    Bash,
    Zsh,
    PowerShell,
    Tcsh,
}

/// The shell whose init script was asked for by name; `pwsh` is PowerShell.
pub open spec fn shell_spec(name: Seq<char>) -> Option<Shell> {
    if name == "fish"@ {
        Some(Shell::Fish)
    } else if name == "bash"@ {
        Some(Shell::Bash)
    } else if name == "zsh"@ {
        Some(Shell::Zsh)
    } else if name == "powershell"@ || name == "pwsh"@ {
        Some(Shell::PowerShell)
    } else if name == "tcsh"@ {
        Some(Shell::Tcsh)
    } else {
        None
    }
}

fn same(a: &Vec<char>, b: &str) -> (r: bool)
    ensures
        r == (a@ == b@),
{
    let w = crate::text::chars_of(b);
    let r = a.len() == w.len() && crate::text::has_prefix(a, &w);
    assert(r ==> a@ =~= w@);
    proof {
        if a@ == w@ {
            assert(a@.subrange(0, w@.len() as int) =~= w@);
        }
    }
    r
}

/// Selects the init script for the shell named `shell`; any other name is
/// refused with that name.
pub fn get_init_script(shell: &str) -> (r: Result<Shell, String>)
    ensures
        match r {
            Ok(s) => shell_spec(shell@) == Some(s),
            Err(name) => shell_spec(shell@) is None && name@ == shell@,
        },
{
    let v = crate::text::chars_of(shell);
    if same(&v, "fish") {
        Ok(Shell::Fish)
    } else if same(&v, "bash") {
        Ok(Shell::Bash)
    } else if same(&v, "zsh") {
        Ok(Shell::Zsh)
    } else if same(&v, "powershell") || same(&v, "pwsh") {
        Ok(Shell::PowerShell)
    } else if same(&v, "tcsh") {
        Ok(Shell::Tcsh)
    } else {
        Err(String::from_str(shell))
    }
}

} // verus!
