//! Which shell to start, and where.
use std::path::PathBuf;
use vstd::prelude::*;

use crate::text::{
    all_white_space, is_blank, is_white_space, lemma_starts_visibly, lemma_visible_is_kept, trimmed,
    trimming_keeps_the_core,
};

verus! {

/// The type of a path of the local machine, `std::path::PathBuf`, which is only passed on.
#[verifier::external_type_specification]
#[verifier::external_body]
pub struct ExPathBuf(std::path::PathBuf);

/// `dirs::home_dir`: the home directory of the user, where there is one. What it returns rests
/// on the environment and the machine, and nothing is stated of it.
pub assume_specification[ dirs::home_dir ]() -> Option<PathBuf>
;

/// Which of the shells that are looked for exist.
#[derive(Clone, Copy, Debug, PartialEq, Eq, Structural)]
pub struct InstalledShells {
    /// `/bin/zsh`
    pub zsh: bool,
    /// `/bin/bash`
    pub bash: bool,
    /// `/bin/sh`
    pub sh: bool,
}

/// The shell to start: what the variable `SHELL` says where it says something, else the first
/// shell that exists, else `/bin/sh`.
pub open spec fn picked_shell(shell_var: Option<Seq<char>>, installed: InstalledShells) -> Seq<
    char,
> {
    if shell_var matches Some(shell) && trimmed(shell).len() > 0 {
        shell_var->0
    } else if installed.zsh {
        "/bin/zsh"@
    } else if installed.bash {
        "/bin/bash"@
    } else {
        "/bin/sh"@
    }
}

/// Picks the shell to start, from the variable `SHELL` and the shells that exist.
pub fn pick_shell(shell_var: Option<String>, installed: InstalledShells) -> (shell: String)
    ensures
        shell@ == picked_shell(
            match shell_var {
                Some(value) => Some(value@),
                None => None,
            },
            installed,
        ),
{
    if let Some(value) = shell_var {
        if !is_blank(value.as_str()) {
            return value;
        }
    }
    if installed.zsh {
        "/bin/zsh".to_owned()
    } else if installed.bash {
        "/bin/bash".to_owned()
    } else {
        "/bin/sh".to_owned()
    }
}

/// The directory to start in: the requested one where it is a directory, else the home
/// directory, else none.
pub open spec fn chosen_start_dir<P>(
    requested: Option<P>,
    requested_is_dir: bool,
    home: Option<P>,
) -> Option<P> {
    if requested is Some && requested_is_dir {
        requested
    } else {
        home
    }
}

/// Chooses the directory to start in. Without one the shell starts where the host runs.
pub fn choose_start_dir<P>(requested: Option<P>, requested_is_dir: bool, home: Option<P>) -> (dir:
    Option<P>)
    ensures
        dir == chosen_start_dir(requested, requested_is_dir, home),
{
    if requested_is_dir {
        match requested {
            Some(dir) => Some(dir),
            None => home,
        }
    } else {
        home
    }
}

/// Resolves the directory to start in: the requested one where it is a directory, else what
/// `dirs::home_dir` returns.
pub fn resolve_start_dir(requested: Option<PathBuf>, requested_is_dir: bool) -> (dir: Option<
    PathBuf,
>)
    ensures
        requested is Some && requested_is_dir ==> dir == requested,
        !(requested is Some && requested_is_dir) ==> call_ensures(dirs::home_dir, (), dir),
{
    choose_start_dir(requested, requested_is_dir, dirs::home_dir())
}

/// A shell is always found, and it is no blank text, whatever the variable holds and whichever
/// shells exist.
pub proof fn a_shell_is_always_picked(shell_var: Option<Seq<char>>, installed: InstalledShells)
    ensures
        trimmed(picked_shell(shell_var, installed)).len() > 0,
{
    reveal_strlit("/bin/zsh");
    reveal_strlit("/bin/bash");
    reveal_strlit("/bin/sh");
    lemma_starts_visibly("/bin/zsh"@);
    lemma_starts_visibly("/bin/bash"@);
    lemma_starts_visibly("/bin/sh"@);
}

/// There is no directory to start in only where the requested one is none and there is no home.
pub proof fn no_start_dir_means_no_home<P>(
    requested: Option<P>,
    requested_is_dir: bool,
    home: Option<P>,
)
    ensures
        chosen_start_dir(requested, requested_is_dir, home) is None <==> home is None && !(requested
            is Some && requested_is_dir),
{
}

/// A variable that holds anything but white space is taken as it is, character for character,
/// whichever shells exist.
pub proof fn the_variable_is_taken_as_it_is(
    shell: Seq<char>,
    i: int,
    installed: InstalledShells,
)
    requires
        0 <= i < shell.len(),
        !is_white_space(shell[i]),
    ensures
        picked_shell(Some(shell), installed) == shell,
{
    lemma_visible_is_kept(shell, i);
}

/// Without the variable, or where it holds nothing but white space, the first shell that exists
/// is picked: zsh, then bash, then sh, which is picked even where it does not exist.
pub proof fn the_first_shell_that_exists_is_picked(
    blank: Seq<char>,
    installed: InstalledShells,
)
    requires
        all_white_space(blank),
    ensures
        ({
            let first = if installed.zsh {
                "/bin/zsh"@
            } else if installed.bash {
                "/bin/bash"@
            } else {
                "/bin/sh"@
            };
            &&& picked_shell(None, installed) == first
            &&& picked_shell(Some(blank), installed) == first
        }),
{
    let empty = Seq::<char>::empty();
    assert(blank + empty + empty == blank);
    trimming_keeps_the_core(blank, empty, empty);
}

/// A requested directory is started in, and any other request, or none, comes down to the home
/// directory.
pub proof fn a_directory_is_started_in<P>(dir: P, requested: Option<P>, home: Option<P>)
    ensures
        chosen_start_dir(Some(dir), true, home) == Some(dir),
        chosen_start_dir(requested, false, home) == home,
        chosen_start_dir(None, true, home) == home,
{
}

} // verus!
