use r_shell::local_pty::shell::{choose_start_dir, pick_shell, resolve_start_dir, InstalledShells};
use std::path::PathBuf;

fn shells(zsh: bool, bash: bool, sh: bool) -> InstalledShells {
    InstalledShells { zsh, bash, sh }
}

fn resolve(requested: Option<String>) -> Option<PathBuf> {
    let requested = requested.map(PathBuf::from);
    let is_dir = match &requested {
        Some(dir) => dir.is_dir(),
        None => false,
    };
    resolve_start_dir(requested, is_dir)
}

#[test]
fn resolve_start_dir_falls_back_to_home_for_missing_dir() {
    let home = dirs::home_dir().expect("home dir");
    let got = resolve(Some("/nonexistent/definitely/not/here".to_string()));
    assert_eq!(got, Some(home));
}

#[test]
fn resolve_start_dir_none_yields_home() {
    assert_eq!(resolve(None), dirs::home_dir());
}

#[test]
fn resolve_start_dir_uses_the_root_directory() {
    assert_eq!(resolve(Some("/".to_string())), Some(PathBuf::from("/")));
}

#[test]
fn start_dir_prefers_the_requested_directory() {
    assert_eq!(choose_start_dir(Some("/work"), true, Some("/home/alice")), Some("/work"));
    assert_eq!(choose_start_dir(Some("/work"), true, None), Some("/work"));
}

#[test]
fn start_dir_falls_back_to_home() {
    assert_eq!(choose_start_dir(Some("/gone"), false, Some("/home/alice")), Some("/home/alice"));
    assert_eq!(choose_start_dir(None, false, Some("/home/alice")), Some("/home/alice"));
    assert_eq!(choose_start_dir(None, true, Some("/home/alice")), Some("/home/alice"));
}

#[test]
fn start_dir_may_be_missing() {
    assert_eq!(choose_start_dir::<&str>(None, false, None), None);
    assert_eq!(choose_start_dir(Some("/gone"), false, None), None);
}

#[test]
fn shell_variable_wins() {
    let picked = pick_shell(Some("/opt/fish".to_string()), shells(true, true, true));
    assert_eq!(picked, "/opt/fish");
}

#[test]
fn shell_variable_is_not_trimmed() {
    let picked = pick_shell(Some(" /opt/fish\n".to_string()), shells(true, true, true));
    assert_eq!(picked, " /opt/fish\n");
}

#[test]
fn blank_shell_variable_is_ignored() {
    for blank in ["", " ", "\t\n", "\u{a0}\u{3000}"] {
        assert_eq!(pick_shell(Some(blank.to_string()), shells(false, true, true)), "/bin/bash");
    }
}

#[test]
fn first_existing_shell_is_picked() {
    assert_eq!(pick_shell(None, shells(true, true, true)), "/bin/zsh");
    assert_eq!(pick_shell(None, shells(false, true, true)), "/bin/bash");
    assert_eq!(pick_shell(None, shells(false, false, true)), "/bin/sh");
}

#[test]
fn sh_is_picked_where_nothing_exists() {
    assert_eq!(pick_shell(None, shells(false, false, false)), "/bin/sh");
}
