use r_shell::editor::identity::session_id_for;
use r_shell::editor::paths::{
    instance_dir_path, join_path, local_file_path, sanitize_file_name, PathStyle,
};

#[test]
fn plain_names_are_kept() {
    assert_eq!(sanitize_file_name("notes.txt"), "notes.txt");
    assert_eq!(sanitize_file_name("two words.md"), "two words.md");
    assert_eq!(sanitize_file_name("\u{4e16}\u{754c}.txt"), "\u{4e16}\u{754c}.txt");
}

#[test]
fn only_the_base_name_is_kept() {
    assert_eq!(sanitize_file_name("/etc/hosts"), "hosts");
    assert_eq!(sanitize_file_name("../../.ssh/config"), "config");
    assert_eq!(sanitize_file_name("C:\\Users\\alice\\a.txt"), "a.txt");
    assert_eq!(sanitize_file_name("a/b\\c"), "c");
    assert_eq!(sanitize_file_name("a\\b/c"), "c");
}

#[test]
fn white_space_around_the_base_name_goes() {
    assert_eq!(sanitize_file_name("  a b \t\n"), "a b");
    assert_eq!(sanitize_file_name("dir/ \u{3000}x\u{a0}"), "x");
}

#[test]
fn nothing_left_is_untitled() {
    for name in ["", " ", "/", "a/", "a\\", "a/ \t", "\u{2003}"] {
        assert_eq!(sanitize_file_name(name), "untitled");
    }
}

#[test]
fn names_that_lead_out_of_the_directory_are_untitled() {
    for name in ["..", ".", "a/.", "../..", " .. ", "a\\..", "/\t.\n"] {
        assert_eq!(sanitize_file_name(name), "untitled");
    }
    assert_eq!(
        local_file_path("/tmp/r-shell-edit/x-0", PathStyle::Unix, ".."),
        "/tmp/r-shell-edit/x-0/untitled"
    );
}

#[test]
fn other_names_with_dots_are_kept() {
    for name in [".bashrc", "...", "a..", "..a", ". ."] {
        assert_eq!(sanitize_file_name(name), name);
    }
}

#[test]
fn sanitizing_twice_changes_nothing() {
    for name in ["", " a/ b ", "x\\y", "..", "a/.", "untitled"] {
        let once = sanitize_file_name(name);
        assert_eq!(sanitize_file_name(&once), once);
    }
}

#[test]
fn joining_puts_one_separator() {
    assert_eq!(join_path("/tmp", PathStyle::Unix, "a"), "/tmp/a");
    assert_eq!(join_path("/tmp/", PathStyle::Unix, "a"), "/tmp/a");
    assert_eq!(join_path("", PathStyle::Unix, "a"), "a");
    assert_eq!(join_path("/tmp\\", PathStyle::Unix, "a"), "/tmp\\/a");
    assert_eq!(join_path("C:\\Temp", PathStyle::Windows, "a"), "C:\\Temp\\a");
    assert_eq!(join_path("C:\\Temp\\", PathStyle::Windows, "a"), "C:\\Temp\\a");
    assert_eq!(join_path("C:/Temp/", PathStyle::Windows, "a"), "C:/Temp/a");
}

#[test]
fn joining_agrees_with_the_standard_library() {
    for base in ["/tmp", "/tmp/", "/", "", "a b", "/x\\"] {
        for part in ["r-shell-edit", "0123-4", "untitled", ".."] {
            let expected = std::path::Path::new(base).join(part);
            assert_eq!(join_path(base, PathStyle::Unix, part), expected.to_string_lossy());
        }
    }
}

#[test]
fn each_open_has_a_directory_of_its_own() {
    let id = session_id_for("c1", "/etc/hosts");
    let first = instance_dir_path("/tmp", PathStyle::Unix, &id, 0);
    let second = instance_dir_path("/tmp", PathStyle::Unix, &id, 1);
    assert_eq!(first, format!("/tmp/r-shell-edit/{}-0", id));
    assert_eq!(second, format!("/tmp/r-shell-edit/{}-1", id));
    let last = instance_dir_path("/tmp", PathStyle::Unix, &id, u64::MAX);
    assert_eq!(last, format!("/tmp/r-shell-edit/{}-18446744073709551615", id));
}

#[test]
fn the_file_lies_in_its_directory() {
    let path = local_file_path("/tmp/r-shell-edit/x-0", PathStyle::Unix, "../../etc/passwd");
    assert_eq!(path, "/tmp/r-shell-edit/x-0/passwd");
}
