use r_shell::local_pty::cwd::{cwd_from_vnode_path, read_process_cwd};

#[test]
fn read_process_cwd_returns_none_for_dead_pid() {
    assert_eq!(read_process_cwd(0), None);
}

#[test]
fn cwd_ends_at_the_first_zero_byte() {
    let buffer = b"/home/alice\0\0garbage";
    assert_eq!(cwd_from_vnode_path(2352, 2352, buffer), Some("/home/alice".to_string()));
}

#[test]
fn cwd_may_fill_the_whole_buffer() {
    assert_eq!(cwd_from_vnode_path(4, 4, b"/tmp"), Some("/tmp".to_string()));
}

#[test]
fn cwd_is_decoded_as_utf8() {
    assert_eq!(
        cwd_from_vnode_path(1, 1, "/home/zo\u{eb}/\u{4e16}\0".as_bytes()),
        Some("/home/zo\u{eb}/\u{4e16}".to_string())
    );
}

#[test]
fn cwd_is_none_for_a_partial_answer() {
    assert_eq!(cwd_from_vnode_path(0, 2352, b"/home/alice\0"), None);
    assert_eq!(cwd_from_vnode_path(-1, 2352, b"/home/alice\0"), None);
    assert_eq!(cwd_from_vnode_path(2351, 2352, b"/home/alice\0"), None);
}

#[test]
fn cwd_is_none_for_an_empty_path() {
    assert_eq!(cwd_from_vnode_path(8, 8, b"\0/home"), None);
    assert_eq!(cwd_from_vnode_path(0, 0, b""), None);
}

#[test]
fn cwd_is_none_for_bytes_that_are_no_text() {
    assert_eq!(cwd_from_vnode_path(8, 8, b"/home/\xff\0"), None);
    assert_eq!(cwd_from_vnode_path(8, 8, b"/\xed\xa0\x80\0"), None);
    assert_eq!(cwd_from_vnode_path(8, 8, b"/\xc0\xaf\0"), None);
}

#[test]
fn cwd_ignores_bad_bytes_after_the_end() {
    assert_eq!(cwd_from_vnode_path(8, 8, b"/a\0\xff"), Some("/a".to_string()));
}
