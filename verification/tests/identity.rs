use r_shell::editor::identity::{hash_bytes, session_id_for};
use r_shell::text::{chars_of, decimal_text, hex16, is_blank, same_text};
use std::collections::hash_map::DefaultHasher;
use std::hash::{Hash, Hasher};

#[test]
fn content_hash_is_the_default_hash_of_the_bytes() {
    let contents: [&[u8]; 4] = [b"", b"hello", b"hello\n", b"\0\xff"];
    for content in contents {
        let mut hasher = DefaultHasher::new();
        content.hash(&mut hasher);
        assert_eq!(hash_bytes(content), hasher.finish());
    }
}

#[test]
fn content_hash_tells_contents_apart() {
    assert_eq!(hash_bytes(b"one"), hash_bytes(b"one"));
    assert_ne!(hash_bytes(b"one"), hash_bytes(b"two"));
    assert_ne!(hash_bytes(b""), hash_bytes(b"\0"));
}

#[test]
fn session_id_is_the_default_hash_in_hexadecimal() {
    for (connection, path) in [("c1", "/etc/hosts"), ("", ""), ("server-\u{e9}", "/a b/\u{4e16}")] {
        let mut hasher = DefaultHasher::new();
        connection.hash(&mut hasher);
        b"\0".hash(&mut hasher);
        path.hash(&mut hasher);
        assert_eq!(session_id_for(connection, path), format!("{:016x}", hasher.finish()));
    }
}

#[test]
fn session_id_is_deterministic() {
    assert_eq!(session_id_for("c1", "/etc/hosts"), session_id_for("c1", "/etc/hosts"));
    assert_ne!(session_id_for("c1", "/etc/hosts"), session_id_for("c2", "/etc/hosts"));
    assert_ne!(session_id_for("c1", "/etc/hosts"), session_id_for("c1", "/etc/passwd"));
    assert_ne!(session_id_for("a", "bc"), session_id_for("ab", "c"));
}

#[test]
fn session_id_has_sixteen_hexadecimal_digits() {
    let id = session_id_for("c1", "/etc/hosts");
    assert_eq!(id.len(), 16);
    assert!(id.chars().all(|c| c.is_ascii_digit() || ('a'..='f').contains(&c)));
}

#[test]
fn hexadecimal_is_padded_and_lower_case() {
    assert_eq!(hex16(0), "0000000000000000");
    assert_eq!(hex16(0xdead_beef), "00000000deadbeef");
    assert_eq!(hex16(0x0123_4567_89ab_cdef), "0123456789abcdef");
    assert_eq!(hex16(u64::MAX), "ffffffffffffffff");
}

#[test]
fn decimal_has_no_leading_zeros() {
    assert_eq!(decimal_text(0), "0");
    assert_eq!(decimal_text(7), "7");
    assert_eq!(decimal_text(10), "10");
    assert_eq!(decimal_text(1_234_567_890), "1234567890");
    assert_eq!(decimal_text(u64::MAX), "18446744073709551615");
}

#[test]
fn white_space_is_that_of_the_standard_library() {
    for code in 0..0x11_0000u32 {
        if let Some(c) = char::from_u32(code) {
            let listed = matches!(code, 0x9..=0xd | 0x20 | 0x85 | 0xa0 | 0x1680 | 0x2000..=0x200a
                | 0x2028 | 0x2029 | 0x202f | 0x205f | 0x3000);
            assert_eq!(c.is_whitespace(), listed);
        }
    }
    assert!(is_blank("\u{2003}\u{a0} \t"));
    assert!(is_blank(""));
    assert!(!is_blank(" \u{200b} "));
}

#[test]
fn texts_are_compared_by_their_characters() {
    assert!(same_text("SFTP", "SFTP"));
    assert!(!same_text("SFTP", "sftp"));
    assert!(!same_text("FTP", "SFTP"));
    assert_eq!(chars_of("a\u{e9}\u{4e16}"), vec!['a', '\u{e9}', '\u{4e16}']);
}
