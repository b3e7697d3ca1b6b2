//! Content hashes and session ids.
use std::collections::hash_map::DefaultHasher;
use std::hash::{Hash, Hasher};
use vstd::prelude::*;
use vstd::std_specs::hash::DefaultHasherAdditionalSpecFns;

use crate::text::{
    digit, hex, hex16, hex_has_width, hex_is_injective, hex_reads_back, hex_value, u64_fits_hex16,
};

verus! {

/// The writes that `Hash` for `[u8]` makes to a hasher. Within one build of the crate the bytes
/// alone fix them. Which writes they are is left open: the standard library promises neither
/// the same ones on every platform nor in every release.
pub uninterp spec fn byte_slice_writes(bytes: Seq<u8>) -> Seq<Seq<u8>>;

/// The writes that `Hash` for `str` makes to a hasher. Within one build of the crate the
/// characters alone fix them, and which writes they are is left open for the same reason.
pub uninterp spec fn text_writes(text: Seq<char>) -> Seq<Seq<u8>>;

/// `<[u8] as Hash>::hash` of std: feeds the bytes into the hasher, after what it already holds.
/// An array feeds a hasher what the slice of all its elements does.
#[verifier::external_body]
fn feed_bytes(bytes: &[u8], hasher: &mut DefaultHasher)
    ensures
        final(hasher)@ == old(hasher)@ + byte_slice_writes(bytes@),
{
    bytes.hash(hasher);
}

/// `<str as Hash>::hash` of std: feeds the text into the hasher, after what it already holds.
#[verifier::external_body]
fn feed_text(text: &str, hasher: &mut DefaultHasher)
    ensures
        final(hasher)@ == old(hasher)@ + text_writes(text@),
{
    text.hash(hasher);
}

/// The hash that tells one content of a file from another.
pub open spec fn content_hash(bytes: Seq<u8>) -> u64 {
    DefaultHasher::spec_finish(byte_slice_writes(bytes))
}

/// The hash of a remote file's identity: the connection, a zero byte, the path.
pub open spec fn identity_hash(connection_id: Seq<char>, remote_path: Seq<char>) -> u64 {
    DefaultHasher::spec_finish(
        text_writes(connection_id) + byte_slice_writes(seq![0u8]) + text_writes(remote_path),
    )
}

/// The session id of a remote file: its identity hash in sixteen hexadecimal digits.
pub open spec fn session_id(connection_id: Seq<char>, remote_path: Seq<char>) -> Seq<char> {
    hex(identity_hash(connection_id, remote_path) as nat, 16)
}

/// The hash of a file's content.
pub fn hash_bytes(bytes: &[u8]) -> (hash: u64)
    ensures
        hash == content_hash(bytes@),
        hash == DefaultHasher::spec_finish(byte_slice_writes(bytes@)),
{
    let mut hasher = DefaultHasher::new();
    feed_bytes(bytes, &mut hasher);
    assert(hasher@ == byte_slice_writes(bytes@));
    hasher.finish()
}

/// Deterministic session id of a remote file, so that opening the same file again finds the
/// session that is already there.
pub fn session_id_for(connection_id: &str, remote_path: &str) -> (id: String)
    ensures
        id@ == session_id(connection_id@, remote_path@),
        id@ == hex(
            DefaultHasher::spec_finish(
                text_writes(connection_id@) + byte_slice_writes(seq![0u8]) + text_writes(
                    remote_path@,
                ),
            ) as nat,
            16,
        ),
{
    let mut hasher = DefaultHasher::new();
    feed_text(connection_id, &mut hasher);
    let separator: [u8; 1] = [0u8];
    feed_bytes(separator.as_slice(), &mut hasher);
    feed_text(remote_path, &mut hasher);
    proof {
        assert(separator@ == seq![0u8]);
        assert(hasher@ == text_writes(connection_id@) + byte_slice_writes(seq![0u8])
            + text_writes(remote_path@));
    }
    hex16(hasher.finish())
}

/// Two remote files share a session id exactly when their identity hashes agree: writing the
/// hash out as an id loses nothing.
pub proof fn session_ids_agree_with_hashes(
    connection_a: Seq<char>,
    path_a: Seq<char>,
    connection_b: Seq<char>,
    path_b: Seq<char>,
)
    ensures
        session_id(connection_a, path_a) == session_id(connection_b, path_b) <==> identity_hash(
            connection_a,
            path_a,
        ) == identity_hash(connection_b, path_b),
{
    let a = identity_hash(connection_a, path_a);
    let b = identity_hash(connection_b, path_b);
    u64_fits_hex16(a);
    u64_fits_hex16(b);
    if hex(a as nat, 16) == hex(b as nat, 16) {
        hex_is_injective(a as nat, b as nat, 16);
    }
}

/// Every session id is sixteen hexadecimal digits, in lower case.
pub proof fn session_id_has_sixteen_digits(connection_id: Seq<char>, remote_path: Seq<char>)
    ensures
        session_id(connection_id, remote_path).len() == 16,
        forall|i: int|
            0 <= i < 16 ==> exists|d: int|
                0 <= d < 16 && #[trigger] session_id(connection_id, remote_path)[i]
                    == #[trigger] digit(d),
{
    hex_has_width(identity_hash(connection_id, remote_path) as nat, 16);
}

/// Two contents are taken for the same only where the hasher gives the same number for the whole
/// of both: nothing of a content is left out of its hash, and nothing is added.
pub proof fn content_hashes_cover_the_whole_content(a: Seq<u8>, b: Seq<u8>)
    ensures
        content_hash(a) == content_hash(b) <==> DefaultHasher::spec_finish(byte_slice_writes(a))
            == DefaultHasher::spec_finish(byte_slice_writes(b)),
        content_hash(a) == DefaultHasher::spec_finish(byte_slice_writes(a)),
{
}

/// Two remote files share a session id only where the hasher gives the same number for the whole
/// connection ids and the whole paths of both.
pub proof fn session_ids_cover_the_whole_identity(
    connection_a: Seq<char>,
    path_a: Seq<char>,
    connection_b: Seq<char>,
    path_b: Seq<char>,
)
    ensures
        session_id(connection_a, path_a) == session_id(connection_b, path_b)
            <==> DefaultHasher::spec_finish(
            text_writes(connection_a) + byte_slice_writes(seq![0u8]) + text_writes(path_a),
        ) == DefaultHasher::spec_finish(
            text_writes(connection_b) + byte_slice_writes(seq![0u8]) + text_writes(path_b),
        ),
{
    session_ids_agree_with_hashes(connection_a, path_a, connection_b, path_b);
}

/// A session id, read as a hexadecimal number, is what the hasher gives for the connection, a
/// zero byte and the path.
pub proof fn a_session_id_reads_as_its_hash(connection_id: Seq<char>, remote_path: Seq<char>)
    ensures
        hex_value(session_id(connection_id, remote_path)) == DefaultHasher::spec_finish(
            text_writes(connection_id) + byte_slice_writes(seq![0u8]) + text_writes(remote_path),
        ),
{
    let hash = identity_hash(connection_id, remote_path);
    u64_fits_hex16(hash);
    hex_reads_back(hash as nat, 16);
}

} // verus!
