//! The working directory of a running shell.
use vstd::prelude::*;
use vstd::utf8::{decode_utf8, valid_utf8};

verus! {

/// `String::from_utf8` of std: the text that the bytes encode where they are valid UTF-8, and
/// an error, which is dropped here, where they are not.
#[verifier::external_body]
fn text_from_utf8(bytes: Vec<u8>) -> (text: Option<String>)
    ensures
        match text {
            Some(decoded) => valid_utf8(bytes@) && decoded@ == decode_utf8(bytes@),
            None => !valid_utf8(bytes@),
        },
{
    String::from_utf8(bytes).ok()
}

/// What stands before the first zero byte: everything where there is none.
pub open spec fn before_nul(bytes: Seq<u8>) -> Seq<u8>
    decreases bytes.len(),
{
    if bytes.len() == 0 || bytes.first() == 0 {
        Seq::empty()
    } else {
        seq![bytes.first()] + before_nul(bytes.drop_first())
    }
}

/// The directory that the system reports in a buffer, where it has filled the buffer.
pub open spec fn reported_cwd(returned: i32, size: i32, path: Seq<u8>) -> Option<Seq<char>> {
    let bytes = before_nul(path);
    if returned == size && bytes.len() > 0 && valid_utf8(bytes) {
        Some(decode_utf8(bytes))
    } else {
        None
    }
}

/// Reads the working directory of a process from what the system returned for it: `returned`
/// bytes out of `size`, of which `path` is the fixed buffer that holds the directory, ended by
/// a zero byte. There is none where the system has not filled everything, or where the path is
/// empty or no text.
pub fn cwd_from_vnode_path(returned: i32, size: i32, path: &[u8]) -> (cwd: Option<String>)
    ensures
        match cwd {
            Some(dir) => reported_cwd(returned, size, path@) == Some(dir@),
            None => reported_cwd(returned, size, path@) is None,
        },
{
    if returned != size {
        return None;
    }
    let mut bytes: Vec<u8> = Vec::new();
    let mut end: usize = 0;
    assert(path@.skip(0) == path@);
    assert(bytes@ + before_nul(path@) == before_nul(path@));
    while end < path.len() && path[end] != 0
        invariant
            end <= path@.len(),
            bytes@.len() == end,
            before_nul(path@) == bytes@ + before_nul(path@.skip(end as int)),
        decreases path@.len() - end,
    {
        proof {
            let rest = path@.skip(end as int);
            assert(rest.first() == path@[end as int]);
            assert(rest.drop_first() == path@.skip(end + 1));
            assert(bytes@ + (seq![rest.first()] + before_nul(rest.drop_first())) == bytes@.push(
                rest.first(),
            ) + before_nul(rest.drop_first()));
        }
        bytes.push(path[end]);
        end = end + 1;
    }
    proof {
        let rest = path@.skip(end as int);
        assert(rest.len() > 0 ==> rest.first() == path@[end as int]);
        assert(before_nul(rest) == Seq::<u8>::empty());
        assert(before_nul(path@) == bytes@);
    }
    if end == 0 {
        return None;
    }
    text_from_utf8(bytes)
}

/// Reads the working directory of a process where the system offers no way to: there is none.
pub fn read_process_cwd(_pid: u32) -> (cwd: Option<String>)
    ensures
        cwd is None,
{
    None
}

/// What follows the first zero byte of the buffer does not matter.
pub proof fn the_rest_of_the_buffer_is_ignored(dir: Seq<u8>, first: Seq<u8>, second: Seq<u8>)
    requires
        forall|i: int| 0 <= i < dir.len() ==> #[trigger] dir[i] != 0,
    ensures
        before_nul(dir.push(0) + first) == dir,
        before_nul(dir.push(0) + first) == before_nul(dir.push(0) + second),
{
    lemma_before_nul(dir, first);
    lemma_before_nul(dir, second);
}

proof fn lemma_before_nul(dir: Seq<u8>, rest: Seq<u8>)
    requires
        forall|i: int| 0 <= i < dir.len() ==> #[trigger] dir[i] != 0,
    ensures
        before_nul(dir.push(0) + rest) == dir,
    decreases dir.len(),
{
    let whole = dir.push(0) + rest;
    if dir.len() > 0 {
        assert(whole.first() == dir[0]);
        assert(whole.drop_first() == dir.drop_first().push(0) + rest);
        lemma_before_nul(dir.drop_first(), rest);
        assert(seq![dir.first()] + dir.drop_first() == dir);
    } else {
        assert(whole.first() == 0);
    }
}

proof fn lemma_before_no_nul(dir: Seq<u8>)
    requires
        forall|i: int| 0 <= i < dir.len() ==> #[trigger] dir[i] != 0,
    ensures
        before_nul(dir) == dir,
    decreases dir.len(),
{
    if dir.len() > 0 {
        assert(dir.first() == dir[0]);
        lemma_before_no_nul(dir.drop_first());
        assert(seq![dir.first()] + dir.drop_first() == dir);
    }
}

/// A directory that the system reports is read whole, however long it is: up to the first zero
/// byte, or to the end of the buffer where there is none.
pub proof fn the_whole_directory_is_reported(dir: Seq<u8>, rest: Seq<u8>, size: i32)
    requires
        dir.len() > 0,
        forall|i: int| 0 <= i < dir.len() ==> #[trigger] dir[i] != 0,
        valid_utf8(dir),
    ensures
        reported_cwd(size, size, dir.push(0) + rest) == Some(decode_utf8(dir)),
        reported_cwd(size, size, dir) == Some(decode_utf8(dir)),
{
    lemma_before_nul(dir, rest);
    lemma_before_no_nul(dir);
}

/// There is no directory where the system has not filled everything, or where the bytes before
/// the first zero byte are none or no text.
pub proof fn no_directory_is_made_up(
    returned: i32,
    size: i32,
    path: Seq<u8>,
    dir: Seq<u8>,
    rest: Seq<u8>,
)
    requires
        forall|i: int| 0 <= i < dir.len() ==> #[trigger] dir[i] != 0,
    ensures
        returned != size ==> reported_cwd(returned, size, path) is None,
        dir.len() == 0 || !valid_utf8(dir) ==> reported_cwd(
            returned,
            size,
            dir.push(0) + rest,
        ) is None && reported_cwd(returned, size, dir) is None,
{
    lemma_before_nul(dir, rest);
    lemma_before_no_nul(dir);
}

} // verus!
