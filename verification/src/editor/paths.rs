//! Where a session's file lives on the local machine.
//!
//! Every open gets a directory of its own, `<temp>/r-shell-edit/<session id>-<instance>`, and
//! the file lies in it under a name that is a single path component.
use vstd::prelude::*;

use crate::editor::identity::{session_id, session_id_has_sixteen_digits};
use crate::text::{
    all_white_space, chars_of, decimal, decimal_is_injective, decimal_text, is_white_space,
    same_text, trimmed, trimmed_end, trimmed_start, trimming_keeps_the_core,
};

verus! {

/// How the local machine writes paths.
#[derive(Clone, Copy, Debug, PartialEq, Eq, Structural)]
pub enum PathStyle {
    Unix,
    Windows,
}

impl PathStyle {
    /// The character between two components.
    pub open spec fn separator(self) -> char {
        match self {
            PathStyle::Unix => '/',
            PathStyle::Windows => '\\',
        }
    }

    /// Whether `c` ends a component.
    pub open spec fn separates(self, c: char) -> bool {
        c == '/' || (self == PathStyle::Windows && c == '\\')
    }
}

/// Whether `c` separates components in a remote name, whatever system it comes from.
pub open spec fn is_name_separator(c: char) -> bool {
    c == '/' || c == '\\'
}

/// What follows the last separator of a name: all of it where there is none.
pub open spec fn base_name(name: Seq<char>) -> Seq<char>
    decreases name.len(),
{
    if name.len() == 0 || is_name_separator(name.last()) {
        Seq::empty()
    } else {
        base_name(name.drop_last()).push(name.last())
    }
}

/// The base name without white space at its ends, or `untitled` where nothing is left or where
/// it would name the directory itself or the one above.
pub open spec fn sanitized(name: Seq<char>) -> Seq<char> {
    let base = trimmed(base_name(name));
    if base.len() == 0 || base == "."@ || base == ".."@ {
        "untitled"@
    } else {
        base
    }
}

/// `part`, which is relative, below the directory `base`.
pub open spec fn joined(base: Seq<char>, style: PathStyle, part: Seq<char>) -> Seq<char> {
    if base.len() == 0 || style.separates(base.last()) {
        base + part
    } else {
        base + seq![style.separator()] + part
    }
}

/// The name of the directory of one open of a session.
pub open spec fn instance_dir_name(id: Seq<char>, instance: u64) -> Seq<char> {
    id + "-"@ + decimal(instance as nat)
}

/// The directory of one open of a session.
pub open spec fn instance_dir(
    temp_root: Seq<char>,
    style: PathStyle,
    id: Seq<char>,
    instance: u64,
) -> Seq<char> {
    joined(joined(temp_root, style, "r-shell-edit"@), style, instance_dir_name(id, instance))
}

/// The file of a session in its directory.
pub open spec fn local_file(dir: Seq<char>, style: PathStyle, file_name: Seq<char>) -> Seq<char> {
    joined(dir, style, sanitized(file_name))
}

/// Keep only the base name of a remote file, so that a crafted name cannot leave the directory
/// it is put in.
pub fn sanitize_file_name(name: &str) -> (safe: String)
    ensures
        safe@ == sanitized(name@),
{
    let chars = chars_of(name);
    let mut end: usize = chars.len();
    let mut start: usize = end;
    assert(name@.take(end as int) == name@);
    assert(name@.subrange(start as int, end as int) == Seq::<char>::empty());
    while start > 0 && chars[start - 1] != '/' && chars[start - 1] != '\\'
        invariant
            chars@ == name@,
            start <= end == name@.len(),
            base_name(name@) == base_name(name@.take(start as int)) + name@.subrange(
                start as int,
                end as int,
            ),
        decreases start,
    {
        proof {
            let before = name@.take(start as int);
            assert(before.drop_last() == name@.take(start - 1));
            assert(base_name(name@.take(start - 1)).push(name@[start - 1]) + name@.subrange(
                start as int,
                end as int,
            ) == base_name(name@.take(start - 1)) + name@.subrange(start - 1, end as int));
        }
        start = start - 1;
    }
    proof {
        assert(base_name(name@.take(start as int)) == Seq::<char>::empty());
        assert(base_name(name@) == name@.subrange(start as int, end as int));
    }
    let ghost base = base_name(name@);
    while start < end && chars[start].is_whitespace()
        invariant
            chars@ == name@,
            start <= end == name@.len(),
            trimmed_start(base) == trimmed_start(name@.subrange(start as int, end as int)),
        decreases end - start,
    {
        assert(name@.subrange(start as int, end as int).drop_first() == name@.subrange(
            start + 1,
            end as int,
        ));
        start = start + 1;
    }
    proof {
        let rest = name@.subrange(start as int, end as int);
        assert(start < end ==> rest.first() == name@[start as int]);
        assert(trimmed_start(base) == rest);
    }
    while start < end && chars[end - 1].is_whitespace()
        invariant
            chars@ == name@,
            start <= end <= name@.len(),
            trimmed(base) == trimmed_end(name@.subrange(start as int, end as int)),
        decreases end - start,
    {
        assert(name@.subrange(start as int, end as int).drop_last() == name@.subrange(
            start as int,
            end - 1,
        ));
        end = end - 1;
    }
    proof {
        let rest = name@.subrange(start as int, end as int);
        assert(start < end ==> rest.last() == name@[end - 1]);
        assert(trimmed(base) == rest);
    }
    let kept = name.substring_char(start, end);
    if start == end || same_text(kept, ".") || same_text(kept, "..") {
        "untitled".to_owned()
    } else {
        kept.to_owned()
    }
}

/// Puts the relative path `part` below the directory `base`.
pub fn join_path(base: &str, style: PathStyle, part: &str) -> (path: String)
    ensures
        path@ == joined(base@, style, part@),
{
    proof {
        reveal_strlit("/");
        reveal_strlit("\\");
    }
    let chars = chars_of(base);
    let mut path = base.to_owned();
    let count: usize = chars.len();
    match style {
        PathStyle::Unix => {
            if count > 0 && chars[count - 1] != '/' {
                path = path.concat("/");
                assert(path@ == base@ + seq!['/']);
            }
        },
        PathStyle::Windows => {
            if count > 0 && chars[count - 1] != '/' && chars[count - 1] != '\\' {
                path = path.concat("\\");
                assert(path@ == base@ + seq!['\\']);
            }
        },
    }
    path.concat(part)
}

/// The directory of one open of a session, below the system's directory for temporary files.
pub fn instance_dir_path(temp_root: &str, style: PathStyle, id: &str, instance: u64) -> (dir:
    String)
    ensures
        dir@ == instance_dir(temp_root@, style, id@, instance),
{
    let number = decimal_text(instance);
    let name = id.to_owned().concat("-").concat(number.as_str());
    let parent = join_path(temp_root, style, "r-shell-edit");
    join_path(parent.as_str(), style, name.as_str())
}

/// The path of a session's file.
pub fn local_file_path(dir: &str, style: PathStyle, file_name: &str) -> (path: String)
    ensures
        path@ == local_file(dir@, style, file_name@),
{
    let safe = sanitize_file_name(file_name);
    join_path(dir, style, safe.as_str())
}

/// A text that holds no separator of either kind.
pub open spec fn is_one_component(name: Seq<char>) -> bool {
    forall|i: int| 0 <= i < name.len() ==> !is_name_separator(#[trigger] name[i])
}

/// Whether `path` leads to something below `dir`: one component that is neither the directory
/// itself nor the one above.
pub open spec fn stays_inside(dir: Seq<char>, style: PathStyle, path: Seq<char>) -> bool {
    exists|name: Seq<char>|
        {
            &&& path == #[trigger] joined(dir, style, name)
            &&& name.len() > 0
            &&& is_one_component(name)
            &&& name != "."@
            &&& name != ".."@
        }
}

proof fn lemma_base_name_is_one_component(name: Seq<char>)
    ensures
        is_one_component(base_name(name)),
    decreases name.len(),
{
    if name.len() > 0 && !is_name_separator(name.last()) {
        lemma_base_name_is_one_component(name.drop_last());
    }
}

proof fn lemma_base_name_of_one_component(name: Seq<char>)
    requires
        is_one_component(name),
    ensures
        base_name(name) == name,
    decreases name.len(),
{
    if name.len() > 0 {
        assert(!is_name_separator(name[name.len() - 1]));
        assert forall|i: int| 0 <= i < name.len() - 1 implies !is_name_separator(
            #[trigger] name.drop_last()[i],
        ) by {
            assert(!is_name_separator(name[i]));
        }
        lemma_base_name_of_one_component(name.drop_last());
        assert(name.drop_last().push(name.last()) == name);
    }
}

proof fn lemma_trimmed_start_is_suffix(s: Seq<char>) -> (k: int)
    ensures
        0 <= k <= s.len(),
        trimmed_start(s) == s.skip(k),
        trimmed_start(s).len() > 0 ==> !is_white_space(trimmed_start(s).first()),
    decreases s.len(),
{
    if s.len() > 0 && is_white_space(s.first()) {
        let k = lemma_trimmed_start_is_suffix(s.drop_first());
        assert(s.drop_first().skip(k) == s.skip(k + 1));
        k + 1
    } else {
        assert(s.skip(0) == s);
        0
    }
}

proof fn lemma_trimmed_end_is_prefix(s: Seq<char>) -> (k: int)
    ensures
        0 <= k <= s.len(),
        trimmed_end(s) == s.take(k),
        trimmed_end(s).len() > 0 ==> !is_white_space(trimmed_end(s).last()),
    decreases s.len(),
{
    if s.len() > 0 && is_white_space(s.last()) {
        let k = lemma_trimmed_end_is_prefix(s.drop_last());
        assert(s.drop_last().take(k) == s.take(k));
        k
    } else {
        assert(s.take(s.len() as int) == s);
        s.len() as int
    }
}

/// A sanitized name is never empty, is a single path component other than `.` and `..`, and has
/// no white space at either end.
pub proof fn sanitized_name_is_one_component(name: Seq<char>)
    ensures
        sanitized(name).len() > 0,
        is_one_component(sanitized(name)),
        sanitized(name) != "."@,
        sanitized(name) != ".."@,
        !is_white_space(sanitized(name).first()),
        !is_white_space(sanitized(name).last()),
{
    reveal_strlit("untitled");
    reveal_strlit(".");
    reveal_strlit("..");
    let base = base_name(name);
    lemma_base_name_is_one_component(name);
    let k = lemma_trimmed_start_is_suffix(base);
    let n = lemma_trimmed_end_is_prefix(trimmed_start(base));
    let kept = trimmed(base);
    assert(kept == base.skip(k).take(n));
    assert forall|i: int| 0 <= i < kept.len() implies !is_name_separator(#[trigger] kept[i]) by {
        assert(kept[i] == base[k + i]);
    }
}

/// Sanitizing a name that is already sanitized changes nothing.
pub proof fn sanitizing_twice_is_sanitizing_once(name: Seq<char>)
    ensures
        sanitized(sanitized(name)) == sanitized(name),
{
    let safe = sanitized(name);
    sanitized_name_is_one_component(name);
    lemma_base_name_of_one_component(safe);
    assert(trimmed_start(safe) == safe);
    assert(trimmed_end(safe) == safe);
}

/// The file of a session lies in the session's directory, whatever the remote name holds.
pub proof fn local_file_stays_in_its_directory(
    dir: Seq<char>,
    style: PathStyle,
    file_name: Seq<char>,
)
    ensures
        stays_inside(dir, style, local_file(dir, style, file_name)),
{
    sanitized_name_is_one_component(file_name);
}

/// Each open of a session has a directory of its own: two opens share one only where both the
/// session and the instance are the same.
pub proof fn instance_dirs_are_unique(
    temp_root: Seq<char>,
    style: PathStyle,
    connection_a: Seq<char>,
    path_a: Seq<char>,
    instance_a: u64,
    connection_b: Seq<char>,
    path_b: Seq<char>,
    instance_b: u64,
)
    requires
        instance_dir(temp_root, style, session_id(connection_a, path_a), instance_a)
            == instance_dir(temp_root, style, session_id(connection_b, path_b), instance_b),
    ensures
        session_id(connection_a, path_a) == session_id(connection_b, path_b),
        instance_a == instance_b,
{
    let id_a = session_id(connection_a, path_a);
    let id_b = session_id(connection_b, path_b);
    session_id_has_sixteen_digits(connection_a, path_a);
    session_id_has_sixteen_digits(connection_b, path_b);
    reveal_strlit("-");
    let parent = joined(temp_root, style, "r-shell-edit"@);
    let name_a = instance_dir_name(id_a, instance_a);
    let name_b = instance_dir_name(id_b, instance_b);
    let dir_a = joined(parent, style, name_a);
    let dir_b = joined(parent, style, name_b);
    let skip: int = dir_a.len() - name_a.len();
    assert(dir_a.skip(skip) == name_a);
    assert(dir_b.skip(skip) == name_b);
    assert(name_a.take(16) == id_a);
    assert(name_b.take(16) == id_b);
    assert(name_a.skip(17) == decimal(instance_a as nat));
    assert(name_b.skip(17) == decimal(instance_b as nat));
    decimal_is_injective(instance_a as nat, instance_b as nat);
}

proof fn lemma_base_name_after(dirs: Seq<char>, base: Seq<char>)
    requires
        dirs.len() == 0 || is_name_separator(dirs.last()),
        is_one_component(base),
    ensures
        base_name(dirs + base) == base,
    decreases base.len(),
{
    let whole = dirs + base;
    if base.len() == 0 {
        assert(whole == dirs);
    } else {
        assert(!is_name_separator(base[base.len() - 1]));
        assert(whole.last() == base.last());
        assert(whole.drop_last() == dirs + base.drop_last());
        assert forall|i: int| 0 <= i < base.len() - 1 implies !is_name_separator(
            #[trigger] base.drop_last()[i],
        ) by {
            assert(!is_name_separator(base[i]));
        }
        lemma_base_name_after(dirs, base.drop_last());
        assert(base.drop_last().push(base.last()) == base);
    }
}

/// What stands after the last slash or backslash of a name is its base name, all of it.
pub proof fn the_base_name_follows_the_last_separator(dirs: Seq<char>, base: Seq<char>)
    requires
        dirs.len() == 0 || dirs.last() == '/' || dirs.last() == '\\',
        forall|i: int| 0 <= i < base.len() ==> #[trigger] base[i] != '/' && base[i] != '\\',
    ensures
        base_name(dirs + base) == base,
{
    lemma_base_name_after(dirs, base);
}

/// A name keeps what stands after its last separator and between the white space around that,
/// character for character, unless that is `.` or `..`.
pub proof fn a_name_comes_down_to_its_core(
    dirs: Seq<char>,
    before: Seq<char>,
    core: Seq<char>,
    after: Seq<char>,
)
    requires
        dirs.len() == 0 || dirs.last() == '/' || dirs.last() == '\\',
        all_white_space(before),
        all_white_space(after),
        core.len() > 0,
        !is_white_space(core.first()),
        !is_white_space(core.last()),
        forall|i: int| 0 <= i < core.len() ==> #[trigger] core[i] != '/' && core[i] != '\\',
    ensures
        sanitized(dirs + (before + core + after)) == if core == seq!['.'] || core == seq![
            '.',
            '.',
        ] {
            "untitled"@
        } else {
            core
        },
{
    reveal_strlit(".");
    reveal_strlit("..");
    assert("."@ == seq!['.']);
    assert(".."@ == seq!['.', '.']);
    let base = before + core + after;
    assert forall|i: int| 0 <= i < base.len() implies #[trigger] base[i] != '/' && base[i]
        != '\\' by {
        if i < before.len() {
            assert(is_white_space(before[i]));
        } else if i < before.len() + core.len() {
            assert(base[i] == core[i - before.len()]);
        } else {
            assert(is_white_space(after[i - before.len() - core.len()]));
        }
    }
    the_base_name_follows_the_last_separator(dirs, base);
    trimming_keeps_the_core(before, core, after);
}

/// A name with nothing but white space after its last separator is `untitled`.
pub proof fn a_name_without_a_core_is_untitled(dirs: Seq<char>, blank: Seq<char>)
    requires
        dirs.len() == 0 || dirs.last() == '/' || dirs.last() == '\\',
        all_white_space(blank),
    ensures
        sanitized(dirs + blank) == "untitled"@,
{
    assert forall|i: int| 0 <= i < blank.len() implies #[trigger] blank[i] != '/' && blank[i]
        != '\\' by {
        assert(is_white_space(blank[i]));
    }
    the_base_name_follows_the_last_separator(dirs, blank);
    let empty = Seq::<char>::empty();
    assert(blank + empty + empty == blank);
    trimming_keeps_the_core(blank, empty, empty);
}

/// A joined path is the directory, one separator of the machine's where the directory does not
/// end in one, and the part, each of them whole.
pub proof fn joining_adds_only_a_separator(base: Seq<char>, part: Seq<char>)
    ensures
        joined(Seq::empty(), PathStyle::Unix, part) == part,
        joined(Seq::empty(), PathStyle::Windows, part) == part,
        base.len() > 0 && base.last() == '/' ==> joined(base, PathStyle::Unix, part) == base + part,
        base.len() > 0 && base.last() != '/' ==> joined(base, PathStyle::Unix, part) == base + seq![
            '/',
        ] + part,
        base.len() > 0 && (base.last() == '/' || base.last() == '\\') ==> joined(
            base,
            PathStyle::Windows,
            part,
        ) == base + part,
        base.len() > 0 && base.last() != '/' && base.last() != '\\' ==> joined(
            base,
            PathStyle::Windows,
            part,
        ) == base + seq!['\\'] + part,
{
    assert(Seq::<char>::empty() + part == part);
}

/// The directory of an open is `r-shell-edit` below the directory for temporary files, and in it
/// the whole session id, a hyphen and the instance in base ten.
pub proof fn an_instance_dir_names_its_open(
    temp_root: Seq<char>,
    id: Seq<char>,
    instance: u64,
)
    ensures
        ({
            let parent = if temp_root.len() == 0 || temp_root.last() == '/' {
                temp_root
            } else {
                temp_root.push('/')
            };
            instance_dir(temp_root, PathStyle::Unix, id, instance) == parent + "r-shell-edit/"@ + id
                + "-"@ + decimal(instance as nat)
        }),
        ({
            let parent = if temp_root.len() == 0 || temp_root.last() == '/' || temp_root.last()
                == '\\' {
                temp_root
            } else {
                temp_root.push('\\')
            };
            instance_dir(temp_root, PathStyle::Windows, id, instance) == parent
                + "r-shell-edit\\"@ + id + "-"@ + decimal(instance as nat)
        }),
{
    reveal_strlit("r-shell-edit");
    reveal_strlit("r-shell-edit/");
    reveal_strlit("r-shell-edit\\");
    let name = "r-shell-edit"@;
    assert("r-shell-edit/"@ == name.push('/'));
    assert("r-shell-edit\\"@ == name.push('\\'));
    assert(name.last() == 't');
    let unix = joined(temp_root, PathStyle::Unix, name);
    let windows = joined(temp_root, PathStyle::Windows, name);
    assert(unix.last() == name.last());
    assert(windows.last() == name.last());
}

/// The file of a session is named in its directory by its sanitized name.
pub proof fn a_local_file_is_named_in_its_directory(dir: Seq<char>, file_name: Seq<char>)
    ensures
        local_file(dir, PathStyle::Unix, file_name) == if dir.len() == 0 || dir.last() == '/' {
            dir + sanitized(file_name)
        } else {
            dir.push('/') + sanitized(file_name)
        },
        local_file(dir, PathStyle::Windows, file_name) == if dir.len() == 0 || dir.last() == '/'
            || dir.last() == '\\' {
            dir + sanitized(file_name)
        } else {
            dir.push('\\') + sanitized(file_name)
        },
{
}

} // verus!
