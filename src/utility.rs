use vstd::prelude::*;
use vstd::string::StringExecFns;

use crate::error::Error;

verus! {

/// The directory, relative to the working directory of the host, under
/// which every sound path is resolved.
pub const SOUND_ROOT: &'static str = "reframework/sound/";

/// Reason given when a path does not stay relative.
pub const NOT_RELATIVE: &'static str = "Path should be relative";

/// Reason given when a path names the root, a drive or a parent directory.
pub const ESCAPES_ROOT: &'static str = "Accessing parent dir or root dir is not allowed";

/// A character that separates the components of a path.
pub open spec fn is_separator(c: char) -> bool {
    c == '/' || c == '\\'
}

/// Index `i` starts a component of `s`.
pub open spec fn starts_component(s: Seq<char>, i: int) -> bool {
    i == 0 || is_separator(s[i - 1])
}

/// Index `i` ends a component of `s`.
pub open spec fn ends_component(s: Seq<char>, i: int) -> bool {
    i == s.len() || is_separator(s[i])
}

/// The path starts at a root directory.
pub open spec fn is_rooted(s: Seq<char>) -> bool {
    s.len() > 0 && is_separator(s[0])
}

/// A component `..` starts at index `i`.
pub open spec fn parent_component_at(s: Seq<char>, i: int) -> bool {
    &&& 0 <= i
    &&& i + 2 <= s.len()
    &&& s[i] == '.'
    &&& s[i + 1] == '.'
    &&& starts_component(s, i)
    &&& ends_component(s, i + 2)
}

/// An ASCII letter, as a drive is named.
pub open spec fn is_drive_letter(c: char) -> bool {
    ('a' <= c && c <= 'z') || ('A' <= c && c <= 'Z')
}

/// Index `i` holds the `:` of a drive prefix such as `C:`: a single letter
/// followed by a colon at the start of the path.
pub open spec fn drive_marker_at(s: Seq<char>, i: int) -> bool {
    &&& i == 1
    &&& s.len() >= 2
    &&& is_drive_letter(s[0])
    &&& s[1] == ':'
}

/// The path is absolute: a drive prefix followed by a separator, or two
/// leading separators, as a network share is named.
pub open spec fn is_absolute(s: Seq<char>) -> bool {
    ||| (s.len() >= 3 && is_drive_letter(s[0]) && s[1] == ':' && is_separator(s[2]))
    ||| (s.len() >= 2 && is_separator(s[0]) && is_separator(s[1]))
}

/// The path leaves the directory it is resolved in: it names the root, a
/// drive, or a parent directory.
pub open spec fn escapes_root(s: Seq<char>) -> bool {
    ||| is_rooted(s)
    ||| exists|i: int| parent_component_at(s, i)
    ||| exists|i: int| drive_marker_at(s, i)
}

/// The sound file that a valid relative path names.
pub open spec fn sound_path(s: Seq<char>) -> Seq<char> {
    SOUND_ROOT@ + s
}

/// The two reasons for refusing a path are told apart by their text.
proof fn lemma_reasons_differ()
    ensures
        NOT_RELATIVE@ != ESCAPES_ROOT@,
{
    reveal_strlit("Path should be relative");
    reveal_strlit("Accessing parent dir or root dir is not allowed");
    assert(NOT_RELATIVE@.len() != ESCAPES_ROOT@.len());
}

fn separator(c: char) -> (r: bool)
    ensures
        r == is_separator(c),
{
    c == '/' || c == '\\'
}

fn chars_of(s: &str) -> (v: Vec<char>)
    ensures
        v@ == s@,
{
    let mut v: Vec<char> = Vec::new();
    for c in it: s.chars()
        invariant
            v@ == it.seq().take(it.index() as int),
    {
        v.push(c);
    }
    v
}

fn parent_component_at_index(v: &Vec<char>, i: usize) -> (r: bool)
    requires
        i < v.len(),
    ensures
        r == parent_component_at(v@, i as int),
{
    v.len() - i >= 2 && v[i] == '.' && v[i + 1] == '.' && (i == 0 || separator(v[i - 1])) && (i
        + 2 == v.len() || separator(v[i + 2]))
}

/// Checks that `path` stays inside the sound directory and resolves it there.
///
/// An absolute path is refused as not relative; any other path that names
/// the root, a drive prefix such as `C:` or a `..` component is refused as
/// escaping the root. Both errors carry the path as given.
pub fn to_sound_data_path(path: &str) -> (r: Result<String, Error>)
    ensures
        r is Ok <==> !escapes_root(path@),
        r matches Ok(p) ==> p@ == sound_path(path@),
        r matches Err(e) ==> {
            &&& e matches Error::InvalidPath(reason, given)
            &&& given@ == path@
            &&& reason@ == (if is_absolute(path@) {
                NOT_RELATIVE@
            } else {
                ESCAPES_ROOT@
            })
        },
{
    let v = chars_of(path);
    proof {
        lemma_reasons_differ();
    }
    let drive = v.len() >= 2 && (('a' <= v[0] && v[0] <= 'z') || ('A' <= v[0] && v[0] <= 'Z'))
        && v[1] == ':';
    let rooted = v.len() > 0 && separator(v[0]);
    assert(drive ==> drive_marker_at(path@, 1));
    if (drive && v.len() >= 3 && separator(v[2])) || (rooted && v.len() >= 2 && separator(v[1])) {
        return Err(Error::InvalidPath(NOT_RELATIVE, path.to_owned()));
    }
    if drive || rooted {
        return Err(Error::InvalidPath(ESCAPES_ROOT, path.to_owned()));
    }
    let mut i: usize = 0;
    while i < v.len()
        invariant
            v@ == path@,
            !is_rooted(path@),
            !is_absolute(path@),
            NOT_RELATIVE@ != ESCAPES_ROOT@,
            i <= v.len(),
            !drive_marker_at(path@, 1),
            forall|j: int| 0 <= j < i ==> !parent_component_at(v@, j),
        decreases v.len() - i,
    {
        if parent_component_at_index(&v, i) {
            assert(parent_component_at(path@, i as int));
            return Err(Error::InvalidPath(ESCAPES_ROOT, path.to_owned()));
        }
        i = i + 1;
    }
    let mut resolved = SOUND_ROOT.to_owned();
    resolved.append(path);
    Ok(resolved)
}

/// Accepts a resolved sound path only when the file system reported a
/// regular file there; otherwise the path is reported as not found.
pub fn check_sound_file(resolved: String, is_file: bool) -> (r: Result<String, Error>)
    ensures
        is_file ==> r == Ok::<String, Error>(resolved),
        !is_file ==> (r matches Err(Error::FileNotFound(p)) && p@ == resolved@),
{
    if is_file {
        Ok(resolved)
    } else {
        Err(Error::FileNotFound(resolved))
    }
}

} // verus!
