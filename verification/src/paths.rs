//! Filesystem paths, held as strings, and the `std::path` operations the
//! library performs on them.
//!
//! Path syntax (separators, roots, prefixes) is the target platform's; the
//! library does not restate it. Each operation below is `std::path`'s, and its
//! result is given a name so that contracts can say which path a function builds.
use std::path::Path;
use vstd::prelude::*;

use crate::text::str_eq;

verus! {

/// The path that `Path::join` builds from `base` and `tail`.
pub uninterp spec fn path_join(base: Seq<char>, tail: Seq<char>) -> Seq<char>;

/// The final component of `path`, as `Path::file_name` finds it.
pub uninterp spec fn path_file_name(path: Seq<char>) -> Option<Seq<char>>;

/// Whether `Path::is_absolute` holds of `path`.
pub uninterp spec fn path_is_absolute(path: Seq<char>) -> bool;

/// Whether `Path`'s `==` (which compares components) holds between `a` and `b`.
pub uninterp spec fn path_equal(a: Seq<char>, b: Seq<char>) -> bool;

/// Calls `Path::join`: `tail` adjoined to `base` (an absolute `tail` replaces `base`).
/// Claimed: the result is the named value `path_join` of the two strings. Both inputs
/// are UTF-8, so the joined path converts back to a string without loss.
#[verifier::external_body]
pub fn join_path(base: &str, tail: &str) -> (joined: String)
    ensures
        joined@ == path_join(base@, tail@),
{
    Path::new(base).join(tail).to_string_lossy().into_owned()
}

/// Calls `Path::file_name` and converts the component to a string.
/// Claimed: the result is the named value `path_file_name` of `path`.
#[verifier::external_body]
pub fn file_name(path: &str) -> (name: Option<String>)
    ensures
        name matches Some(n) ==> path_file_name(path@) == Some(n@),
        name is None ==> path_file_name(path@) is None,
{
    match Path::new(path).file_name() {
        Some(component) => component.to_str().map(str::to_owned),
        None => None,
    }
}

/// A path that no platform reads as absolute: it does not start with a separator
/// (`/`, or `\\` on Windows) and holds no `:` (which a Windows drive prefix needs).
pub open spec fn spec_plainly_relative(path: Seq<char>) -> bool {
    &&& !(path.len() > 0 && (path[0] == '/' || path[0] == '\\'))
    &&& !path.contains(':')
}

/// Calls `Path::is_absolute`. Claimed: the result is the named value `path_is_absolute`,
/// and a plainly relative path is not absolute. The documentation: on Unix a path is
/// absolute when it starts with the root `/`; on Windows when it has a prefix (a
/// drive `C:`, or one of the `\\`-led forms) and starts with the root.
#[verifier::external_body]
pub fn is_absolute(path: &str) -> (absolute: bool)
    ensures
        absolute == path_is_absolute(path@),
        spec_plainly_relative(path@) ==> !absolute,
{
    Path::new(path).is_absolute()
}

/// Compares two paths with `Path`'s `==`. Claimed: the result is the named value
/// `path_equal`, and identical strings are equal paths (`Path` is `Eq`, so `==` is reflexive).
#[verifier::external_body]
pub fn same_path(a: &str, b: &str) -> (same: bool)
    ensures
        same == path_equal(a@, b@),
        a@ == b@ ==> same,
{
    Path::new(a) == Path::new(b)
}

/// The extension `Path::extension` documents for a file name: the text after the
/// final `.`, unless there is no `.`, the only `.` starts the name, or the name is `..`.
pub open spec fn spec_extension(name: Seq<char>) -> Option<Seq<char>> {
    let dot: int = last_dot(name, name.len() as int);
    if name == ".."@ || dot <= 0 {
        None
    } else {
        Some(name.subrange(dot + 1, name.len() as int))
    }
}

/// The index of the last `.` among the first `end` characters of `name`, or -1.
pub open spec fn last_dot(name: Seq<char>, end: int) -> int
    decreases end,
{
    if end <= 0 {
        -1
    } else if name[end - 1] == '.' {
        end - 1
    } else {
        last_dot(name, end - 1)
    }
}

proof fn lemma_last_dot_bounds(name: Seq<char>, end: int)
    requires
        0 <= end <= name.len(),
    ensures
        -1 <= last_dot(name, end) < end,
        last_dot(name, end) >= 0 ==> name[last_dot(name, end)] == '.',
    decreases end,
{
    if end > 0 && name[end - 1] != '.' {
        lemma_last_dot_bounds(name, end - 1);
    }
}

/// The extension of a file name, as `Path::extension` documents it.
pub fn file_extension(name: &str) -> (extension: Option<String>)
    ensures
        extension matches Some(e) ==> spec_extension(name@) == Some(e@),
        extension is None ==> spec_extension(name@) is None,
{
    let len: usize = name.unicode_len();
    let mut end: usize = len;
    while end > 0 && name.get_char(end - 1) != '.'
        invariant
            len == name@.len(),
            end <= len,
            last_dot(name@, len as int) == last_dot(name@, end as int),
        decreases end,
    {
        end = end - 1;
    }
    proof {
        lemma_last_dot_bounds(name@, len as int);
    }
    let parent_dir = str_eq(name, "..");
    if end <= 1 || parent_dir {
        None
    } else {
        Some(name.substring_char(end, len).to_owned())
    }
}

} // verus!
