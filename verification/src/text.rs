//! Small string and path operations, and the std ones that vstd does not
//! specify.

use vstd::prelude::*;
use vstd::string::StrSliceExecFns;
use vstd::string::StringExecFns;

verus! {

/// Compares two string slices by content: equal exactly when they hold the
/// same characters.
pub(crate) fn str_eq(a: &str, b: &str) -> (r: bool)
    ensures
        r == (a@ == b@),
{
    let x = a.to_owned();
    let y = b.to_owned();
    x == y
}

/// Appends one character (`String::push`): the string gains `c` at its end.
#[verifier::external_body]
pub(crate) fn push_char(s: &mut String, c: char)
    ensures
        final(s)@ == old(s)@.push(c),
{
    s.push(c)
}

/// What `str::to_uppercase` returns for a string: Unicode upper-casing, which
/// may change the number of characters.
pub uninterp spec fn uppercase(s: Seq<char>) -> Seq<char>;

/// Upper-cases a string (`str::to_uppercase`); the result is named `uppercase`.
#[verifier::external_body]
pub(crate) fn to_uppercase(s: &str) -> (r: String)
    ensures
        r@ == uppercase(s@),
{
    s.to_uppercase()
}

/// The character contents of a list of strings.
pub open spec fn texts(v: Seq<String>) -> Seq<Seq<char>> {
    v.map_values(|s: String| s@)
}

/// The concatenation of two strings as a new `String`.
pub fn concat_strs(a: &str, b: &str) -> (r: String)
    ensures
        r@ == a@ + b@,
{
    let mut r = a.to_owned();
    r.append(b);
    r
}

/// What `Path::join` returns for a base path and a component.
pub uninterp spec fn joined_path(base: Seq<char>, component: Seq<char>) -> Seq<char>;

/// Adjoins a component to a path (`Path::join`); the result is named
/// `joined_path`.
#[verifier::external_body]
pub(crate) fn join_path(base: &str, component: &str) -> (r: String)
    ensures
        r@ == joined_path(base@, component@),
{
    std::path::Path::new(base).join(component).to_string_lossy().into_owned()
}

/// What `Path::eq` says of two paths: equal component by component.
pub uninterp spec fn same_path(a: Seq<char>, b: Seq<char>) -> bool;

/// Compares two paths component by component (`<Path as PartialEq>::eq`);
/// the result is named `same_path`.
#[verifier::external_body]
pub(crate) fn paths_equal(a: &str, b: &str) -> (r: bool)
    ensures
        r == same_path(a@, b@),
{
    std::path::Path::new(a) == std::path::Path::new(b)
}

/// What `Path::parent` returns for a path.
pub uninterp spec fn path_parent(p: Seq<char>) -> Option<Seq<char>>;

/// The parent of a path (`Path::parent`), none for a root or empty path; the
/// result is named `path_parent`.
#[verifier::external_body]
pub(crate) fn parent_path(p: &str) -> (r: Option<String>)
    ensures
        match r {
            Some(d) => path_parent(p@) == Some(d@),
            None => path_parent(p@) is None,
        },
{
    match std::path::Path::new(p).parent() {
        Some(d) => Some(d.to_string_lossy().into_owned()),
        None => None,
    }
}

/// What `Path::starts_with` says of a path and a base.
pub uninterp spec fn path_starts_with(p: Seq<char>, base: Seq<char>) -> bool;

/// Whether `base` is a prefix of `p`, whole components only
/// (`Path::starts_with`); the result is named `path_starts_with`.
#[verifier::external_body]
pub(crate) fn starts_with_path(p: &str, base: &str) -> (r: bool)
    ensures
        r == path_starts_with(p@, base@),
{
    std::path::Path::new(p).starts_with(base)
}

/// `s` without `prefix` when it starts with it; otherwise `s`.
pub open spec fn stripped(s: Seq<char>, prefix: Seq<char>) -> Seq<char> {
    if prefix.len() <= s.len() && s.subrange(0, prefix.len() as int) == prefix {
        s.subrange(prefix.len() as int, s.len() as int)
    } else {
        s
    }
}

/// `s` without `prefix` when it starts with it (`str::strip_prefix`,
/// falling back to `s`).
pub fn strip_prefix_or_self(s: &str, prefix: &str) -> (r: String)
    ensures
        r@ == stripped(s@, prefix@),
{
    let sl = s.unicode_len();
    let pl = prefix.unicode_len();
    if pl <= sl {
        let head = s.substring_char(0, pl);
        if str_eq(head, prefix) {
            let tail = s.substring_char(pl, sl);
            return tail.to_owned();
        }
    }
    s.to_owned()
}

} // verus!
