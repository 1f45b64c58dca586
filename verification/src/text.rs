//! Text helpers shared by the engine: the few `std` string operations the
//! engine needs, and path-prefix tests on plain strings.

use vstd::prelude::*;
use vstd::string::*;

verus! {

/// Appends one character.
///
/// Trusted: states what `String::push` does, that the text afterwards is the
/// text before followed by `c`.
#[verifier::external_body]
pub(crate) fn push_char(s: &mut String, c: char)
    ensures
        final(s)@ == old(s)@.push(c),
{
    s.push(c);
}

/// Removes the last character, if there is one.
///
/// Trusted: states what `String::pop` does, that it takes the last
/// character off and hands it back, and leaves an empty text as it is.
#[verifier::external_body]
pub(crate) fn pop_char(s: &mut String) -> (c: Option<char>)
    ensures
        old(s)@.len() == 0 ==> c is None && final(s)@ == old(s)@,
        old(s)@.len() > 0 ==> c == Some(old(s)@.last()) && final(s)@ == old(s)@.drop_last(),
{
    s.pop()
}

/// Whether `needle` occurs in `hay` as a run of consecutive characters.
pub open spec fn has_substring(hay: Seq<char>, needle: Seq<char>) -> bool {
    exists|i: int|
        0 <= i && i + needle.len() <= hay.len() && #[trigger] hay.subrange(
            i,
            i + needle.len(),
        ) == needle
}

/// Whether `needle` occurs in `hay`.
///
/// Trusted: states what `str::contains` computes for a string pattern, that
/// the pattern matches a sub-slice of the string.
#[verifier::external_body]
pub(crate) fn str_contains(hay: &str, needle: &str) -> (r: bool)
    ensures
        r == has_substring(hay@, needle@),
{
    hay.contains(needle)
}

/// The text in lower case, by the case mapping of Unicode.
pub uninterp spec fn lowercase_text(s: Seq<char>) -> Seq<char>;

/// The text in lower case.
///
/// Trusted: calls `str::to_lowercase`, whose result depends on the text
/// alone; the mapping is that of the Unicode tables and is not written out
/// here.
#[verifier::external_body]
pub(crate) fn to_lowercase(s: &str) -> (r: String)
    ensures
        r@ == lowercase_text(s@),
{
    s.to_lowercase()
}

/// The text without the white space at its two ends, white space being
/// what Unicode calls so.
pub uninterp spec fn trimmed_text(s: Seq<char>) -> Seq<char>;

/// The text without leading and trailing white space.
///
/// Trusted: calls `str::trim`, whose result depends on the text alone; the
/// set of white-space characters is that of Unicode and is not written out
/// here.
#[verifier::external_body]
pub(crate) fn trim_text(s: &str) -> (r: String)
    ensures
        r@ == trimmed_text(s@),
{
    s.trim().to_string()
}

/// The final component of a path, where it has one.
pub uninterp spec fn file_name_text(path: Seq<char>) -> Option<Seq<char>>;

/// The final component of a path: the name of the file or directory it
/// leads to.
///
/// Trusted: calls `Path::file_name`, whose result depends on the path
/// alone; how a path falls into components is not written out here.
#[verifier::external_body]
pub(crate) fn path_file_name(path: &str) -> (r: Option<String>)
    ensures
        match r {
            Some(name) => file_name_text(path@) == Some(name@),
            None => file_name_text(path@) is None,
        },
{
    std::path::Path::new(path).file_name().map(|name| name.to_string_lossy().to_string())
}

/// The text of an optional string.
pub open spec fn opt_text(s: Option<&str>) -> Option<Seq<char>> {
    match s {
        Some(t) => Some(t@),
        None => None,
    }
}

/// The text of `a` followed by the text of `b`.
pub fn join2(a: &str, b: &str) -> (r: String)
    ensures
        r@ == a@ + b@,
{
    let mut r = String::from_str(a);
    r.append(b);
    r
}

/// The texts of `a`, `b`, `c` and `d`, one after the other.
pub fn join4(a: &str, b: &str, c: &str, d: &str) -> (r: String)
    ensures
        r@ == a@ + b@ + c@ + d@,
{
    let mut r = String::from_str(a);
    r.append(b);
    r.append(c);
    r.append(d);
    r
}

/// The path `rel` taken from the directory `base`: `rel` itself where it is
/// absolute or `base` is empty, else `base` and `rel` with exactly one
/// separator between them.
pub open spec fn path_join(base: Seq<char>, rel: Seq<char>) -> Seq<char> {
    if rel.len() > 0 && rel[0] == '/' {
        rel
    } else if base.len() == 0 || base.last() == '/' {
        base + rel
    } else {
        base + seq!['/'] + rel
    }
}

/// Joins a directory and a path below it.
pub fn join_path(base: &str, rel: &str) -> (r: String)
    ensures
        r@ == path_join(base@, rel@),
{
    let n = base.unicode_len();
    let m = rel.unicode_len();
    if m > 0 && rel.get_char(0) == '/' {
        return String::from_str(rel);
    }
    let mut r = String::from_str(base);
    if n > 0 && base.get_char(n - 1) != '/' {
        push_char(&mut r, '/');
    }
    r.append(rel);
    r
}

/// Whether `a` comes before `b` in the order of strings: at the first
/// position where they differ `a` has the smaller character, or `a` ends
/// first. Characters compare by their code points.
pub open spec fn text_less(a: Seq<char>, b: Seq<char>) -> bool
    decreases a.len(),
{
    if b.len() == 0 {
        false
    } else if a.len() == 0 {
        true
    } else if a[0] != b[0] {
        (a[0] as int) < (b[0] as int)
    } else {
        text_less(a.skip(1), b.skip(1))
    }
}

/// Whether `a` comes before `b` in the order of strings.
///
/// Trusted: states what `<` on `str` computes, as `std` documents it:
/// strings are ordered lexicographically by their bytes, which orders them
/// by the code points of their characters.
#[verifier::external_body]
pub(crate) fn str_lt(a: &str, b: &str) -> (r: bool)
    ensures
        r == text_less(a@, b@),
{
    a < b
}

/// Whether `prefix` is a prefix of `s`.
pub open spec fn is_prefix(prefix: Seq<char>, s: Seq<char>) -> bool {
    prefix.len() <= s.len() && s.subrange(0, prefix.len() as int) == prefix
}

/// Tests whether `s` begins with `prefix`, character by character.
pub fn starts_with(s: &str, prefix: &str) -> (r: bool)
    ensures
        r == is_prefix(prefix@, s@),
{
    let n = prefix.unicode_len();
    let m = s.unicode_len();
    if n > m {
        return false;
    }
    let mut i: usize = 0;
    while i < n
        invariant
            n == prefix@.len(),
            m == s@.len(),
            n <= m,
            i <= n,
            forall|k: int| 0 <= k < i ==> s@[k] == prefix@[k],
        decreases n - i,
    {
        if s.get_char(i) != prefix.get_char(i) {
            return false;
        }
        i += 1;
    }
    assert(s@.subrange(0, n as int) =~= prefix@);
    true
}

} // verus!
