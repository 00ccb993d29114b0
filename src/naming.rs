//! Deriving variant names from qualified error paths.

use crate::syntax::{Entry, EntryModel, ErrorPath};
use heck::CamelCase;
use vstd::prelude::*;

verus! {

/// The word that is removed from every path segment: `Error`.
pub open spec fn marker() -> Seq<char> {
    seq!['E', 'r', 'r', 'o', 'r']
}

/// `s` with every occurrence of `Error` removed, scanning from the left.
pub open spec fn without_marker(s: Seq<char>) -> Seq<char>
    decreases s.len(),
{
    if s.len() == 0 {
        s
    } else if s.len() >= 5 && s.take(5) == marker() {
        without_marker(s.skip(5))
    } else {
        seq![s[0]] + without_marker(s.skip(1))
    }
}

/// Whether `Error` starts at character `i` of `s`.
fn marker_at(s: &str, i: usize, n: usize) -> (b: bool)
    requires
        n == s@.len(),
        i <= n,
    ensures
        b == (i + 5 <= n && s@.subrange(i as int, i + 5) == marker()),
{
    if n - i < 5 {
        return false;
    }
    let found = s.get_char(i) == 'E' && s.get_char(i + 1) == 'r' && s.get_char(i + 2) == 'r'
        && s.get_char(i + 3) == 'o' && s.get_char(i + 4) == 'r';
    assert(found ==> s@.subrange(i as int, i + 5) =~= marker());
    assert(s@.subrange(i as int, i + 5) == marker() ==> found) by {
        if s@.subrange(i as int, i + 5) == marker() {
            assert(s@.subrange(i as int, i + 5)[0] == 'E');
            assert(s@.subrange(i as int, i + 5)[1] == 'r');
            assert(s@.subrange(i as int, i + 5)[2] == 'r');
            assert(s@.subrange(i as int, i + 5)[3] == 'o');
            assert(s@.subrange(i as int, i + 5)[4] == 'r');
        }
    }
    found
}

/// Removes every occurrence of `Error` from a path segment.
pub fn strip_marker(s: &str) -> (r: String)
    ensures
        r@ == without_marker(s@),
{
    let n = s.unicode_len();
    let mut r = String::new();
    let mut i: usize = 0;
    assert(s@.skip(0) =~= s@);
    assert(r@ + without_marker(s@) =~= without_marker(s@));
    while i < n
        invariant
            n == s@.len(),
            i <= n,
            r@ + without_marker(s@.skip(i as int)) == without_marker(s@),
        decreases n - i,
    {
        let rest = Ghost(s@.skip(i as int));
        if marker_at(s, i, n) {
            assert(rest@.take(5) =~= s@.subrange(i as int, i + 5));
            assert(rest@.skip(5) =~= s@.skip(i + 5));
            i = i + 5;
        } else {
            assert(rest@.len() >= 5 ==> rest@.take(5) =~= s@.subrange(i as int, i + 5));
            assert(rest@.skip(1) =~= s@.skip(i + 1));
            let c = s.substring_char(i, i + 1);
            assert(c@ =~= seq![rest@[0]]);
            let ghost before = r@;
            r.append(c);
            assert(r@ + without_marker(s@.skip(i + 1)) =~= before + (seq![rest@[0]] + without_marker(
                rest@.skip(1),
            )));
            i = i + 1;
        }
    }
    assert(s@.skip(n as int) =~= Seq::<char>::empty());
    assert(r@ =~= r@ + without_marker(s@.skip(n as int)));
    r
}

/// The camel-case form of a text, as heck computes it.
pub uninterp spec fn camel_of(s: Seq<char>) -> Seq<char>;

/// Relies on heck's `CamelCase::to_camel_case` for `str`: the result depends on
/// the text alone.
#[verifier::external_body]
fn camel_case(s: &str) -> (r: String)
    ensures
        r@ == camel_of(s@),
{
    s.to_camel_case()
}

/// The texts of `parts` one after another.
pub open spec fn concat_all(parts: Seq<Seq<char>>) -> Seq<char>
    decreases parts.len(),
{
    if parts.len() == 0 {
        Seq::empty()
    } else {
        concat_all(parts.drop_last()) + parts.last()
    }
}

/// The name that a path segment contributes: camel case, once `Error` is removed.
pub open spec fn segment_name(seg: Seq<char>) -> Seq<char> {
    camel_of(without_marker(seg))
}

/// The variant name derived from a path's segments: the segment names in path
/// order, one after another.
pub open spec fn derived_name(segments: Seq<Seq<char>>) -> Seq<char> {
    concat_all(segments.map_values(|seg: Seq<char>| segment_name(seg)))
}

/// The variant name of an entry: its alias verbatim where it has one, else the
/// name derived from its path.
pub open spec fn variant_name_of(e: EntryModel) -> Seq<char> {
    match e.alias {
        Some(a) => a,
        None => derived_name(e.path.segments),
    }
}

/// The name of the error type of a function: its name in camel case, then `Error`.
pub open spec fn error_name_of(fn_name: Seq<char>) -> Seq<char> {
    camel_of(fn_name) + marker()
}

/// Joins the given texts with nothing between them.
pub fn concat_parts(parts: &Vec<String>) -> (r: String)
    ensures
        r@ == concat_all(parts@.map_values(|p: String| p@)),
{
    let mut r = String::new();
    let mut i: usize = 0;
    while i < parts.len()
        invariant
            i <= parts@.len(),
            r@ == concat_all(parts@.take(i as int).map_values(|p: String| p@)),
        decreases parts@.len() - i,
    {
        assert(parts@.take(i + 1).map_values(|p: String| p@).drop_last() =~= parts@.take(
            i as int,
        ).map_values(|p: String| p@));
        r.append(parts[i].as_str());
        i = i + 1;
    }
    assert(parts@.take(i as int) =~= parts@);
    r
}

/// The variant name derived from a path, ignoring any alias.
pub fn derive_variant_name(path: &ErrorPath) -> (r: String)
    ensures
        r@ == derived_name(path@.segments),
{
    let mut parts: Vec<String> = Vec::new();
    let mut i: usize = 0;
    while i < path.segments.len()
        invariant
            i <= path.segments@.len(),
            parts@.map_values(|p: String| p@) == path@.segments.take(i as int).map_values(
                |seg: Seq<char>| segment_name(seg),
            ),
        decreases path.segments@.len() - i,
    {
        assert(path@.segments[i as int] == path.segments@[i as int]@);
        let cleaned = strip_marker(path.segments[i].as_str());
        let part = camel_case(cleaned.as_str());
        let ghost before = parts@;
        parts.push(part);
        assert(parts@.map_values(|p: String| p@) =~= before.map_values(|p: String| p@).push(
            segment_name(path@.segments[i as int]),
        ));
        assert(path@.segments.take(i + 1).map_values(|seg: Seq<char>| segment_name(seg))
            =~= path@.segments.take(i as int).map_values(|seg: Seq<char>| segment_name(seg)).push(
            segment_name(path@.segments[i as int]),
        ));
        i = i + 1;
    }
    assert(path@.segments.take(i as int) =~= path@.segments);
    concat_parts(&parts)
}

/// The variant name of a declaration entry.
pub fn variant_name(entry: &Entry) -> (r: String)
    ensures
        r@ == variant_name_of(entry@),
{
    match &entry.alias {
        Some(a) => a.clone(),
        None => derive_variant_name(&entry.path),
    }
}

/// Appends `Error` to a name.
pub fn with_error_suffix(name: String) -> (r: String)
    ensures
        r@ == name@ + marker(),
{
    proof {
        reveal_strlit("Error");
    }
    name.concat("Error")
}

/// The name of the error type generated for the function `fn_name`.
pub fn error_type_name(fn_name: &str) -> (r: String)
    ensures
        r@ == error_name_of(fn_name@),
{
    with_error_suffix(camel_case(fn_name))
}

} // verus!
