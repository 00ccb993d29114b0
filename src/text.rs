//! Joining texts, and the source text of a path.

use crate::syntax::{ErrorPath, PathModel};
use vstd::prelude::*;

verus! {

/// `items` with `sep` between each two neighbours.
pub open spec fn joined(items: Seq<Seq<char>>, sep: Seq<char>) -> Seq<char>
    decreases items.len(),
{
    if items.len() == 0 {
        Seq::empty()
    } else if items.len() == 1 {
        items[0]
    } else {
        joined(items.drop_last(), sep) + sep + items.last()
    }
}

/// The texts of a list of strings.
pub open spec fn texts(items: Seq<String>) -> Seq<Seq<char>> {
    items.map_values(|s: String| s@)
}

/// Joins `items` with `sep` between each two neighbours.
pub fn join(items: &Vec<String>, sep: &str) -> (r: String)
    ensures
        r@ == joined(texts(items@), sep@),
{
    let mut r = String::new();
    let mut i: usize = 0;
    while i < items.len()
        invariant
            i <= items@.len(),
            r@ == joined(texts(items@.take(i as int)), sep@),
        decreases items@.len() - i,
    {
        assert(texts(items@.take(i + 1)).drop_last() =~= texts(items@.take(i as int)));
        if i > 0 {
            r.append(sep);
        } else {
            assert(r@ + items@[0]@ =~= items@[0]@);
        }
        r.append(items[i].as_str());
        i = i + 1;
    }
    assert(items@.take(i as int) =~= items@);
    r
}

/// The source text of a path: `::` where it has a leading one, then its
/// segments separated by `::`.
pub open spec fn path_text(p: PathModel) -> Seq<char> {
    (if p.leading_colon {
        "::"@
    } else {
        Seq::empty()
    }) + joined(p.segments, "::"@)
}

/// Writes a path as source text.
pub fn render_path(p: &ErrorPath) -> (r: String)
    ensures
        r@ == path_text(p@),
{
    let body = join(&p.segments, "::");
    if p.leading_colon {
        String::from_str("::").concat(body.as_str())
    } else {
        assert(Seq::<char>::empty() + body@ =~= body@);
        body
    }
}

} // verus!
