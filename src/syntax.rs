//! Attribute arguments and the declaration that is extracted from them.

use vstd::prelude::*;

verus! {

/// A qualified path to an error type, such as `std::io::Error`.
pub struct ErrorPath {
    /// Whether the path starts with `::`.
    pub leading_colon: bool,
    /// The path's segments, in order.
    pub segments: Vec<String>,
}

/// What an `ErrorPath` denotes: its leading `::` and the text of its segments.
pub struct PathModel {
    pub leading_colon: bool,
    pub segments: Seq<Seq<char>>,
}

impl View for ErrorPath {
    type V = PathModel;

    open spec fn view(&self) -> PathModel {
        PathModel {
            leading_colon: self.leading_colon,
            segments: self.segments@.map_values(|s: String| s@),
        }
    }
}

impl ErrorPath {
    /// A copy of the path.
    pub fn copy(&self) -> (r: ErrorPath)
        ensures
            r@ == self@,
    {
        let mut segments: Vec<String> = Vec::new();
        let mut i: usize = 0;
        while i < self.segments.len()
            invariant
                i <= self.segments@.len(),
                segments@.map_values(|s: String| s@) == self.segments@.take(i as int).map_values(
                    |s: String| s@,
                ),
            decreases self.segments@.len() - i,
        {
            segments.push(self.segments[i].clone());
            assert(self.segments@.take(i + 1).map_values(|s: String| s@)
                =~= self.segments@.take(i as int).map_values(|s: String| s@).push(
                self.segments@[i as int]@,
            ));
            assert(segments@.map_values(|s: String| s@) =~= self.segments@.take(i as int).map_values(
                |s: String| s@,
            ).push(self.segments@[i as int]@));
            i = i + 1;
        }
        assert(self.segments@.take(i as int) =~= self.segments@);
        ErrorPath { leading_colon: self.leading_colon, segments }
    }
}

/// A literal given as the value of a `path = literal` argument.
pub enum Literal {
    /// A string literal, with its value.
    Str(String),
    /// Any other literal.
    Other,
}

/// One argument of the attribute.
pub enum AttrArg {
    /// A bare path: `std::io::Error`.
    Path(ErrorPath),
    /// A path assigned a literal: `bincode::Error = "Codec"`.
    NameValue(ErrorPath, Literal),
    /// Any other form: a bare literal, a nested list.
    Other,
}

/// One entry of a declaration: a source error type and its optional alias.
pub struct Entry {
    pub path: ErrorPath,
    pub alias: Option<String>,
}

/// What an `Entry` denotes.
pub struct EntryModel {
    pub path: PathModel,
    pub alias: Option<Seq<char>>,
}

impl View for Entry {
    type V = EntryModel;

    open spec fn view(&self) -> EntryModel {
        EntryModel {
            path: self.path@,
            alias: match self.alias {
                Some(a) => Some(a@),
                None => None,
            },
        }
    }
}

/// The entry that an argument contributes, if any: a bare path gives an entry
/// without alias, a path assigned a string literal gives one with that alias,
/// and every other form is dropped.
pub open spec fn entry_of(a: AttrArg) -> Option<EntryModel> {
    match a {
        AttrArg::Path(p) => Some(EntryModel { path: p@, alias: None }),
        AttrArg::NameValue(p, Literal::Str(s)) => Some(EntryModel { path: p@, alias: Some(s@) }),
        _ => None,
    }
}

/// The declaration that a list of arguments gives: the entries of the
/// well-formed arguments, in argument order.
pub open spec fn declaration(args: Seq<AttrArg>) -> Seq<EntryModel>
    decreases args.len(),
{
    if args.len() == 0 {
        Seq::empty()
    } else {
        let front = declaration(args.drop_last());
        match entry_of(args.last()) {
            Some(e) => front.push(e),
            None => front,
        }
    }
}

/// The view of each entry of a declaration.
pub open spec fn entries_view(d: Seq<Entry>) -> Seq<EntryModel> {
    d.map_values(|e: Entry| e@)
}

/// Extracts the declaration from the attribute's arguments.
pub fn extract(args: &Vec<AttrArg>) -> (r: Vec<Entry>)
    ensures
        entries_view(r@) == declaration(args@),
{
    let mut r: Vec<Entry> = Vec::new();
    let mut i: usize = 0;
    while i < args.len()
        invariant
            i <= args@.len(),
            entries_view(r@) == declaration(args@.take(i as int)),
        decreases args@.len() - i,
    {
        assert(args@.take(i + 1).drop_last() =~= args@.take(i as int));
        assert(args@.take(i + 1).last() == args@[i as int]);
        match &args[i] {
            AttrArg::Path(p) => {
                r.push(Entry { path: p.copy(), alias: None });
            },
            AttrArg::NameValue(p, Literal::Str(s)) => {
                r.push(Entry { path: p.copy(), alias: Some(s.clone()) });
            },
            _ => {},
        }
        assert(entries_view(r@) =~= declaration(args@.take(i + 1)));
        i = i + 1;
    }
    assert(args@.take(i as int) =~= args@);
    r
}

} // verus!
