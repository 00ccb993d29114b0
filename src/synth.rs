//! The synthesized error type: its model, and its source text.

use crate::naming::{error_name_of, error_type_name, variant_name, variant_name_of};
use crate::syntax::{entries_view, Entry, EntryModel, ErrorPath, PathModel};
use crate::text::{join, joined, path_text, render_path, texts};
use vstd::prelude::*;

verus! {

/// The shape of the annotated function, as far as synthesis reads it.
pub struct FnShape {
    /// The function's name.
    pub name: String,
    /// The source text of its visibility; empty where it has none.
    pub vis: String,
    /// The source text of its declared return type; `None` where it declares none.
    pub output: Option<String>,
}

/// What an `FnShape` denotes.
pub struct FnModel {
    pub name: Seq<char>,
    pub vis: Seq<char>,
    pub output: Option<Seq<char>>,
}

impl View for FnShape {
    type V = FnModel;

    open spec fn view(&self) -> FnModel {
        FnModel {
            name: self.name@,
            vis: self.vis@,
            output: match self.output {
                Some(o) => Some(o@),
                None => None,
            },
        }
    }
}

/// One variant of the synthesized type: its name and the error type it wraps.
pub struct Variant {
    pub name: String,
    pub source: ErrorPath,
}

/// What a `Variant` denotes.
pub struct VariantModel {
    pub name: Seq<char>,
    pub source: PathModel,
}

impl View for Variant {
    type V = VariantModel;

    open spec fn view(&self) -> VariantModel {
        VariantModel { name: self.name@, source: self.source@ }
    }
}

/// The synthesized error type.
pub struct ErrorType {
    /// The type's name.
    pub name: String,
    /// The source text of its visibility.
    pub vis: String,
    /// Its documentation.
    pub doc: String,
    /// Its variants, in declaration order.
    pub variants: Vec<Variant>,
}

/// What an `ErrorType` denotes.
pub struct ErrorTypeModel {
    pub name: Seq<char>,
    pub vis: Seq<char>,
    pub doc: Seq<char>,
    pub variants: Seq<VariantModel>,
}

impl View for ErrorType {
    type V = ErrorTypeModel;

    open spec fn view(&self) -> ErrorTypeModel {
        ErrorTypeModel {
            name: self.name@,
            vis: self.vis@,
            doc: self.doc@,
            variants: self.variants@.map_values(|v: Variant| v@),
        }
    }
}

/// The documentation of the error type of the function `fn_name`.
pub open spec fn doc_of(fn_name: Seq<char>) -> Seq<char> {
    "The [error](std::error::Error) returned by [`"@ + fn_name + "`]"@
}

/// The variant that a declaration entry gives.
pub open spec fn variant_of(e: EntryModel) -> VariantModel {
    VariantModel { name: variant_name_of(e), source: e.path }
}

/// The error type synthesized for a function from a declaration: named after
/// the function, with its visibility, and one variant per entry, in order.
pub open spec fn synthesized(f: FnModel, decl: Seq<EntryModel>) -> ErrorTypeModel {
    ErrorTypeModel {
        name: error_name_of(f.name),
        vis: f.vis,
        doc: doc_of(f.name),
        variants: decl.map_values(|e: EntryModel| variant_of(e)),
    }
}

/// Synthesizes the error type of the function `f` from the declaration `decl`.
pub fn synthesize(f: &FnShape, decl: &Vec<Entry>) -> (r: ErrorType)
    ensures
        r@ == synthesized(f@, entries_view(decl@)),
{
    let mut variants: Vec<Variant> = Vec::new();
    let mut i: usize = 0;
    while i < decl.len()
        invariant
            i <= decl@.len(),
            variants@.map_values(|v: Variant| v@) == entries_view(decl@.take(i as int)).map_values(
                |e: EntryModel| variant_of(e),
            ),
        decreases decl@.len() - i,
    {
        let v = Variant { name: variant_name(&decl[i]), source: decl[i].path.copy() };
        let ghost before = variants@;
        variants.push(v);
        assert(variants@.map_values(|v: Variant| v@) =~= before.map_values(|v: Variant| v@).push(
            variant_of(decl@[i as int]@),
        ));
        assert(entries_view(decl@.take(i + 1)).map_values(|e: EntryModel| variant_of(e))
            =~= entries_view(decl@.take(i as int)).map_values(|e: EntryModel| variant_of(e)).push(
            variant_of(decl@[i as int]@),
        ));
        i = i + 1;
    }
    assert(decl@.take(i as int) =~= decl@);
    let doc = String::from_str("The [error](std::error::Error) returned by [`").concat(
        f.name.as_str(),
    ).concat("`]");
    ErrorType { name: error_type_name(f.name.as_str()), vis: f.vis.clone(), doc, variants }
}

} // verus!
