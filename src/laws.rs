//! Laws of the synthesis, stated over the models and proved.

use crate::naming::{derived_name, error_name_of, variant_name_of};
use crate::render::{conversion_text, conversions, display_arm, display_arms};
use crate::synth::{synthesized, variant_of, FnModel, VariantModel};
use crate::syntax::{EntryModel, PathModel};
use vstd::prelude::*;

verus! {

/// The synthesized type has exactly one variant per declaration entry, in
/// declaration order: variant `i` is named after entry `i` and wraps its path.
pub proof fn one_variant_per_entry(f: FnModel, decl: Seq<EntryModel>)
    ensures
        synthesized(f, decl).variants.len() == decl.len(),
        forall|i: int|
            0 <= i < decl.len() ==> #[trigger] synthesized(f, decl).variants[i] == (VariantModel {
                name: variant_name_of(decl[i]),
                source: decl[i].path,
            }),
{
}

/// Without an alias, the variant name depends on the path's segments alone:
/// the same path always gives the same name.
pub proof fn derived_name_is_determined(p: PathModel, q: PathModel)
    requires
        p.segments == q.segments,
    ensures
        variant_name_of((EntryModel { path: p, alias: None })) == variant_name_of(
            (EntryModel { path: q, alias: None }),
        ),
        variant_name_of((EntryModel { path: p, alias: None })) == derived_name(p.segments),
{
}

/// With an alias, the variant name is the alias verbatim, whatever the path.
pub proof fn alias_overrides_path(p: PathModel, alias: Seq<char>)
    ensures
        variant_name_of((EntryModel { path: p, alias: Some(alias) })) == alias,
{
}

/// The display implementation has one arm per variant, in order, and the arm of
/// variant `i` writes the wrapped value's own display: `write!(f, "{}", e)`.
pub proof fn display_is_transparent(f: FnModel, decl: Seq<EntryModel>, i: int)
    requires
        0 <= i < decl.len(),
    ensures
        display_arms(synthesized(f, decl)).len() == decl.len(),
        display_arms(synthesized(f, decl))[i] == display_arm(variant_of(decl[i])),
        display_arm(variant_of(decl[i])) == "Self::"@ + variant_name_of(decl[i])
            + "(ref e) => write!(f, \"{}\", e)"@,
{
}

/// There is one conversion per declaration entry, in order, and conversion `i`
/// takes a value of entry `i`'s type into the variant named after that entry.
pub proof fn conversion_per_entry(f: FnModel, decl: Seq<EntryModel>, i: int)
    requires
        0 <= i < decl.len(),
    ensures
        conversions(synthesized(f, decl)).len() == decl.len(),
        conversions(synthesized(f, decl))[i] == conversion_text(
            error_name_of(f.name),
            (VariantModel { name: variant_name_of(decl[i]), source: decl[i].path }),
        ),
{
}

} // verus!
