//! The source text of the synthesized definitions and of the new return type.

use crate::naming::concat_all;
use crate::synth::{ErrorType, ErrorTypeModel, Variant, VariantModel};
use crate::text::{join, joined, path_text, render_path, texts};
use vstd::prelude::*;

verus! {

/// The visibility followed by a space, or nothing where there is none.
pub open spec fn vis_prefix(vis: Seq<char>) -> Seq<char> {
    if vis.len() == 0 {
        vis
    } else {
        vis + " "@
    }
}

/// A variant as it stands in the type's declaration: `Name(Source)`.
pub open spec fn variant_item(v: VariantModel) -> Seq<char> {
    v.name + "("@ + path_text(v.source) + ")"@
}

/// The declaration of the type: its documentation, `Debug`, and its variants.
pub open spec fn enum_text(t: ErrorTypeModel) -> Seq<char> {
    "#[doc = \""@ + t.doc + "\"]\n#[derive(Debug)]\n"@ + vis_prefix(t.vis) + "enum "@ + t.name
        + " {\n"@ + joined(t.variants.map_values(|v: VariantModel| variant_item(v)), ",\n"@)
        + "\n}\n"@
}

/// The match arm that displays a variant: it writes the wrapped value's own
/// display and nothing else.
pub open spec fn display_arm(v: VariantModel) -> Seq<char> {
    "Self::"@ + v.name + "(ref e) => write!(f, \"{}\", e)"@
}

/// The arms of the display implementation, one per variant, in order.
pub open spec fn display_arms(t: ErrorTypeModel) -> Seq<Seq<char>> {
    t.variants.map_values(|v: VariantModel| display_arm(v))
}

/// The display implementation of the type. It matches on `*self`, so that the
/// match stays well-formed for a type without variants.
pub open spec fn display_text(t: ErrorTypeModel) -> Seq<char> {
    "#[automatically_derived]\nimpl core::fmt::Display for "@ + t.name
        + " {\nfn fmt(&self, f: &mut core::fmt::Formatter<'_>) -> core::fmt::Result {\nmatch *self {\n"@
        + joined(display_arms(t), ",\n"@) + "\n}\n}\n}\n"@
}

/// The conversion from a variant's source type into the type named `name`,
/// which wraps the value in that variant.
pub open spec fn conversion_text(name: Seq<char>, v: VariantModel) -> Seq<char> {
    "#[automatically_derived]\nimpl std::convert::From<"@ + path_text(v.source) + "> for "@ + name
        + " {\nfn from(e: "@ + path_text(v.source) + ") -> Self {\nSelf::"@ + v.name
        + "(e)\n}\n}\n"@
}

/// The conversions of the type, one per variant, in order.
pub open spec fn conversions(t: ErrorTypeModel) -> Seq<Seq<char>> {
    t.variants.map_values(|v: VariantModel| conversion_text(t.name, v))
}

/// The implementation that marks the type named `name` as a standard error.
pub open spec fn marker_impl_text(name: Seq<char>) -> Seq<char> {
    "#[automatically_derived]\nimpl std::error::Error for "@ + name + " {}\n"@
}

/// All the definitions generated for the type.
pub open spec fn definitions_text(t: ErrorTypeModel) -> Seq<char> {
    enum_text(t) + display_text(t) + concat_all(conversions(t)) + marker_impl_text(t.name)
}

/// The new return type: a `Result` of the declared return type, or of `()` where
/// none is declared, and of the type named `error_name`.
pub open spec fn return_type_text(output: Option<Seq<char>>, error_name: Seq<char>) -> Seq<char> {
    "std::result::Result<"@ + match output {
        Some(o) => o,
        None => "()"@,
    } + ", "@ + error_name + ">"@
}

/// Writes the type's declaration.
pub fn render_enum(t: &ErrorType) -> (r: String)
    ensures
        r@ == enum_text(t@),
{
    let mut items: Vec<String> = Vec::new();
    let mut i: usize = 0;
    while i < t.variants.len()
        invariant
            i <= t.variants@.len(),
            texts(items@) == t@.variants.take(i as int).map_values(|v: VariantModel| variant_item(v)),
        decreases t.variants@.len() - i,
    {
        let v: &Variant = &t.variants[i];
        let item = v.name.clone().concat("(").concat(render_path(&v.source).as_str()).concat(")");
        let ghost before = items@;
        items.push(item);
        assert(texts(items@) =~= texts(before).push(variant_item(t@.variants[i as int])));
        assert(t@.variants.take(i + 1).map_values(|v: VariantModel| variant_item(v))
            =~= t@.variants.take(i as int).map_values(|v: VariantModel| variant_item(v)).push(
            variant_item(t@.variants[i as int]),
        ));
        i = i + 1;
    }
    assert(t@.variants.take(i as int) =~= t@.variants);
    let body = join(&items, ",\n");
    let mut r = String::from_str("#[doc = \"").concat(t.doc.as_str()).concat(
        "\"]\n#[derive(Debug)]\n",
    );
    if t.vis.unicode_len() > 0 {
        r.append(t.vis.as_str());
        r.append(" ");
    }
    r.append("enum ");
    r.append(t.name.as_str());
    r.append(" {\n");
    r.append(body.as_str());
    r.append("\n}\n");
    r
}

/// Writes the type's display implementation.
pub fn render_display(t: &ErrorType) -> (r: String)
    ensures
        r@ == display_text(t@),
{
    let mut arms: Vec<String> = Vec::new();
    let mut i: usize = 0;
    while i < t.variants.len()
        invariant
            i <= t.variants@.len(),
            texts(arms@) == display_arms(t@).take(i as int),
        decreases t.variants@.len() - i,
    {
        let arm = String::from_str("Self::").concat(t.variants[i].name.as_str()).concat(
            "(ref e) => write!(f, \"{}\", e)",
        );
        let ghost before = arms@;
        arms.push(arm);
        assert(texts(arms@) =~= texts(before).push(display_arm(t@.variants[i as int])));
        assert(display_arms(t@).take(i + 1) =~= display_arms(t@).take(i as int).push(
            display_arm(t@.variants[i as int]),
        ));
        i = i + 1;
    }
    assert(display_arms(t@).take(i as int) =~= display_arms(t@));
    let body = join(&arms, ",\n");
    String::from_str("#[automatically_derived]\nimpl core::fmt::Display for ").concat(
        t.name.as_str(),
    ).concat(
        " {\nfn fmt(&self, f: &mut core::fmt::Formatter<'_>) -> core::fmt::Result {\nmatch *self {\n",
    ).concat(body.as_str()).concat("\n}\n}\n}\n")
}

/// Writes the conversion from a variant's source type into the type named `name`.
pub fn render_conversion(name: &str, v: &Variant) -> (r: String)
    ensures
        r@ == conversion_text(name@, v@),
{
    let source = render_path(&v.source);
    String::from_str("#[automatically_derived]\nimpl std::convert::From<").concat(
        source.as_str(),
    ).concat("> for ").concat(name).concat(" {\nfn from(e: ").concat(source.as_str()).concat(
        ") -> Self {\nSelf::",
    ).concat(v.name.as_str()).concat("(e)\n}\n}\n")
}

/// Writes the conversions of the type, one per variant, in order.
pub fn render_conversions(t: &ErrorType) -> (r: String)
    ensures
        r@ == concat_all(conversions(t@)),
{
    let mut r = String::new();
    let mut i: usize = 0;
    while i < t.variants.len()
        invariant
            i <= t.variants@.len(),
            r@ == concat_all(conversions(t@).take(i as int)),
        decreases t.variants@.len() - i,
    {
        assert(conversions(t@).take(i + 1).drop_last() =~= conversions(t@).take(i as int));
        let c = render_conversion(t.name.as_str(), &t.variants[i]);
        r.append(c.as_str());
        i = i + 1;
    }
    assert(conversions(t@).take(i as int) =~= conversions(t@));
    r
}

/// Writes the implementation that marks the type named `name` as a standard error.
pub fn render_marker_impl(name: &str) -> (r: String)
    ensures
        r@ == marker_impl_text(name@),
{
    String::from_str("#[automatically_derived]\nimpl std::error::Error for ").concat(name).concat(
        " {}\n",
    )
}

impl ErrorType {
    /// Writes all the definitions generated for the type.
    pub fn render(&self) -> (r: String)
        ensures
            r@ == definitions_text(self@),
    {
        render_enum(self).concat(render_display(self).as_str()).concat(
            render_conversions(self).as_str(),
        ).concat(render_marker_impl(self.name.as_str()).as_str())
    }
}

/// Writes the new return type of a function whose declared return type is
/// `output` and whose error type is named `error_name`.
pub fn render_return_type(output: &Option<String>, error_name: &str) -> (r: String)
    ensures
        r@ == return_type_text(
            match output {
                Some(o) => Some(o@),
                None => None,
            },
            error_name@,
        ),
{
    let r = String::from_str("std::result::Result<");
    let r = match output {
        Some(o) => r.concat(o.as_str()),
        None => r.concat("()"),
    };
    r.concat(", ").concat(error_name).concat(">")
}

} // verus!
