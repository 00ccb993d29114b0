use erro_rs::expand::{errors, Expansion, Item, UsageError};
use erro_rs::naming::{derive_variant_name, error_type_name, strip_marker, variant_name};
use erro_rs::render::{render_conversion, render_display, render_enum, render_marker_impl, render_return_type};
use erro_rs::syntax::{extract, AttrArg, Entry, ErrorPath, Literal};
use erro_rs::synth::{synthesize, FnShape, Variant};
use erro_rs::text::{join, render_path};

fn path(text: &str) -> ErrorPath {
    let (leading_colon, rest) = match text.strip_prefix("::") {
        Some(rest) => (true, rest),
        None => (false, text),
    };
    ErrorPath { leading_colon, segments: rest.split("::").map(|s| s.to_string()).collect() }
}

fn bare(text: &str) -> AttrArg {
    AttrArg::Path(path(text))
}

fn aliased(text: &str, alias: &str) -> AttrArg {
    AttrArg::NameValue(path(text), Literal::Str(alias.to_string()))
}

fn function(name: &str, vis: &str, output: Option<&str>) -> Item {
    Item::Function(FnShape {
        name: name.to_string(),
        vis: vis.to_string(),
        output: output.map(|o| o.to_string()),
    })
}

fn expand(args: Vec<AttrArg>, item: Item) -> Expansion {
    match errors(&args, &item) {
        Ok(x) => x,
        Err(UsageError::NotAFunction) => panic!("expected an expansion"),
    }
}

fn names(x: &Expansion) -> Vec<String> {
    x.error.variants.iter().map(|v| v.name.clone()).collect()
}

fn sources(x: &Expansion) -> Vec<String> {
    x.error.variants.iter().map(|v| render_path(&v.source)).collect()
}

#[test]
fn read_int_gets_one_variant_per_source() {
    let x = expand(
        vec![bare("std::io::Error"), bare("std::num::ParseIntError")],
        function("read_int", "", Some("i128")),
    );
    assert_eq!(x.error.name, "ReadIntError");
    assert_eq!(names(&x), vec!["StdIo", "StdNumParseInt"]);
    assert_eq!(sources(&x), vec!["std::io::Error", "std::num::ParseIntError"]);
    assert_eq!(x.return_type, "std::result::Result<i128, ReadIntError>");
    assert!(x.definitions.contains("enum ReadIntError {\nStdIo(std::io::Error),\nStdNumParseInt(std::num::ParseIntError)\n}"));
}

#[test]
fn alias_names_the_variant() {
    let x = expand(vec![aliased("bincode::Error", "Codec")], function("load", "", None));
    assert_eq!(x.error.name, "LoadError");
    assert_eq!(names(&x), vec!["Codec"]);
    assert_eq!(sources(&x), vec!["bincode::Error"]);
    assert!(x.definitions.contains("Codec(bincode::Error)"));
}

#[test]
fn empty_arguments_give_a_type_without_variants() {
    let x = expand(vec![], function("empty", "", None));
    assert_eq!(x.error.name, "EmptyError");
    assert!(x.error.variants.is_empty());
    assert_eq!(x.return_type, "std::result::Result<(), EmptyError>");
    assert!(x.definitions.contains("enum EmptyError {\n\n}"));
    assert!(x.definitions.contains("impl std::error::Error for EmptyError {}"));
}

#[test]
fn malformed_arguments_are_dropped() {
    let x = expand(
        vec![AttrArg::Other, AttrArg::NameValue(path("std::io::Error"), Literal::Other)],
        function("empty", "", Some("u8")),
    );
    assert!(x.error.variants.is_empty());
    assert_eq!(x.return_type, "std::result::Result<u8, EmptyError>");
}

#[test]
fn malformed_arguments_among_good_ones_keep_the_order() {
    let x = expand(
        vec![
            AttrArg::Other,
            bare("std::fmt::Error"),
            AttrArg::NameValue(path("a::Error"), Literal::Other),
            aliased("bincode::Error", "Codec"),
        ],
        function("save", "", None),
    );
    assert_eq!(names(&x), vec!["StdFmt", "Codec"]);
    assert_eq!(sources(&x), vec!["std::fmt::Error", "bincode::Error"]);
}

#[test]
fn non_function_item_is_refused() {
    let r = errors(&vec![bare("std::io::Error")], &Item::Other);
    assert!(matches!(r, Err(UsageError::NotAFunction)));
}

#[test]
fn extract_keeps_duplicates_in_order() {
    let d = extract(&vec![bare("std::io::Error"), bare("std::io::Error"), aliased("x::Error", "X")]);
    assert_eq!(d.len(), 3);
    assert_eq!(d[0].path.segments, vec!["std", "io", "Error"]);
    assert!(d[0].alias.is_none());
    assert_eq!(d[1].path.segments, vec!["std", "io", "Error"]);
    assert_eq!(d[2].alias.as_deref(), Some("X"));
}

#[test]
fn duplicate_paths_give_duplicate_variants() {
    let x = expand(vec![bare("std::io::Error"), bare("std::io::Error")], function("f", "", None));
    assert_eq!(names(&x), vec!["StdIo", "StdIo"]);
}

#[test]
fn strip_marker_removes_every_occurrence() {
    assert_eq!(strip_marker("ParseIntError"), "ParseInt");
    assert_eq!(strip_marker("Error"), "");
    assert_eq!(strip_marker("ErrorError"), "");
    assert_eq!(strip_marker("MyErrorKindError"), "MyKind");
    assert_eq!(strip_marker("EErrorrror"), "Error");
    assert_eq!(strip_marker("Erro"), "Erro");
    assert_eq!(strip_marker("io"), "io");
    assert_eq!(strip_marker(""), "");
}

#[test]
fn derived_names_follow_the_path() {
    assert_eq!(derive_variant_name(&path("std::io::Error")), "StdIo");
    assert_eq!(derive_variant_name(&path("bincode::Error")), "Bincode");
    assert_eq!(derive_variant_name(&path("std::num::ParseIntError")), "StdNumParseInt");
    assert_eq!(derive_variant_name(&path("io::Error")), "Io");
    assert_eq!(derive_variant_name(&path("::serde_json::Error")), "SerdeJson");
}

#[test]
fn derived_name_is_the_same_on_every_call() {
    let p = path("std::num::TryFromIntError");
    let first = derive_variant_name(&p);
    let second = derive_variant_name(&p.copy());
    assert_eq!(first, "StdNumTryFromInt");
    assert_eq!(first, second);
}

#[test]
fn alias_is_taken_verbatim() {
    let e = Entry { path: path("std::io::Error"), alias: Some("io_failure Error".to_string()) };
    assert_eq!(variant_name(&e), "io_failure Error");
    let e = Entry { path: path("std::io::Error"), alias: None };
    assert_eq!(variant_name(&e), "StdIo");
}

#[test]
fn type_name_is_camel_case_of_the_function() {
    assert_eq!(error_type_name("read_int"), "ReadIntError");
    assert_eq!(error_type_name("load"), "LoadError");
    assert_eq!(error_type_name("parse_HTTP_header"), "ParseHttpHeaderError");
}

#[test]
fn visibility_is_carried_to_the_type() {
    let x = expand(vec![bare("std::io::Error")], function("open", "pub (crate)", None));
    assert_eq!(x.error.vis, "pub (crate)");
    assert!(x.definitions.contains("pub (crate) enum OpenError {"));
    let y = expand(vec![bare("std::io::Error")], function("open", "", None));
    assert!(y.definitions.contains("\nenum OpenError {"));
}

#[test]
fn display_forwards_to_the_payload() {
    let x = expand(
        vec![bare("std::io::Error"), bare("std::num::ParseIntError")],
        function("read_int", "", Some("i128")),
    );
    let display = render_display(&x.error);
    assert!(display.starts_with("#[automatically_derived]\nimpl core::fmt::Display for ReadIntError {"));
    assert!(display.contains(
        "match *self {\nSelf::StdIo(ref e) => write!(f, \"{}\", e),\nSelf::StdNumParseInt(ref e) => write!(f, \"{}\", e)\n}"
    ));
    assert!(x.definitions.contains(&display));
}

#[test]
fn one_conversion_per_variant() {
    let x = expand(
        vec![bare("std::io::Error"), aliased("::bincode::Error", "Codec")],
        function("load", "", None),
    );
    assert_eq!(x.definitions.matches("impl std::convert::From<").count(), 2);
    let first = render_conversion(&x.error.name, &x.error.variants[0]);
    assert_eq!(
        first,
        "#[automatically_derived]\nimpl std::convert::From<std::io::Error> for LoadError {\nfn from(e: std::io::Error) -> Self {\nSelf::StdIo(e)\n}\n}\n"
    );
    assert!(x.definitions.contains("impl std::convert::From<::bincode::Error> for LoadError {\nfn from(e: ::bincode::Error) -> Self {\nSelf::Codec(e)"));
}

#[test]
fn marker_impl_names_the_type() {
    assert_eq!(render_marker_impl("LoadError"), "#[automatically_derived]\nimpl std::error::Error for LoadError {}\n");
}

#[test]
fn return_type_wraps_the_declared_one() {
    assert_eq!(render_return_type(&Some("Vec<u8>".to_string()), "LoadError"), "std::result::Result<Vec<u8>, LoadError>");
    assert_eq!(render_return_type(&None, "LoadError"), "std::result::Result<(), LoadError>");
}

#[test]
fn enum_text_holds_doc_and_derive() {
    let f = FnShape { name: "load".to_string(), vis: "pub".to_string(), output: None };
    let d = extract(&vec![aliased("bincode::Error", "Codec")]);
    let t = synthesize(&f, &d);
    assert_eq!(t.doc, "The [error](std::error::Error) returned by [`load`]");
    assert_eq!(
        render_enum(&t),
        "#[doc = \"The [error](std::error::Error) returned by [`load`]\"]\n#[derive(Debug)]\npub enum LoadError {\nCodec(bincode::Error)\n}\n"
    );
}

#[test]
fn definitions_come_in_order() {
    let x = expand(vec![bare("std::io::Error")], function("read", "", None));
    let e = x.definitions.find("enum ReadError").unwrap();
    let d = x.definitions.find("impl core::fmt::Display").unwrap();
    let c = x.definitions.find("impl std::convert::From").unwrap();
    let m = x.definitions.find("impl std::error::Error").unwrap();
    assert!(e < d && d < c && c < m);
    assert!(x.definitions.ends_with("impl std::error::Error for ReadError {}\n"));
}

#[test]
fn paths_and_joins_render_as_text() {
    assert_eq!(render_path(&path("::std::io::Error")), "::std::io::Error");
    assert_eq!(render_path(&path("Error")), "Error");
    assert_eq!(join(&vec!["a".to_string(), "b".to_string(), "c".to_string()], ", "), "a, b, c");
    assert_eq!(join(&vec![], ", "), "");
    let v = Variant { name: "Io".to_string(), source: path("io::Error") };
    assert_eq!(render_conversion("E", &v).matches("io::Error").count(), 2);
}
