//! The whole expansion of the attribute on one item.

use crate::naming::error_name_of;
use crate::render::{definitions_text, render_return_type, return_type_text};
use crate::synth::{synthesize, ErrorType, FnShape, synthesized};
use crate::syntax::{declaration, extract, AttrArg};
use vstd::prelude::*;

verus! {

/// The item that the attribute is applied to.
pub enum Item {
    /// A function, with its shape.
    Function(FnShape),
    /// Any other item.
    Other,
}

/// Why an expansion cannot be made.
pub enum UsageError {
    /// The attribute was applied to an item that is not a function.
    NotAFunction,
}

/// What the attribute expands to: the synthesized type, its definitions as
/// source text, and the function's new return type as source text. The
/// function is otherwise kept as it was.
pub struct Expansion {
    pub error: ErrorType,
    pub definitions: String,
    pub return_type: String,
}

/// Expands the attribute with arguments `args` on `item`: the error type of a
/// function, or an error for any other item.
pub fn errors(args: &Vec<AttrArg>, item: &Item) -> (r: Result<Expansion, UsageError>)
    ensures
        item is Other ==> r is Err,
        item matches Item::Function(f) ==> {
            &&& r matches Ok(x)
            &&& x.error@ == synthesized(f@, declaration(args@))
            &&& x.definitions@ == definitions_text(synthesized(f@, declaration(args@)))
            &&& x.return_type@ == return_type_text(f@.output, error_name_of(f@.name))
        },
{
    match item {
        Item::Function(f) => {
            let decl = extract(args);
            let error = synthesize(f, &decl);
            let definitions = error.render();
            let return_type = render_return_type(&f.output, error.name.as_str());
            Ok(Expansion { error, definitions, return_type })
        },
        Item::Other => Err(UsageError::NotAFunction),
    }
}

} // verus!
