//! Derives a builder from the declaration of a struct with named fields.
//!
//! A builder collects the values of the fields one at a time, through one
//! setter for each field, and makes the struct once every required field has
//! its value. [`derive`] takes the declaration and returns the text of the
//! builder: the builder type, a function `builder` on the struct that starts a
//! builder, the setters, and the function `build`.
//!
//! Not every declaration has a builder. [`derive`] is for those that have one;
//! [`try_derive`] takes any declaration, tests it, and derives the builder or
//! says what is in the way.
use vstd::prelude::*;
use crate::error::Error;
use crate::expand::{
    builder_constructor, builder_ident, builder_impl, builder_struct, fields_have_setter_types,
    have_setter_types, is_raw_ident, is_raw_name, spec_builder_items,
};
use crate::fields::{get_struct_fields, named_fields};
use crate::syntax::{DeriveInput, DeriveInputView};

pub mod error;
pub mod expand;
pub mod fields;
pub mod syntax;

verus! {

/// What is derived from a declaration: the text of its builder, or the reason
/// why it has none.
pub open spec fn expansion(input: DeriveInputView) -> Result<Seq<char>, Error> {
    if is_raw_ident(input.ident) {
        Err(Error::RawIdent)
    } else {
        match input.data.named_fields() {
            Some(fields) => if have_setter_types(fields) {
                Ok(spec_builder_items(input.ident, fields))
            } else {
                Err(Error::MissingInnerType)
            },
            None => Err(Error::UnsupportedInput),
        }
    }
}

/// A struct with an ordinary name whose fields are all plain or repeated
/// always has a builder.
pub proof fn lemma_no_optional_field_expands(input: DeriveInputView)
    requires
        !is_raw_ident(input.ident),
        input.data.named_fields() is Some,
        forall|i: int|
            0 <= i < input.data.named_fields().unwrap().len()
                ==> !(#[trigger] input.data.named_fields().unwrap()[i]).is_optional(),
    ensures
        expansion(input) is Ok,
{
}

/// Derives the builder of a struct with named fields and returns its text.
///
/// Three kinds of declaration have no builder and are left out: one whose
/// name is a raw identifier; one that is no struct with named fields; and a
/// struct with an optional field whose type does not name, as its first
/// argument, the type that it wraps. [`try_derive`] tells them apart.
pub fn derive(input: DeriveInput) -> (code: String)
    requires
        !is_raw_ident(input@.ident),
        input@.data.named_fields() is Some,
        have_setter_types(input@.data.named_fields().unwrap()),
    ensures
        code@ == spec_builder_items(input@.ident, input@.data.named_fields().unwrap()),
{
    let DeriveInput { ident, data } = input;
    let name = ident.as_str();
    let builder = builder_ident(name);
    let fields = get_struct_fields(data);
    let mut code = builder_struct(builder.as_str(), &fields);
    code.append(" ");
    code.append(builder_constructor(name, builder.as_str(), &fields).as_str());
    code.append(" ");
    code.append(builder_impl(name, builder.as_str(), &fields).as_str());
    code
}

/// Derives the builder of any declaration that has one, and says of every
/// other why it has none.
///
/// A declaration whose name is a raw identifier is turned down with
/// [`Error::RawIdent`]; any other that is no struct with named fields, with
/// [`Error::UnsupportedInput`]; a struct with an optional field whose type
/// does not name, as its first argument, the type that it wraps, with
/// [`Error::MissingInnerType`].
pub fn try_derive(input: DeriveInput) -> (result: Result<String, Error>)
    ensures
        match result {
            Ok(code) => expansion(input@) == Ok::<Seq<char>, Error>(code@),
            Err(e) => expansion(input@) == Err::<Seq<char>, Error>(e),
        },
{
    if is_raw_name(input.ident.as_str()) {
        return Err(Error::RawIdent);
    }
    match named_fields(&input.data) {
        Some(fields) => {
            if !fields_have_setter_types(fields) {
                return Err(Error::MissingInnerType);
            }
        },
        None => {
            return Err(Error::UnsupportedInput);
        },
    }
    Ok(derive(input))
}

} // verus!
