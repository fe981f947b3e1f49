//! Reading a declaration: its named fields, and for each field whether its type
//! is one of the wrappers that the builder treats specially.
//!
//! A type counts as a wrapper by the name of the last segment of its path
//! alone: `Option<T>`, `std::option::Option<T>` and `my::Option` all count as
//! `Option`. The wrapped type is the first argument of that segment.
use vstd::prelude::*;
use crate::syntax::{
    field_views, Data, DataView, Field, FieldView, Fields, FieldsView, GenericArgument,
    GenericArgumentView, PathArguments, PathArgumentsView, PathSegmentView, Type, TypeView,
};

verus! {

impl DataView {
    /// The fields of a struct with named fields; `None` for every other
    /// declaration.
    pub open spec fn named_fields(self) -> Option<Seq<FieldView>> {
        match self {
            DataView::Struct(FieldsView::Named(fields)) => Some(fields),
            _ => None,
        }
    }
}

impl TypeView {
    /// The last segment of a path; `None` for a type that is no path, and for
    /// a path without segments.
    pub open spec fn last_segment(self) -> Option<PathSegmentView> {
        match self {
            TypeView::Path { segments, .. } => if segments.len() > 0 {
                Some(segments.last())
            } else {
                None
            },
            TypeView::Verbatim { .. } => None,
        }
    }

    /// Whether the type is a path whose last segment is named `name`.
    pub open spec fn is_wrapper(self, name: Seq<char>) -> bool {
        match self.last_segment() {
            Some(segment) => segment.ident == name,
            None => false,
        }
    }

    /// The first argument between the angle brackets of the last segment, if
    /// it is a type.
    pub open spec fn inner_type(self) -> Option<TypeView> {
        match self.last_segment() {
            Some(segment) => match segment.arguments {
                PathArgumentsView::AngleBracketed(args) => if args.len() > 0 {
                    match args.first() {
                        GenericArgumentView::Type(inner) => Some(inner),
                        GenericArgumentView::Other => None,
                    }
                } else {
                    None
                },
                _ => None,
            },
            None => None,
        }
    }
}

impl FieldView {
    /// Whether the field's type is an `Option`.
    pub open spec fn is_optional(self) -> bool {
        self.ty.is_wrapper("Option"@)
    }

    /// Whether the field's type is a `Vec`.
    pub open spec fn is_vec(self) -> bool {
        self.ty.is_wrapper("Vec"@)
    }
}

/// No type is an `Option` and a `Vec` at once, so every field is exactly one
/// of optional, repeated and plain.
pub proof fn lemma_optional_is_not_vec(field: FieldView)
    ensures
        !(field.is_optional() && field.is_vec()),
{
    reveal_strlit("Option");
    reveal_strlit("Vec");
    assert("Option"@.len() != "Vec"@.len());
}

/// Looks at a declaration without taking it apart: its named fields if it is
/// a struct with named fields, and `None` for a tuple struct, a unit struct,
/// an enum and a union.
pub fn named_fields(data: &Data) -> (fields: Option<&Vec<Field>>)
    ensures
        match fields {
            Some(fields) => data@.named_fields() == Some(field_views(fields@)),
            None => data@.named_fields() is None,
        },
{
    match data {
        Data::Struct(Fields::Named(fields)) => Some(fields),
        _ => None,
    }
}

/// The named fields of a struct, in declaration order. Only a struct with
/// named fields has them: [`named_fields`] tells whether a declaration is one.
pub fn get_struct_fields(data: Data) -> (fields: Vec<Field>)
    requires
        data@.named_fields() is Some,
    ensures
        data@.named_fields() == Some(field_views(fields@)),
{
    match data {
        Data::Struct(Fields::Named(fields)) => fields,
        _ => unreached(),
    }
}

/// Whether the field's type is an `Option`.
pub fn is_optional_field(field: &Field) -> (optional: bool)
    ensures
        optional == field@.is_optional(),
{
    is_wrapper_field(field, "Option")
}

/// Whether the field's type is a `Vec`.
pub fn is_vec_field(field: &Field) -> (vec: bool)
    ensures
        vec == field@.is_vec(),
{
    is_wrapper_field(field, "Vec")
}

/// Whether the field's type is a path whose last segment is named
/// `wrapper_name`.
pub fn is_wrapper_field(field: &Field, wrapper_name: &str) -> (wrapper: bool)
    ensures
        wrapper == field@.ty.is_wrapper(wrapper_name@),
{
    match &field.ty {
        Type::Path { segments, .. } => {
            if segments.len() > 0 {
                let segment = &segments[segments.len() - 1];
                let name = String::from_str(wrapper_name);
                segment.ident == name
            } else {
                false
            }
        },
        Type::Verbatim { .. } => false,
    }
}

/// The type that a wrapper type wraps: the first argument between the angle
/// brackets of the last segment of its path, if that argument is a type.
pub fn get_inner_type(ty: &Type) -> (inner: Option<&Type>)
    ensures
        match inner {
            Some(inner) => ty@.inner_type() == Some(inner@),
            None => ty@.inner_type() is None,
        },
{
    match ty {
        Type::Path { segments, .. } => {
            if segments.len() > 0 {
                match &segments[segments.len() - 1].arguments {
                    PathArguments::AngleBracketed(args) => {
                        if args.len() > 0 {
                            match &args[0] {
                                GenericArgument::Type(inner) => Some(inner),
                                GenericArgument::Other => None,
                            }
                        } else {
                            None
                        }
                    },
                    _ => None,
                }
            } else {
                None
            }
        },
        Type::Verbatim { .. } => None,
    }
}

} // verus!
