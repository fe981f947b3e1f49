//! The declaration a builder is derived from, reduced to what the derivation
//! reads: the name of the type, its fields, and the shape of each field's type.
//!
//! Every type here is plain data with public fields and no invariant. Its view
//! replaces each `String` by a `Seq<char>` and each `Vec` by a `Seq`.
//!
//! A type is kept twice: as the text that stands in the declaration, which is
//! copied into the builder, and as the shape from which the kind of the field
//! is read. Nothing compares the two.
use vstd::prelude::*;

verus! {

/// One argument between the angle brackets of a path segment.
#[derive(Debug, PartialEq, Eq)]
pub enum GenericArgument {
    /// A type argument: the `T` in `Option<T>`.
    Type(Type),
    /// A lifetime, a constant, a binding or a bound.
    Other,
}

/// What follows the name in a path segment.
#[derive(Debug, PartialEq, Eq)]
pub enum PathArguments {
    /// Nothing: the segment is a bare name.
    Absent,
    /// The `<K, V>` in `HashMap<K, V>`, in the order written.
    AngleBracketed(Vec<GenericArgument>),
    /// The `(A, B) -> C` in `Fn(A, B) -> C`.
    Parenthesized,
}

/// One segment of a path: a name and its arguments.
#[derive(Debug, PartialEq, Eq)]
pub struct PathSegment {
    pub ident: String,
    pub arguments: PathArguments,
}

/// The type of a field.
#[derive(Debug, PartialEq, Eq)]
pub enum Type {
    /// A path such as `std::option::Option<T>`: its source text and its
    /// segments from left to right.
    Path { tokens: String, segments: Vec<PathSegment> },
    /// Any other type (a reference, a tuple, an array, ...): its source text.
    Verbatim { tokens: String },
}

/// A named field of a struct.
#[derive(Debug, PartialEq, Eq)]
pub struct Field {
    pub ident: String,
    pub ty: Type,
}

/// The fields of a struct.
#[derive(Debug, PartialEq, Eq)]
pub enum Fields {
    /// `struct S { a: A, b: B }`, in declaration order.
    Named(Vec<Field>),
    /// `struct S(A, B);`
    Unnamed,
    /// `struct S;`
    Unit,
}

/// The body of the declaration.
#[derive(Debug, PartialEq, Eq)]
pub enum Data {
    Struct(Fields),
    Enum,
    Union,
}

/// A type declaration handed to the derivation.
#[derive(Debug, PartialEq, Eq)]
pub struct DeriveInput {
    pub ident: String,
    pub data: Data,
}

/// The view of a [`GenericArgument`].
pub enum GenericArgumentView {
    Type(TypeView),
    Other,
}

/// The view of [`PathArguments`].
pub enum PathArgumentsView {
    Absent,
    AngleBracketed(Seq<GenericArgumentView>),
    Parenthesized,
}

/// The view of a [`PathSegment`].
pub struct PathSegmentView {
    pub ident: Seq<char>,
    pub arguments: PathArgumentsView,
}

/// The view of a [`Type`].
pub enum TypeView {
    Path { tokens: Seq<char>, segments: Seq<PathSegmentView> },
    Verbatim { tokens: Seq<char> },
}

/// The view of a [`Field`].
pub struct FieldView {
    pub ident: Seq<char>,
    pub ty: TypeView,
}

/// The view of [`Fields`].
pub enum FieldsView {
    Named(Seq<FieldView>),
    Unnamed,
    Unit,
}

/// The view of [`Data`].
pub enum DataView {
    Struct(FieldsView),
    Enum,
    Union,
}

/// The view of a [`DeriveInput`].
pub struct DeriveInputView {
    pub ident: Seq<char>,
    pub data: DataView,
}

impl View for GenericArgument {
    type V = GenericArgumentView;

    open spec fn view(&self) -> GenericArgumentView
        decreases self,
    {
        match self {
            GenericArgument::Type(ty) => GenericArgumentView::Type(ty@),
            GenericArgument::Other => GenericArgumentView::Other,
        }
    }
}

impl View for PathArguments {
    type V = PathArgumentsView;

    open spec fn view(&self) -> PathArgumentsView
        decreases self,
    {
        match self {
            PathArguments::Absent => PathArgumentsView::Absent,
            PathArguments::AngleBracketed(args) => PathArgumentsView::AngleBracketed(
                Seq::new(
                    args.len() as nat,
                    |i: int|
                        if 0 <= i < args.len() {
                            args[i]@
                        } else {
                            arbitrary()
                        },
                ),
            ),
            PathArguments::Parenthesized => PathArgumentsView::Parenthesized,
        }
    }
}

impl View for PathSegment {
    type V = PathSegmentView;

    open spec fn view(&self) -> PathSegmentView
        decreases self,
    {
        PathSegmentView { ident: self.ident@, arguments: self.arguments@ }
    }
}

impl View for Type {
    type V = TypeView;

    open spec fn view(&self) -> TypeView
        decreases self,
    {
        match self {
            Type::Path { tokens, segments } => TypeView::Path {
                tokens: tokens@,
                segments: Seq::new(
                    segments.len() as nat,
                    |i: int|
                        if 0 <= i < segments.len() {
                            segments[i]@
                        } else {
                            arbitrary()
                        },
                ),
            },
            Type::Verbatim { tokens } => TypeView::Verbatim { tokens: tokens@ },
        }
    }
}

impl View for Field {
    type V = FieldView;

    open spec fn view(&self) -> FieldView {
        FieldView { ident: self.ident@, ty: self.ty@ }
    }
}

/// The views of a list of fields, in the same order.
pub open spec fn field_views(fields: Seq<Field>) -> Seq<FieldView> {
    fields.map_values(|field: Field| field@)
}

impl View for Fields {
    type V = FieldsView;

    open spec fn view(&self) -> FieldsView {
        match self {
            Fields::Named(fields) => FieldsView::Named(field_views(fields@)),
            Fields::Unnamed => FieldsView::Unnamed,
            Fields::Unit => FieldsView::Unit,
        }
    }
}

impl View for Data {
    type V = DataView;

    open spec fn view(&self) -> DataView {
        match self {
            Data::Struct(fields) => DataView::Struct(fields@),
            Data::Enum => DataView::Enum,
            Data::Union => DataView::Union,
        }
    }
}

impl View for DeriveInput {
    type V = DeriveInputView;

    open spec fn view(&self) -> DeriveInputView {
        DeriveInputView { ident: self.ident@, data: self.data@ }
    }
}

impl Type {
    /// The source text of the type.
    pub fn tokens(&self) -> (tokens: &String)
        ensures
            tokens@ == self@.tokens(),
    {
        match self {
            Type::Path { tokens, .. } => tokens,
            Type::Verbatim { tokens } => tokens,
        }
    }
}

impl TypeView {
    /// The source text of the type.
    pub open spec fn tokens(self) -> Seq<char> {
        match self {
            TypeView::Path { tokens, .. } => tokens,
            TypeView::Verbatim { tokens } => tokens,
        }
    }
}

} // verus!
