//! The text of a builder.
//!
//! For a struct `S` with named fields the builder is three items: the struct
//! `SBuilder`, which holds one slot for each field; an `impl S` with the
//! function `builder`, which returns a builder with every slot empty; and an
//! `impl SBuilder` with one setter for each field and the function `build`.
//!
//! A field is optional if its type is an `Option`, repeated if its type is a
//! `Vec`, and plain otherwise. A plain field `f: T` gets a slot `Option<T>`
//! that starts as `None`, a setter that takes a `T`, and `build` fails while
//! the slot is empty. An optional field `f: Option<T>` keeps its type as its
//! slot, starts as `None`, and its setter takes a `T`. A repeated field
//! `f: Vec<T>` keeps its type as its slot, starts as an empty vector, and its
//! setter takes the whole vector.
//!
//! The text is a sequence of tokens with one space between two tokens; a group
//! in round or square brackets has no space inside its brackets. The names and
//! types of the declaration are copied into it as they are.
use vstd::prelude::*;
use crate::fields::{
    get_inner_type, is_optional_field, is_vec_field, lemma_optional_is_not_vec,
};
use crate::syntax::{field_views, Field, FieldView};

verus! {

/// Whether `name` is written as a raw identifier: `r#` and a name.
pub open spec fn is_raw_ident(name: Seq<char>) -> bool {
    name.len() >= 2 && name[0] == 'r' && name[1] == '#'
}

/// The name of the builder of the struct `name`.
pub open spec fn spec_builder_ident(name: Seq<char>) -> Seq<char>
    recommends
        !is_raw_ident(name),
{
    name + "Builder"@
}

/// The slot that the builder holds for `field`.
pub open spec fn spec_wrapped_field(field: FieldView) -> Seq<char> {
    if field.is_optional() || field.is_vec() {
        field.ident + " : "@ + field.ty.tokens() + " , "@
    } else {
        field.ident + " : Option < "@ + field.ty.tokens() + " > , "@
    }
}

/// The value of the slot for `field` in a new builder.
pub open spec fn spec_empty_field_value(field: FieldView) -> Seq<char> {
    if field.is_vec() {
        field.ident + " : vec ! [] , "@
    } else {
        field.ident + " : None , "@
    }
}

/// Whether the setter for `field` has a parameter type. Only an optional
/// field can lack one: its setter takes the type that the `Option` wraps.
pub open spec fn has_setter_type(field: FieldView) -> bool {
    field.is_optional() ==> field.ty.inner_type() is Some
}

/// The parameter type of the setter for `field`.
pub open spec fn spec_setter_type(field: FieldView) -> Seq<char>
    recommends
        has_setter_type(field),
{
    if field.is_optional() {
        field.ty.inner_type().unwrap().tokens()
    } else {
        field.ty.tokens()
    }
}

/// The setter for `field`.
pub open spec fn spec_build_method(field: FieldView) -> Seq<char>
    recommends
        has_setter_type(field),
{
    if field.is_vec() {
        "fn "@ + field.ident + " (& mut self , "@ + field.ident + " : "@ + spec_setter_type(field)
            + ") -> & mut Self { self . "@ + field.ident + " = "@ + field.ident + " ; self } "@
    } else {
        "fn "@ + field.ident + " (& mut self , "@ + field.ident + " : "@ + spec_setter_type(field)
            + ") -> & mut Self { self . "@ + field.ident + " = Some ("@ + field.ident
            + ") ; self } "@
    }
}

/// What `build` gives the field `field` of the struct.
pub open spec fn spec_build_arg(field: FieldView) -> Seq<char> {
    if field.is_optional() || field.is_vec() {
        field.ident + " : self . "@ + field.ident + " . clone () , "@
    } else {
        field.ident + " : self . "@ + field.ident
            + " . clone () . ok_or (concat ! (stringify ! ("@ + field.ident
            + ") , \" is required\")) ? , "@
    }
}

/// The slots of the builder, in the order of the fields.
pub open spec fn spec_wrapped_fields(fields: Seq<FieldView>) -> Seq<char> {
    fields.flat_map(|field: FieldView| spec_wrapped_field(field))
}

/// The values of the slots in a new builder, in the order of the fields.
pub open spec fn spec_empty_field_values(fields: Seq<FieldView>) -> Seq<char> {
    fields.flat_map(|field: FieldView| spec_empty_field_value(field))
}

/// Whether every setter has a parameter type.
pub open spec fn have_setter_types(fields: Seq<FieldView>) -> bool {
    forall|i: int| 0 <= i < fields.len() ==> has_setter_type(#[trigger] fields[i])
}

/// The setters, in the order of the fields.
pub open spec fn spec_build_methods(fields: Seq<FieldView>) -> Seq<char>
    recommends
        have_setter_types(fields),
{
    fields.flat_map(|field: FieldView| spec_build_method(field))
}

/// What `build` gives the fields of the struct, in their order.
pub open spec fn spec_build_args(fields: Seq<FieldView>) -> Seq<char> {
    fields.flat_map(|field: FieldView| spec_build_arg(field))
}

/// The struct `builder` with a slot for each of `fields`.
pub open spec fn spec_builder_struct(builder: Seq<char>, fields: Seq<FieldView>) -> Seq<char> {
    "struct "@ + builder + " { "@ + spec_wrapped_fields(fields) + "}"@
}

/// The `impl` that gives the struct `name` its function `builder`.
pub open spec fn spec_builder_constructor(
    name: Seq<char>,
    builder: Seq<char>,
    fields: Seq<FieldView>,
) -> Seq<char> {
    "impl "@ + name + " { pub fn builder () -> "@ + builder + " { "@ + builder + " { "@
        + spec_empty_field_values(fields) + "} } }"@
}

/// The `impl` of `builder` with the setters and the function `build`.
pub open spec fn spec_builder_impl(
    name: Seq<char>,
    builder: Seq<char>,
    fields: Seq<FieldView>,
) -> Seq<char>
    recommends
        have_setter_types(fields),
{
    "impl "@ + builder + " { "@ + spec_build_methods(fields)
        + "pub fn build (& mut self) -> Result < "@ + name
        + " , Box < dyn std :: error :: Error >> { Ok ("@ + name + " { "@ + spec_build_args(fields)
        + "}) } }"@
}

/// The three items of the builder of the struct `name` with the fields
/// `fields`.
pub open spec fn spec_builder_items(name: Seq<char>, fields: Seq<FieldView>) -> Seq<char>
    recommends
        !is_raw_ident(name),
        have_setter_types(fields),
{
    let builder = spec_builder_ident(name);
    spec_builder_struct(builder, fields) + " "@ + spec_builder_constructor(name, builder, fields)
        + " "@ + spec_builder_impl(name, builder, fields)
}

proof fn lemma_flat_map_step(
    fields: Seq<Field>,
    i: int,
    piece: spec_fn(FieldView) -> Seq<char>,
)
    requires
        0 <= i < fields.len(),
    ensures
        field_views(fields.take(i + 1)).flat_map(piece) == field_views(fields.take(i)).flat_map(
            piece,
        ) + piece(fields[i]@),
{
    let before = field_views(fields.take(i)).map_values(piece);
    let after = field_views(fields.take(i + 1)).map_values(piece);
    assert(after =~= before.push(piece(fields[i]@)));
    before.lemma_flatten_push(piece(fields[i]@));
}

/// Whether `name` is written as a raw identifier.
pub fn is_raw_name(name: &str) -> (raw: bool)
    ensures
        raw == is_raw_ident(name@),
{
    name.unicode_len() >= 2 && name.get_char(0) == 'r' && name.get_char(1) == '#'
}

/// Names the builder of the struct `name`: the name followed by `Builder`.
/// A raw identifier has no such name: what follows `r#` is one name, and
/// letters added to it do not make another.
pub fn builder_ident(name: &str) -> (builder: String)
    requires
        !is_raw_ident(name@),
    ensures
        builder@ == spec_builder_ident(name@),
{
    let mut builder = String::from_str(name);
    builder.append("Builder");
    builder
}

/// Writes the slot that the builder holds for `field`: the field's own type
/// if it is optional or repeated, and an `Option` of it otherwise.
pub fn wrapped_field(field: &Field) -> (code: String)
    ensures
        code@ == spec_wrapped_field(field@),
{
    let mut code = field.ident.clone();
    if is_optional_field(field) || is_vec_field(field) {
        code.append(" : ");
        code.append(field.ty.tokens().as_str());
        code.append(" , ");
    } else {
        code.append(" : Option < ");
        code.append(field.ty.tokens().as_str());
        code.append(" > , ");
    }
    code
}

/// Writes the value of the slot for `field` in a new builder: an empty vector
/// if the field is repeated, and `None` otherwise.
pub fn empty_field_value(field: &Field) -> (code: String)
    ensures
        code@ == spec_empty_field_value(field@),
{
    let mut code = field.ident.clone();
    if is_vec_field(field) {
        code.append(" : vec ! [] , ");
    } else {
        code.append(" : None , ");
    }
    code
}

/// Whether the setter for `field` has a parameter type: whether the field,
/// if it is optional, names the type that its `Option` wraps.
pub fn field_has_setter_type(field: &Field) -> (has: bool)
    ensures
        has == has_setter_type(field@),
{
    !is_optional_field(field) || get_inner_type(&field.ty).is_some()
}

/// Whether every setter has a parameter type.
pub fn fields_have_setter_types(fields: &Vec<Field>) -> (have: bool)
    ensures
        have == have_setter_types(field_views(fields@)),
{
    let mut i: usize = 0;
    while i < fields.len()
        invariant
            i <= fields.len(),
            forall|j: int| 0 <= j < i ==> has_setter_type(#[trigger] field_views(fields@)[j]),
        decreases fields.len() - i,
    {
        if !field_has_setter_type(&fields[i]) {
            assert(!has_setter_type(field_views(fields@)[i as int]));
            return false;
        }
        i += 1;
    }
    true
}

/// Writes the setter for `field`. The setter of a repeated field takes the
/// whole vector and stores it. Every other setter stores `Some` of what it
/// takes: for an optional field the type that the `Option` wraps, for a plain
/// field the field's type. An optional field that names no such type has no
/// setter: [`field_has_setter_type`] tells.
pub fn build_method(field: &Field) -> (code: String)
    requires
        has_setter_type(field@),
    ensures
        code@ == spec_build_method(field@),
{
    proof {
        lemma_optional_is_not_vec(field@);
    }
    let name = field.ident.as_str();
    let mut code = String::from_str("fn ");
    code.append(name);
    code.append(" (& mut self , ");
    code.append(name);
    code.append(" : ");
    if is_vec_field(field) {
        code.append(field.ty.tokens().as_str());
        code.append(") -> & mut Self { self . ");
        code.append(name);
        code.append(" = ");
        code.append(name);
        code.append(" ; self } ");
    } else {
        if is_optional_field(field) {
            match get_inner_type(&field.ty) {
                Some(inner) => code.append(inner.tokens().as_str()),
                None => unreached(),
            }
        } else {
            code.append(field.ty.tokens().as_str());
        }
        code.append(") -> & mut Self { self . ");
        code.append(name);
        code.append(" = Some (");
        code.append(name);
        code.append(") ; self } ");
    }
    code
}

/// Writes what `build` gives the field `field` of the struct: a copy of the
/// slot if the field is optional or repeated, and otherwise the value in the
/// slot, or the error that names the field if the slot is empty.
pub fn build_arg(field: &Field) -> (code: String)
    ensures
        code@ == spec_build_arg(field@),
{
    let name = field.ident.as_str();
    let mut code = String::from_str(name);
    code.append(" : self . ");
    code.append(name);
    if is_optional_field(field) || is_vec_field(field) {
        code.append(" . clone () , ");
    } else {
        code.append(" . clone () . ok_or (concat ! (stringify ! (");
        code.append(name);
        code.append(") , \" is required\")) ? , ");
    }
    code
}

fn wrapped_fields(fields: &Vec<Field>) -> (code: String)
    ensures
        code@ == spec_wrapped_fields(field_views(fields@)),
{
    let mut code = String::new();
    let mut i: usize = 0;
    while i < fields.len()
        invariant
            i <= fields.len(),
            code@ == spec_wrapped_fields(field_views(fields@.take(i as int))),
        decreases fields.len() - i,
    {
        let piece = wrapped_field(&fields[i]);
        proof {
            lemma_flat_map_step(fields@, i as int, |field: FieldView| spec_wrapped_field(field));
        }
        code.append(piece.as_str());
        i += 1;
    }
    assert(fields@.take(i as int) =~= fields@);
    code
}

fn empty_field_values(fields: &Vec<Field>) -> (code: String)
    ensures
        code@ == spec_empty_field_values(field_views(fields@)),
{
    let mut code = String::new();
    let mut i: usize = 0;
    while i < fields.len()
        invariant
            i <= fields.len(),
            code@ == spec_empty_field_values(field_views(fields@.take(i as int))),
        decreases fields.len() - i,
    {
        let piece = empty_field_value(&fields[i]);
        proof {
            lemma_flat_map_step(
                fields@,
                i as int,
                |field: FieldView| spec_empty_field_value(field),
            );
        }
        code.append(piece.as_str());
        i += 1;
    }
    assert(fields@.take(i as int) =~= fields@);
    code
}

fn build_methods(fields: &Vec<Field>) -> (code: String)
    requires
        have_setter_types(field_views(fields@)),
    ensures
        code@ == spec_build_methods(field_views(fields@)),
{
    let mut code = String::new();
    let mut i: usize = 0;
    while i < fields.len()
        invariant
            i <= fields.len(),
            have_setter_types(field_views(fields@)),
            code@ == spec_build_methods(field_views(fields@.take(i as int))),
        decreases fields.len() - i,
    {
        assert(has_setter_type(field_views(fields@)[i as int]));
        let piece = build_method(&fields[i]);
        proof {
            lemma_flat_map_step(fields@, i as int, |field: FieldView| spec_build_method(field));
        }
        code.append(piece.as_str());
        i += 1;
    }
    assert(fields@.take(i as int) =~= fields@);
    code
}

fn build_args(fields: &Vec<Field>) -> (code: String)
    ensures
        code@ == spec_build_args(field_views(fields@)),
{
    let mut code = String::new();
    let mut i: usize = 0;
    while i < fields.len()
        invariant
            i <= fields.len(),
            code@ == spec_build_args(field_views(fields@.take(i as int))),
        decreases fields.len() - i,
    {
        let piece = build_arg(&fields[i]);
        proof {
            lemma_flat_map_step(fields@, i as int, |field: FieldView| spec_build_arg(field));
        }
        code.append(piece.as_str());
        i += 1;
    }
    assert(fields@.take(i as int) =~= fields@);
    code
}

/// Writes the struct `builder` with a slot for each of `fields`.
pub fn builder_struct(builder: &str, fields: &Vec<Field>) -> (code: String)
    ensures
        code@ == spec_builder_struct(builder@, field_views(fields@)),
{
    let mut code = String::from_str("struct ");
    code.append(builder);
    code.append(" { ");
    code.append(wrapped_fields(fields).as_str());
    code.append("}");
    code
}

/// Writes the `impl` that gives the struct `name` its function `builder`,
/// which returns a builder with every slot empty.
pub fn builder_constructor(name: &str, builder: &str, fields: &Vec<Field>) -> (code: String)
    ensures
        code@ == spec_builder_constructor(name@, builder@, field_views(fields@)),
{
    let mut code = String::from_str("impl ");
    code.append(name);
    code.append(" { pub fn builder () -> ");
    code.append(builder);
    code.append(" { ");
    code.append(builder);
    code.append(" { ");
    code.append(empty_field_values(fields).as_str());
    code.append("} } }");
    code
}

/// Writes the `impl` of `builder` with one setter for each of `fields` and
/// the function `build`, which makes the struct `name` from the slots.
pub fn builder_impl(name: &str, builder: &str, fields: &Vec<Field>) -> (code: String)
    requires
        have_setter_types(field_views(fields@)),
    ensures
        code@ == spec_builder_impl(name@, builder@, field_views(fields@)),
{
    let mut code = String::from_str("impl ");
    code.append(builder);
    code.append(" { ");
    code.append(build_methods(fields).as_str());
    code.append("pub fn build (& mut self) -> Result < ");
    code.append(name);
    code.append(" , Box < dyn std :: error :: Error >> { Ok (");
    code.append(name);
    code.append(" { ");
    code.append(build_args(fields).as_str());
    code.append("}) } }");
    code
}

} // verus!
