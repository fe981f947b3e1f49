use builder::error::Error;
use builder::syntax::{
    Data, DeriveInput, Field, Fields, GenericArgument, PathArguments, PathSegment, Type,
};
use proc_macro2::{Delimiter, TokenStream, TokenTree};
use quote::ToTokens;
use std::str::FromStr;

fn read_argument(argument: &syn::GenericArgument) -> GenericArgument {
    match argument {
        syn::GenericArgument::Type(ty) => GenericArgument::Type(read_type(ty)),
        _ => GenericArgument::Other,
    }
}

fn read_segment(segment: &syn::PathSegment) -> PathSegment {
    let arguments = match &segment.arguments {
        syn::PathArguments::None => PathArguments::Absent,
        syn::PathArguments::AngleBracketed(list) => {
            PathArguments::AngleBracketed(list.args.iter().map(read_argument).collect())
        }
        syn::PathArguments::Parenthesized(_) => PathArguments::Parenthesized,
    };
    PathSegment { ident: segment.ident.to_string(), arguments }
}

fn read_type(ty: &syn::Type) -> Type {
    let tokens = ty.to_token_stream().to_string();
    match ty {
        syn::Type::Path(path) => {
            Type::Path { tokens, segments: path.path.segments.iter().map(read_segment).collect() }
        }
        _ => Type::Verbatim { tokens },
    }
}

fn read_field(field: &syn::Field) -> Field {
    let ident = match &field.ident {
        Some(ident) => ident.to_string(),
        None => String::new(),
    };
    Field { ident, ty: read_type(&field.ty) }
}

fn read(source: &str) -> DeriveInput {
    let input: syn::DeriveInput = syn::parse_str(source).unwrap();
    let data = match &input.data {
        syn::Data::Struct(data) => Data::Struct(match &data.fields {
            syn::Fields::Named(fields) => Fields::Named(fields.named.iter().map(read_field).collect()),
            syn::Fields::Unnamed(_) => Fields::Unnamed,
            syn::Fields::Unit => Fields::Unit,
        }),
        syn::Data::Enum(_) => Data::Enum,
        syn::Data::Union(_) => Data::Union,
    };
    DeriveInput { ident: input.ident.to_string(), data }
}

fn push_tokens(stream: TokenStream, tokens: &mut Vec<String>) {
    for tree in stream {
        match tree {
            TokenTree::Group(group) => {
                let (open, close) = match group.delimiter() {
                    Delimiter::Parenthesis => ("(", ")"),
                    Delimiter::Brace => ("{", "}"),
                    Delimiter::Bracket => ("[", "]"),
                    Delimiter::None => ("", ""),
                };
                tokens.push(open.to_string());
                push_tokens(group.stream(), tokens);
                tokens.push(close.to_string());
            }
            other => tokens.push(other.to_string()),
        }
    }
}

fn tokens(text: &str) -> Vec<String> {
    let mut tokens = Vec::new();
    push_tokens(TokenStream::from_str(text).unwrap(), &mut tokens);
    tokens
}

fn methods(item: &syn::Item) -> Vec<String> {
    match item {
        syn::Item::Impl(item) => item
            .items
            .iter()
            .map(|member| match member {
                syn::ImplItem::Fn(method) => method.sig.ident.to_string(),
                _ => panic!("an impl of a builder holds functions only"),
            })
            .collect(),
        _ => panic!("not an impl"),
    }
}

const COMMAND: &str = "
    pub struct Command {
        executable: String,
        args: Vec<String>,
        env: Vec<String>,
        current_dir: Option<String>,
    }
";

#[test]
fn parsed_struct_is_read_field_by_field() {
    let string = || Type::Path {
        tokens: "String".to_string(),
        segments: vec![PathSegment { ident: "String".to_string(), arguments: PathArguments::Absent }],
    };
    let of = |wrapper: &str| Type::Path {
        tokens: format!("{} < String >", wrapper),
        segments: vec![PathSegment {
            ident: wrapper.to_string(),
            arguments: PathArguments::AngleBracketed(vec![GenericArgument::Type(string())]),
        }],
    };
    let expected = DeriveInput {
        ident: "Command".to_string(),
        data: Data::Struct(Fields::Named(vec![
            Field { ident: "executable".to_string(), ty: string() },
            Field { ident: "args".to_string(), ty: of("Vec") },
            Field { ident: "env".to_string(), ty: of("Vec") },
            Field { ident: "current_dir".to_string(), ty: of("Option") },
        ])),
    };
    assert_eq!(read(COMMAND), expected);
}

#[test]
fn builder_of_a_parsed_struct_has_the_expected_tokens() {
    let expected = r#"
        struct CommandBuilder {
            executable: Option<String>,
            args: Vec<String>,
            env: Vec<String>,
            current_dir: Option<String>,
        }

        impl Command {
            pub fn builder() -> CommandBuilder {
                CommandBuilder {
                    executable: None,
                    args: vec![],
                    env: vec![],
                    current_dir: None,
                }
            }
        }

        impl CommandBuilder {
            fn executable(&mut self, executable: String) -> &mut Self {
                self.executable = Some(executable);
                self
            }
            fn args(&mut self, args: Vec<String>) -> &mut Self {
                self.args = args;
                self
            }
            fn env(&mut self, env: Vec<String>) -> &mut Self {
                self.env = env;
                self
            }
            fn current_dir(&mut self, current_dir: String) -> &mut Self {
                self.current_dir = Some(current_dir);
                self
            }

            pub fn build(&mut self) -> Result<Command, Box<dyn std::error::Error>> {
                Ok(Command {
                    executable: self.executable.clone().ok_or(concat!(stringify!(executable), " is required"))?,
                    args: self.args.clone(),
                    env: self.env.clone(),
                    current_dir: self.current_dir.clone(),
                })
            }
        }
    "#;
    let text = builder::derive(read(COMMAND));
    assert_eq!(tokens(&text), tokens(expected));
}

#[test]
fn builder_text_is_printed_as_a_token_stream_prints_it() {
    let sources = [
        COMMAND,
        "struct Empty {}",
        "struct S<'a, T> { a: &'a T, b: Option<Vec<T>>, c: Vec<Option<T>>, d: (u8, u16), e: [u8; 4] }",
        "struct Q { a: ::std::option::Option<std::string::String>, b: std::vec::Vec<u8> }",
        "struct R { r#type: u8, r#fn: Option<u8>, r#loop: Vec<u8> }",
    ];
    for source in sources {
        let text = builder::derive(read(source));
        assert_eq!(TokenStream::from_str(&text).unwrap().to_string(), text);
    }
}

#[test]
fn builder_text_parses_as_three_items() {
    let text = builder::derive(read(COMMAND));
    let file: syn::File = syn::parse_str(&text).unwrap();
    assert_eq!(file.items.len(), 3);

    match &file.items[0] {
        syn::Item::Struct(item) => {
            assert_eq!(item.ident.to_string(), "CommandBuilder");
            let slots: Vec<String> = item
                .fields
                .iter()
                .map(|slot| format!("{}: {}", read_field(slot).ident, read_field(slot).ty.tokens()))
                .collect();
            assert_eq!(
                slots,
                [
                    "executable: Option < String >",
                    "args: Vec < String >",
                    "env: Vec < String >",
                    "current_dir: Option < String >",
                ]
            );
        }
        _ => panic!("the first item is the builder"),
    }
    match &file.items[1] {
        syn::Item::Impl(item) => {
            assert_eq!(item.self_ty.to_token_stream().to_string(), "Command");
            assert!(item.trait_.is_none());
        }
        _ => panic!("the second item is an impl"),
    }
    assert_eq!(methods(&file.items[1]), ["builder"]);
    match &file.items[2] {
        syn::Item::Impl(item) => {
            assert_eq!(item.self_ty.to_token_stream().to_string(), "CommandBuilder");
            assert!(item.trait_.is_none());
        }
        _ => panic!("the third item is an impl"),
    }
    assert_eq!(methods(&file.items[2]), ["executable", "args", "env", "current_dir", "build"]);
}

#[test]
fn builder_of_any_supported_struct_parses() {
    let sources = [
        "struct Empty {}",
        "struct S<'a, T> { a: &'a T, b: Option<Vec<T>>, c: Vec<Option<T>>, d: (u8, u16), e: [u8; 4] }",
        "struct Q { a: ::std::option::Option<std::string::String>, b: std::vec::Vec<u8> }",
        "struct R { r#type: u8, r#fn: Option<u8>, r#loop: Vec<u8> }",
        "struct F { f: Box<dyn Fn(u8) -> u8>, g: Option<fn(u8) -> u8>, h: Option<<Vec<u8> as IntoIterator>::Item> }",
        "pub(crate) struct One { #[allow(dead_code)] pub only: u8 }",
    ];
    for source in sources {
        let input = read(source);
        let fields = match &input.data {
            Data::Struct(Fields::Named(fields)) => fields.len(),
            _ => panic!("a struct with named fields"),
        };
        let file: syn::File = syn::parse_str(&builder::derive(input)).unwrap();
        assert_eq!(file.items.len(), 3);
        assert_eq!(methods(&file.items[2]).len(), fields + 1);
    }
}

#[test]
fn setter_of_a_parsed_optional_field_takes_the_inner_type() {
    let text =
        builder::derive(read("struct S { a: Option<Vec<u8>>, b: std::option::Option<&'static str> }"));
    let file: syn::File = syn::parse_str(&text).unwrap();
    let parameters: Vec<String> = match &file.items[2] {
        syn::Item::Impl(item) => item
            .items
            .iter()
            .map(|member| match member {
                syn::ImplItem::Fn(method) => match method.sig.inputs.last() {
                    Some(syn::FnArg::Typed(parameter)) => parameter.ty.to_token_stream().to_string(),
                    _ => String::new(),
                },
                _ => panic!("an impl of a builder holds functions only"),
            })
            .collect(),
        _ => panic!("the third item is an impl"),
    };
    assert_eq!(parameters, ["Vec < u8 >", "& 'static str", ""]);
}

#[test]
fn parsed_declarations_without_named_fields_are_unsupported() {
    for source in ["struct T(u8, u16);", "struct U;", "enum E { A, B }", "union V { a: u8, b: u16 }"] {
        assert_eq!(builder::try_derive(read(source)), Err(Error::UnsupportedInput));
    }
}

#[test]
fn parsed_optional_field_without_inner_type_is_turned_down() {
    for source in [
        "struct S { a: Option }",
        "struct S { a: u8, b: my::Option }",
        "struct S { a: Option<'static> }",
        "struct S { a: Option<> }",
        "struct S { a: <u8 as Trait>::Option }",
    ] {
        assert_eq!(builder::try_derive(read(source)), Err(Error::MissingInnerType));
    }
}

#[test]
fn parsed_raw_struct_name_is_turned_down() {
    assert_eq!(builder::try_derive(read("struct r#try { a: u8 }")), Err(Error::RawIdent));
    assert_eq!(builder::try_derive(read("enum r#try { A }")), Err(Error::RawIdent));
}

#[test]
fn parsed_type_in_a_group_is_plain() {
    let text = builder::derive(read("struct S { a: (Option<u8>), b: &'static Vec<u8> }"));
    assert!(text.starts_with(
        "struct SBuilder { a : Option < (Option < u8 >) > , b : Option < & 'static Vec < u8 > > , }"
    ));
}
