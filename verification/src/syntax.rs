//! The shape of annotated items and of type paths, as far as the annotation
//! rules read them. A value of these types holds, as plain text and lists,
//! what a syntax tree of `syn` says about the same piece of source.

use quote::ToTokens;
use syn::parse_str;
use syn::GenericArgument as SynArgument;
use syn::PathArguments as SynArguments;
use syn::Type as SynType;
use vstd::prelude::*;

verus! {

/// One generic argument of a path segment (`syn::GenericArgument`).
#[derive(Debug, PartialEq, Eq)]
pub enum GenericArgument {
    /// A type that is written as a path.
    PathType(TypePath),
    /// A type of any other form: a tuple, a reference, a slice and so on.
    OtherType,
    /// A lifetime, a constant, a binding or a constraint.
    NotType,
}

/// The arguments of a path segment (`syn::PathArguments`).
#[derive(Debug, PartialEq, Eq)]
pub enum PathArguments {
    /// No arguments.
    Absent,
    /// `<A, B>`: the arguments between angle brackets, in order.
    AngleBracketed(Vec<GenericArgument>),
    /// `(A, B) -> C`: arguments in round brackets.
    Parenthesized,
}

/// One segment of a path (`syn::PathSegment`).
#[derive(Debug, PartialEq, Eq)]
pub struct PathSegment {
    pub ident: String,
    pub arguments: PathArguments,
}

/// A path that names a type (`syn::Path`): whether it starts with `::`, and
/// its segments.
#[derive(Debug, PartialEq, Eq)]
pub struct TypePath {
    pub leading_colon: bool,
    pub segments: Vec<PathSegment>,
}

/// A type (`syn::Type`).
#[derive(Debug, PartialEq, Eq)]
pub enum Type {
    Path(TypePath),
    Other,
}

/// The mathematical value of a generic argument.
pub ghost enum ArgumentTree {
    PathType(PathTree),
    OtherType,
    NotType,
}

/// The mathematical value of the arguments of a segment.
pub ghost enum ArgumentsTree {
    Absent,
    AngleBracketed(Seq<ArgumentTree>),
    Parenthesized,
}

/// The mathematical value of a segment.
pub ghost struct SegmentTree {
    pub ident: Seq<char>,
    pub arguments: ArgumentsTree,
}

/// The mathematical value of a path.
pub ghost struct PathTree {
    pub leading_colon: bool,
    pub segments: Seq<SegmentTree>,
}

/// The mathematical value of a path.
pub open spec fn path_tree(path: TypePath) -> PathTree
    decreases path,
{
    PathTree {
        leading_colon: path.leading_colon,
        segments: Seq::new(
            path.segments@.len(),
            |i: int|
                if 0 <= i < path.segments@.len() {
                    segment_tree(path.segments@[i])
                } else {
                    SegmentTree { ident: Seq::empty(), arguments: ArgumentsTree::Absent }
                },
        ),
    }
}

/// The mathematical value of a segment.
pub open spec fn segment_tree(segment: PathSegment) -> SegmentTree
    decreases segment,
{
    SegmentTree {
        ident: segment.ident@,
        arguments: match segment.arguments {
            PathArguments::Absent => ArgumentsTree::Absent,
            PathArguments::Parenthesized => ArgumentsTree::Parenthesized,
            PathArguments::AngleBracketed(args) => ArgumentsTree::AngleBracketed(
                Seq::new(
                    args@.len(),
                    |j: int|
                        if 0 <= j < args@.len() {
                            argument_tree(args@[j])
                        } else {
                            ArgumentTree::NotType
                        },
                ),
            ),
        },
    }
}

/// The mathematical value of a generic argument.
pub open spec fn argument_tree(argument: GenericArgument) -> ArgumentTree
    decreases argument,
{
    match argument {
        GenericArgument::PathType(inner) => ArgumentTree::PathType(path_tree(inner)),
        GenericArgument::OtherType => ArgumentTree::OtherType,
        GenericArgument::NotType => ArgumentTree::NotType,
    }
}

impl View for TypePath {
    type V = PathTree;

    open spec fn view(&self) -> PathTree {
        path_tree(*self)
    }
}

impl View for GenericArgument {
    type V = ArgumentTree;

    open spec fn view(&self) -> ArgumentTree {
        argument_tree(*self)
    }
}

/// The return type of a function (`syn::ReturnType`).
#[derive(Debug, PartialEq, Eq)]
pub enum ReturnType {
    /// Nothing is written: the function returns `()`.
    Default,
    Type(Type),
}

/// A function item (`syn::ItemFn`).
#[derive(Debug, PartialEq, Eq)]
pub struct ItemFn {
    pub ident: String,
    pub output: ReturnType,
}

/// An item (`syn::Item`).
#[derive(Debug, PartialEq, Eq)]
pub enum Item {
    Fn(ItemFn),
    Other,
}

/// The type of a struct's field.
#[derive(Debug, PartialEq, Eq)]
pub enum FieldType {
    /// A path.
    Path(TypePath),
    Other,
}

/// A field of a struct (`syn::Field`); `ident` is `None` in a tuple struct.
#[derive(Debug, PartialEq, Eq)]
pub struct Field {
    pub ident: Option<String>,
    pub ty: FieldType,
}

/// An attribute (`syn::Attribute`).
#[derive(Debug, PartialEq, Eq)]
pub struct Attribute {
    /// The identifier of the first segment of the attribute's path.
    pub path: Option<String>,
    /// The value of the attribute's argument, where that is one string literal.
    pub literal: Option<String>,
}

/// A struct item (`syn::ItemStruct`).
#[derive(Debug, PartialEq, Eq)]
pub struct ItemStruct {
    pub ident: String,
    pub attrs: Vec<Attribute>,
    pub fields: Vec<Field>,
}

/// The path that `syn` reads from `text` when it parses it as a type path;
/// `None` where it refuses the text.
pub uninterp spec fn parsed_type_path(text: Seq<char>) -> Option<PathTree>;

/// Whether `syn` accepts `text` as one identifier.
pub uninterp spec fn parses_as_ident(text: Seq<char>) -> bool;

/// Parses `text` as a type path.
///
/// Trusted: calls `syn::parse_str::<syn::TypePath>` and copies the path of
/// the result, segment by segment and argument by argument. An argument that
/// is itself a path type is copied by this function too: its tokens go
/// through `to_token_stream` and back through the parser, which reads from
/// them the tokens they were printed from; should the parser refuse them, the
/// argument counts as a type that is no path. The printed text is no part of
/// the result. The contract claims only that the path is a function of the
/// text.
#[verifier::external_body]
pub(crate) fn parse_type_path(text: &str) -> (parsed: Option<TypePath>)
    ensures
        match parsed {
            Some(path) => parsed_type_path(text@) == Some(path@),
            None => parsed_type_path(text@) is None,
        },
{
    let path = parse_str::<syn::TypePath>(text).ok()?.path;
    let segments = path.segments.iter().map(|segment| PathSegment {
        ident: segment.ident.to_string(),
        arguments: match &segment.arguments {
            SynArguments::AngleBracketed(list) => PathArguments::AngleBracketed(list.args.iter().map(|argument| match argument {
                SynArgument::Type(SynType::Path(inner)) => parse_type_path(&inner.path.to_token_stream().to_string()).map_or(GenericArgument::OtherType, GenericArgument::PathType),
                SynArgument::Type(_) => GenericArgument::OtherType,
                _ => GenericArgument::NotType,
            }).collect()),
            SynArguments::Parenthesized(_) => PathArguments::Parenthesized,
            _ => PathArguments::Absent,
        },
    }).collect();
    Some(TypePath { leading_colon: path.leading_colon.is_some(), segments })
}

/// Whether `text` is one identifier.
///
/// Trusted: calls `syn::parse_str::<syn::Ident>`. The contract claims only
/// that the answer is a function of the text.
#[verifier::external_body]
pub(crate) fn is_ident(text: &str) -> (accepted: bool)
    ensures
        accepted == parses_as_ident(text@),
{
    parse_str::<syn::Ident>(text).is_ok()
}

} // verus!
