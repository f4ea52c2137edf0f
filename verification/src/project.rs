//! The type projector: from a native type expression to the host's name for
//! it.

use crate::syntax::{
    parse_type_path, parsed_type_path, ArgumentTree, ArgumentsTree, GenericArgument,
    PathArguments, PathTree, Type, TypePath,
};
use crate::text::same_text;
use vstd::prelude::*;
use vstd::string::StringExecFns;

verus! {

/// The host type of a primitive native type, `None` for every other text.
pub open spec fn primitive(text: Seq<char>) -> Option<Seq<char>> {
    if text == "f64"@ || text == "JsNumber"@ {
        Some("number"@)
    } else if text == "String"@ || text == "JsString"@ {
        Some("string"@)
    } else if text == "JsBoolean"@ || text == "bool"@ {
        Some("boolean"@)
    } else if text == "JsValue"@ {
        Some("any"@)
    } else if text == "JsObject"@ {
        Some("object"@)
    } else {
        None
    }
}

/// The identifier that a path consists of: the path does not start with
/// `::`, has one segment, and that segment has no arguments.
pub open spec fn single_ident(path: PathTree) -> Option<Seq<char>> {
    if !path.leading_colon && path.segments.len() == 1 && path.segments[0].arguments is Absent {
        Some(path.segments[0].ident)
    } else {
        None
    }
}

/// The first generic argument of the first segment of a path, where it is a
/// type.
pub open spec fn generic_of(path: PathTree) -> Option<ArgumentTree> {
    if path.segments.len() > 0 {
        match path.segments[0].arguments {
            ArgumentsTree::AngleBracketed(args) => if args.len() > 0 && !(args[0] is NotType) {
                Some(args[0])
            } else {
                None
            },
            _ => None,
        }
    } else {
        None
    }
}

/// The host type of the primitive that a path names, where the path is the
/// identifier of one.
pub open spec fn named_primitive(path: PathTree) -> Option<Seq<char>> {
    match single_ident(path) {
        Some(ident) => primitive(ident),
        None => None,
    }
}

/// `head<argument>`.
pub open spec fn generic(head: Seq<char>, argument: Seq<char>) -> Seq<char> {
    head + "<"@ + argument + ">"@
}

/// The host type expression for a path, or `None` where the path is no
/// structured type path.
///
/// The path has to have a segment. Without a type as first generic argument
/// of the first segment the result is that segment's identifier. With one,
/// the argument has to be a path; it is projected in turn, as a primitive
/// where it is the identifier of one, and the result is `Head<Projected>`.
/// Further arguments and further segments are not read.
pub open spec fn projected_path(path: PathTree) -> Option<Seq<char>>
    decreases path,
{
    if path.segments.len() == 0 {
        None
    } else {
        let head = path.segments[0].ident;
        match generic_of(path) {
            None => Some(head),
            Some(ArgumentTree::PathType(inner)) => {
                let argument = if named_primitive(inner) is Some {
                    named_primitive(inner)
                } else {
                    projected_path(inner)
                };
                match argument {
                    Some(text) => Some(generic(head, text)),
                    None => None,
                }
            },
            Some(_) => None,
        }
    }
}

/// The host type expression for a path that stands where a type is
/// expected: the primitive where the path is the identifier of one, else the
/// projection of the path.
pub open spec fn projected_argument(path: PathTree) -> Option<Seq<char>> {
    if named_primitive(path) is Some {
        named_primitive(path)
    } else {
        projected_path(path)
    }
}

/// The host type expression for the native type expression `text`, or
/// `None` where `text` is no structured type path: the primitive where
/// `text` names one, else the projection of the path that `text` parses to.
pub open spec fn projected(text: Seq<char>) -> Option<Seq<char>> {
    if primitive(text) is Some {
        primitive(text)
    } else {
        match parsed_type_path(text) {
            Some(path) => projected_path(path),
            None => None,
        }
    }
}

/// The text of an optional string.
pub open spec fn text_of(value: Option<String>) -> Option<Seq<char>> {
    match value {
        Some(s) => Some(s@),
        None => None,
    }
}

/// The host type of a primitive native type.
pub fn primitive_type(rust_type: &str) -> (js: Option<&'static str>)
    ensures
        match js {
            Some(name) => primitive(rust_type@) == Some(name@),
            None => primitive(rust_type@) is None,
        },
{
    if same_text(rust_type, "f64") || same_text(rust_type, "JsNumber") {
        Some("number")
    } else if same_text(rust_type, "String") || same_text(rust_type, "JsString") {
        Some("string")
    } else if same_text(rust_type, "JsBoolean") || same_text(rust_type, "bool") {
        Some("boolean")
    } else if same_text(rust_type, "JsValue") {
        Some("any")
    } else if same_text(rust_type, "JsObject") {
        Some("object")
    } else {
        None
    }
}

/// The identifier that a path consists of, if it is a single identifier.
pub fn path_ident(path: &TypePath) -> (ident: Option<&String>)
    ensures
        match ident {
            Some(found) => single_ident(path@) == Some(found@),
            None => single_ident(path@) is None,
        },
{
    if path.leading_colon || path.segments.len() != 1 {
        return None;
    }
    match &path.segments[0].arguments {
        PathArguments::Absent => Some(&path.segments[0].ident),
        _ => None,
    }
}

/// The first generic argument of the first segment of a path, where there
/// is one and it is a type.
pub fn first_argument(path: &TypePath) -> (argument: Option<&GenericArgument>)
    ensures
        match argument {
            Some(found) => {
                &&& generic_of(path@) == Some(found@)
                &&& path.segments@.len() > 0
                &&& path.segments@[0].arguments matches PathArguments::AngleBracketed(args)
                &&& args@.len() > 0
                &&& *found == args@[0]
            },
            None => generic_of(path@) is None,
        },
{
    if path.segments.len() == 0 {
        return None;
    }
    match &path.segments[0].arguments {
        PathArguments::AngleBracketed(args) => {
            if args.len() == 0 {
                return None;
            }
            match &args[0] {
                GenericArgument::NotType => None,
                found => Some(found),
            }
        },
        _ => None,
    }
}

/// The first generic argument of the first segment of a path type, where
/// there is one and it is a type.
pub fn get_generic(ty: &Type) -> (argument: Option<&GenericArgument>)
    ensures
        match argument {
            Some(found) => ty matches Type::Path(path) && generic_of(path@) == Some(found@),
            None => ty matches Type::Path(path) ==> generic_of(path@) is None,
        },
{
    match ty {
        Type::Path(type_path) => first_argument(type_path),
        Type::Other => None,
    }
}

/// `head<argument>`.
pub fn render_generic(head: &str, argument: &str) -> (text: String)
    ensures
        text@ == generic(head@, argument@),
{
    let mut text = String::from_str(head);
    text.append("<");
    text.append(argument);
    text.append(">");
    text
}

/// Projects a path to the host's type expression. Returns `None` where the
/// path is no structured type path.
pub fn project_path(path: &TypePath) -> (js: Option<String>)
    ensures
        text_of(js) == projected_path(path@),
    decreases path,
{
    if path.segments.len() == 0 {
        return None;
    }
    let head = path.segments[0].ident.as_str();
    match first_argument(path) {
        None => Some(String::from_str(head)),
        Some(GenericArgument::PathType(inner)) => {
            let primitive = match path_ident(inner) {
                Some(ident) => primitive_type(ident.as_str()),
                None => None,
            };
            let argument = match primitive {
                Some(name) => Some(String::from_str(name)),
                None => project_path(inner),
            };
            match argument {
                Some(text) => Some(render_generic(head, text.as_str())),
                None => None,
            }
        },
        Some(_) => None,
    }
}

/// Projects a path that stands where a type is expected: a field's type,
/// or a generic argument.
pub fn project_argument(path: &TypePath) -> (js: Option<String>)
    ensures
        text_of(js) == projected_argument(path@),
{
    if let Some(ident) = path_ident(path) {
        if let Some(name) = primitive_type(ident.as_str()) {
            return Some(String::from_str(name));
        }
    }
    project_path(path)
}

/// Projects a native type expression to the host's type expression.
///
/// Returns `None` where the expression is no structured type path.
pub fn rust_type_to_js(rust_type: &str) -> (js: Option<String>)
    ensures
        text_of(js) == projected(rust_type@),
{
    if let Some(name) = primitive_type(rust_type) {
        return Some(String::from_str(name));
    }
    match parse_type_path(rust_type) {
        Some(path) => project_path(&path),
        None => None,
    }
}

} // verus!
