//! The annotation rules: what each annotation of the native code adds to the
//! registry, and what it hands to the code that is generated for it.
//!
//! Every rule either succeeds and registers its declarations, or fails and
//! leaves the registry as it was.

use crate::decl::{has_type, lemma_registered_unique, registered, Decl, DeclType, Registry};
use crate::naming::{camel_case, default_event_name, event_name_of, export_name};
use crate::project::{
    generic_of, get_generic, path_ident, project_argument, projected, projected_argument,
    rust_type_to_js, single_ident,
};
use crate::syntax::{
    is_ident, parses_as_ident, ArgumentTree, Attribute, Field, FieldType, GenericArgument, Item,
    ItemFn, ItemStruct, ReturnType, Type,
};
use crate::text::same_text;
use vstd::prelude::*;
use vstd::string::StringExecFns;

verus! {

/// Why an annotation is refused.
#[derive(Debug, Clone, Copy, PartialEq, Eq, Structural)]
pub enum AnnotationError {
    /// A type expression is no structured type path.
    MalformedType,
    /// A record has a field without a name.
    UnnamedField,
    /// The module entry annotation stands on a function that is not `main`.
    NotMain,
    /// The export annotation stands on an item that is no function.
    NotAFunction,
    /// The exported name cannot be part of an identifier.
    InvalidName,
}

/// Whether a field appears in the declared record: it has a name and its
/// type is a path.
pub open spec fn listed(field: Field) -> bool {
    field.ident is Some && field.ty is Path
}

/// The properties of a record, one line for each listed field in declaration
/// order; `None` where the type of a listed field cannot be projected.
pub open spec fn properties(fields: Seq<Field>) -> Option<Seq<char>>
    decreases fields.len(),
{
    if fields.len() == 0 {
        Some(Seq::empty())
    } else {
        let field = fields.last();
        match properties(fields.drop_last()) {
            None => None,
            Some(init) => if !listed(field) {
                Some(init)
            } else {
                match projected_argument(field.ty->Path_0@) {
                    None => None,
                    Some(ty) => Some(init + "\n    "@ + field.ident->0@ + ": "@ + ty),
                }
            },
        }
    }
}

/// The structure of a record with the given fields.
pub open spec fn record_body(fields: Seq<Field>) -> Option<Seq<char>> {
    match properties(fields) {
        Some(props) => Some("{"@ + props + "\n  }"@),
        None => None,
    }
}

/// The registry after a struct was declared in one that held `decls`: as it
/// was where the struct's name is already declared, else with the record
/// appended; `None` where the record cannot be described.
pub open spec fn struct_declared(decls: Seq<Decl>, item: ItemStruct) -> Option<Seq<Decl>> {
    if has_type(decls, item.ident@) {
        Some(decls)
    } else {
        match record_body(item.fields@) {
            Some(body) => Some(decls.push(Decl::Type { name: item.ident@, body })),
            None => None,
        }
    }
}

/// A failure among the first fields is a failure of all.
pub proof fn lemma_properties_prefix(fields: Seq<Field>, k: int)
    requires
        0 <= k <= fields.len(),
        properties(fields.take(k)) is None,
    ensures
        properties(fields) is None,
    decreases fields.len(),
{
    if k == fields.len() {
        assert(fields.take(k) == fields);
    } else {
        assert(fields.drop_last().take(k) == fields.take(k));
        lemma_properties_prefix(fields.drop_last(), k);
    }
}

/// Declares the record type of a struct, unless a type of its name is
/// declared already.
pub fn declare_item_struct(registry: &mut Registry, item_struct: &ItemStruct) -> (done: Result<
    (),
    AnnotationError,
>)
    requires
        old(registry).wf(),
    ensures
        final(registry).wf(),
        match struct_declared(old(registry)@, *item_struct) {
            Some(after) => done is Ok && final(registry)@ == after,
            None => done == Err::<(), AnnotationError>(AnnotationError::MalformedType)
                && final(registry)@ == old(registry)@,
        },
{
    if registry.declares_type(&item_struct.ident) {
        return Ok(());
    }
    let fields = &item_struct.fields;
    let mut props = String::new();
    let mut i: usize = 0;
    while i < fields.len()
        invariant
            i <= fields.len(),
            fields == &item_struct.fields,
            *registry == *old(registry),
            registry.wf(),
            !has_type(registry@, item_struct.ident@),
            properties(fields@.take(i as int)) == Some(props@),
        decreases fields.len() - i,
    {
        assert(fields@.take(i + 1).drop_last() == fields@.take(i as int));
        assert(fields@.take(i + 1).last() == fields@[i as int]);
        let field = &fields[i];
        if let (Some(ident), FieldType::Path(path)) = (&field.ident, &field.ty) {
            match project_argument(path) {
                Some(ty) => {
                    props.append("\n    ");
                    props.append(ident.as_str());
                    props.append(": ");
                    props.append(ty.as_str());
                },
                None => {
                    proof {
                        lemma_properties_prefix(fields@, i + 1);
                    }
                    return Err(AnnotationError::MalformedType);
                },
            }
        }
        i = i + 1;
    }
    assert(fields@.take(fields.len() as int) == fields@);
    let mut body = String::from_str("{");
    body.append(props.as_str());
    body.append("\n  }");
    let decl = DeclType::TypeDecl(item_struct.ident.clone(), body);
    registry.register(decl);
    Ok(())
}

/// The registry after the module entry was annotated in one that held
/// `decls`: the binding that registers the event listener and the two
/// generic aliases are registered, in this order.
pub open spec fn entry_declared(decls: Seq<Decl>) -> Seq<Decl> {
    registered(
        registered(
            registered(
                decls,
                Decl::Export {
                    name: "setEventListener"@,
                    ty: "(callback:(event:keyof Events, data: Events[keyof Events]) => void) => void"@,
                },
            ),
            Decl::Type { name: "Option<T>"@, body: "T|undefined"@ },
        ),
        Decl::Type { name: "Vec<T>"@, body: "T[]"@ },
    )
}

/// The rule of the module entry annotation. It stands on the function
/// `main` and declares what every module exports: the binding that registers
/// the event listener, and the aliases for optional values and sequences.
pub fn main(registry: &mut Registry, item_fn: &ItemFn) -> (done: Result<(), AnnotationError>)
    requires
        old(registry).wf(),
    ensures
        final(registry).wf(),
        if item_fn.ident@ == "main"@ {
            done is Ok && final(registry)@ == entry_declared(old(registry)@)
        } else {
            done == Err::<(), AnnotationError>(AnnotationError::NotMain) && final(registry)@ == old(
                registry,
            )@
        },
{
    if !same_text(item_fn.ident.as_str(), "main") {
        return Err(AnnotationError::NotMain);
    }
    registry.register(
        DeclType::ExportDecl(
            String::from_str("setEventListener"),
            String::from_str(
                "(callback:(event:keyof Events, data: Events[keyof Events]) => void) => void",
            ),
        ),
    );
    registry.register(
        DeclType::TypeDecl(String::from_str("Option<T>"), String::from_str("T|undefined")),
    );
    registry.register(DeclType::TypeDecl(String::from_str("Vec<T>"), String::from_str("T[]")));
    Ok(())
}

/// What the export annotation hands to the generated code: the host name of
/// the function and the name of its entry in the export table.
#[derive(Debug, Clone, PartialEq, Eq)]
pub struct ExportEntry {
    pub name: String,
    pub symbol: String,
}

/// The host type that is declared for a function's result. A function
/// returns its value wrapped in a result type: the declared type is the
/// projection of that type's first argument where the argument is a single
/// identifier, and `undefined` in every other case.
pub open spec fn return_type(output: ReturnType) -> Option<Seq<char>> {
    match output {
        ReturnType::Type(Type::Path(path)) => match generic_of(path@) {
            Some(ArgumentTree::PathType(inner)) => match single_ident(inner) {
                Some(ident) => projected(ident),
                None => Some("undefined"@),
            },
            _ => Some("undefined"@),
        },
        _ => Some("undefined"@),
    }
}

/// The name of the export table's entry for the host name `name`.
pub open spec fn export_symbol(name: Seq<char>) -> Seq<char> {
    "JS_EXPORTS_"@ + name
}

/// The rule of the export annotation on a function: the function is declared
/// under its host name, with the parameter types given to the annotation and
/// the projected result type.
pub fn export_item_function(registry: &mut Registry, args: Vec<String>, item_fn: &ItemFn) -> (done:
    Result<ExportEntry, AnnotationError>)
    requires
        old(registry).wf(),
    ensures
        final(registry).wf(),
        match return_type(item_fn.output) {
            None => done == Err::<ExportEntry, AnnotationError>(AnnotationError::MalformedType)
                && final(registry)@ == old(registry)@,
            Some(ret) => {
                let name = camel_case(item_fn.ident@);
                if parses_as_ident(export_symbol(name)) {
                    &&& done matches Ok(entry)
                    &&& entry.name@ == name
                    &&& entry.symbol@ == export_symbol(name)
                    &&& final(registry)@ == old(registry)@.push(
                        Decl::Function { name, args: crate::decl::texts(args@), ret },
                    )
                } else {
                    done == Err::<ExportEntry, AnnotationError>(AnnotationError::InvalidName)
                        && final(registry)@ == old(registry)@
                }
            },
        },
{
    let name = export_name(item_fn.ident.as_str());
    let ret = match &item_fn.output {
        ReturnType::Default => String::from_str("undefined"),
        ReturnType::Type(ret_type) => match get_generic(ret_type) {
            Some(GenericArgument::PathType(inner)) => match path_ident(inner) {
                Some(ident) => match rust_type_to_js(ident.as_str()) {
                    Some(js) => js,
                    None => { return Err(AnnotationError::MalformedType); },
                },
                None => String::from_str("undefined"),
            },
            _ => String::from_str("undefined"),
        },
    };
    let mut symbol = String::from_str("JS_EXPORTS_");
    symbol.append(name.as_str());
    if !is_ident(symbol.as_str()) {
        return Err(AnnotationError::InvalidName);
    }
    registry.register(DeclType::FunctionDecl(name.clone(), args, ret));
    Ok(ExportEntry { name, symbol })
}

/// The rule of the export annotation: it stands on a function.
pub fn export(registry: &mut Registry, args: Vec<String>, item: &Item) -> (done: Result<
    ExportEntry,
    AnnotationError,
>)
    requires
        old(registry).wf(),
    ensures
        final(registry).wf(),
        match item {
            Item::Fn(item_fn) => match return_type(item_fn.output) {
                None => done == Err::<ExportEntry, AnnotationError>(AnnotationError::MalformedType)
                    && final(registry)@ == old(registry)@,
                Some(ret) => {
                    let name = camel_case(item_fn.ident@);
                    if parses_as_ident(export_symbol(name)) {
                        &&& done matches Ok(entry)
                        &&& entry.name@ == name
                        &&& entry.symbol@ == export_symbol(name)
                        &&& final(registry)@ == old(registry)@.push(
                            Decl::Function { name, args: crate::decl::texts(args@), ret },
                        )
                    } else {
                        done == Err::<ExportEntry, AnnotationError>(AnnotationError::InvalidName)
                            && final(registry)@ == old(registry)@
                    }
                },
            },
            Item::Other => done == Err::<ExportEntry, AnnotationError>(
                AnnotationError::NotAFunction,
            ) && final(registry)@ == old(registry)@,
        },
{
    match item {
        Item::Fn(item_fn) => export_item_function(registry, args, item_fn),
        Item::Other => Err(AnnotationError::NotAFunction),
    }
}

/// What the event annotation hands to the generated code: the event's name
/// and the name of its payload type.
#[derive(Debug, Clone, PartialEq, Eq)]
pub struct EventBinding {
    pub event_name: String,
    pub payload: String,
}

/// Whether an attribute is the one that names an event.
pub open spec fn names_event(attr: Attribute) -> bool {
    attr.path matches Some(path) && path@ == "event_name"@
}

/// The name that a struct's attributes give to its event: the string
/// literal of the first attribute `event_name`, where there is such an
/// attribute and a string literal is its argument.
pub open spec fn named_event(attrs: Seq<Attribute>) -> Option<Seq<char>>
    decreases attrs.len(),
{
    if attrs.len() == 0 {
        None
    } else if names_event(attrs[0]) {
        match attrs[0].literal {
            Some(literal) => Some(literal@),
            None => None,
        }
    } else {
        named_event(attrs.skip(1))
    }
}

/// The name of the event whose payload is the struct `item`.
pub open spec fn event_name(item: ItemStruct) -> Seq<char> {
    match named_event(item.attrs@) {
        Some(name) => name,
        None => event_name_of(item.ident@),
    }
}

/// The name that the attributes give to an event, if they give one.
pub fn find_event_name(attrs: &Vec<Attribute>) -> (name: Option<&String>)
    ensures
        match name {
            Some(found) => named_event(attrs@) == Some(found@),
            None => named_event(attrs@) is None,
        },
{
    let mut i: usize = 0;
    assert(attrs@.skip(0) == attrs@);
    while i < attrs.len()
        invariant
            i <= attrs.len(),
            named_event(attrs@.skip(i as int)) == named_event(attrs@),
        decreases attrs.len() - i,
    {
        let attr = &attrs[i];
        assert(attrs@.skip(i as int)[0] == attrs@[i as int]);
        assert(attrs@.skip(i as int).skip(1) == attrs@.skip(i + 1));
        if let Some(path) = &attr.path {
            if same_text(path.as_str(), "event_name") {
                return attr.literal.as_ref();
            }
        }
        i = i + 1;
    }
    None
}

/// The rule of the event annotation on a struct: the struct's record type
/// is declared, and the event is declared with the struct as its payload.
pub fn event_derive(registry: &mut Registry, item_struct: &ItemStruct) -> (done: Result<
    EventBinding,
    AnnotationError,
>)
    requires
        old(registry).wf(),
    ensures
        final(registry).wf(),
        match struct_declared(old(registry)@, *item_struct) {
            Some(after) => {
                &&& done matches Ok(binding)
                &&& binding.event_name@ == event_name(*item_struct)
                &&& binding.payload@ == item_struct.ident@
                &&& final(registry)@ == after.push(
                    Decl::Event { name: event_name(*item_struct), payload: item_struct.ident@ },
                )
            },
            None => done == Err::<EventBinding, AnnotationError>(AnnotationError::MalformedType)
                && final(registry)@ == old(registry)@,
        },
{
    match declare_item_struct(registry, item_struct) {
        Ok(()) => {},
        Err(error) => { return Err(error); },
    }
    let event_name = match find_event_name(&item_struct.attrs) {
        Some(name) => name.clone(),
        None => default_event_name(item_struct.ident.as_str()),
    };
    registry.register(DeclType::EventDecl(event_name.clone(), item_struct.ident.clone()));
    Ok(EventBinding { event_name, payload: item_struct.ident.clone() })
}

/// What the record annotation hands to the generated code: the name of the
/// record type and the names of its members in declaration order. The
/// generated conversion sets, and reads back, one host property per member.
#[derive(Debug, Clone, PartialEq, Eq)]
pub struct DerivedRecord {
    pub ident: String,
    pub members: Vec<String>,
}

/// Whether every field has a name.
pub open spec fn all_named(fields: Seq<Field>) -> bool {
    forall|i: int| 0 <= i < fields.len() ==> (#[trigger] fields[i]).ident is Some
}

/// The names of the fields, in declaration order.
pub open spec fn member_names(fields: Seq<Field>) -> Seq<Seq<char>> {
    Seq::new(fields.len(), |i: int| fields[i].ident->0@)
}

/// The names of the fields in declaration order, or `None` where a field has
/// no name.
pub fn collect_members(fields: &Vec<Field>) -> (members: Option<Vec<String>>)
    ensures
        match members {
            Some(names) => all_named(fields@) && crate::decl::texts(names@) == member_names(
                fields@,
            ),
            None => !all_named(fields@),
        },
{
    let mut names: Vec<String> = Vec::new();
    let mut i: usize = 0;
    while i < fields.len()
        invariant
            i <= fields.len(),
            all_named(fields@.take(i as int)),
            crate::decl::texts(names@) == member_names(fields@.take(i as int)),
        decreases fields.len() - i,
    {
        match &fields[i].ident {
            Some(ident) => {
                names.push(ident.clone());
            },
            None => {
                return None;
            },
        }
        proof {
            let done = fields@.take(i as int);
            let next = fields@.take(i + 1);
            assert(next.drop_last() == done);
            assert forall|k: int| 0 <= k < next.len() implies (#[trigger] next[k]).ident is Some by {
                if k < i {
                    assert(done[k] == next[k]);
                }
            }
            assert(member_names(next) =~= member_names(done).push(fields@[i as int].ident->0@));
            assert(crate::decl::texts(names@) =~= member_names(next));
        }
        i = i + 1;
    }
    assert(fields@.take(fields.len() as int) == fields@);
    Some(names)
}

/// The rule of the record annotation on a struct: every field has to have a
/// name; the struct's record type is declared.
pub fn transferable_jsobject_derive(registry: &mut Registry, item_struct: &ItemStruct) -> (done:
    Result<DerivedRecord, AnnotationError>)
    requires
        old(registry).wf(),
    ensures
        final(registry).wf(),
        if !all_named(item_struct.fields@) {
            done == Err::<DerivedRecord, AnnotationError>(AnnotationError::UnnamedField)
                && final(registry)@ == old(registry)@
        } else {
            match struct_declared(old(registry)@, *item_struct) {
                Some(after) => {
                    &&& done matches Ok(record)
                    &&& record.ident@ == item_struct.ident@
                    &&& crate::decl::texts(record.members@) == member_names(item_struct.fields@)
                    &&& final(registry)@ == after
                },
                None => done == Err::<DerivedRecord, AnnotationError>(
                    AnnotationError::MalformedType,
                ) && final(registry)@ == old(registry)@,
            }
        },
{
    let members = match collect_members(&item_struct.fields) {
        Some(members) => members,
        None => { return Err(AnnotationError::UnnamedField); },
    };
    match declare_item_struct(registry, item_struct) {
        Ok(()) => {},
        Err(error) => { return Err(error); },
    }
    Ok(DerivedRecord { ident: item_struct.ident.clone(), members })
}

} // verus!
