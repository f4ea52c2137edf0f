use bondage::annotate::{
    collect_members, declare_item_struct, event_derive, export, export_item_function,
    find_event_name, main, transferable_jsobject_derive, AnnotationError, DerivedRecord,
    EventBinding, ExportEntry,
};
use bondage::decl::{DeclType, Registry};
use bondage::project::{
    first_argument, get_generic, path_ident, primitive_type, project_argument, project_path,
    render_generic,
};
use bondage::render::dts_content;
use bondage::syntax::{
    Attribute, Field, FieldType, GenericArgument, Item, ItemFn, ItemStruct, PathArguments,
    PathSegment, ReturnType, Type, TypePath,
};

fn s(text: &str) -> String {
    text.to_string()
}

fn segment(ident: &str, arguments: PathArguments) -> PathSegment {
    PathSegment { ident: s(ident), arguments }
}

fn ident_path(name: &str) -> TypePath {
    TypePath { leading_colon: false, segments: vec![segment(name, PathArguments::Absent)] }
}

fn generic_path(head: &str, arguments: Vec<GenericArgument>) -> TypePath {
    TypePath { leading_colon: false, segments: vec![segment(head, PathArguments::AngleBracketed(arguments))] }
}

fn of(head: &str, inner: TypePath) -> TypePath {
    generic_path(head, vec![GenericArgument::PathType(inner)])
}

fn field(name: &str, ty: TypePath) -> Field {
    Field { ident: Some(s(name)), ty: FieldType::Path(ty) }
}

fn record(name: &str, fields: Vec<Field>) -> ItemStruct {
    ItemStruct { ident: s(name), attrs: vec![], fields }
}

fn result_of(argument: GenericArgument) -> ReturnType {
    ReturnType::Type(Type::Path(generic_path("JsResult", vec![argument])))
}

fn ident_argument(name: &str) -> GenericArgument {
    GenericArgument::PathType(ident_path(name))
}

#[test]
fn declares_a_record_with_its_projected_fields() {
    let mut registry = Registry::new();
    let item = record(
        "Player",
        vec![
            field("name", ident_path("String")),
            field("score", ident_path("f64")),
            field("tags", of("Vec", ident_path("String"))),
            Field { ident: Some(s("raw")), ty: FieldType::Other },
            Field { ident: None, ty: FieldType::Path(ident_path("bool")) },
            field("friend", of("Option", ident_path("Player"))),
        ],
    );
    assert_eq!(declare_item_struct(&mut registry, &item), Ok(()));
    assert_eq!(
        registry.entries(),
        &vec![DeclType::TypeDecl(
            s("Player"),
            s("{\n    name: string\n    score: number\n    tags: Vec<string>\n    friend: Option<Player>\n  }")
        )]
    );
}

#[test]
fn declares_a_record_once() {
    let mut registry = Registry::new();
    assert_eq!(declare_item_struct(&mut registry, &record("P", vec![field("a", ident_path("bool"))])), Ok(()));
    let unfit = field("b", generic_path("Vec", vec![GenericArgument::OtherType]));
    assert_eq!(declare_item_struct(&mut registry, &record("P", vec![unfit])), Ok(()));
    assert_eq!(registry.entries(), &vec![DeclType::TypeDecl(s("P"), s("{\n    a: boolean\n  }"))]);
}

#[test]
fn refuses_a_record_with_a_malformed_field_type() {
    let mut registry = Registry::new();
    registry.register(DeclType::ExportDecl(s("x"), s("any")));
    let item = record(
        "P",
        vec![field("a", ident_path("bool")), field("b", generic_path("Vec", vec![GenericArgument::OtherType]))],
    );
    assert_eq!(declare_item_struct(&mut registry, &item), Err(AnnotationError::MalformedType));
    assert_eq!(registry.entries().len(), 1);
    assert_eq!(event_derive(&mut registry, &item), Err(AnnotationError::MalformedType));
    assert_eq!(transferable_jsobject_derive(&mut registry, &item), Err(AnnotationError::MalformedType));
    assert_eq!(registry.entries(), &vec![DeclType::ExportDecl(s("x"), s("any"))]);
}

#[test]
fn empty_record_has_an_empty_body() {
    let mut registry = Registry::new();
    assert_eq!(declare_item_struct(&mut registry, &record("Unit", vec![])), Ok(()));
    assert_eq!(registry.entries(), &vec![DeclType::TypeDecl(s("Unit"), s("{\n  }"))]);
}

#[test]
fn module_entry_declares_listener_binding_and_aliases() {
    let mut registry = Registry::new();
    let entry = ItemFn { ident: s("main"), output: ReturnType::Default };
    assert_eq!(main(&mut registry, &entry), Ok(()));
    assert_eq!(
        registry.entries(),
        &vec![
            DeclType::ExportDecl(
                s("setEventListener"),
                s("(callback:(event:keyof Events, data: Events[keyof Events]) => void) => void")
            ),
            DeclType::TypeDecl(s("Option<T>"), s("T|undefined")),
            DeclType::TypeDecl(s("Vec<T>"), s("T[]")),
        ]
    );
    assert_eq!(
        dts_content(&registry),
        "declare module \"@core\"{\n  const setEventListener: (callback:(event:keyof Events, data: Events[keyof Events]) => void) => void;\n  type Option<T> = T|undefined;\n  type Vec<T> = T[];\n  type Events = {  \n  };\n}"
    );
}

#[test]
fn module_entry_has_to_stand_on_main() {
    let mut registry = Registry::new();
    let other = ItemFn { ident: s("start"), output: ReturnType::Default };
    assert_eq!(main(&mut registry, &other), Err(AnnotationError::NotMain));
    assert_eq!(registry.entries().len(), 0);
}

#[test]
fn export_declares_the_function_under_its_host_name() {
    let mut registry = Registry::new();
    let item = ItemFn { ident: s("do_the_thing"), output: result_of(ident_argument("JsNumber")) };
    let entry = export_item_function(&mut registry, vec![s("string"), s("Player")], &item);
    assert_eq!(entry, Ok(ExportEntry { name: s("doTheThing"), symbol: s("JS_EXPORTS_doTheThing") }));
    assert_eq!(
        registry.entries(),
        &vec![DeclType::FunctionDecl(s("doTheThing"), vec![s("string"), s("Player")], s("number"))]
    );
    assert_eq!(
        dts_content(&registry),
        "declare module \"@core\"{\n  function doTheThing(arg_0: string, arg_1: Player): number;\n  type Events = {  \n  };\n}"
    );
}

#[test]
fn export_result_type_is_undefined_unless_the_argument_is_one_identifier() {
    let cases = vec![
        (ReturnType::Default, "undefined"),
        (ReturnType::Type(Type::Other), "undefined"),
        (ReturnType::Type(Type::Path(ident_path("f64"))), "undefined"),
        (result_of(GenericArgument::PathType(of("Vec", ident_path("f64")))), "undefined"),
        (
            result_of(GenericArgument::PathType(TypePath {
                leading_colon: true,
                segments: vec![segment("f64", PathArguments::Absent)],
            })),
            "undefined",
        ),
        (
            result_of(GenericArgument::PathType(TypePath {
                leading_colon: false,
                segments: vec![segment("Fn", PathArguments::Parenthesized)],
            })),
            "undefined",
        ),
        (result_of(GenericArgument::OtherType), "undefined"),
        (result_of(GenericArgument::NotType), "undefined"),
        (ReturnType::Type(Type::Path(generic_path("JsResult", vec![]))), "undefined"),
        (result_of(ident_argument("String")), "string"),
        (result_of(ident_argument("Player")), "Player"),
        (result_of(ident_argument("JsValue")), "any"),
    ];
    for (output, expected) in cases {
        let mut registry = Registry::new();
        let item = ItemFn { ident: s("f"), output };
        assert!(export_item_function(&mut registry, vec![], &item).is_ok());
        assert_eq!(registry.entries(), &vec![DeclType::FunctionDecl(s("f"), vec![], s(expected))]);
    }
}

#[test]
fn export_refuses_what_it_cannot_declare() {
    let mut registry = Registry::new();
    let raw = ItemFn { ident: s("r#type"), output: ReturnType::Default };
    assert_eq!(export_item_function(&mut registry, vec![], &raw), Err(AnnotationError::InvalidName));
    let odd = ItemFn { ident: s("f"), output: result_of(ident_argument("not a type")) };
    assert_eq!(export_item_function(&mut registry, vec![], &odd), Err(AnnotationError::MalformedType));
    assert_eq!(export(&mut registry, vec![], &Item::Other), Err(AnnotationError::NotAFunction));
    assert_eq!(registry.entries().len(), 0);
    let fine = Item::Fn(ItemFn { ident: s("get_it"), output: ReturnType::Default });
    assert_eq!(
        export(&mut registry, vec![], &fine),
        Ok(ExportEntry { name: s("getIt"), symbol: s("JS_EXPORTS_getIt") })
    );
    assert_eq!(registry.entries().len(), 1);
}

#[test]
fn event_is_named_by_its_attribute_or_by_its_type() {
    let mut registry = Registry::new();
    let mut joined = record("UserJoinedEvent", vec![field("name", ident_path("String"))]);
    assert_eq!(
        event_derive(&mut registry, &joined),
        Ok(EventBinding { event_name: s("user-joined"), payload: s("UserJoinedEvent") })
    );
    joined.attrs = vec![
        Attribute { path: Some(s("derive")), literal: None },
        Attribute { path: Some(s("event_name")), literal: Some(s("joined")) },
        Attribute { path: Some(s("event_name")), literal: Some(s("ignored")) },
    ];
    assert_eq!(
        event_derive(&mut registry, &joined),
        Ok(EventBinding { event_name: s("joined"), payload: s("UserJoinedEvent") })
    );
    assert_eq!(
        registry.entries(),
        &vec![
            DeclType::TypeDecl(s("UserJoinedEvent"), s("{\n    name: string\n  }")),
            DeclType::EventDecl(s("user-joined"), s("UserJoinedEvent")),
            DeclType::EventDecl(s("joined"), s("UserJoinedEvent")),
        ]
    );
    assert_eq!(
        dts_content(&registry),
        "declare module \"@core\"{\n  type UserJoinedEvent = {\n    name: string\n  };\n  type Events = {  \n    user-joined: UserJoinedEvent\n    joined: UserJoinedEvent\n  };\n}"
    );
}

#[test]
fn first_event_name_attribute_decides() {
    let attrs = vec![
        Attribute { path: None, literal: Some(s("nameless")) },
        Attribute { path: Some(s("event_name")), literal: None },
        Attribute { path: Some(s("event_name")), literal: Some(s("late")) },
    ];
    assert_eq!(find_event_name(&attrs), None);
    assert_eq!(find_event_name(&vec![]), None);
    let named = vec![Attribute { path: Some(s("event_name")), literal: Some(s("tick")) }];
    assert_eq!(find_event_name(&named), Some(&s("tick")));
}

#[test]
fn record_annotation_hands_out_the_members_in_order() {
    let mut registry = Registry::new();
    let item = record(
        "Point",
        vec![
            field("x", ident_path("f64")),
            field("y", ident_path("f64")),
            Field { ident: Some(s("z")), ty: FieldType::Other },
        ],
    );
    assert_eq!(
        transferable_jsobject_derive(&mut registry, &item),
        Ok(DerivedRecord { ident: s("Point"), members: vec![s("x"), s("y"), s("z")] })
    );
    assert_eq!(registry.entries(), &vec![DeclType::TypeDecl(s("Point"), s("{\n    x: number\n    y: number\n  }"))]);
    assert_eq!(collect_members(&item.fields), Some(vec![s("x"), s("y"), s("z")]));
}

#[test]
fn record_annotation_refuses_a_field_without_name() {
    let mut registry = Registry::new();
    let tuple = record(
        "Pair",
        vec![Field { ident: None, ty: FieldType::Path(ident_path("f64")) }, field("b", ident_path("f64"))],
    );
    assert_eq!(transferable_jsobject_derive(&mut registry, &tuple), Err(AnnotationError::UnnamedField));
    assert_eq!(registry.entries().len(), 0);
    assert_eq!(collect_members(&tuple.fields), None);
}

#[test]
fn generic_argument_of_a_type() {
    let ty = Type::Path(generic_path("Vec", vec![ident_argument("f64"), GenericArgument::NotType]));
    assert_eq!(get_generic(&ty), Some(&ident_argument("f64")));
    let other = Type::Path(generic_path("Vec", vec![GenericArgument::OtherType]));
    assert_eq!(get_generic(&other), Some(&GenericArgument::OtherType));
    let lifetime = Type::Path(generic_path("Ref", vec![GenericArgument::NotType, ident_argument("f64")]));
    assert_eq!(get_generic(&lifetime), None);
    assert_eq!(get_generic(&Type::Path(generic_path("Vec", vec![]))), None);
    assert_eq!(get_generic(&Type::Path(ident_path("Vec"))), None);
    assert_eq!(get_generic(&Type::Path(TypePath { leading_colon: false, segments: vec![] })), None);
    assert_eq!(get_generic(&Type::Other), None);
    let second = Type::Path(TypePath {
        leading_colon: false,
        segments: vec![
            segment("std", PathArguments::Absent),
            segment("Vec", PathArguments::AngleBracketed(vec![ident_argument("f64")])),
        ],
    });
    assert_eq!(get_generic(&second), None);
    assert_eq!(first_argument(&of("Option", ident_path("bool"))), Some(&ident_argument("bool")));
    assert_eq!(first_argument(&ident_path("bool")), None);
}

#[test]
fn single_identifier_of_a_path() {
    assert_eq!(path_ident(&ident_path("f64")), Some(&s("f64")));
    assert_eq!(path_ident(&of("Vec", ident_path("f64"))), None);
    assert_eq!(path_ident(&generic_path("Vec", vec![])), None);
    assert_eq!(path_ident(&TypePath { leading_colon: true, segments: vec![segment("a", PathArguments::Absent)] }), None);
    assert_eq!(path_ident(&TypePath { leading_colon: false, segments: vec![segment("Fn", PathArguments::Parenthesized)] }), None);
    assert_eq!(path_ident(&TypePath { leading_colon: false, segments: vec![] }), None);
    let two = TypePath {
        leading_colon: false,
        segments: vec![segment("a", PathArguments::Absent), segment("b", PathArguments::Absent)],
    };
    assert_eq!(path_ident(&two), None);
}

#[test]
fn projects_given_paths() {
    assert_eq!(project_path(&of("Option", ident_path("String"))), Some(s("Option<string>")));
    assert_eq!(project_path(&of("Vec", ident_path("f64"))), Some(s("Vec<number>")));
    assert_eq!(project_path(&of("Option", of("Vec", ident_path("f64")))), Some(s("Option<Vec<number>>")));
    assert_eq!(project_path(&ident_path("JsObject")), Some(s("JsObject")));
    assert_eq!(project_argument(&ident_path("JsObject")), Some(s("object")));
    assert_eq!(project_argument(&of("Vec", ident_path("bool"))), Some(s("Vec<boolean>")));
    assert_eq!(project_path(&ident_path("Player")), Some(s("Player")));
    assert_eq!(project_path(&generic_path("Vec", vec![])), Some(s("Vec")));
    assert_eq!(project_path(&generic_path("Ref", vec![GenericArgument::NotType, ident_argument("f64")])), Some(s("Ref")));
    assert_eq!(
        project_path(&generic_path("Map", vec![ident_argument("String"), ident_argument("f64")])),
        Some(s("Map<string>"))
    );
    assert_eq!(project_path(&generic_path("Vec", vec![GenericArgument::OtherType])), None);
    assert_eq!(project_path(&of("Option", generic_path("Vec", vec![GenericArgument::OtherType]))), None);
    assert_eq!(project_path(&TypePath { leading_colon: false, segments: vec![] }), None);
    let rooted = TypePath { leading_colon: true, segments: vec![segment("f64", PathArguments::Absent)] };
    assert_eq!(project_path(&of("Vec", rooted)), Some(s("Vec<f64>")));
    let with_arguments = generic_path("f64", vec![ident_argument("bool")]);
    assert_eq!(project_path(&of("Vec", with_arguments)), Some(s("Vec<f64<boolean>>")));
}

#[test]
fn primitive_table_and_generic_rendering() {
    assert_eq!(primitive_type("f64"), Some("number"));
    assert_eq!(primitive_type("JsObject"), Some("object"));
    assert_eq!(primitive_type("u32"), None);
    assert_eq!(primitive_type(" f64"), None);
    assert_eq!(render_generic("Option", "string"), "Option<string>");
    assert_eq!(render_generic("", ""), "<>");
}
