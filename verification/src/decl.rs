//! Declaration records and the registry that collects them.
//!
//! The registry is an owned, append-only sequence of declarations. Type
//! declarations are declared once: registering a second one under a name that
//! is already taken changes nothing. The other kinds are kept as they come.

use vstd::prelude::*;

verus! {

/// One entry of the interface description.
#[derive(Debug, Clone, PartialEq, Eq)]
pub enum DeclType {
    /// A function: its name, the types of its parameters, its return type.
    FunctionDecl(String, Vec<String>, String),
    /// An exported binding that is no function: its name and its type.
    ExportDecl(String, String),
    /// A type alias or record: its name and its structure.
    TypeDecl(String, String),
    /// An event: its name and the name of its payload type.
    EventDecl(String, String),
}

/// The mathematical value of a declaration.
pub ghost enum Decl {
    Function { name: Seq<char>, args: Seq<Seq<char>>, ret: Seq<char> },
    Export { name: Seq<char>, ty: Seq<char> },
    Type { name: Seq<char>, body: Seq<char> },
    Event { name: Seq<char>, payload: Seq<char> },
}

/// The texts held by a sequence of strings.
pub open spec fn texts(strings: Seq<String>) -> Seq<Seq<char>> {
    strings.map_values(|s: String| s@)
}

impl View for DeclType {
    type V = Decl;

    open spec fn view(&self) -> Decl {
        match self {
            DeclType::FunctionDecl(name, args, ret) => Decl::Function {
                name: name@,
                args: texts(args@),
                ret: ret@,
            },
            DeclType::ExportDecl(name, ty) => Decl::Export { name: name@, ty: ty@ },
            DeclType::TypeDecl(name, body) => Decl::Type { name: name@, body: body@ },
            DeclType::EventDecl(name, payload) => Decl::Event { name: name@, payload: payload@ },
        }
    }
}

/// The values of a sequence of declarations.
pub open spec fn decl_views(decls: Seq<DeclType>) -> Seq<Decl> {
    decls.map_values(|d: DeclType| d@)
}

/// Whether `decl` declares the type `name`.
pub open spec fn declares(decl: Decl, name: Seq<char>) -> bool {
    decl is Type && decl->Type_name == name
}

/// Whether some entry of `decls` declares the type `name`.
pub open spec fn has_type(decls: Seq<Decl>, name: Seq<char>) -> bool {
    exists|i: int| 0 <= i < decls.len() && declares(#[trigger] decls[i], name)
}

/// No two entries declare a type of the same name.
pub open spec fn unique_types(decls: Seq<Decl>) -> bool {
    forall|i: int, j: int|
        0 <= i < j < decls.len() && #[trigger] decls[i] is Type && #[trigger] decls[j] is Type
            ==> decls[i]->Type_name != decls[j]->Type_name
}

/// The number of entries of `decls` that declare the type `name`.
pub open spec fn type_count(decls: Seq<Decl>, name: Seq<char>) -> nat
    decreases decls.len(),
{
    if decls.len() == 0 {
        0
    } else {
        type_count(decls.drop_last(), name) + if declares(decls.last(), name) {
            1nat
        } else {
            0nat
        }
    }
}

/// The contents of a registry after `decl` was registered in one that held
/// `decls`: a type that is already declared is skipped, everything else is
/// appended.
pub open spec fn registered(decls: Seq<Decl>, decl: Decl) -> Seq<Decl> {
    if decl is Type && has_type(decls, decl->Type_name) {
        decls
    } else {
        decls.push(decl)
    }
}

/// The ordered collection of declarations from which the interface
/// description is rendered.
pub struct Registry {
    pub(crate) decls: Vec<DeclType>,
}

impl View for Registry {
    type V = Seq<Decl>;

    closed spec fn view(&self) -> Seq<Decl> {
        decl_views(self.decls@)
    }
}

impl Registry {
    /// The registry's invariant: every type is declared at most once.
    pub open spec fn wf(&self) -> bool {
        unique_types(self@)
    }

    /// An empty registry.
    pub fn new() -> (registry: Registry)
        ensures
            registry@ == Seq::<Decl>::empty(),
            registry.wf(),
    {
        Registry { decls: Vec::new() }
    }

    /// The declarations in the order in which they were registered.
    pub fn entries(&self) -> (decls: &Vec<DeclType>)
        ensures
            decl_views(decls@) == self@,
    {
        &self.decls
    }

    /// Whether a type named `name` is declared.
    pub fn declares_type(&self, name: &String) -> (found: bool)
        ensures
            found == has_type(self@, name@),
    {
        let mut i: usize = 0;
        while i < self.decls.len()
            invariant
                i <= self.decls.len(),
                !has_type(self@.take(i as int), name@),
            decreases self.decls.len() - i,
        {
            if let DeclType::TypeDecl(other, _) = &self.decls[i] {
                if *other == *name {
                    assert(declares(self@[i as int], name@));
                    return true;
                }
            }
            assert forall|k: int| 0 <= k < i + 1 implies !declares(
                #[trigger] self@.take(i + 1)[k],
                name@,
            ) by {
                if k < i {
                    assert(self@.take(i as int)[k] == self@[k]);
                }
            }
            i = i + 1;
        }
        assert(self@.take(self.decls.len() as int) == self@);
        false
    }

    /// Registers `decl`. A type declaration whose name is already declared is
    /// dropped; every other declaration is appended.
    pub fn register(&mut self, decl: DeclType)
        requires
            old(self).wf(),
        ensures
            final(self)@ == registered(old(self)@, decl@),
            final(self).wf(),
    {
        if let DeclType::TypeDecl(name, _) = &decl {
            if self.declares_type(name) {
                return ;
            }
        }
        let ghost before = self@;
        self.decls.push(decl);
        proof {
            assert(self@ == before.push(decl@));
            lemma_registered_unique(before, decl@);
        }
    }
}

/// Registering keeps type names unique.
pub proof fn lemma_registered_unique(decls: Seq<Decl>, decl: Decl)
    requires
        unique_types(decls),
    ensures
        unique_types(registered(decls, decl)),
{
    let after = registered(decls, decl);
    assert forall|i: int, j: int|
        0 <= i < j < after.len() && #[trigger] after[i] is Type && #[trigger] after[j] is Type implies after[i]->Type_name
        != after[j]->Type_name by {
        if j < decls.len() {
            assert(decls[i] is Type && decls[j] is Type);
        } else {
            assert(declares(decls[i], after[i]->Type_name));
        }
    }
}

/// A registry with unique type names holds a declared type exactly once.
pub proof fn lemma_type_count(decls: Seq<Decl>, name: Seq<char>)
    requires
        unique_types(decls),
    ensures
        type_count(decls, name) == if has_type(decls, name) {
            1nat
        } else {
            0nat
        },
    decreases decls.len(),
{
    if decls.len() > 0 {
        let init = decls.drop_last();
        assert forall|i: int, j: int|
            0 <= i < j < init.len() && #[trigger] init[i] is Type && #[trigger] init[j] is Type implies init[i]->Type_name
            != init[j]->Type_name by {
            assert(decls[i] is Type && decls[j] is Type);
        }
        lemma_type_count(init, name);
        if has_type(init, name) {
            let i = choose|i: int| 0 <= i < init.len() && declares(#[trigger] init[i], name);
            assert(declares(decls[i], name));
            if declares(decls.last(), name) {
                assert(decls[i] is Type && decls[decls.len() - 1] is Type);
            }
        } else if has_type(decls, name) {
            let i = choose|i: int| 0 <= i < decls.len() && declares(#[trigger] decls[i], name);
            if i < init.len() {
                assert(declares(init[i], name));
            }
        } else if declares(decls.last(), name) {
            assert(declares(decls[decls.len() - 1], name));
        }
    }
}

/// Declare-once: registering a type under one name twice, with whatever
/// structure each time, leaves the registry as the first registration left
/// it, and that registry holds exactly one type declaration of that name.
pub proof fn lemma_register_type_twice(
    decls: Seq<Decl>,
    name: Seq<char>,
    first: Seq<char>,
    second: Seq<char>,
)
    requires
        unique_types(decls),
    ensures
        ({
            let once = registered(decls, Decl::Type { name, body: first });
            let twice = registered(once, Decl::Type { name, body: second });
            &&& twice == once
            &&& unique_types(twice)
            &&& type_count(twice, name) == 1
        }),
{
    let d = Decl::Type { name, body: first };
    let once = registered(decls, d);
    lemma_registered_unique(decls, d);
    if has_type(decls, name) {
    } else {
        assert(declares(once[decls.len() as int], name));
    }
    assert(has_type(once, name));
    lemma_type_count(once, name);
}

} // verus!
