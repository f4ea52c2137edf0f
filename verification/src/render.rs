//! Rendering of the interface description: one module declaration that
//! holds a line for every function, exported binding and type of the
//! registry, in registration order, and one `Events` dictionary for the
//! events.

use crate::decl::{decl_views, texts, Decl, DeclType, Registry};
use crate::text::{decimal, push_decimal};
use vstd::prelude::*;
use vstd::string::StringExecFns;

verus! {

/// `parts` with `separator` between every two neighbours.
pub open spec fn join(parts: Seq<Seq<char>>, separator: Seq<char>) -> Seq<char>
    decreases parts.len(),
{
    if parts.len() == 0 {
        Seq::empty()
    } else if parts.len() == 1 {
        parts[0]
    } else {
        join(parts.drop_last(), separator) + separator + parts.last()
    }
}

/// The parameter at position `index` with type `ty`: `arg_<index>: <ty>`.
pub open spec fn parameter(index: nat, ty: Seq<char>) -> Seq<char> {
    "arg_"@ + decimal(index) + ": "@ + ty
}

/// The parameters of a function, one for each of `args`, numbered from zero.
pub open spec fn parameters(args: Seq<Seq<char>>) -> Seq<Seq<char>> {
    Seq::new(args.len(), |i: int| parameter(i as nat, args[i]))
}

/// The line of a declaration that is no event.
pub open spec fn member_line(decl: Decl) -> Seq<char> {
    match decl {
        Decl::Function { name, args, ret } => "  function "@ + name + "("@ + join(
            parameters(args),
            ", "@,
        ) + "): "@ + ret + ";"@,
        Decl::Export { name, ty } => "  const "@ + name + ": "@ + ty + ";"@,
        Decl::Type { name, body } => "  type "@ + name + " = "@ + body + ";"@,
        Decl::Event { .. } => Seq::empty(),
    }
}

/// The lines of the declarations that are no events, in order.
pub open spec fn member_lines(decls: Seq<Decl>) -> Seq<Seq<char>>
    decreases decls.len(),
{
    if decls.len() == 0 {
        Seq::empty()
    } else if decls.last() is Event {
        member_lines(decls.drop_last())
    } else {
        member_lines(decls.drop_last()).push(member_line(decls.last()))
    }
}

/// The entries of the `Events` dictionary: for every event, in order, a line
/// break, the event's name and the name of its payload type.
pub open spec fn event_entries(decls: Seq<Decl>) -> Seq<char>
    decreases decls.len(),
{
    if decls.len() == 0 {
        Seq::empty()
    } else {
        event_entries(decls.drop_last()) + match decls.last() {
            Decl::Event { name, payload } => "\n    "@ + name + ": "@ + payload,
            _ => Seq::empty(),
        }
    }
}

/// The interface description of a registry that holds `decls`.
pub open spec fn rendered(decls: Seq<Decl>) -> Seq<char> {
    "declare module \"@core\"{\n"@ + join(member_lines(decls), "\n"@) + "\n  type Events = {"@
        + "  "@ + event_entries(decls) + "\n  };"@ + "\n}"@
}

/// Appends the parameter list of a function to `out`.
fn push_parameters(out: &mut String, args: &Vec<String>)
    ensures
        final(out)@ == old(out)@ + join(parameters(texts(args@)), ", "@),
{
    let ghost all = parameters(texts(args@));
    let mut i: usize = 0;
    while i < args.len()
        invariant
            i <= args.len(),
            all == parameters(texts(args@)),
            out@ == old(out)@ + join(all.take(i as int), ", "@),
        decreases args.len() - i,
    {
        let ghost before = out@;
        if i > 0 {
            out.append(", ");
        }
        out.append("arg_");
        push_decimal(out, i);
        out.append(": ");
        out.append(args[i].as_str());
        proof {
            let done = all.take(i as int);
            let next = all.take(i + 1);
            assert(next.drop_last() == done);
            assert(next.last() == parameter(i as nat, args@[i as int]@));
            if i == 0 {
                assert(done.len() == 0);
                assert(out@ == before + parameter(0, args@[0]@));
            } else {
                assert(out@ == before + ", "@ + parameter(i as nat, args@[i as int]@));
            }
        }
        i = i + 1;
    }
    assert(all.take(args.len() as int) == all);
}

/// Appends the line of a declaration that is no event to `out`.
fn push_member_line(out: &mut String, decl: &DeclType)
    requires
        !(decl is EventDecl),
    ensures
        final(out)@ == old(out)@ + member_line(decl@),
{
    match decl {
        DeclType::FunctionDecl(name, args, ret) => {
            out.append("  function ");
            out.append(name.as_str());
            out.append("(");
            push_parameters(out, args);
            out.append("): ");
            out.append(ret.as_str());
            out.append(";");
            assert(out@ == old(out)@ + member_line(decl@));
        },
        DeclType::ExportDecl(name, ty) => {
            out.append("  const ");
            out.append(name.as_str());
            out.append(": ");
            out.append(ty.as_str());
            out.append(";");
            assert(out@ == old(out)@ + member_line(decl@));
        },
        DeclType::TypeDecl(name, body) => {
            out.append("  type ");
            out.append(name.as_str());
            out.append(" = ");
            out.append(body.as_str());
            out.append(";");
            assert(out@ == old(out)@ + member_line(decl@));
        },
        DeclType::EventDecl(_, _) => {},
    }
}

/// Renders the interface description from the registry's contents at the
/// time of the call. The registry is left as it is, so the call can be
/// repeated, and a registry without entries gives a module that holds an empty
/// `Events` dictionary and nothing else.
pub fn dts_content(registry: &Registry) -> (text: String)
    ensures
        text@ == rendered(registry@),
{
    let decls = registry.entries();
    let ghost views = registry@;
    let mut members = String::new();
    let mut events = String::new();
    let mut any: bool = false;
    let mut i: usize = 0;
    while i < decls.len()
        invariant
            i <= decls.len(),
            views == decl_views(decls@),
            members@ == join(member_lines(views.take(i as int)), "\n"@),
            any == (member_lines(views.take(i as int)).len() > 0),
            events@ == event_entries(views.take(i as int)),
        decreases decls.len() - i,
    {
        let ghost lines = member_lines(views.take(i as int));
        let ghost before = members@;
        let ghost entries = events@;
        assert(views.take(i + 1).drop_last() == views.take(i as int));
        assert(views.take(i + 1).last() == decls@[i as int]@);
        match &decls[i] {
            DeclType::EventDecl(name, payload) => {
                events.append("\n    ");
                events.append(name.as_str());
                events.append(": ");
                events.append(payload.as_str());
                assert(events@ == entries + ("\n    "@ + name@ + ": "@ + payload@));
            },
            other => {
                if any {
                    members.append("\n");
                }
                push_member_line(&mut members, other);
                proof {
                    let line = member_line(other@);
                    assert(lines.push(line).drop_last() == lines);
                    assert(entries + Seq::<char>::empty() == entries);
                    if lines.len() == 0 {
                        assert(before + line == line);
                    }
                }
                any = true;
            },
        }
        i = i + 1;
    }
    assert(views.take(decls.len() as int) == views);
    let mut text = String::from_str("declare module \"@core\"{\n");
    text.append(members.as_str());
    text.append("\n  type Events = {");
    text.append("  ");
    text.append(events.as_str());
    text.append("\n  };");
    text.append("\n}");
    text
}

} // verus!
