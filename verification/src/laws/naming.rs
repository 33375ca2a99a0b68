//! What declarations are read as, and which of them a name means.

use vstd::prelude::*;

use crate::ast::{Access, Function};
use crate::laws::grammar::{gives, past, sym_next, was_read, word_next};
use crate::model::{ClassV, DeclV, FnModifiersV, FunctionV, ImportV, MetaV, TypeV};
use crate::parser::cursor::{Ctx, Pr, St, peek_spec};
use crate::parser::decls::{MemberV, no_modifiers_spec, parse_class_spec, parse_decl_body_spec, parse_decl_modifiers_spec, parse_function_spec, parse_heritage_spec, parse_member_spec, parse_members_spec, parse_typedef_spec};
use crate::parser::pp::outer_directive_spec;
use crate::parser::types::parse_type_spec;
use crate::program::{ProgramV, TypeInfoV, TypeKind};
use crate::resolve::{Nearness, agree_spec, answers_spec, decl_meta_spec, declares_spec, imported_spec, info_of_spec, last_is_spec, last_of_spec, meta_arg_spec, module_at_spec, package_of_spec, qualifies_spec};
use crate::strings::{split_from_spec, split_spec};
use crate::token::{Kw, Sym};

verus! {

broadcast use {crate::model::group_model, crate::program::group_program, crate::token::group_token, crate::text::group_texts};

proof fn agrees_from(a: Seq<Seq<char>>, b: Seq<Seq<char>>, i: int)
    requires
        0 <= i <= b.len() <= a.len(),
    ensures
        agree_spec(a, b, i) <==> forall|k: int| i <= k < b.len() ==> a[k] == #[trigger] b[k],
    decreases b.len() - i,
{
    if i < b.len() {
        agrees_from(a, b, i + 1);
        if agree_spec(a, b, i) {
            assert(a[i] == b[i]);
        }
    }
}

/// A path names what stands in a package when it is that package and a name behind it.
pub proof fn law_qualified_path(path: Seq<Seq<char>>, package: Seq<Seq<char>>)
    ensures
        qualifies_spec(path, package) <==> path.len() > 0 && path.drop_last() == package,
{
    if path.len() > 0 && path.len() - 1 == package.len() {
        agrees_from(path, package, 0);
        if qualifies_spec(path, package) {
            assert(path.drop_last() =~= package);
        }
        if path.drop_last() == package {
            assert forall|k: int| 0 <= k < package.len() implies path[k] == #[trigger] package[k] by {
                assert(path.drop_last()[k] == package[k]);
            }
        }
    }
}

/// Whether an import brings in a name of a package: it names all of the package, or it.
pub open spec fn brings_in(import: ImportV, name: Seq<char>, package: Seq<Seq<char>>) -> bool {
    if import.wildcard {
        import.path == package
    } else {
        import.path == package.push(name)
    }
}

proof fn one_import(import: ImportV, name: Seq<char>, package: Seq<Seq<char>>)
    ensures
        !import.wildcard ==> (last_is_spec(import.path, name) && qualifies_spec(import.path, package) <==> brings_in(import, name, package)),
{
    law_qualified_path(import.path, package);
    let path = import.path;
    if path.len() > 0 {
        assert(path =~= path.drop_last().push(path.last()));
    }
    assert(package.push(name).drop_last() =~= package);
    assert(package.push(name).last() == name);
}

/// A name is imported when one of the imports brings it in.
pub proof fn law_imported_names(imports: Seq<ImportV>, name: Seq<char>, package: Seq<Seq<char>>, i: int)
    requires
        0 <= i <= imports.len(),
    ensures
        imported_spec(imports, name, package, i) <==> exists|k: int| i <= k < imports.len() && brings_in(#[trigger] imports[k], name, package),
    decreases imports.len() - i,
{
    if i < imports.len() {
        one_import(imports[i], name, package);
        law_imported_names(imports, name, package, i + 1);
        if brings_in(imports[i], name, package) {
            assert(imported_spec(imports, name, package, i));
        }
    }
}

/// How near a type is to where it is named: written out in full, declared in the same module,
/// imported there, of the same package, or of the same name alone.
pub proof fn law_nearness(prog: ProgramV, t: TypeInfoV, path: Seq<Seq<char>>, mi: int)
    requires
        path.len() > 0,
    ensures
        ({
            let named = path.last() == t.name;
            let home = package_of_spec(prog, t.module_index);
            &&& answers_spec(prog, t, path, mi, Nearness::Written) <==> named && path.len() > 1 && path.drop_last() == home
            &&& answers_spec(prog, t, path, mi, Nearness::SameModule) <==> named && t.module_index == mi
            &&& answers_spec(prog, t, path, mi, Nearness::Imported) <==> named && (module_at_spec(prog, mi) matches Some(m) && exists|k: int|
                0 <= k < m.file.imports.len() && brings_in(#[trigger] m.file.imports[k], t.name, home))
            &&& answers_spec(prog, t, path, mi, Nearness::SamePackage) <==> named && home == package_of_spec(prog, mi)
            &&& answers_spec(prog, t, path, mi, Nearness::Anywhere) <==> named
        }),
{
    reveal(answers_spec);
    let home = package_of_spec(prog, t.module_index);
    law_qualified_path(path, home);
    match module_at_spec(prog, mi) {
        Some(m) => {
            law_imported_names(m.file.imports, t.name, home, 0);
        },
        None => {},
    }
}

/// What kind of type a declaration declares, under its name; functions and variables declare
/// none.
pub proof fn law_declared_kinds(d: DeclV)
    ensures
        d matches DeclV::Class(c) ==> declares_spec(d) == Some((TypeKind::Class, c.name)),
        d matches DeclV::Interface(i) ==> declares_spec(d) == Some((TypeKind::Interface, i.name)),
        d matches DeclV::Enum(e) ==> declares_spec(d) == Some((if e.underlying is Some { TypeKind::EnumAbstract } else { TypeKind::Enum }, e.name)),
        d matches DeclV::Typedef(t) ==> declares_spec(d) == Some(
            (if t.target is Struct { TypeKind::StructTypedef } else { TypeKind::AliasTypedef }, t.name),
        ),
        d is Function || d is Global || d is Unsupported ==> declares_spec(d) is None,
{
    reveal(declares_spec);
}

/// A type that is not marked otherwise has its own name in C++, in the namespace of its package.
pub proof fn law_names_are_kept(d: DeclV, mi: int, package: Seq<Seq<char>>, kind: TypeKind, name: Seq<char>)
    requires
        declares_spec(d) == Some((kind, name)),
        meta_arg_spec(decl_meta_spec(d), "native"@, 0) is None,
    ensures
        info_of_spec(d, mi, package) == Some(TypeInfoV { name, cpp: name, kind, module_index: mi, namespace: package }),
{
    empty_parts();
}

proof fn empty_parts()
    ensures
        last_of_spec(split_spec(Seq::empty(), '.')) matches Some(l) ==> l.len() == 0,
{
    reveal(split_spec);
    reveal_with_fuel(split_from_spec, 2);
}

/// A declaration is told by the word behind its modifiers.
pub proof fn law_declarations(c: Ctx, st: St, meta: Seq<MetaV>, m: FnModifiersV, final_class: bool, abstract_class: bool, access: Access, s1: St, class: ClassV, func: FunctionV, s2: St)
    requires
        parse_decl_modifiers_spec(c, st, no_modifiers_spec(), false, false, Access::Default) == Pr::Done((m, final_class, abstract_class, access), s1),
        st.pos <= s1.pos < c.toks.len(),
    ensures
        word_next(c, s1, Kw::Class) && parse_class_spec(c, s1, meta, m.is_extern, final_class, abstract_class) == Pr::Done(class, s2) ==> gives(
            parse_decl_body_spec(c, st, meta),
            DeclV::Class(Box::new(class)),
            s2,
        ),
        word_next(c, s1, Kw::Function) && parse_function_spec(c, s1, meta, access, m) == Pr::Done(func, s2) ==> gives(
            parse_decl_body_spec(c, st, meta),
            DeclV::Function(func),
            s2,
        ),
        word_next(c, s1, Kw::Typedef) ==> parse_decl_body_spec(c, st, meta) == parse_typedef_spec(c, s1, meta),
{
    reveal(parse_decl_body_spec);
}

/// A class extends what follows `extends` and implements all that follow `implements`.
pub proof fn law_heritage(c: Ctx, st: St, extends: Option<TypeV>, implements: Seq<TypeV>, t: TypeV, s1: St)
    ensures
        word_next(c, st, Kw::Extends) && was_read(c, past(st), parse_type_spec(c, past(st)), t, s1) ==> parse_heritage_spec(c, st, extends, implements)
            == parse_heritage_spec(c, s1, Some(t), implements),
        word_next(c, st, Kw::Implements) && was_read(c, past(st), parse_type_spec(c, past(st)), t, s1) ==> parse_heritage_spec(
            c,
            st,
            extends,
            implements,
        ) == parse_heritage_spec(c, s1, extends, implements.push(t)),
        !word_next(c, st, Kw::Extends) && !word_next(c, st, Kw::Implements) ==> gives(
            parse_heritage_spec(c, st, extends, implements),
            (extends, implements),
            st,
        ),
{
    reveal(parse_heritage_spec);
}

/// A member joins its class: a field its fields, a method its methods, in their order, and a
/// method without a name is the constructor.
pub proof fn law_members_join(c: Ctx, st: St, class: ClassV, m: MemberV, s1: St)
    requires
        !sym_next(c, st, Sym::RBrace) && !sym_next(c, st, Sym::Semi) && !(peek_spec(c, st) is Eof),
        outer_directive_spec(c, st) == Pr::Done(false, st),
        st.pos < c.toks.len(),
        was_read(c, st, parse_member_spec(c, st), m, s1),
    ensures
        m matches MemberV::Field(f) ==> parse_members_spec(c, st, class) == parse_members_spec(
            c,
            s1,
            ClassV { fields: class.fields.push(f), ..class },
        ),
        m matches MemberV::Method(f) ==> parse_members_spec(c, st, class) == parse_members_spec(
            c,
            s1,
            if f.name is None {
                ClassV { ctor: Some(f), ..class }
            } else {
                ClassV { methods: class.methods.push(f), ..class }
            },
        ),
{
    reveal(parse_members_spec);
}

} // verus!
