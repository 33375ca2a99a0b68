//! How a name finds its declaration.

use vstd::prelude::*;

use crate::ast::{Class, Decl, Import, Meta, Type, TypedefTarget};
use crate::copy::dup_metas;
use crate::model::{ClassV, DeclV, ImportV, MetaV, TypeV, TypedefTargetV, decls_v, imports_v, metas_v};
use crate::parser::stmt::{first_or_empty, first_or_empty_spec};
use crate::program::{ClassFacts, ClassFactsV, Module, ModuleV, Program, ProgramV, TypeInfo, TypeInfoV, TypeKind, class_factss_v, modules_v, type_infos_v};
use crate::strings::{split, split_spec};
use crate::text::{dup_texts, empty, same, texts};

verus! {

broadcast use {crate::model::group_model, crate::program::group_program, crate::text::group_texts};

/// The module at an index.
pub fn module_at(prog: &Program, mi: usize) -> (r: Option<&Module>)
    ensures
        (match r { Some(y) => Some(y.v()), None => None }) == module_at_spec(prog.v(), (mi as int)),
{
    if mi < prog.modules.len() {
        Some(&prog.modules[mi])
    } else {
        None
    }
}

/// The package of a module.
pub fn package_of(prog: &Program, mi: usize) -> (r: Vec<String>)
    ensures
        texts(r@) == package_of_spec(prog.v(), (mi as int)),
{
    match module_at(prog, mi) {
        Some(m) => dup_texts(&m.package),
        None => Vec::new(),
    }
}

/// The last part of a path.
pub fn last_of(path: &Vec<String>) -> (r: Option<&String>)
    ensures
        (match r { Some(y) => Some(y@), None => None }) == last_of_spec(texts(path@)),
{
    if path.len() > 0 {
        Some(&path[path.len() - 1])
    } else {
        None
    }
}

/// Whether the last part of a path is `name`.
pub fn last_is(path: &Vec<String>, name: &str) -> (r: bool)
    ensures
        r == last_is_spec(texts(path@), name@),
{
    match last_of(path) {
        Some(l) => same(l, name),
        None => false,
    }
}

/// Whether two paths are the same.
pub open spec fn same_path_spec(a: Seq<Seq<char>>, b: Seq<Seq<char>>) -> bool {
    a == b
}

/// Whether two paths are the same.
pub fn same_path(a: &Vec<String>, b: &Vec<String>) -> (r: bool)
    ensures
        r == same_path_spec(texts(a@), texts(b@)),
{
    if a.len() != b.len() {
        proof {
            assert(texts(a@).len() != texts(b@).len());
        }
        return false;
    }
    let mut i: usize = 0;
    while i < a.len()
        invariant
            i <= a.len(),
            a.len() == b.len(),
            forall|j: int| 0 <= j < i ==> a@[j]@ == b@[j]@,
        decreases a.len() - i,
    {
        if !same(&a[i], &b[i]) {
            proof {
                assert(texts(a@)[i as int] != texts(b@)[i as int]);
            }
            return false;
        }
        i += 1;
    }
    proof {
        assert(texts(a@) =~= texts(b@));
    }
    true
}

/// Whether `b` is `a` without its last part.
pub fn qualifies(a: &Vec<String>, b: &Vec<String>) -> (r: bool)
    ensures
        r == qualifies_spec(texts(a@), texts(b@)),
{
    if a.len() == 0 || a.len() - 1 != b.len() {
        return false;
    }
    agree(a, b, 0)
}

/// Whether the parts of `b` from `i` on are those of `a`.
pub fn agree(a: &Vec<String>, b: &Vec<String>, i: usize) -> (r: bool)
    requires
        b.len() <= a.len(),
    ensures
        r == agree_spec(texts(a@), texts(b@), (i as int)),
{
    let ghost i_0 = i;
    let mut i: usize = i;
    #[verifier::loop_isolation(false)]
    loop
        invariant
            agree_spec(texts(a@), texts(b@), (i_0 as int)) == agree_spec(texts(a@), texts(b@), (i as int)),
        decreases b.len() - i,
    {
        if i >= b.len() {
            return true;
        }
        if !same(&a[i], &b[i]) {
            return false;
        }
        i = i + 1;
    }
}

/// How far a candidate is from the place a name is used at: written out in full, declared
/// in the same module, imported, in the same package, or anywhere.
#[derive(Debug, Clone, Copy, PartialEq, Eq, Structural)]
pub enum Nearness {
    Written,
    SameModule,
    Imported,
    SamePackage,
    Anywhere,
}

/// Whether one of the imports from `i` on brings in the module path of a type.
pub fn imported(imports: &Vec<Import>, name: &str, package: &Vec<String>, i: usize) -> (r: bool)
    ensures
        r == imported_spec(imports_v(imports@), name@, texts(package@), (i as int)),
{
    let ghost i_0 = i;
    let mut i: usize = i;
    #[verifier::loop_isolation(false)]
    loop
        invariant
            imported_spec(imports_v(imports@), name@, texts(package@), (i_0 as int)) == imported_spec(imports_v(imports@), name@, texts(package@), (i as int)),
        decreases imports.len() - i,
    {
        if i >= imports.len() {
            return false;
        }
        if imports[i].wildcard {
            if same_path(&imports[i].path, package) {
                return true;
            }
        } else if last_is(&imports[i].path, name) && qualifies(&imports[i].path, package) {
            return true;
        }
        i = i + 1;
    }
}

/// Whether a type answers to a path at the given nearness, seen from module `mi`.
pub fn answers(prog: &Program, t: &TypeInfo, path: &Vec<String>, mi: usize, how: Nearness) -> (r: bool)
    ensures
        r == answers_spec(prog.v(), t.v(), texts(path@), (mi as int), how),
{
    proof {
        reveal(answers_spec);
    }
    if !last_is(path, &t.name) {
        return false;
    }
    match how {
        Nearness::Written => path.len() > 1 && qualifies(path, &package_of(prog, t.module_index)),
        Nearness::SameModule => t.module_index == mi,
        Nearness::Imported => {
            match module_at(prog, mi) {
                Some(m) => imported(&m.file.imports, &t.name, &package_of(prog, t.module_index), 0),
                None => false,
            }
        },
        Nearness::SamePackage => same_path(&package_of(prog, t.module_index), &package_of(prog, mi)),
        Nearness::Anywhere => true,
    }
}

/// The first type from `i` on that answers to a path.
pub fn find_type<'a>(prog: &'a Program, path: &Vec<String>, mi: usize, how: Nearness, i: usize) -> (r: Option<&'a TypeInfo>)
    ensures
        (match r { Some(y) => Some(y.v()), None => None }) == find_type_spec(prog.v(), texts(path@), (mi as int), how, (i as int)),
{
    let ghost i_0 = i;
    let mut i: usize = i;
    #[verifier::loop_isolation(false)]
    loop
        invariant
            find_type_spec(prog.v(), texts(path@), (mi as int), how, (i_0 as int)) == find_type_spec(prog.v(), texts(path@), (mi as int), how, (i as int)),
        decreases prog.types.len() - i,
    {
        if i >= prog.types.len() {
            return None;
        }
        if answers(prog, &prog.types[i], path, mi, how) {
            return Some(&prog.types[i]);
        }
        i = i + 1;
    }
}

/// The type a path names where it is used in module `mi`: the nearest that answers to it.
pub fn resolve_type<'a>(prog: &'a Program, path: &Vec<String>, mi: usize) -> (r: Option<&'a TypeInfo>)
    ensures
        (match r { Some(y) => Some(y.v()), None => None }) == resolve_type_spec(prog.v(), texts(path@), (mi as int)),
{
    proof {
        reveal(resolve_type_spec);
    }
    match find_type(prog, path, mi, Nearness::Written, 0) {
        Some(t) => Some(t),
        None => match find_type(prog, path, mi, Nearness::SameModule, 0) {
            Some(t) => Some(t),
            None => match find_type(prog, path, mi, Nearness::Imported, 0) {
                Some(t) => Some(t),
                None => match find_type(prog, path, mi, Nearness::SamePackage, 0) {
                    Some(t) => Some(t),
                    None => find_type(prog, path, mi, Nearness::Anywhere, 0),
                },
            },
        },
    }
}

/// The same, as a copy.
pub fn resolved(prog: &Program, path: &Vec<String>, mi: usize) -> (r: Option<TypeInfo>)
    ensures
        (match r { Some(y) => Some(y.v()), None => None }) == resolved_spec(prog.v(), texts(path@), (mi as int)),
{
    match resolve_type(prog, path, mi) {
        Some(t) => Some(t.dup()),
        None => None,
    }
}

/// The type a single name names.
pub fn resolve_name(prog: &Program, name: &str, mi: usize) -> (r: Option<TypeInfo>)
    ensures
        (match r { Some(y) => Some(y.v()), None => None }) == resolve_name_spec(prog.v(), name@, (mi as int)),
{
    let mut path: Vec<String> = Vec::new();
    path.push(name.to_owned());
    resolved(prog, &path, mi)
}

/// The kind of type a declaration declares and its name.
pub fn declares(d: &Decl) -> (r: Option<(TypeKind, String)>)
    ensures
        (match r { Some(y) => Some((y.0, y.1@)), None => None }) == declares_spec(d.v()),
{
    match d {
        Decl::Class(c) => Some((TypeKind::Class, c.name.clone())),
        Decl::Interface(i) => Some((TypeKind::Interface, i.name.clone())),
        Decl::Enum(e) => Some((
            if e.underlying.is_some() { TypeKind::EnumAbstract } else { TypeKind::Enum },
            e.name.clone(),
        )),
        Decl::Typedef(t) => Some((
            if matches!(t.target, TypedefTarget::Struct(_)) { TypeKind::StructTypedef } else { TypeKind::AliasTypedef },
            t.name.clone(),
        )),
        _ => None,
    }
}

/// The metadata of a declaration.
pub fn decl_meta(d: &Decl) -> (r: Vec<Meta>)
    ensures
        metas_v(r@) == decl_meta_spec(d.v()),
{
    match d {
        Decl::Class(c) => dup_metas(&c.meta),
        Decl::Interface(i) => dup_metas(&i.meta),
        Decl::Enum(e) => dup_metas(&e.meta),
        Decl::Typedef(t) => dup_metas(&t.meta),
        Decl::Global(g) => dup_metas(&g.meta),
        Decl::Function(f) => dup_metas(&f.meta),
        Decl::Unsupported { feature: _, line: _ } => Vec::new(),
    }
}

/// The first argument of the metadata `name`, from the entry at `i` on; empty where it has
/// none, `None` where the metadata is not there.
pub fn meta_arg(metas: &Vec<Meta>, name: &str, i: usize) -> (r: Option<String>)
    ensures
        (match r { Some(y) => Some(y@), None => None }) == meta_arg_spec(metas_v(metas@), name@, (i as int)),
{
    let ghost i_0 = i;
    let mut i: usize = i;
    #[verifier::loop_isolation(false)]
    loop
        invariant
            meta_arg_spec(metas_v(metas@), name@, (i_0 as int)) == meta_arg_spec(metas_v(metas@), name@, (i as int)),
        decreases metas.len() - i,
    {
        if i >= metas.len() {
            return None;
        }
        if same(&metas[i].name, name) {
            return Some(first_or_empty(&metas[i].args));
        }
        i = i + 1;
    }
}

/// All parts of a path but the last.
pub fn all_but_last(path: &Vec<String>, i: usize, out: Vec<String>) -> (r: Vec<String>)
    ensures
        texts(r@) == all_but_last_spec(texts(path@), (i as int), texts(out@)),
{
    let ghost i_0 = i;
    let ghost out_0 = out;
    let mut i: usize = i;
    let mut out: Vec<String> = out;
    #[verifier::loop_isolation(false)]
    loop
        invariant
            all_but_last_spec(texts(path@), (i_0 as int), texts(out_0@)) == all_but_last_spec(texts(path@), (i as int), texts(out@)),
        decreases path.len() - i,
    {
        if i >= path.len() || i + 1 >= path.len() {
            return out;
        }
        out.push(path[i].clone());
        i = i + 1;
    }
}

/// The type a declaration of module `mi` declares. `@:native("a.b.C")` says which C++ name
/// and namespace it has; a bare name keeps the namespace of the package.
pub fn info_of(d: &Decl, mi: usize, package: &Vec<String>) -> (r: Option<TypeInfo>)
    ensures
        (match r { Some(y) => Some(y.v()), None => None }) == info_of_spec(d.v(), (mi as int), texts(package@)),
{
    match declares(d) {
        None => None,
        Some((kind, name)) => {
            let native = match meta_arg(&decl_meta(d), "native", 0) {
                Some(n) => n,
                None => String::new(),
            };
            let parts = split(&native, '.');
            let cpp = match last_of(&parts) {
                Some(l) => l.clone(),
                None => String::new(),
            };
            if empty(&cpp) {
                return Some(TypeInfo { cpp: name.clone(), name, kind, module_index: mi, namespace: dup_texts(package) });
            }
            if parts.len() > 1 {
                return Some(TypeInfo { name, kind, module_index: mi, cpp, namespace: all_but_last(&parts, 0, Vec::new()) });
            }
            Some(TypeInfo { name, kind, module_index: mi, cpp, namespace: dup_texts(package) })
        },
    }
}

/// The types that the declarations from `i` on declare.
pub fn infos_of(decls: &Vec<Decl>, mi: usize, package: &Vec<String>, i: usize, out: Vec<TypeInfo>) -> (r: Vec<TypeInfo>)
    ensures
        type_infos_v(r@) == infos_of_spec(decls_v(decls@), (mi as int), texts(package@), (i as int), type_infos_v(out@)),
{
    let ghost i_0 = i;
    let ghost out_0 = out;
    let mut i: usize = i;
    let mut out: Vec<TypeInfo> = out;
    #[verifier::loop_isolation(false)]
    loop
        invariant
            infos_of_spec(decls_v(decls@), (mi as int), texts(package@), (i_0 as int), type_infos_v(out_0@)) == infos_of_spec(decls_v(decls@), (mi as int), texts(package@), (i as int), type_infos_v(out@)),
        decreases decls.len() - i,
    {
        if i >= decls.len() {
            return out;
        }
        match info_of(&decls[i], mi, package) {
            Some(t) => {
                out.push(t);
            },
            None => {},
        }
        i = i + 1;
    }
}

/// Every type the modules declare, in the order of their declarations.
pub fn collect_types(modules: &Vec<Module>, mi: usize, out: Vec<TypeInfo>) -> (r: Vec<TypeInfo>)
    ensures
        type_infos_v(r@) == collect_types_spec(modules_v(modules@), (mi as int), type_infos_v(out@)),
{
    let ghost mi_0 = mi;
    let ghost out_0 = out;
    let mut mi: usize = mi;
    let mut out: Vec<TypeInfo> = out;
    #[verifier::loop_isolation(false)]
    loop
        invariant
            collect_types_spec(modules_v(modules@), (mi_0 as int), type_infos_v(out_0@)) == collect_types_spec(modules_v(modules@), (mi as int), type_infos_v(out@)),
        decreases modules.len() - mi,
    {
        if mi >= modules.len() {
            return out;
        }
        out = infos_of(&modules[mi].file.decls, mi, &modules[mi].package, 0, out);
        mi = mi + 1;
    }
}

/// Whether a declaration is the one a type was made from.
pub fn is_decl_of(d: &Decl, info: &TypeInfo) -> (r: bool)
    ensures
        r == is_decl_of_spec(d.v(), info.v()),
{
    match declares(d) {
        Some((kind, name)) => kind == info.kind && same(&name, &info.name),
        None => false,
    }
}

/// The first declaration from `i` on that a type was made from.
pub fn find_decl<'a>(decls: &'a Vec<Decl>, info: &TypeInfo, i: usize) -> (r: Option<&'a Decl>)
    ensures
        (match r { Some(y) => Some(y.v()), None => None }) == find_decl_spec(decls_v(decls@), info.v(), (i as int)),
{
    let ghost i_0 = i;
    let mut i: usize = i;
    #[verifier::loop_isolation(false)]
    loop
        invariant
            find_decl_spec(decls_v(decls@), info.v(), (i_0 as int)) == find_decl_spec(decls_v(decls@), info.v(), (i as int)),
        decreases decls.len() - i,
    {
        if i >= decls.len() {
            return None;
        }
        if is_decl_of(&decls[i], info) {
            return Some(&decls[i]);
        }
        i = i + 1;
    }
}

/// The declaration of a type.
pub fn type_decl<'a>(prog: &'a Program, info: &TypeInfo) -> (r: Option<&'a Decl>)
    ensures
        (match r { Some(y) => Some(y.v()), None => None }) == type_decl_spec(prog.v(), info.v()),
{
    proof {
        reveal(type_decl_spec);
    }
    match module_at(prog, info.module_index) {
        Some(m) => find_decl(&m.file.decls, info, 0),
        None => None,
    }
}

/// The class a type is, if it is one.
pub fn class_decl<'a>(prog: &'a Program, info: &TypeInfo) -> (r: Option<&'a Class>)
    ensures
        (match r { Some(y) => Some(y.v()), None => None }) == class_decl_spec(prog.v(), info.v()),
{
    proof {
        reveal(class_decl_spec);
    }
    match type_decl(prog, info) {
        Some(Decl::Class(c)) => Some(c),
        _ => None,
    }
}

/// The type a class extends, as the module that declares the class sees it.
pub fn base_info<'a>(prog: &'a Program, class: &Class, mi: usize) -> (r: Option<&'a TypeInfo>)
    ensures
        (match r { Some(y) => Some(y.v()), None => None }) == base_info_spec(prog.v(), class.v(), (mi as int)),
{
    proof {
        reveal(base_info_spec);
    }
    match &class.extends {
        Some(t) => match t.node() {
            Type::Named { path, params: _, optional: _, line: _ } => resolve_type(prog, path, mi),
            _ => None,
        },
        None => None,
    }
}

/// The first facts from `i` on that are of a class of module `mi`.
pub fn find_facts<'a>(facts: &'a Vec<ClassFacts>, name: &str, mi: usize, i: usize) -> (r: Option<&'a ClassFacts>)
    ensures
        (match r { Some(y) => Some(y.v()), None => None }) == find_facts_spec(class_factss_v(facts@), name@, (mi as int), (i as int)),
{
    let ghost i_0 = i;
    let mut i: usize = i;
    #[verifier::loop_isolation(false)]
    loop
        invariant
            find_facts_spec(class_factss_v(facts@), name@, (mi as int), (i_0 as int)) == find_facts_spec(class_factss_v(facts@), name@, (mi as int), (i as int)),
        decreases facts.len() - i,
    {
        if i >= facts.len() {
            return None;
        }
        if same(&facts[i].name, name) && facts[i].module_index == mi {
            return Some(&facts[i]);
        }
        i = i + 1;
    }
}

/// What the ownership analysis says of a class of module `mi`.
pub fn facts_of<'a>(prog: &'a Program, name: &str, mi: usize) -> (r: Option<&'a ClassFacts>)
    ensures
        (match r { Some(y) => Some(y.v()), None => None }) == facts_of_spec(prog.v(), name@, (mi as int)),
{
    find_facts(&prog.facts, name, mi, 0)
}

/// What [`module_at`] computes.
pub open spec fn module_at_spec(prog: ProgramV, mi: int) -> Option<ModuleV>
{
    if mi < (prog.modules.len()) { Some(prog.modules[mi]) } else { None }
}

/// What [`package_of`] computes.
pub open spec fn package_of_spec(prog: ProgramV, mi: int) -> Seq<Seq<char>>
{
    match module_at_spec(prog, mi) {
        Some(m) => { m.package },
        None => { Seq::empty() },
    }
}

/// What [`last_of`] computes.
pub open spec fn last_of_spec(path: Seq<Seq<char>>) -> Option<Seq<char>>
{
    if (path.len()) > 0 { Some(path[(path.len()) - 1]) } else { None }
}

/// What [`last_is`] computes.
pub open spec fn last_is_spec(path: Seq<Seq<char>>, name: Seq<char>) -> bool
{
    match last_of_spec(path) {
        Some(l) => { (l == name) },
        None => { false },
    }
}

/// What [`qualifies`] computes.
pub open spec fn qualifies_spec(a: Seq<Seq<char>>, b: Seq<Seq<char>>) -> bool
{
    if ((a.len()) == 0) || (((a.len()) - 1) != (b.len())) { false } else { agree_spec(a, b, 0int) }
}

/// What [`agree`] computes.
pub open spec fn agree_spec(a: Seq<Seq<char>>, b: Seq<Seq<char>>, i: int) -> bool
    decreases b.len() - i,
{
    if !(0 <= i < b.len()) { true } else {
        if !(a[i] == b[i]) { false } else {
            let i = i + 1;
            agree_spec(a, b, i)
        }
    }
}

/// What [`imported`] computes.
pub open spec fn imported_spec(imports: Seq<ImportV>, name: Seq<char>, package: Seq<Seq<char>>, i: int) -> bool
    decreases imports.len() - i,
{
    if !(0 <= i < imports.len()) { false } else {
        if imports[i].wildcard {
            if same_path_spec(imports[i].path, package) { true } else {
                let i = i + 1;
                imported_spec(imports, name, package, i)
            }
        } else if last_is_spec(imports[i].path, name) && qualifies_spec(imports[i].path, package) { true } else {
            let i = i + 1;
            imported_spec(imports, name, package, i)
        }
    }
}

/// What [`answers`] computes.
#[verifier::opaque]
pub open spec fn answers_spec(prog: ProgramV, t: TypeInfoV, path: Seq<Seq<char>>, mi: int, how: Nearness) -> bool
{
    if !last_is_spec(path, t.name) { false } else {
        match how {
            Nearness::Written => {
                ((path.len()) > 1) && (qualifies_spec(path, package_of_spec(prog, t.module_index)))
            },
            Nearness::SameModule => { t.module_index == mi },
            Nearness::Imported => {
                match module_at_spec(prog, mi) {
                    Some(m) => {
                        imported_spec(m.file.imports, t.name, package_of_spec(prog, t.module_index), 0int)
                    },
                    None => { false },
                }
            },
            Nearness::SamePackage => { same_path_spec(package_of_spec(prog, t.module_index), package_of_spec(prog, mi)) },
            Nearness::Anywhere => { true },
        }
    }
}

/// What [`find_type`] computes.
pub open spec fn find_type_spec(prog: ProgramV, path: Seq<Seq<char>>, mi: int, how: Nearness, i: int) -> Option<TypeInfoV>
    decreases prog.types.len() - i,
{
    if !(0 <= i < prog.types.len()) { None } else {
        if answers_spec(prog, prog.types[i], path, mi, how) { Some(prog.types[i]) } else {
            let i = i + 1;
            find_type_spec(prog, path, mi, how, i)
        }
    }
}

/// What [`resolve_type`] computes.
#[verifier::opaque]
pub open spec fn resolve_type_spec(prog: ProgramV, path: Seq<Seq<char>>, mi: int) -> Option<TypeInfoV>
{
    match find_type_spec(prog, path, mi, Nearness::Written, 0int) {
        Some(t) => { Some(t) },
        None => {
            match find_type_spec(prog, path, mi, Nearness::SameModule, 0int) {
                Some(t) => { Some(t) },
                None => {
                    match find_type_spec(prog, path, mi, Nearness::Imported, 0int) {
                        Some(t) => { Some(t) },
                        None => {
                            match find_type_spec(prog, path, mi, Nearness::SamePackage, 0int) {
                                Some(t) => { Some(t) },
                                None => { find_type_spec(prog, path, mi, Nearness::Anywhere, 0int) },
                            }
                        },
                    }
                },
            }
        },
    }
}

/// What [`resolved`] computes.
pub open spec fn resolved_spec(prog: ProgramV, path: Seq<Seq<char>>, mi: int) -> Option<TypeInfoV>
{
    match resolve_type_spec(prog, path, mi) {
        Some(t) => { Some(t) },
        None => { None },
    }
}

/// What [`resolve_name`] computes.
pub open spec fn resolve_name_spec(prog: ProgramV, name: Seq<char>, mi: int) -> Option<TypeInfoV>
{
    let path: Seq<Seq<char>> = Seq::empty();
    let path = path.push(name);
    resolved_spec(prog, path, mi)
}

/// What [`declares`] computes.
pub open spec fn declares_spec(d: DeclV) -> Option<(TypeKind, Seq<char>)>
{
    match d {
        DeclV::Class(c) => { Some((TypeKind::Class, c.name)) },
        DeclV::Interface(i) => { Some((TypeKind::Interface, i.name)) },
        DeclV::Enum(e) => {
            Some((if e.underlying is Some { TypeKind::EnumAbstract } else { TypeKind::Enum }, e.name))
        },
        DeclV::Typedef(t) => {
            Some((if (match t.target { TypedefTargetV::Struct(_) => true, _ => false }) { TypeKind::StructTypedef } else { TypeKind::AliasTypedef }, t.name))
        },
        _ => { None },
    }
}

/// What [`decl_meta`] computes.
pub open spec fn decl_meta_spec(d: DeclV) -> Seq<MetaV>
{
    match d {
        DeclV::Class(c) => { c.meta },
        DeclV::Interface(i) => { i.meta },
        DeclV::Enum(e) => { e.meta },
        DeclV::Typedef(t) => { t.meta },
        DeclV::Global(g) => { g.meta },
        DeclV::Function(f) => { f.meta },
        DeclV::Unsupported { feature: _, line: _ } => { Seq::empty() },
    }
}

/// What [`meta_arg`] computes.
pub open spec fn meta_arg_spec(metas: Seq<MetaV>, name: Seq<char>, i: int) -> Option<Seq<char>>
    decreases metas.len() - i,
{
    if !(0 <= i < metas.len()) { None } else {
        if (metas[i].name == name) { Some(first_or_empty_spec(metas[i].args)) } else {
            let i = i + 1;
            meta_arg_spec(metas, name, i)
        }
    }
}

/// What [`all_but_last`] computes.
pub open spec fn all_but_last_spec(path: Seq<Seq<char>>, i: int, out: Seq<Seq<char>>) -> Seq<Seq<char>>
    decreases path.len() - i,
{
    if !(0 <= i < path.len()) || ((i + 1) >= (path.len())) { out } else {
        let out = out.push(path[i]);
        let i = i + 1;
        all_but_last_spec(path, i, out)
    }
}

/// What [`info_of`] computes.
pub open spec fn info_of_spec(d: DeclV, mi: int, package: Seq<Seq<char>>) -> Option<TypeInfoV>
{
    match declares_spec(d) {
        None => { None },
        Some((kind, name)) => {
            let native = match meta_arg_spec(decl_meta_spec(d), "native"@, 0int) {
                Some(n) => { n },
                None => { Seq::empty() },
            };
            let parts = split_spec(native, '.');
            let cpp = match last_of_spec(parts) {
                Some(l) => { l },
                None => { Seq::empty() },
            };
            if ((cpp).len() == 0) { Some(TypeInfoV { cpp: name, name, kind, module_index: mi, namespace: package }) } else {
                if (parts.len()) > 1 { Some(TypeInfoV { name, kind, module_index: mi, cpp, namespace: all_but_last_spec(parts, 0int, Seq::empty()) }) } else { Some(TypeInfoV { name, kind, module_index: mi, cpp, namespace: package }) }
            }
        },
    }
}

/// What [`infos_of`] computes.
pub open spec fn infos_of_spec(decls: Seq<DeclV>, mi: int, package: Seq<Seq<char>>, i: int, out: Seq<TypeInfoV>) -> Seq<TypeInfoV>
    decreases decls.len() - i,
{
    if !(0 <= i < decls.len()) { out } else {
        let out = match info_of_spec(decls[i], mi, package) {
            Some(t) => {
                let out = out.push(t);
                out
            },
            None => { out },
        };
        let i = i + 1;
        infos_of_spec(decls, mi, package, i, out)
    }
}

/// What [`collect_types`] computes.
pub open spec fn collect_types_spec(modules: Seq<ModuleV>, mi: int, out: Seq<TypeInfoV>) -> Seq<TypeInfoV>
    decreases modules.len() - mi,
{
    if !(0 <= mi < modules.len()) { out } else {
        let out = infos_of_spec(modules[mi].file.decls, mi, modules[mi].package, 0int, out);
        let mi = mi + 1;
        collect_types_spec(modules, mi, out)
    }
}

/// What [`is_decl_of`] computes.
pub open spec fn is_decl_of_spec(d: DeclV, info: TypeInfoV) -> bool
{
    match declares_spec(d) {
        Some((kind, name)) => { (kind == info.kind) && (name == info.name) },
        None => { false },
    }
}

/// What [`find_decl`] computes.
pub open spec fn find_decl_spec(decls: Seq<DeclV>, info: TypeInfoV, i: int) -> Option<DeclV>
    decreases decls.len() - i,
{
    if !(0 <= i < decls.len()) { None } else {
        if is_decl_of_spec(decls[i], info) { Some(decls[i]) } else {
            let i = i + 1;
            find_decl_spec(decls, info, i)
        }
    }
}

/// What [`type_decl`] computes.
#[verifier::opaque]
pub open spec fn type_decl_spec(prog: ProgramV, info: TypeInfoV) -> Option<DeclV>
{
    match module_at_spec(prog, info.module_index) {
        Some(m) => { find_decl_spec(m.file.decls, info, 0int) },
        None => { None },
    }
}

/// What [`class_decl`] computes.
#[verifier::opaque]
pub open spec fn class_decl_spec(prog: ProgramV, info: TypeInfoV) -> Option<ClassV>
{
    match type_decl_spec(prog, info) {
        Some(DeclV::Class(c)) => { Some(*c) },
        _ => { None },
    }
}

/// What [`base_info`] computes.
#[verifier::opaque]
pub open spec fn base_info_spec(prog: ProgramV, class: ClassV, mi: int) -> Option<TypeInfoV>
{
    match class.extends {
        Some(t) => {
            match t {
                TypeV::Named { path, params: _, optional: _, line: _ } => { resolve_type_spec(prog, path, mi) },
                _ => { None },
            }
        },
        None => { None },
    }
}

/// What [`find_facts`] computes.
pub open spec fn find_facts_spec(facts: Seq<ClassFactsV>, name: Seq<char>, mi: int, i: int) -> Option<ClassFactsV>
    decreases facts.len() - i,
{
    if !(0 <= i < facts.len()) { None } else {
        if (facts[i].name == name) && ((facts[i].module_index) == mi) { Some(facts[i]) } else {
            let i = i + 1;
            find_facts_spec(facts, name, mi, i)
        }
    }
}

/// What [`facts_of`] computes.
pub open spec fn facts_of_spec(prog: ProgramV, name: Seq<char>, mi: int) -> Option<ClassFactsV>
{
    find_facts_spec(prog.facts, name, mi, 0int)
}

} // verus!
