//! Making a program of parsed files.

use vstd::prelude::*;

use crate::ast::{Decl, Import, Meta};
use crate::codegen::hdecls::{is_emitted_type, is_emitted_type_spec};
use crate::codegen::modfns::{is_plain_fn, is_plain_fn_spec};
use crate::codegen::refs::{header_type_refs, header_type_refs_spec, opt_type_names, opt_type_names_spec, type_names_of, type_names_of_spec};
use crate::codegen::scan::{with_name, with_name_spec};
use crate::model::{DeclV, ImportV, MetaV, decls_v, imports_v, metas_v};
use crate::parser::types::{meta_has, meta_has_spec};
use crate::program::{Module, ModuleV, Program, ProgramV, Unit, UnitV, modules_v, units_v};
use crate::resolve::{collect_types, collect_types_spec, decl_meta, decl_meta_spec, last_of, last_of_spec, resolve_name, resolve_name_spec, same_path, same_path_spec};
use crate::strings::{join, join_spec};
use crate::text::{cat2, cat4, dup_texts, same, texts};

verus! {

broadcast use {crate::model::group_model, crate::program::group_program, crate::text::group_texts};

/// Whether a declaration puts anything into a header.
pub fn is_header_decl(d: &Decl) -> (r: bool)
    ensures
        r == is_header_decl_spec(d.v()),
{
    match d {
        Decl::Global(g) => g.is_final && !g.is_extern,
        Decl::Function(f) => is_plain_fn(f) || meta_has(&f.meta, "cexport"),
        _ => is_emitted_type(d),
    }
}

/// Whether one of the declarations from `i` on puts anything into a header.
pub fn any_header_decl(decls: &Vec<Decl>, i: usize) -> (r: bool)
    ensures
        r == any_header_decl_spec(decls_v(decls@), (i as int)),
{
    let ghost i_0 = i;
    let mut i: usize = i;
    #[verifier::loop_isolation(false)]
    loop
        invariant
            any_header_decl_spec(decls_v(decls@), (i_0 as int)) == any_header_decl_spec(decls_v(decls@), (i as int)),
        decreases decls.len() - i,
    {
        if i >= decls.len() {
            return false;
        }
        if is_header_decl(&decls[i]) {
            return true;
        }
        i = i + 1;
    }
}

/// The modules of the files from `i` on, nothing included yet.
pub fn modules_of(units: &Vec<Unit>, stdafx_stem: &str, i: usize, out: Vec<Module>) -> (r: Vec<Module>)
    ensures
        modules_v(r@) == modules_of_spec(units_v(units@), stdafx_stem@, (i as int), modules_v(out@)),
{
    let ghost i_0 = i;
    let ghost out_0 = out;
    let mut i: usize = i;
    let mut out: Vec<Module> = out;
    #[verifier::loop_isolation(false)]
    loop
        invariant
            modules_of_spec(units_v(units@), stdafx_stem@, (i_0 as int), modules_v(out_0@)) == modules_of_spec(units_v(units@), stdafx_stem@, (i as int), modules_v(out@)),
        decreases units.len() - i,
    {
        if i >= units.len() {
            return out;
        }
        let is_stdafx = same(&units[i].stem, stdafx_stem);
        out.push(Module {
            stem: units[i].stem.clone(),
            dir: dup_texts(&units[i].dir),
            package: dup_texts(&units[i].file.package),
            file: units[i].file.dup(),
            is_stdafx,
            is_include: units[i].is_include,
            has_header: !is_stdafx && any_header_decl(&units[i].file.decls, 0),
            includes: Vec::new(),
        });
        i = i + 1;
    }
}

// ---- includes ------------------------------------------------------------

/// The names a class or an interface extends or implements, added to `out`.
pub fn base_names(d: &Decl, out: Vec<String>) -> (r: Vec<String>)
    ensures
        texts(r@) == base_names_spec(d.v(), texts(out@)),
{
    match d {
        Decl::Class(c) => type_names_of(&c.implements, 0, opt_type_names(&c.extends, out)),
        Decl::Interface(it) => type_names_of(&it.extends, 0, out),
        _ => out,
    }
}

/// The type names the declarations from `i` on mention.
pub fn mentioned(decls: &Vec<Decl>, i: usize, out: Vec<String>) -> (r: Vec<String>)
    ensures
        texts(r@) == mentioned_spec(decls_v(decls@), (i as int), texts(out@)),
{
    let ghost i_0 = i;
    let ghost out_0 = out;
    let mut i: usize = i;
    let mut out: Vec<String> = out;
    #[verifier::loop_isolation(false)]
    loop
        invariant
            mentioned_spec(decls_v(decls@), (i_0 as int), texts(out_0@)) == mentioned_spec(decls_v(decls@), (i as int), texts(out@)),
        decreases decls.len() - i,
    {
        if i >= decls.len() {
            return out;
        }
        out = base_names(&decls[i], header_type_refs(&decls[i], out));
        i = i + 1;
    }
}

/// The names the imports from `i` on bring in.
pub fn imported_names(imports: &Vec<Import>, i: usize, out: Vec<String>) -> (r: Vec<String>)
    ensures
        texts(r@) == imported_names_spec(imports_v(imports@), (i as int), texts(out@)),
{
    let ghost i_0 = i;
    let ghost out_0 = out;
    let mut i: usize = i;
    let mut out: Vec<String> = out;
    #[verifier::loop_isolation(false)]
    loop
        invariant
            imported_names_spec(imports_v(imports@), (i_0 as int), texts(out_0@)) == imported_names_spec(imports_v(imports@), (i as int), texts(out@)),
        decreases imports.len() - i,
    {
        if i >= imports.len() {
            return out;
        }
        match last_of(&imports[i].path) {
            Some(n) => {
                out = with_name(out, n);
            },
            None => {},
        }
        i = i + 1;
    }
}

/// Whether one of the names from `i` on is a type of module `mj`, as module `mi` sees it.
pub fn names_module(prog: &Program, mi: usize, mj: usize, names: &Vec<String>, i: usize) -> (r: bool)
    ensures
        r == names_module_spec(prog.v(), (mi as int), (mj as int), texts(names@), (i as int)),
{
    let ghost i_0 = i;
    let mut i: usize = i;
    #[verifier::loop_isolation(false)]
    loop
        invariant
            names_module_spec(prog.v(), (mi as int), (mj as int), texts(names@), (i_0 as int)) == names_module_spec(prog.v(), (mi as int), (mj as int), texts(names@), (i as int)),
        decreases names.len() - i,
    {
        if i >= names.len() {
            return false;
        }
        match resolve_name(prog, &names[i], mi) {
            Some(info) => {
                if info.module_index == mj {
                    return true;
                }
            },
            None => {},
        }
        i = i + 1;
    }
}

/// As many steps up as there are directories.
pub fn steps_up(n: usize, out: String) -> (r: String)
    ensures
        r@ == steps_up_spec((n as int), out@),
{
    let ghost n_0 = n;
    let ghost out_0 = out;
    let mut n: usize = n;
    let mut out: String = out;
    #[verifier::loop_isolation(false)]
    loop
        invariant
            steps_up_spec((n_0 as int), out_0@) == steps_up_spec((n as int), out@),
        decreases n,
    {
        if n < 1 {
            return out;
        }
        out = cat2(&out, "../");
        n = n - 1;
    }
}

/// A directory as the front of a path.
pub fn dir_prefix(dir: &Vec<String>) -> (r: String)
    ensures
        r@ == dir_prefix_spec(texts(dir@)),
{
    if dir.len() == 0 {
        String::new()
    } else {
        cat2(&join(dir, "/"), "/")
    }
}

/// The path from a file of one directory to a header of another.
pub fn header_path(from: &Vec<String>, dir: &Vec<String>, stem: &str) -> (r: String)
    ensures
        r@ == header_path_spec(texts(from@), texts(dir@), stem@),
{
    if same_path(from, dir) {
        cat2(stem, ".h")
    } else {
        cat4(&steps_up(from.len(), String::new()), &dir_prefix(dir), stem, ".h")
    }
}

/// The `@:include` headers of the metadata from `i` on.
pub fn meta_includes(metas: &Vec<Meta>, i: usize, out: Vec<String>) -> (r: Vec<String>)
    ensures
        texts(r@) == meta_includes_spec(metas_v(metas@), (i as int), texts(out@)),
{
    let ghost i_0 = i;
    let ghost out_0 = out;
    let mut i: usize = i;
    let mut out: Vec<String> = out;
    #[verifier::loop_isolation(false)]
    loop
        invariant
            meta_includes_spec(metas_v(metas@), (i_0 as int), texts(out_0@)) == meta_includes_spec(metas_v(metas@), (i as int), texts(out@)),
        decreases metas.len() - i,
    {
        if i >= metas.len() {
            return out;
        }
        if same(&metas[i].name, "include") && metas[i].args.len() > 0 {
            out = with_name(out, &metas[i].args[0]);
        }
        i = i + 1;
    }
}

/// The `@:include` headers of the declarations from `i` on.
pub fn decl_includes(decls: &Vec<Decl>, i: usize, out: Vec<String>) -> (r: Vec<String>)
    ensures
        texts(r@) == decl_includes_spec(decls_v(decls@), (i as int), texts(out@)),
{
    let ghost i_0 = i;
    let ghost out_0 = out;
    let mut i: usize = i;
    let mut out: Vec<String> = out;
    #[verifier::loop_isolation(false)]
    loop
        invariant
            decl_includes_spec(decls_v(decls@), (i_0 as int), texts(out_0@)) == decl_includes_spec(decls_v(decls@), (i as int), texts(out@)),
        decreases decls.len() - i,
    {
        if i >= decls.len() {
            return out;
        }
        out = meta_includes(&decl_meta(&decls[i]), 0, out);
        i = i + 1;
    }
}

/// What the header of module `mi` includes of the modules from `j` on: the header of one it
/// needs, and what that one asks to be included.
pub fn module_includes(prog: &Program, mi: usize, dir: &Vec<String>, names: &Vec<String>, j: usize, out: Vec<String>) -> (r: Vec<String>)
    ensures
        texts(r@) == module_includes_spec(prog.v(), (mi as int), texts(dir@), texts(names@), (j as int), texts(out@)),
{
    let ghost j_0 = j;
    let ghost out_0 = out;
    let mut j: usize = j;
    let mut out: Vec<String> = out;
    #[verifier::loop_isolation(false)]
    loop
        invariant
            module_includes_spec(prog.v(), (mi as int), texts(dir@), texts(names@), (j_0 as int), texts(out_0@)) == module_includes_spec(prog.v(), (mi as int), texts(dir@), texts(names@), (j as int), texts(out@)),
        decreases prog.modules.len() - j,
    {
        if j >= prog.modules.len() {
            return out;
        }
        if j == mi {
            out = decl_includes(&prog.modules[j].file.decls, 0, out);
        } else if names_module(prog, mi, j, names, 0) {
            out = decl_includes(&prog.modules[j].file.decls, 0, out);
            if prog.modules[j].has_header && !prog.modules[j].is_include {
                out = with_name(out, &header_path(dir, &prog.modules[j].dir, &prog.modules[j].stem));
            }
        }
        j = j + 1;
    }
}

/// What the header of a module includes: the prelude first.
pub fn header_includes(prog: &Program, mi: usize, m: &Module) -> (r: Vec<String>)
    ensures
        texts(r@) == header_includes_spec(prog.v(), (mi as int), m.v()),
{
    proof {
        reveal(header_includes_spec);
    }
    let mut first: Vec<String> = Vec::new();
    first.push(cat2(&prog.stdafx_stem, ".h"));
    let names = imported_names(&m.file.imports, 0, mentioned(&m.file.decls, 0, Vec::new()));
    module_includes(prog, mi, &m.dir, &names, 0, first)
}

/// The modules from `i` on with what they include.
pub fn with_includes(prog: &Program, i: usize, out: Vec<Module>) -> (r: Vec<Module>)
    ensures
        modules_v(r@) == with_includes_spec(prog.v(), (i as int), modules_v(out@)),
{
    let ghost i_0 = i;
    let ghost out_0 = out;
    let mut i: usize = i;
    let mut out: Vec<Module> = out;
    #[verifier::loop_isolation(false)]
    loop
        invariant
            with_includes_spec(prog.v(), (i_0 as int), modules_v(out_0@)) == with_includes_spec(prog.v(), (i as int), modules_v(out@)),
        decreases prog.modules.len() - i,
    {
        if i >= prog.modules.len() {
            return out;
        }
        let m = &prog.modules[i];
        let includes = header_includes(prog, i, m);
        out.push(Module {
            stem: m.stem.clone(),
            dir: dup_texts(&m.dir),
            package: dup_texts(&m.package),
            file: m.file.dup(),
            is_stdafx: m.is_stdafx,
            is_include: m.is_include,
            has_header: m.has_header,
            includes,
        });
        i = i + 1;
    }
}

/// A program of the given files. Nothing is known of who owns what: that is for an analysis
/// to add.
pub fn build_program(units: &Vec<Unit>, stdafx_stem: &str, export_macro: &str, no_trace: bool, extract_depth: usize) -> (r: Program)
    ensures
        r.v() == build_program_spec(units_v(units@), stdafx_stem@, export_macro@, no_trace, (extract_depth as int)),
{
    proof {
        reveal(build_program_spec);
    }
    let modules = modules_of(units, stdafx_stem, 0, Vec::new());
    let types = collect_types(&modules, 0, Vec::new());
    let bare = Program {
        modules,
        types,
        facts: Vec::new(),
        stdafx_stem: stdafx_stem.to_owned(),
        export_macro: export_macro.to_owned(),
        no_trace,
        extract_depth,
    };
    let full = with_includes(&bare, 0, Vec::new());
    Program {
        modules: full,
        types: bare.types,
        facts: Vec::new(),
        stdafx_stem: stdafx_stem.to_owned(),
        export_macro: export_macro.to_owned(),
        no_trace,
        extract_depth,
    }
}

/// What [`is_header_decl`] computes.
pub open spec fn is_header_decl_spec(d: DeclV) -> bool
{
    match d {
        DeclV::Global(g) => { g.is_final && (!g.is_extern) },
        DeclV::Function(f) => { is_plain_fn_spec(f) || meta_has_spec(f.meta, "cexport"@) },
        _ => { is_emitted_type_spec(d) },
    }
}

/// What [`any_header_decl`] computes.
pub open spec fn any_header_decl_spec(decls: Seq<DeclV>, i: int) -> bool
    decreases decls.len() - i,
{
    if !(0 <= i < decls.len()) { false } else {
        if is_header_decl_spec(decls[i]) { true } else {
            let i = i + 1;
            any_header_decl_spec(decls, i)
        }
    }
}

/// What [`modules_of`] computes.
pub open spec fn modules_of_spec(units: Seq<UnitV>, stdafx_stem: Seq<char>, i: int, out: Seq<ModuleV>) -> Seq<ModuleV>
    decreases units.len() - i,
{
    if !(0 <= i < units.len()) { out } else {
        let is_stdafx = (units[i].stem == stdafx_stem);
        let out = out.push(ModuleV { stem: units[i].stem, dir: units[i].dir, package: units[i].file.package, file: units[i].file, is_stdafx, is_include: units[i].is_include, has_header: (!is_stdafx) && any_header_decl_spec(units[i].file.decls, 0int), includes: Seq::empty() });
        let i = i + 1;
        modules_of_spec(units, stdafx_stem, i, out)
    }
}

/// What [`base_names`] computes.
pub open spec fn base_names_spec(d: DeclV, out: Seq<Seq<char>>) -> Seq<Seq<char>>
{
    match d {
        DeclV::Class(c) => { type_names_of_spec(c.implements, 0int, opt_type_names_spec(c.extends, out)) },
        DeclV::Interface(it) => { type_names_of_spec(it.extends, 0int, out) },
        _ => { out },
    }
}

/// What [`mentioned`] computes.
pub open spec fn mentioned_spec(decls: Seq<DeclV>, i: int, out: Seq<Seq<char>>) -> Seq<Seq<char>>
    decreases decls.len() - i,
{
    if !(0 <= i < decls.len()) { out } else {
        let out = base_names_spec(decls[i], header_type_refs_spec(decls[i], out));
        let i = i + 1;
        mentioned_spec(decls, i, out)
    }
}

/// What [`imported_names`] computes.
pub open spec fn imported_names_spec(imports: Seq<ImportV>, i: int, out: Seq<Seq<char>>) -> Seq<Seq<char>>
    decreases imports.len() - i,
{
    if !(0 <= i < imports.len()) { out } else {
        let out = match last_of_spec(imports[i].path) {
            Some(n) => {
                let out = with_name_spec(out, n);
                out
            },
            None => { out },
        };
        let i = i + 1;
        imported_names_spec(imports, i, out)
    }
}

/// What [`names_module`] computes.
pub open spec fn names_module_spec(prog: ProgramV, mi: int, mj: int, names: Seq<Seq<char>>, i: int) -> bool
    decreases names.len() - i,
{
    if !(0 <= i < names.len()) { false } else {
        match resolve_name_spec(prog, names[i], mi) {
            Some(info) => {
                if info.module_index == mj { true } else {
                    let i = i + 1;
                    names_module_spec(prog, mi, mj, names, i)
                }
            },
            None => {
                let i = i + 1;
                names_module_spec(prog, mi, mj, names, i)
            },
        }
    }
}

/// What [`steps_up`] computes.
pub open spec fn steps_up_spec(n: int, out: Seq<char>) -> Seq<char>
    decreases n,
{
    if n < 1 { out } else {
        let out = out + "../"@;
        let n = n - 1;
        steps_up_spec(n, out)
    }
}

/// What [`dir_prefix`] computes.
pub open spec fn dir_prefix_spec(dir: Seq<Seq<char>>) -> Seq<char>
{
    if (dir.len()) == 0 { Seq::empty() } else { join_spec(dir, "/"@) + "/"@ }
}

/// What [`header_path`] computes.
pub open spec fn header_path_spec(from: Seq<Seq<char>>, dir: Seq<Seq<char>>, stem: Seq<char>) -> Seq<char>
{
    if same_path_spec(from, dir) { stem + ".h"@ } else {
        (steps_up_spec(from.len() as int, Seq::empty())) + dir_prefix_spec(dir) + stem + ".h"@
    }
}

/// What [`meta_includes`] computes.
pub open spec fn meta_includes_spec(metas: Seq<MetaV>, i: int, out: Seq<Seq<char>>) -> Seq<Seq<char>>
    decreases metas.len() - i,
{
    if !(0 <= i < metas.len()) { out } else {
        let out = if (metas[i].name == "include"@) && ((metas[i].args.len()) > 0) {
            let out = with_name_spec(out, metas[i].args[0]);
            out
        } else { out };
        let i = i + 1;
        meta_includes_spec(metas, i, out)
    }
}

/// What [`decl_includes`] computes.
pub open spec fn decl_includes_spec(decls: Seq<DeclV>, i: int, out: Seq<Seq<char>>) -> Seq<Seq<char>>
    decreases decls.len() - i,
{
    if !(0 <= i < decls.len()) { out } else {
        let out = meta_includes_spec(decl_meta_spec(decls[i]), 0int, out);
        let i = i + 1;
        decl_includes_spec(decls, i, out)
    }
}

/// What [`module_includes`] computes.
pub open spec fn module_includes_spec(prog: ProgramV, mi: int, dir: Seq<Seq<char>>, names: Seq<Seq<char>>, j: int, out: Seq<Seq<char>>) -> Seq<Seq<char>>
    decreases prog.modules.len() - j,
{
    if !(0 <= j < prog.modules.len()) { out } else {
        let out = if j == mi {
            let out = decl_includes_spec(prog.modules[j].file.decls, 0int, out);
            out
        } else if names_module_spec(prog, mi, j, names, 0int) {
            let out = decl_includes_spec(prog.modules[j].file.decls, 0int, out);
            if (prog.modules[j].has_header) && !(prog.modules[j].is_include) {
                let out = with_name_spec(out, header_path_spec(dir, prog.modules[j].dir, prog.modules[j].stem));
                out
            } else { out }
        } else { out };
        let j = j + 1;
        module_includes_spec(prog, mi, dir, names, j, out)
    }
}

/// What [`header_includes`] computes.
#[verifier::opaque]
pub open spec fn header_includes_spec(prog: ProgramV, mi: int, m: ModuleV) -> Seq<Seq<char>>
{
    let first: Seq<Seq<char>> = Seq::empty();
    let first = first.push(prog.stdafx_stem + ".h"@);
    let names = imported_names_spec(m.file.imports, 0int, mentioned_spec(m.file.decls, 0int, Seq::empty()));
    module_includes_spec(prog, mi, m.dir, names, 0int, first)
}

/// What [`with_includes`] computes.
pub open spec fn with_includes_spec(prog: ProgramV, i: int, out: Seq<ModuleV>) -> Seq<ModuleV>
    decreases prog.modules.len() - i,
{
    if !(0 <= i < prog.modules.len()) { out } else {
        let m = prog.modules[i];
        let includes = header_includes_spec(prog, i, m);
        let out = out.push(ModuleV { stem: m.stem, dir: m.dir, package: m.package, file: m.file, is_stdafx: m.is_stdafx, is_include: m.is_include, has_header: m.has_header, includes });
        let i = i + 1;
        with_includes_spec(prog, i, out)
    }
}

/// What [`build_program`] computes.
#[verifier::opaque]
pub open spec fn build_program_spec(units: Seq<UnitV>, stdafx_stem: Seq<char>, export_macro: Seq<char>, no_trace: bool, extract_depth: int) -> ProgramV
{
    let modules = modules_of_spec(units, stdafx_stem, 0int, Seq::empty());
    let types = collect_types_spec(modules, 0int, Seq::empty());
    let bare = ProgramV { modules, types, facts: Seq::empty(), stdafx_stem, export_macro, no_trace, extract_depth };
    let full = with_includes_spec(bare, 0int, Seq::empty());
    ProgramV { modules: full, types: bare.types, facts: Seq::empty(), stdafx_stem, export_macro, no_trace, extract_depth }
}

} // verus!
