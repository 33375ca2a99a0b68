//! Source files: the bodies of constructors, methods and functions.

use vstd::prelude::*;

use crate::ast::{Class, Decl, GlobalVar};
use crate::codegen::classdef::class_impl_spec;
use crate::codegen::consts::file_scope_const_spec;
use crate::codegen::gen::GenV;
use crate::codegen::helpers::{empty_class, empty_class_spec};
use crate::codegen::modfns::{Sort, any_of, any_of_spec, definitions_spec, inline_fns_spec, is_emitted_class, is_emitted_class_spec, source_fns_spec};
use crate::codegen::scan::{is_lambda_global, is_lambda_global_spec};
use crate::codegen::state::{BodyGen, Env, start_gen_spec};
use crate::model::{ClassV, DeclV, GlobalVarV, decls_v};
use crate::program::{Module, ModuleV, Program, ProgramV, usize_texts_v};
use crate::resolve::{facts_of, facts_of_spec, module_at, module_at_spec};
use crate::text::{cat2, cat3, cat4, texts};

verus! {

broadcast use {crate::codegen::gen::group_gen, crate::codegen::ty::group_ty, crate::model::group_model, crate::program::group_program, crate::text::group_texts};

/// Generated text, and what was reported while generating it: warnings and errors, each with
/// its line.
pub type SourceOutput = (String, Vec<(usize, String)>, Vec<(usize, String)>);

/// The model of a [`SourceOutput`].
pub type SourceOutputV = (Seq<char>, Seq<(int, Seq<char>)>, Seq<(int, Seq<char>)>);

/// What [`class_defs`] makes: what a generator for the class computes from its start.
pub open spec fn class_defs_spec(prog: ProgramV, mi: int, class: ClassV, depth: int, no_trace: bool, inline: bool) -> SourceOutputV {
    let st = GenV { inline_defs: inline, ..start_gen_spec(prog, mi, class, depth, no_trace) };
    let (st, text) = class_impl_spec(Env { prog, class }, usize::MAX as int, st);
    (text, st.warnings, st.errors)
}

/// The definitions of a class.
pub fn class_defs(prog: &Program, mi: usize, class: &Class, depth: usize, no_trace: bool, inline: bool) -> (r: SourceOutput)
    ensures
        (r.0@, usize_texts_v(r.1@), usize_texts_v(r.2@)) == class_defs_spec(prog.v(), mi as int, class.v(), depth as int, no_trace, inline),
{
    let mut g = BodyGen::new(prog, mi, class, depth, no_trace);
    g.set_inline_defs(inline);
    let text = g.class_impl();
    let (w, e) = g.into_reports();
    (text, w, e)
}

/// What [`module_defs`] makes.
pub open spec fn module_defs_spec(prog: ProgramV, mi: int, decls: Seq<DeclV>, depth: int, no_trace: bool, inline: bool) -> SourceOutputV {
    let class = empty_class_spec();
    let st = start_gen_spec(prog, mi, class, depth, no_trace);
    let (st, text) = if inline {
        inline_fns_spec(Env { prog, class }, usize::MAX as int, st, decls)
    } else {
        source_fns_spec(Env { prog, class }, usize::MAX as int, st, decls)
    };
    (text, st.warnings, st.errors)
}

/// The constants and functions of a module.
pub fn module_defs(prog: &Program, mi: usize, decls: &Vec<Decl>, depth: usize, no_trace: bool, inline: bool) -> (r: SourceOutput)
    ensures
        (r.0@, usize_texts_v(r.1@), usize_texts_v(r.2@)) == module_defs_spec(prog.v(), mi as int, decls_v(decls@), depth as int, no_trace, inline),
{
    let class = empty_class();
    let mut g = BodyGen::new(prog, mi, &class, depth, no_trace);
    let text = if inline { g.inline_fns(decls) } else { g.source_fns(decls) };
    let (w, e) = g.into_reports();
    (text, w, e)
}

/// What [`export_defs`] makes.
pub open spec fn export_defs_spec(prog: ProgramV, mi: int, decls: Seq<DeclV>, sep: Seq<char>, depth: int, no_trace: bool) -> SourceOutputV {
    let class = empty_class_spec();
    let st = start_gen_spec(prog, mi, class, depth, no_trace);
    let (st, text) = definitions_spec(Env { prog, class }, usize::MAX as int, st, decls, Sort::Export, false, sep, 0, Seq::empty());
    (text, st.warnings, st.errors)
}

/// The exported functions of a module.
pub fn export_defs(prog: &Program, mi: usize, decls: &Vec<Decl>, sep: &str, depth: usize, no_trace: bool) -> (r: SourceOutput)
    ensures
        (r.0@, usize_texts_v(r.1@), usize_texts_v(r.2@)) == export_defs_spec(prog.v(), mi as int, decls_v(decls@), sep@, depth as int, no_trace),
{
    let class = empty_class();
    let mut g = BodyGen::new(prog, mi, &class, depth, no_trace);
    let text = g.definitions(decls, Sort::Export, false, sep, 0, String::new());
    let (w, e) = g.into_reports();
    (text, w, e)
}

/// What [`render_final_const`] makes.
pub open spec fn render_final_const_spec(prog: ProgramV, mi: int, g: GlobalVarV) -> Option<Seq<char>> {
    if is_lambda_global_spec(g) {
        None
    } else {
        let class = empty_class_spec();
        file_scope_const_spec(Env { prog, class }, usize::MAX as int, start_gen_spec(prog, mi, class, 1, false), g).1
    }
}

/// The definition of a constant of a file; `None` for a function or what cannot be one.
pub fn render_final_const(prog: &Program, mi: usize, g: &GlobalVar) -> (r: Option<String>)
    ensures
        (match r { Some(x) => Some(x@), None => None }) == render_final_const_spec(prog.v(), mi as int, g.v()),
{
    if is_lambda_global(g) {
        return None;
    }
    let class = empty_class();
    let mut b = BodyGen::new(prog, mi, &class, 1, false);
    b.file_scope_const(g)
}

/// Reports with those of `more` from `i` on added.
pub fn reports_from(more: &Vec<(usize, String)>, i: usize, out: Vec<(usize, String)>) -> (r: Vec<(usize, String)>)
    ensures
        usize_texts_v(r@) == reports_from_spec(usize_texts_v(more@), (i as int), usize_texts_v(out@)),
{
    let ghost i_0 = i;
    let ghost out_0 = out;
    let mut i: usize = i;
    let mut out: Vec<(usize, String)> = out;
    #[verifier::loop_isolation(false)]
    loop
        invariant
            reports_from_spec(usize_texts_v(more@), (i_0 as int), usize_texts_v(out_0@)) == reports_from_spec(usize_texts_v(more@), (i as int), usize_texts_v(out@)),
        decreases more.len() - i,
    {
        if i >= more.len() {
            return out;
        }
        out.push((more[i].0, more[i].1.clone()));
        i = i + 1;
    }
}

/// Reports, and those of another part after them.
pub fn add_reports(out: Vec<(usize, String)>, more: &Vec<(usize, String)>) -> (r: Vec<(usize, String)>)
    ensures
        usize_texts_v(r@) == add_reports_spec(usize_texts_v(out@), usize_texts_v(more@)),
{
    reports_from(more, 0, out)
}

/// The unsound-looking overrides of a class.
pub fn advisories(prog: &Program, mi: usize, class: &Class) -> (r: Vec<(usize, String)>)
    ensures
        usize_texts_v(r@) == advisories_spec(prog.v(), (mi as int), class.v()),
{
    match facts_of(prog, &class.name, mi) {
        Some(f) => add_reports(Vec::new(), &f.advisories),
        None => Vec::new(),
    }
}

/// The definitions of the emitted classes from `i` on, with what was reported.
pub fn classes_text(prog: &Program, mi: usize, decls: &Vec<Decl>, depth: usize, no_trace: bool, i: usize, out: String, warnings: Vec<(usize, String)>, errors: Vec<(usize, String)>) -> (r: (String, Vec<(usize, String)>, Vec<(usize, String)>))
    ensures
        (r.0@, usize_texts_v(r.1@), usize_texts_v(r.2@)) == classes_text_spec(prog.v(), (mi as int), decls_v(decls@), (depth as int), no_trace, (i as int), out@, usize_texts_v(warnings@), usize_texts_v(errors@)),
{
    let ghost i_0 = i;
    let ghost out_0 = out;
    let ghost warnings_0 = warnings;
    let ghost errors_0 = errors;
    let mut i: usize = i;
    let mut out: String = out;
    let mut warnings: Vec<(usize, String)> = warnings;
    let mut errors: Vec<(usize, String)> = errors;
    #[verifier::loop_isolation(false)]
    loop
        invariant
            classes_text_spec(prog.v(), (mi as int), decls_v(decls@), (depth as int), no_trace, (i_0 as int), out_0@, usize_texts_v(warnings_0@), usize_texts_v(errors_0@)) == classes_text_spec(prog.v(), (mi as int), decls_v(decls@), (depth as int), no_trace, (i as int), out@, usize_texts_v(warnings@), usize_texts_v(errors@)),
        decreases decls.len() - i,
    {
        if i >= decls.len() {
            return (out, warnings, errors);
        }
        match &decls[i] {
            Decl::Class(c) => {
                if is_emitted_class(c) {
                    let (text, w, e) = class_defs(prog, mi, c, depth, no_trace, false);
                    out = cat2(&out, &text);
                    warnings = add_reports(add_reports(warnings, &w), &advisories(prog, mi, c));
                    errors = add_reports(errors, &e);
                }
            },
            _ => {},
        }
        i = i + 1;
    }
}

/// The lines that open the namespaces from `i` on.
pub fn ns_open(package: &Vec<String>, i: usize, out: String) -> (r: String)
    ensures
        r@ == ns_open_spec(texts(package@), (i as int), out@),
{
    let ghost i_0 = i;
    let ghost out_0 = out;
    let mut i: usize = i;
    let mut out: String = out;
    #[verifier::loop_isolation(false)]
    loop
        invariant
            ns_open_spec(texts(package@), (i_0 as int), out_0@) == ns_open_spec(texts(package@), (i as int), out@),
        decreases package.len() - i,
    {
        if i >= package.len() {
            return out;
        }
        out = cat4(&out, "namespace ", &package[i], " {\n");
        i = i + 1;
    }
}

/// The lines that close `n` namespaces.
pub fn ns_close(n: usize, out: String) -> (r: String)
    ensures
        r@ == ns_close_spec((n as int), out@),
{
    let ghost n_0 = n;
    let ghost out_0 = out;
    let mut n: usize = n;
    let mut out: String = out;
    #[verifier::loop_isolation(false)]
    loop
        invariant
            ns_close_spec((n_0 as int), out_0@) == ns_close_spec((n as int), out@),
        decreases n,
    {
        if n < 1 {
            return out;
        }
        out = cat2(&out, "}\n");
        n = n - 1;
    }
}

/// Whether a module has anything inside its namespace to define.
pub fn has_ns_body(decls: &Vec<Decl>) -> (r: bool)
    ensures
        r == has_ns_body_spec(decls_v(decls@)),
{
    any_of(decls, Sort::Class, 0) || any_of(decls, Sort::Lambda, 0) || any_of(decls, Sort::Plain, 0)
}

/// The source file of a module that has something to define.
pub fn source_text(prog: &Program, mi: usize, m: &Module, depth: usize, no_trace: bool) -> (r: (String, Vec<(usize, String)>, Vec<(usize, String)>))
    ensures
        (r.0@, usize_texts_v(r.1@), usize_texts_v(r.2@)) == source_text_spec(prog.v(), (mi as int), m.v(), (depth as int), no_trace),
{
    proof {
        reveal(source_text_spec);
    }
    let decls = &m.file.decls;
    let head = cat3("#include \"", &m.stem, ".h\"\n\n");
    if !has_ns_body(decls) {
        let (text, w, e) = export_defs(prog, mi, decls, "", depth, no_trace);
        return (cat2(&head, &text), w, e);
    }
    let (text, w, e) = module_defs(prog, mi, decls, depth, no_trace, false);
    let open = ns_open(&m.package, 0, String::new());
    let (body, w2, e2) = classes_text(prog, mi, decls, depth, no_trace, 0, cat4(&head, &open, "\n", &text), w, e);
    let closed = ns_close(m.package.len(), body);
    let (exports, w3, e3) = export_defs(prog, mi, decls, "\n", depth, no_trace);
    (cat2(&closed, &exports), add_reports(w2, &w3), add_reports(e2, &e3))
}

/// The source file of a module with what was reported; `None` where it has nothing to
/// define. `depth` says how deep a nullable call may be buried and still be moved out;
/// `no_trace` strips traces.
pub fn generate_source_diagnostics(prog: &Program, module_index: usize, depth: usize, no_trace: bool) -> (r: Option<(String, Vec<(usize, String)>, Vec<(usize, String)>)>)
    ensures
        (match r { Some(y) => Some((y.0@, usize_texts_v(y.1@), usize_texts_v(y.2@))), None => None }) == generate_source_diagnostics_spec(prog.v(), (module_index as int), (depth as int), no_trace),
{
    proof {
        reveal(generate_source_diagnostics_spec);
    }
    match module_at(prog, module_index) {
        Some(m) => {
            if m.is_stdafx || !m.has_header {
                return None;
            }
            if !has_ns_body(&m.file.decls) && !any_of(&m.file.decls, Sort::Export, 0) {
                return None;
            }
            Some(source_text(prog, module_index, m, depth, no_trace))
        },
        None => None,
    }
}

/// The source file of a module; `None` where it has nothing to define.
pub fn generate_source(prog: &Program, module_index: usize) -> (r: Option<String>)
    ensures
        (match r { Some(y) => Some(y@), None => None }) == generate_source_spec(prog.v(), (module_index as int)),
{
    proof {
        reveal(generate_source_spec);
    }
    match generate_source_diagnostics(prog, module_index, 1, false) {
        Some((text, _, _)) => Some(text),
        None => None,
    }
}

/// The definitions of a class for a header: each is `inline`.
pub fn inline_class_defs(prog: &Program, mi: usize, class: &Class) -> (r: (String, Vec<(usize, String)>, Vec<(usize, String)>))
    ensures
        (r.0@, usize_texts_v(r.1@), usize_texts_v(r.2@)) == inline_class_defs_spec(prog.v(), (mi as int), class.v()),
{
    proof {
        reveal(inline_class_defs_spec);
    }
    class_defs(prog, mi, class, prog.extract_depth, prog.no_trace, true)
}

/// Whether a constant is bound to a function.
pub fn is_free_fn_global(g: &GlobalVar) -> (r: bool)
    ensures
        r == is_free_fn_global_spec(g.v()),
{
    is_lambda_global(g)
}

/// The definitions of a module's free functions for a header.
pub fn inline_free_fn_defs(prog: &Program, mi: usize) -> (r: (String, Vec<(usize, String)>, Vec<(usize, String)>))
    ensures
        (r.0@, usize_texts_v(r.1@), usize_texts_v(r.2@)) == inline_free_fn_defs_spec(prog.v(), (mi as int)),
{
    proof {
        reveal(inline_free_fn_defs_spec);
    }
    match module_at(prog, mi) {
        Some(m) => {
            if !any_of(&m.file.decls, Sort::Lambda, 0) && !any_of(&m.file.decls, Sort::Plain, 0) {
                return (String::new(), Vec::new(), Vec::new());
            }
            module_defs(prog, mi, &m.file.decls, prog.extract_depth, prog.no_trace, true)
        },
        None => (String::new(), Vec::new(), Vec::new()),
    }
}

/// What [`reports_from`] computes.
pub open spec fn reports_from_spec(more: Seq<(int, Seq<char>)>, i: int, out: Seq<(int, Seq<char>)>) -> Seq<(int, Seq<char>)>
    decreases more.len() - i,
{
    if !(0 <= i < more.len()) { out } else {
        let out = out.push((more[i].0, more[i].1));
        let i = i + 1;
        reports_from_spec(more, i, out)
    }
}

/// What [`add_reports`] computes.
pub open spec fn add_reports_spec(out: Seq<(int, Seq<char>)>, more: Seq<(int, Seq<char>)>) -> Seq<(int, Seq<char>)>
{
    reports_from_spec(more, 0int, out)
}

/// What [`advisories`] computes.
pub open spec fn advisories_spec(prog: ProgramV, mi: int, class: ClassV) -> Seq<(int, Seq<char>)>
{
    match facts_of_spec(prog, class.name, mi) {
        Some(f) => { add_reports_spec(Seq::empty(), f.advisories) },
        None => { Seq::empty() },
    }
}

/// What [`classes_text`] computes.
pub open spec fn classes_text_spec(prog: ProgramV, mi: int, decls: Seq<DeclV>, depth: int, no_trace: bool, i: int, out: Seq<char>, warnings: Seq<(int, Seq<char>)>, errors: Seq<(int, Seq<char>)>) -> (Seq<char>, Seq<(int, Seq<char>)>, Seq<(int, Seq<char>)>)
    decreases decls.len() - i,
{
    if !(0 <= i < decls.len()) { (out, warnings, errors) } else {
        let (errors, out, warnings) = match decls[i] {
            DeclV::Class(c) => {
                if is_emitted_class_spec(*c) {
                    let (text, w, e) = class_defs_spec(prog, mi, *c, depth, no_trace, false);
                    let out = out + text;
                    let warnings = add_reports_spec(add_reports_spec(warnings, w), advisories_spec(prog, mi, *c));
                    let errors = add_reports_spec(errors, e);
                    (errors, out, warnings)
                } else { (errors, out, warnings) }
            },
            _ => { (errors, out, warnings) },
        };
        let i = i + 1;
        classes_text_spec(prog, mi, decls, depth, no_trace, i, out, warnings, errors)
    }
}

/// What [`ns_open`] computes.
pub open spec fn ns_open_spec(package: Seq<Seq<char>>, i: int, out: Seq<char>) -> Seq<char>
    decreases package.len() - i,
{
    if !(0 <= i < package.len()) { out } else {
        let out = out + "namespace "@ + (package[i]) + " {\n"@;
        let i = i + 1;
        ns_open_spec(package, i, out)
    }
}

/// What [`ns_close`] computes.
pub open spec fn ns_close_spec(n: int, out: Seq<char>) -> Seq<char>
    decreases n,
{
    if n < 1 { out } else {
        let out = out + "}\n"@;
        let n = n - 1;
        ns_close_spec(n, out)
    }
}

/// What [`has_ns_body`] computes.
pub open spec fn has_ns_body_spec(decls: Seq<DeclV>) -> bool
{
    any_of_spec(decls, Sort::Class, 0int) || any_of_spec(decls, Sort::Lambda, 0int) || any_of_spec(decls, Sort::Plain, 0int)
}

/// What [`source_text`] computes.
#[verifier::opaque]
pub open spec fn source_text_spec(prog: ProgramV, mi: int, m: ModuleV, depth: int, no_trace: bool) -> (Seq<char>, Seq<(int, Seq<char>)>, Seq<(int, Seq<char>)>)
{
    let decls = m.file.decls;
    let head = "#include \""@ + m.stem + ".h\"\n\n"@;
    if !has_ns_body_spec(decls) {
        let (text, w, e) = export_defs_spec(prog, mi, decls, ""@, depth, no_trace);
        (head + text, w, e)
    } else {
        let (text, w, e) = module_defs_spec(prog, mi, decls, depth, no_trace, false);
        let open = ns_open_spec(m.package, 0int, Seq::empty());
        let (body, w2, e2) = classes_text_spec(prog, mi, decls, depth, no_trace, 0int, head + open + "\n"@ + text, w, e);
        let closed = ns_close_spec(m.package.len() as int, body);
        let (exports, w3, e3) = export_defs_spec(prog, mi, decls, "\n"@, depth, no_trace);
        (closed + exports, add_reports_spec(w2, w3), add_reports_spec(e2, e3))
    }
}

/// What [`generate_source_diagnostics`] computes.
#[verifier::opaque]
pub open spec fn generate_source_diagnostics_spec(prog: ProgramV, module_index: int, depth: int, no_trace: bool) -> Option<(Seq<char>, Seq<(int, Seq<char>)>, Seq<(int, Seq<char>)>)>
{
    match module_at_spec(prog, module_index) {
        Some(m) => {
            if m.is_stdafx || (!m.has_header) { None } else {
                if (!has_ns_body_spec(m.file.decls)) && (!any_of_spec(m.file.decls, Sort::Export, 0int)) { None } else { Some(source_text_spec(prog, module_index, m, depth, no_trace)) }
            }
        },
        None => { None },
    }
}

/// What [`generate_source`] computes.
#[verifier::opaque]
pub open spec fn generate_source_spec(prog: ProgramV, module_index: int) -> Option<Seq<char>>
{
    match generate_source_diagnostics_spec(prog, module_index, 1int, false) {
        Some((text, _, _)) => { Some(text) },
        None => { None },
    }
}

/// What [`inline_class_defs`] computes.
#[verifier::opaque]
pub open spec fn inline_class_defs_spec(prog: ProgramV, mi: int, class: ClassV) -> (Seq<char>, Seq<(int, Seq<char>)>, Seq<(int, Seq<char>)>)
{
    class_defs_spec(prog, mi, class, prog.extract_depth, prog.no_trace, true)
}

/// What [`is_free_fn_global`] computes.
pub open spec fn is_free_fn_global_spec(g: GlobalVarV) -> bool
{
    is_lambda_global_spec(g)
}

/// What [`inline_free_fn_defs`] computes.
#[verifier::opaque]
pub open spec fn inline_free_fn_defs_spec(prog: ProgramV, mi: int) -> (Seq<char>, Seq<(int, Seq<char>)>, Seq<(int, Seq<char>)>)
{
    match module_at_spec(prog, mi) {
        Some(m) => {
            if (!any_of_spec(m.file.decls, Sort::Lambda, 0int)) && (!any_of_spec(m.file.decls, Sort::Plain, 0int)) { (Seq::empty(), Seq::empty(), Seq::empty()) } else {
                module_defs_spec(prog, mi, m.file.decls, prog.extract_depth, prog.no_trace, true)
            }
        },
        None => { (Seq::empty(), Seq::empty(), Seq::empty()) },
    }
}

} // verus!
