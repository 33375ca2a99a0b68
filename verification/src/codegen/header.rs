//! Header files.

use vstd::prelude::*;

use crate::ast::{Access, Decl, Expr, Function, GlobalVar, LambdaBody, Type};
use crate::codegen::callee::{cast_type, cast_type_spec, func_ret, func_ret_spec};
use crate::codegen::common::{param_list, param_list_spec, sanitize, sanitize_spec, tabs, tabs_spec};
use crate::codegen::ctypes::{map_type_use, map_type_use_spec};
use crate::codegen::hclass::{emit_class, emit_class_spec};
use crate::codegen::hdecls::{emit_enum, emit_enum_spec, emit_interface, emit_interface_spec, emit_typedef, emit_typedef_spec, forward_names, forward_names_spec, is_emitted_type, is_emitted_type_spec, ret_spelling, ret_spelling_spec};
use crate::codegen::modfns::{is_emitted_class, is_emitted_class_spec, is_plain_fn, is_plain_fn_spec};
use crate::codegen::source::{add_reports, add_reports_spec, inline_class_defs, inline_class_defs_spec, inline_free_fn_defs, inline_free_fn_defs_spec, ns_close, ns_close_spec, ns_open, ns_open_spec, render_final_const, render_final_const_spec};
use crate::lexer::{cut, cut_spec};
use crate::model::{DeclV, ExprV, FunctionV, GlobalVarV, LambdaBodyV, TypeV, decls_v};
use crate::parser::pp::{trim, trim_end, trim_end_spec, trim_spec};
use crate::parser::types::{meta_has, meta_has_spec};
use crate::program::{Module, ModuleV, Program, ProgramV, usize_texts_v};
use crate::resolve::{module_at, module_at_spec};
use crate::strings::{starts_with, to_upper, upper};
use crate::text::{cat2, cat3, cat4, cat5, cat6, cat7, cat8, chars_of, empty, same, texts};

verus! {

broadcast use {crate::model::group_model, crate::program::group_program, crate::text::group_texts};

/// Generated text, and what was reported while generating it: warnings and errors, each with
/// its line. Something is reported only where bodies are generated.
pub type HeaderOutput = (String, Vec<(usize, String)>, Vec<(usize, String)>);

/// What a header is to hold besides declarations.
pub struct HeaderOpts {
    /// A prelude to put at the top in place of its `#include`.
    pub inline_prelude: Option<String>,
    /// Whether constructors and methods are defined in the header.
    pub inline_bodies: bool,
    /// Code to put after the includes.
    pub header_code: Option<String>,
    /// The name of the include guard, where it is not the module's.
    pub guard_stem: Option<String>,
}

/// Mathematical model of [`HeaderOpts`].
pub struct HeaderOptsV {
    pub inline_prelude: Option<Seq<char>>,
    pub inline_bodies: bool,
    pub header_code: Option<Seq<char>>,
    pub guard_stem: Option<Seq<char>>,
}

impl HeaderOpts {
    /// The value with every string and list seen as a sequence.
    pub open spec fn v(self) -> HeaderOptsV
    {
        HeaderOptsV {
            inline_prelude: (match self.inline_prelude { Some(y) => Some(y@), None => None }),
            inline_bodies: self.inline_bodies,
            header_code: (match self.header_code { Some(y) => Some(y@), None => None }),
            guard_stem: (match self.guard_stem { Some(y) => Some(y@), None => None }),
        }
    }
}

impl Default for HeaderOpts {
    fn default() -> (r: Self)
        ensures
            r.v() == plain_opts_spec(),
    {
        plain_opts()
    }
}

/// A header of declarations only.
pub fn plain_opts() -> (r: HeaderOpts)
    ensures
        r.v() == plain_opts_spec(),
{
    HeaderOpts { inline_prelude: None, inline_bodies: false, header_code: None, guard_stem: None }
}

// ---- pieces of a section ------------------------------------------------

/// Forward declarations of the classes from `i` on.
pub fn class_decl_lines(names: &Vec<String>, t: &str, i: usize, out: String) -> (r: String)
    ensures
        r@ == class_decl_lines_spec(texts(names@), t@, (i as int), out@),
{
    let ghost i_0 = i;
    let ghost out_0 = out;
    let mut i: usize = i;
    let mut out: String = out;
    #[verifier::loop_isolation(false)]
    loop
        invariant
            class_decl_lines_spec(texts(names@), t@, (i_0 as int), out_0@) == class_decl_lines_spec(texts(names@), t@, (i as int), out@),
        decreases names.len() - i,
    {
        if i >= names.len() {
            return out;
        }
        out = cat5(&out, t, "class ", &names[i], ";\n");
        i = i + 1;
    }
}

/// The types declared ahead.
pub fn forward_text(prog: &Program, mi: usize, decls: &Vec<Decl>, t: &str) -> (r: String)
    ensures
        r@ == forward_text_spec(prog.v(), (mi as int), decls_v(decls@), t@),
{
    let names = forward_names(prog, mi, decls, 0, Vec::new(), Vec::new());
    if names.len() == 0 {
        String::new()
    } else {
        cat2(&class_decl_lines(&names, t, 0, String::new()), "\n")
    }
}

/// The public constants from `i` on.
pub fn const_lines(prog: &Program, mi: usize, decls: &Vec<Decl>, i: usize, out: String) -> (r: String)
    ensures
        r@ == const_lines_spec(prog.v(), (mi as int), decls_v(decls@), (i as int), out@),
{
    let ghost i_0 = i;
    let ghost out_0 = out;
    let mut i: usize = i;
    let mut out: String = out;
    #[verifier::loop_isolation(false)]
    loop
        invariant
            const_lines_spec(prog.v(), (mi as int), decls_v(decls@), (i_0 as int), out_0@) == const_lines_spec(prog.v(), (mi as int), decls_v(decls@), (i as int), out@),
        decreases decls.len() - i,
    {
        if i >= decls.len() {
            return out;
        }
        match &decls[i] {
            Decl::Global(g) => {
                if g.is_final && !g.is_extern && g.access != Access::Private {
                    match render_final_const(prog, mi, g) {
                        Some(text) => {
                            out = cat2(&out, &text);
                        },
                        None => {},
                    }
                }
            },
            _ => {},
        }
        i = i + 1;
    }
}

/// Whether one of the declarations from `i` on is a public constant.
pub fn any_const(prog: &Program, mi: usize, decls: &Vec<Decl>, i: usize) -> (r: bool)
    ensures
        r == any_const_spec(prog.v(), (mi as int), decls_v(decls@), (i as int)),
{
    let ghost i_0 = i;
    let mut i: usize = i;
    #[verifier::loop_isolation(false)]
    loop
        invariant
            any_const_spec(prog.v(), (mi as int), decls_v(decls@), (i_0 as int)) == any_const_spec(prog.v(), (mi as int), decls_v(decls@), (i as int)),
        decreases decls.len() - i,
    {
        if i >= decls.len() {
            return false;
        }
        match &decls[i] {
            Decl::Global(g) => {
                if g.is_final && !g.is_extern && g.access != Access::Private && render_final_const(prog, mi, g).is_some() {
                    return true;
                }
            },
            _ => {},
        }
        i = i + 1;
    }
}

/// The declaration of a type, and the definitions that must follow all types.
pub fn type_text(prog: &Program, mi: usize, ns: &Vec<String>, decls: &Vec<Decl>, d: &Decl, t: &str) -> (r: (String, String))
    ensures
        (r.0@, r.1@) == type_text_spec(prog.v(), (mi as int), texts(ns@), decls_v(decls@), d.v(), t@),
{
    match d {
        Decl::Enum(e) => (emit_enum(prog, mi, ns, e, t), String::new()),
        Decl::Typedef(td) => (emit_typedef(prog, mi, ns, td, t), String::new()),
        Decl::Interface(it) => (emit_interface(prog, mi, ns, it, t), String::new()),
        Decl::Class(c) => emit_class(prog, mi, ns, decls, c, t),
        _ => (String::new(), String::new()),
    }
}

/// The types from `i` on, a blank line between two, and the definitions that follow them.
pub fn type_texts(prog: &Program, mi: usize, ns: &Vec<String>, decls: &Vec<Decl>, bodies: bool, t: &str, i: usize, first: bool, out: String, later: String, warnings: Vec<(usize, String)>, errors: Vec<(usize, String)>) -> (r: (bool, String, String, Vec<(usize, String)>, Vec<(usize, String)>))
    ensures
        (r.0, r.1@, r.2@, usize_texts_v(r.3@), usize_texts_v(r.4@)) == type_texts_spec(prog.v(), (mi as int), texts(ns@), decls_v(decls@), bodies, t@, (i as int), first, out@, later@, usize_texts_v(warnings@), usize_texts_v(errors@)),
{
    let ghost i_0 = i;
    let ghost first_0 = first;
    let ghost out_0 = out;
    let ghost later_0 = later;
    let ghost warnings_0 = warnings;
    let ghost errors_0 = errors;
    let mut i: usize = i;
    let mut first: bool = first;
    let mut out: String = out;
    let mut later: String = later;
    let mut warnings: Vec<(usize, String)> = warnings;
    let mut errors: Vec<(usize, String)> = errors;
    #[verifier::loop_isolation(false)]
    loop
        invariant
            type_texts_spec(prog.v(), (mi as int), texts(ns@), decls_v(decls@), bodies, t@, (i_0 as int), first_0, out_0@, later_0@, usize_texts_v(warnings_0@), usize_texts_v(errors_0@)) == type_texts_spec(prog.v(), (mi as int), texts(ns@), decls_v(decls@), bodies, t@, (i as int), first, out@, later@, usize_texts_v(warnings@), usize_texts_v(errors@)),
        decreases decls.len() - i,
    {
        if i >= decls.len() {
            return (first, out, later, warnings, errors);
        }
        if is_emitted_type(&decls[i]) {
            let (text, def) = type_text(prog, mi, ns, decls, &decls[i], t);
            out = if first { cat2(&out, &text) } else { cat3(&out, "\n", &text) };
            first = false;
            later = cat2(&later, &def);
            match &decls[i] {
                Decl::Class(c) => {
                    if bodies {
                        let (defs, w, e) = inline_class_defs(prog, mi, c);
                        later = cat2(&later, &defs);
                        warnings = add_reports(warnings, &w);
                        errors = add_reports(errors, &e);
                    }
                },
                _ => {},
            }
        }
        i = i + 1;
    }
}

/// The declaration of a module-level function.
pub fn plain_fn_decl(prog: &Program, mi: usize, ns: &Vec<String>, f: &Function) -> (r: Option<String>)
    ensures
        (match r { Some(y) => Some(y@), None => None }) == plain_fn_decl_spec(prog.v(), (mi as int), texts(ns@), f.v()),
{
    proof {
        reveal(plain_fn_decl_spec);
    }
    if !is_plain_fn(f) {
        return None;
    }
    match &f.name {
        Some(name) => Some(cat6(&ret_spelling(prog, mi, ns, &f.ret), " ", name, "(", &param_list(prog, mi, ns, &f.params, true), ")")),
        None => None,
    }
}

/// The spelled return type of a function bound to a name.
pub fn lambda_ret_spelling(prog: &Program, mi: usize, ns: &Vec<String>, ret: &Option<Type>, body: &LambdaBody, decl_ty: &Option<Type>) -> (r: String)
    ensures
        r@ == lambda_ret_spelling_spec(prog.v(), (mi as int), texts(ns@), (match ret { Some(y) => Some(y.v()), None => None }), body.v(), (match decl_ty { Some(y) => Some(y.v()), None => None })),
{
    proof {
        reveal(lambda_ret_spelling_spec);
    }
    match ret {
        Some(t) => map_type_use(prog, t, mi, ns),
        None => match func_ret(decl_ty) {
            Some(t) => map_type_use(prog, &t, mi, ns),
            None => match cast_type(body) {
                Some(t) => map_type_use(prog, &t, mi, ns),
                None => "double".to_owned(),
            },
        },
    }
}

/// The declaration of a function bound to a name.
pub fn free_fn_decl(prog: &Program, mi: usize, ns: &Vec<String>, g: &GlobalVar) -> (r: Option<String>)
    ensures
        (match r { Some(y) => Some(y@), None => None }) == free_fn_decl_spec(prog.v(), (mi as int), texts(ns@), g.v()),
{
    proof {
        reveal(free_fn_decl_spec);
    }
    if !g.is_final {
        return None;
    }
    match &g.init {
        Some(e) => match e.node() {
            Expr::Lambda { params, ret, body } => Some(cat6(&lambda_ret_spelling(prog, mi, ns, ret, body, &g.ty), " ", &g.name, "(", &param_list(prog, mi, ns, params, true), ")")),
            _ => None,
        },
        None => None,
    }
}

/// The declaration of an exported function, at global scope.
pub fn extern_fn_decl(prog: &Program, mi: usize, f: &Function) -> (r: Option<String>)
    ensures
        (match r { Some(y) => Some(y@), None => None }) == extern_fn_decl_spec(prog.v(), (mi as int), f.v()),
{
    proof {
        reveal(extern_fn_decl_spec);
    }
    if !meta_has(&f.meta, "cexport") {
        return None;
    }
    let none: Vec<String> = Vec::new();
    match &f.name {
        Some(name) => Some(cat3(&cat8(&prog.export_macro, "_EXPORT ", &ret_spelling(prog, mi, &none, &f.ret), " ", &prog.export_macro, "_CALL ", name, "("), &param_list(prog, mi, &none, &f.params, true), ")")),
        None => None,
    }
}

/// The declaration of a public function, where a declaration is one.
pub fn public_fn(prog: &Program, mi: usize, ns: &Vec<String>, d: &Decl) -> (r: Option<String>)
    ensures
        (match r { Some(y) => Some(y@), None => None }) == public_fn_spec(prog.v(), (mi as int), texts(ns@), d.v()),
{
    match d {
        Decl::Global(g) => {
            if g.access == Access::Private {
                None
            } else {
                free_fn_decl(prog, mi, ns, g)
            }
        },
        Decl::Function(f) => {
            if f.access == Access::Private {
                None
            } else {
                plain_fn_decl(prog, mi, ns, f)
            }
        },
        _ => None,
    }
}

/// The declarations of the free functions from `i` on.
pub fn fn_lines(prog: &Program, mi: usize, ns: &Vec<String>, decls: &Vec<Decl>, t: &str, i: usize, out: String) -> (r: String)
    ensures
        r@ == fn_lines_spec(prog.v(), (mi as int), texts(ns@), decls_v(decls@), t@, (i as int), out@),
{
    let ghost i_0 = i;
    let ghost out_0 = out;
    let mut i: usize = i;
    let mut out: String = out;
    #[verifier::loop_isolation(false)]
    loop
        invariant
            fn_lines_spec(prog.v(), (mi as int), texts(ns@), decls_v(decls@), t@, (i_0 as int), out_0@) == fn_lines_spec(prog.v(), (mi as int), texts(ns@), decls_v(decls@), t@, (i as int), out@),
        decreases decls.len() - i,
    {
        if i >= decls.len() {
            return out;
        }
        match public_fn(prog, mi, ns, &decls[i]) {
            Some(sig) => {
                out = cat4(&out, t, &sig, ";\n");
            },
            None => {},
        }
        i = i + 1;
    }
}

/// The declarations of the exported functions from `i` on.
pub fn export_lines(prog: &Program, mi: usize, decls: &Vec<Decl>, i: usize, out: String) -> (r: String)
    ensures
        r@ == export_lines_spec(prog.v(), (mi as int), decls_v(decls@), (i as int), out@),
{
    let ghost i_0 = i;
    let ghost out_0 = out;
    let mut i: usize = i;
    let mut out: String = out;
    #[verifier::loop_isolation(false)]
    loop
        invariant
            export_lines_spec(prog.v(), (mi as int), decls_v(decls@), (i_0 as int), out_0@) == export_lines_spec(prog.v(), (mi as int), decls_v(decls@), (i as int), out@),
        decreases decls.len() - i,
    {
        if i >= decls.len() {
            return out;
        }
        match &decls[i] {
            Decl::Function(f) => match extern_fn_decl(prog, mi, f) {
                Some(sig) => {
                    out = cat3(&out, &sig, ";\n");
                },
                None => {},
            },
            _ => {},
        }
        i = i + 1;
    }
}

/// A text inside the namespaces of a module; nothing where the text is blank.
pub fn in_namespace(ns: &Vec<String>, body: &str) -> (r: String)
    ensures
        r@ == in_namespace_spec(texts(ns@), body@),
{
    proof {
        reveal(in_namespace_spec);
    }
    if empty(&trim(body)) {
        return String::new();
    }
    cat2(&ns_close(ns.len(), cat4(&ns_open(ns, 0, String::new()), "\n", body, "\n")), "\n")
}

/// The declarations of a module: types declared ahead, constants, types, functions, and
/// exports at global scope.
pub fn section(prog: &Program, mi: usize, m: &Module, bodies: bool) -> (r: (String, Vec<(usize, String)>, Vec<(usize, String)>))
    ensures
        (r.0@, usize_texts_v(r.1@), usize_texts_v(r.2@)) == section_spec(prog.v(), (mi as int), m.v(), bodies),
{
    proof {
        reveal(section_spec);
    }
    let decls = &m.file.decls;
    let ns = &m.package;
    let t = tabs(ns.len());
    let ahead = forward_text(prog, mi, decls, &t);
    let consts = const_lines(prog, mi, decls, 0, String::new());
    let gap = if any_const(prog, mi, decls, 0) { "\n" } else { "" };
    let (first, types, later, warnings, errors) = type_texts(prog, mi, ns, decls, bodies, &t, 0, true, String::new(), String::new(), Vec::new(), Vec::new());
    let tail = if empty(&later) { String::new() } else { cat2("\n", &later) };
    let fns = fn_lines(prog, mi, ns, decls, &t, 0, String::new());
    let fgap = if empty(&fns) || first { "" } else { "\n" };
    let body = cat7(&ahead, &consts, gap, &types, &tail, fgap, &fns);
    let exports = export_lines(prog, mi, decls, 0, String::new());
    let etail = if empty(&exports) { String::new() } else { cat2(&exports, "\n") };
    (cat2(&in_namespace(ns, &body), &etail), warnings, errors)
}

/// The inline definitions of the classes from `i` on.
pub fn inline_classes(prog: &Program, mi: usize, decls: &Vec<Decl>, i: usize, out: String, warnings: Vec<(usize, String)>, errors: Vec<(usize, String)>) -> (r: (String, Vec<(usize, String)>, Vec<(usize, String)>))
    ensures
        (r.0@, usize_texts_v(r.1@), usize_texts_v(r.2@)) == inline_classes_spec(prog.v(), (mi as int), decls_v(decls@), (i as int), out@, usize_texts_v(warnings@), usize_texts_v(errors@)),
{
    let ghost i_0 = i;
    let ghost out_0 = out;
    let ghost warnings_0 = warnings;
    let ghost errors_0 = errors;
    let mut i: usize = i;
    let mut out: String = out;
    let mut warnings: Vec<(usize, String)> = warnings;
    let mut errors: Vec<(usize, String)> = errors;
    #[verifier::loop_isolation(false)]
    loop
        invariant
            inline_classes_spec(prog.v(), (mi as int), decls_v(decls@), (i_0 as int), out_0@, usize_texts_v(warnings_0@), usize_texts_v(errors_0@)) == inline_classes_spec(prog.v(), (mi as int), decls_v(decls@), (i as int), out@, usize_texts_v(warnings@), usize_texts_v(errors@)),
        decreases decls.len() - i,
    {
        if i >= decls.len() {
            return (out, warnings, errors);
        }
        match &decls[i] {
            Decl::Class(c) => {
                if is_emitted_class(c) {
                    let (defs, w, e) = inline_class_defs(prog, mi, c);
                    out = cat2(&out, &defs);
                    warnings = add_reports(warnings, &w);
                    errors = add_reports(errors, &e);
                }
            },
            _ => {},
        }
        i = i + 1;
    }
}

/// The inline definitions of a module, inside its namespaces.
pub fn inline_defs_section(prog: &Program, mi: usize, m: &Module) -> (r: (String, Vec<(usize, String)>, Vec<(usize, String)>))
    ensures
        (r.0@, usize_texts_v(r.1@), usize_texts_v(r.2@)) == inline_defs_section_spec(prog.v(), (mi as int), m.v()),
{
    proof {
        reveal(inline_defs_section_spec);
    }
    let (body, w, e) = inline_classes(prog, mi, &m.file.decls, 0, String::new(), Vec::new(), Vec::new());
    let (fns, fw, fe) = inline_free_fn_defs(prog, mi);
    (in_namespace(&m.package, &cat2(&body, &fns)), add_reports(w, &fw), add_reports(e, &fe))
}

// ---- the whole header ---------------------------------------------------

/// The includes from `i` on. The prelude's is left out where `skip` names it.
pub fn include_lines(includes: &Vec<String>, skip: &str, i: usize, out: String) -> (r: String)
    ensures
        r@ == include_lines_spec(texts(includes@), skip@, (i as int), out@),
{
    let ghost i_0 = i;
    let ghost out_0 = out;
    let mut i: usize = i;
    let mut out: String = out;
    #[verifier::loop_isolation(false)]
    loop
        invariant
            include_lines_spec(texts(includes@), skip@, (i_0 as int), out_0@) == include_lines_spec(texts(includes@), skip@, (i as int), out@),
        decreases includes.len() - i,
    {
        if i >= includes.len() {
            return out;
        }
        if empty(skip) || !same(&includes[i], skip) {
            out = if starts_with(&includes[i], "<") { cat4(&out, "#include ", &includes[i], "\n") } else { cat4(&out, "#include \"", &includes[i], "\"\n") };
        }
        i = i + 1;
    }
}

/// Past the line feeds from `i` on.
pub fn past_feeds(cs: &Vec<char>, i: usize) -> (r: usize)
    ensures
        (r as int) == past_feeds_spec(cs@, (i as int)),
{
    let ghost i_0 = i;
    let mut i: usize = i;
    #[verifier::loop_isolation(false)]
    loop
        invariant
            past_feeds_spec(cs@, (i_0 as int)) == past_feeds_spec(cs@, (i as int)),
        decreases cs.len() - i,
    {
        if i >= cs.len() || cs[i] != '\n' {
            return i;
        }
        i = i + 1;
    }
}

/// Back over the line feeds before `b`, no further than `a`.
pub fn before_feeds(cs: &Vec<char>, a: usize, b: usize) -> (r: usize)
    requires
        b <= cs.len(),
    ensures
        (r as int) == before_feeds_spec(cs@, (a as int), (b as int)),
{
    let ghost b_0 = b;
    let mut b: usize = b;
    #[verifier::loop_isolation(false)]
    loop
        invariant
            before_feeds_spec(cs@, (a as int), (b_0 as int)) == before_feeds_spec(cs@, (a as int), (b as int)),
            b <= cs.len(),
        decreases b - a,
    {
        if a < b && cs[b - 1] == '\n' {
            b = b - 1;
        } else {
            return b;
        }
    }
}

/// A text without the line feeds around it.
pub fn no_feeds(s: &str) -> (r: String)
    ensures
        r@ == no_feeds_spec(s@),
{
    proof {
        reveal(no_feeds_spec);
    }
    let cs = chars_of(s);
    let a: usize = past_feeds(&cs, 0);
    cut(&cs, a, before_feeds(&cs, a, cs.len()))
}

/// A text that is there, followed by a blank line.
pub fn block(s: &str) -> (r: String)
    ensures
        r@ == block_spec(s@),
{
    cat2(s, "\n\n")
}

/// The header of a module.
pub fn build_header(prog: &Program, mi: usize, m: &Module, opts: &HeaderOpts) -> (r: (String, Vec<(usize, String)>, Vec<(usize, String)>))
    ensures
        (r.0@, usize_texts_v(r.1@), usize_texts_v(r.2@)) == build_header_spec(prog.v(), (mi as int), m.v(), opts.v()),
{
    proof {
        reveal(build_header_spec);
    }
    let stem = match &opts.guard_stem {
        Some(s) => s.clone(),
        None => m.stem.clone(),
    };
    let guard = cat2(&sanitize(&to_upper(&stem)), "_H");
    let (prelude, skip) = match &opts.inline_prelude {
        Some(text) => (block(&trim_end(text)), cat2(&prog.stdafx_stem, ".h")),
        None => (String::new(), String::new()),
    };
    let code = match &opts.header_code {
        Some(hc) => block(&no_feeds(hc)),
        None => String::new(),
    };
    let (text, warnings, errors) = section(prog, mi, m, opts.inline_bodies);
    (cat4(&cat8("#ifndef ", &guard, "\n#define ", &guard, "\n\n", &prelude, &include_lines(&m.includes, &skip, 0, String::new()), "\n"), &code, &text, "#endif\n"), warnings, errors)
}

/// The header of a module with what was reported; `None` where it has none.
pub fn generate_header_with(prog: &Program, module_index: usize, opts: &HeaderOpts) -> (r: Option<(String, Vec<(usize, String)>, Vec<(usize, String)>)>)
    ensures
        (match r { Some(y) => Some((y.0@, usize_texts_v(y.1@), usize_texts_v(y.2@))), None => None }) == generate_header_with_spec(prog.v(), (module_index as int), opts.v()),
{
    proof {
        reveal(generate_header_with_spec);
    }
    match module_at(prog, module_index) {
        Some(m) => {
            if m.is_stdafx || !m.has_header {
                return None;
            }
            Some(build_header(prog, module_index, m, opts))
        },
        None => None,
    }
}

/// The header of a module; `None` where it has none.
pub fn generate_header(prog: &Program, module_index: usize) -> (r: Option<String>)
    ensures
        (match r { Some(y) => Some(y@), None => None }) == generate_header_spec(prog.v(), (module_index as int)),
{
    proof {
        reveal(generate_header_spec);
    }
    match generate_header_with(prog, module_index, &plain_opts()) {
        Some((text, _, _)) => Some(text),
        None => None,
    }
}

/// What [`plain_opts`] computes.
pub open spec fn plain_opts_spec() -> HeaderOptsV
{
    HeaderOptsV { inline_prelude: None, inline_bodies: false, header_code: None, guard_stem: None }
}

/// What [`class_decl_lines`] computes.
pub open spec fn class_decl_lines_spec(names: Seq<Seq<char>>, t: Seq<char>, i: int, out: Seq<char>) -> Seq<char>
    decreases names.len() - i,
{
    if !(0 <= i < names.len()) { out } else {
        let out = out + t + "class "@ + (names[i]) + ";\n"@;
        let i = i + 1;
        class_decl_lines_spec(names, t, i, out)
    }
}

/// What [`forward_text`] computes.
pub open spec fn forward_text_spec(prog: ProgramV, mi: int, decls: Seq<DeclV>, t: Seq<char>) -> Seq<char>
{
    let names = forward_names_spec(prog, mi, decls, 0int, Seq::empty(), Seq::empty());
    if (names.len()) == 0 { Seq::empty() } else { (class_decl_lines_spec(names, t, 0int, Seq::empty())) + "\n"@ }
}

/// What [`const_lines`] computes.
pub open spec fn const_lines_spec(prog: ProgramV, mi: int, decls: Seq<DeclV>, i: int, out: Seq<char>) -> Seq<char>
    decreases decls.len() - i,
{
    if !(0 <= i < decls.len()) { out } else {
        let out = match decls[i] {
            DeclV::Global(g) => {
                if g.is_final && (!g.is_extern) && (g.access != (Access::Private)) {
                    match render_final_const_spec(prog, mi, g) {
                        Some(text) => {
                            let out = out + text;
                            out
                        },
                        None => { out },
                    }
                } else { out }
            },
            _ => { out },
        };
        let i = i + 1;
        const_lines_spec(prog, mi, decls, i, out)
    }
}

/// What [`any_const`] computes.
pub open spec fn any_const_spec(prog: ProgramV, mi: int, decls: Seq<DeclV>, i: int) -> bool
    decreases decls.len() - i,
{
    if !(0 <= i < decls.len()) { false } else {
        match decls[i] {
            DeclV::Global(g) => {
                if g.is_final && (!g.is_extern) && (g.access != (Access::Private)) && (render_final_const_spec(prog, mi, g) is Some) { true } else {
                    let i = i + 1;
                    any_const_spec(prog, mi, decls, i)
                }
            },
            _ => {
                let i = i + 1;
                any_const_spec(prog, mi, decls, i)
            },
        }
    }
}

/// What [`type_text`] computes.
pub open spec fn type_text_spec(prog: ProgramV, mi: int, ns: Seq<Seq<char>>, decls: Seq<DeclV>, d: DeclV, t: Seq<char>) -> (Seq<char>, Seq<char>)
{
    match d {
        DeclV::Enum(e) => { (emit_enum_spec(prog, mi, ns, e, t), Seq::empty()) },
        DeclV::Typedef(td) => { (emit_typedef_spec(prog, mi, ns, td, t), Seq::empty()) },
        DeclV::Interface(it) => { (emit_interface_spec(prog, mi, ns, it, t), Seq::empty()) },
        DeclV::Class(c) => { emit_class_spec(prog, mi, ns, decls, *c, t) },
        _ => { (Seq::empty(), Seq::empty()) },
    }
}

/// What [`type_texts`] computes.
pub open spec fn type_texts_spec(prog: ProgramV, mi: int, ns: Seq<Seq<char>>, decls: Seq<DeclV>, bodies: bool, t: Seq<char>, i: int, first: bool, out: Seq<char>, later: Seq<char>, warnings: Seq<(int, Seq<char>)>, errors: Seq<(int, Seq<char>)>) -> (bool, Seq<char>, Seq<char>, Seq<(int, Seq<char>)>, Seq<(int, Seq<char>)>)
    decreases decls.len() - i,
{
    if !(0 <= i < decls.len()) { (first, out, later, warnings, errors) } else {
        let (errors, first, later, out, warnings) = if is_emitted_type_spec(decls[i]) {
            let (text, def) = type_text_spec(prog, mi, ns, decls, decls[i], t);
            let out = if first { out + text } else { out + "\n"@ + text };
            let first = false;
            let later = later + def;
            match decls[i] {
                DeclV::Class(c) => {
                    if bodies {
                        let (defs, w, e) = inline_class_defs_spec(prog, mi, *c);
                        let later = later + defs;
                        let warnings = add_reports_spec(warnings, w);
                        let errors = add_reports_spec(errors, e);
                        (errors, first, later, out, warnings)
                    } else { (errors, first, later, out, warnings) }
                },
                _ => { (errors, first, later, out, warnings) },
            }
        } else { (errors, first, later, out, warnings) };
        let i = i + 1;
        type_texts_spec(prog, mi, ns, decls, bodies, t, i, first, out, later, warnings, errors)
    }
}

/// What [`plain_fn_decl`] computes.
#[verifier::opaque]
pub open spec fn plain_fn_decl_spec(prog: ProgramV, mi: int, ns: Seq<Seq<char>>, f: FunctionV) -> Option<Seq<char>>
{
    if !is_plain_fn_spec(f) { None } else {
        match f.name {
            Some(name) => {
                Some(ret_spelling_spec(prog, mi, ns, f.ret) + " "@ + name + "("@ + param_list_spec(prog, mi, ns, f.params, true) + ")"@)
            },
            None => { None },
        }
    }
}

/// What [`lambda_ret_spelling`] computes.
#[verifier::opaque]
pub open spec fn lambda_ret_spelling_spec(prog: ProgramV, mi: int, ns: Seq<Seq<char>>, ret: Option<TypeV>, body: LambdaBodyV, decl_ty: Option<TypeV>) -> Seq<char>
{
    match ret {
        Some(t) => { map_type_use_spec(prog, t, mi, ns) },
        None => {
            match func_ret_spec(decl_ty) {
                Some(t) => { map_type_use_spec(prog, t, mi, ns) },
                None => {
                    match cast_type_spec(body) {
                        Some(t) => { map_type_use_spec(prog, t, mi, ns) },
                        None => { "double"@ },
                    }
                },
            }
        },
    }
}

/// What [`free_fn_decl`] computes.
#[verifier::opaque]
pub open spec fn free_fn_decl_spec(prog: ProgramV, mi: int, ns: Seq<Seq<char>>, g: GlobalVarV) -> Option<Seq<char>>
{
    if !g.is_final { None } else {
        match g.init {
            Some(e) => {
                match e {
                    ExprV::Lambda { params, ret, body } => {
                        Some(lambda_ret_spelling_spec(prog, mi, ns, ret, *body, g.ty) + " "@ + g.name + "("@ + param_list_spec(prog, mi, ns, params, true) + ")"@)
                    },
                    _ => { None },
                }
            },
            None => { None },
        }
    }
}

/// What [`extern_fn_decl`] computes.
#[verifier::opaque]
pub open spec fn extern_fn_decl_spec(prog: ProgramV, mi: int, f: FunctionV) -> Option<Seq<char>>
{
    if !meta_has_spec(f.meta, "cexport"@) { None } else {
        let none: Seq<Seq<char>> = Seq::empty();
        match f.name {
            Some(name) => {
                Some(prog.export_macro + "_EXPORT "@ + ret_spelling_spec(prog, mi, none, f.ret) + " "@ + prog.export_macro + "_CALL "@ + name + "("@ + param_list_spec(prog, mi, none, f.params, true) + ")"@)
            },
            None => { None },
        }
    }
}

/// What [`public_fn`] computes.
pub open spec fn public_fn_spec(prog: ProgramV, mi: int, ns: Seq<Seq<char>>, d: DeclV) -> Option<Seq<char>>
{
    match d {
        DeclV::Global(g) => {
            if g.access == (Access::Private) { None } else { free_fn_decl_spec(prog, mi, ns, g) }
        },
        DeclV::Function(f) => {
            if f.access == (Access::Private) { None } else { plain_fn_decl_spec(prog, mi, ns, f) }
        },
        _ => { None },
    }
}

/// What [`fn_lines`] computes.
pub open spec fn fn_lines_spec(prog: ProgramV, mi: int, ns: Seq<Seq<char>>, decls: Seq<DeclV>, t: Seq<char>, i: int, out: Seq<char>) -> Seq<char>
    decreases decls.len() - i,
{
    if !(0 <= i < decls.len()) { out } else {
        let out = match public_fn_spec(prog, mi, ns, decls[i]) {
            Some(sig) => {
                let out = out + t + sig + ";\n"@;
                out
            },
            None => { out },
        };
        let i = i + 1;
        fn_lines_spec(prog, mi, ns, decls, t, i, out)
    }
}

/// What [`export_lines`] computes.
pub open spec fn export_lines_spec(prog: ProgramV, mi: int, decls: Seq<DeclV>, i: int, out: Seq<char>) -> Seq<char>
    decreases decls.len() - i,
{
    if !(0 <= i < decls.len()) { out } else {
        let out = match decls[i] {
            DeclV::Function(f) => {
                match extern_fn_decl_spec(prog, mi, f) {
                    Some(sig) => {
                        let out = out + sig + ";\n"@;
                        out
                    },
                    None => { out },
                }
            },
            _ => { out },
        };
        let i = i + 1;
        export_lines_spec(prog, mi, decls, i, out)
    }
}

/// What [`in_namespace`] computes.
#[verifier::opaque]
pub open spec fn in_namespace_spec(ns: Seq<Seq<char>>, body: Seq<char>) -> Seq<char>
{
    if ((trim_spec(body)).len() == 0) { Seq::empty() } else {
        (ns_close_spec(ns.len() as int, (ns_open_spec(ns, 0int, Seq::empty())) + "\n"@ + body + "\n"@)) + "\n"@
    }
}

/// What [`section`] computes.
#[verifier::opaque]
pub open spec fn section_spec(prog: ProgramV, mi: int, m: ModuleV, bodies: bool) -> (Seq<char>, Seq<(int, Seq<char>)>, Seq<(int, Seq<char>)>)
{
    let decls = m.file.decls;
    let ns = m.package;
    let t = tabs_spec(ns.len() as int);
    let ahead = forward_text_spec(prog, mi, decls, t);
    let consts = const_lines_spec(prog, mi, decls, 0int, Seq::empty());
    let gap = if any_const_spec(prog, mi, decls, 0int) { "\n"@ } else { ""@ };
    let (first, types, later, warnings, errors) = type_texts_spec(prog, mi, ns, decls, bodies, t, 0int, true, Seq::empty(), Seq::empty(), Seq::empty(), Seq::empty());
    let tail = if ((later).len() == 0) { Seq::empty() } else { "\n"@ + later };
    let fns = fn_lines_spec(prog, mi, ns, decls, t, 0int, Seq::empty());
    let fgap = if ((fns).len() == 0) || first { ""@ } else { "\n"@ };
    let body = ahead + consts + gap + types + tail + fgap + fns;
    let exports = export_lines_spec(prog, mi, decls, 0int, Seq::empty());
    let etail = if ((exports).len() == 0) { Seq::empty() } else { exports + "\n"@ };
    (in_namespace_spec(ns, body) + etail, warnings, errors)
}

/// What [`inline_classes`] computes.
pub open spec fn inline_classes_spec(prog: ProgramV, mi: int, decls: Seq<DeclV>, i: int, out: Seq<char>, warnings: Seq<(int, Seq<char>)>, errors: Seq<(int, Seq<char>)>) -> (Seq<char>, Seq<(int, Seq<char>)>, Seq<(int, Seq<char>)>)
    decreases decls.len() - i,
{
    if !(0 <= i < decls.len()) { (out, warnings, errors) } else {
        let (errors, out, warnings) = match decls[i] {
            DeclV::Class(c) => {
                if is_emitted_class_spec(*c) {
                    let (defs, w, e) = inline_class_defs_spec(prog, mi, *c);
                    let out = out + defs;
                    let warnings = add_reports_spec(warnings, w);
                    let errors = add_reports_spec(errors, e);
                    (errors, out, warnings)
                } else { (errors, out, warnings) }
            },
            _ => { (errors, out, warnings) },
        };
        let i = i + 1;
        inline_classes_spec(prog, mi, decls, i, out, warnings, errors)
    }
}

/// What [`inline_defs_section`] computes.
#[verifier::opaque]
pub open spec fn inline_defs_section_spec(prog: ProgramV, mi: int, m: ModuleV) -> (Seq<char>, Seq<(int, Seq<char>)>, Seq<(int, Seq<char>)>)
{
    let (body, w, e) = inline_classes_spec(prog, mi, m.file.decls, 0int, Seq::empty(), Seq::empty(), Seq::empty());
    let (fns, fw, fe) = inline_free_fn_defs_spec(prog, mi);
    (in_namespace_spec(m.package, body + fns), add_reports_spec(w, fw), add_reports_spec(e, fe))
}

/// What [`include_lines`] computes.
pub open spec fn include_lines_spec(includes: Seq<Seq<char>>, skip: Seq<char>, i: int, out: Seq<char>) -> Seq<char>
    decreases includes.len() - i,
{
    if !(0 <= i < includes.len()) { out } else {
        let out = if ((skip).len() == 0) || !(includes[i] == skip) {
            let out = if ("<"@).is_prefix_of(includes[i]) { out + "#include "@ + (includes[i]) + "\n"@ } else { out + "#include \""@ + (includes[i]) + "\"\n"@ };
            out
        } else { out };
        let i = i + 1;
        include_lines_spec(includes, skip, i, out)
    }
}

/// What [`past_feeds`] computes.
pub open spec fn past_feeds_spec(cs: Seq<char>, i: int) -> int
    decreases cs.len() - i,
{
    if !(0 <= i < cs.len()) || ((cs[i]) != '\n') { i } else {
        let i = i + 1;
        past_feeds_spec(cs, i)
    }
}

/// What [`before_feeds`] computes.
pub open spec fn before_feeds_spec(cs: Seq<char>, a: int, b: int) -> int
    decreases b - a,
{
    if (a < b) && ((cs[b - 1]) == '\n') {
        let b = b - 1;
        before_feeds_spec(cs, a, b)
    } else { b }
}

/// What [`no_feeds`] computes.
#[verifier::opaque]
pub open spec fn no_feeds_spec(s: Seq<char>) -> Seq<char>
{
    let cs = s;
    let a: int = past_feeds_spec(cs, 0int);
    cut_spec(cs, a, before_feeds_spec(cs, a, cs.len() as int))
}

/// What [`block`] computes.
pub open spec fn block_spec(s: Seq<char>) -> Seq<char>
{
    s + "\n\n"@
}

/// What [`build_header`] computes.
#[verifier::opaque]
pub open spec fn build_header_spec(prog: ProgramV, mi: int, m: ModuleV, opts: HeaderOptsV) -> (Seq<char>, Seq<(int, Seq<char>)>, Seq<(int, Seq<char>)>)
{
    let stem = match opts.guard_stem {
        Some(s) => { s },
        None => { m.stem },
    };
    let guard = (sanitize_spec(upper(stem))) + "_H"@;
    let (prelude, skip) = match opts.inline_prelude {
        Some(text) => { (block_spec(trim_end_spec(text)), prog.stdafx_stem + ".h"@) },
        None => { (Seq::empty(), Seq::empty()) },
    };
    let code = match opts.header_code {
        Some(hc) => { block_spec(no_feeds_spec(hc)) },
        None => { Seq::empty() },
    };
    let (text, warnings, errors) = section_spec(prog, mi, m, opts.inline_bodies);
    ("#ifndef "@ + guard + "\n#define "@ + guard + "\n\n"@ + prelude + (include_lines_spec(m.includes, skip, 0int, Seq::empty())) + "\n"@ + code + text + "#endif\n"@, warnings, errors)
}

/// What [`generate_header_with`] computes.
#[verifier::opaque]
pub open spec fn generate_header_with_spec(prog: ProgramV, module_index: int, opts: HeaderOptsV) -> Option<(Seq<char>, Seq<(int, Seq<char>)>, Seq<(int, Seq<char>)>)>
{
    match module_at_spec(prog, module_index) {
        Some(m) => {
            if m.is_stdafx || (!m.has_header) { None } else { Some(build_header_spec(prog, module_index, m, opts)) }
        },
        None => { None },
    }
}

/// What [`generate_header`] computes.
#[verifier::opaque]
pub open spec fn generate_header_spec(prog: ProgramV, module_index: int) -> Option<Seq<char>>
{
    match generate_header_with_spec(prog, module_index, plain_opts_spec()) {
        Some((text, _, _)) => { Some(text) },
        None => { None },
    }
}

} // verus!
