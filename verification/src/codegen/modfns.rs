//! The constants and free functions of a module.

use vstd::prelude::*;

use crate::ast::{Access, Class, Decl, Function, GlobalVar};
use crate::codegen::consts::file_scope_const_spec;
use crate::codegen::fndef::{extern_fn_def_spec, free_fn_def_spec, free_fn_signature_spec, plain_fn_def_spec, plain_fn_signature_spec};
use crate::codegen::gen::GenV;
use crate::codegen::scan::{is_lambda_global, is_lambda_global_spec};
use crate::codegen::state::{BodyGen, Env, forget_since_spec, restart_spec};
use crate::model::{ClassV, DeclV, FunctionV, GlobalVarV, decls_v};
use crate::parser::types::{meta_has, meta_has_spec};
use crate::text::{cat2, cat4, cat7, empty};

verus! {

broadcast use {crate::codegen::gen::group_gen, crate::codegen::ty::group_ty, crate::model::group_model, crate::program::group_program, crate::text::group_texts};

/// Which declarations are meant.
#[derive(Debug, Clone, Copy, PartialEq, Eq, Structural)]
pub enum Sort {
    /// A class with definitions of its own.
    Class,
    /// A constant bound to a function.
    Lambda,
    /// A function with a body.
    Plain,
    /// A function exported with C linkage.
    Export,
    /// A constant of the file.
    FileFinal,
}

/// A class that is emitted: neither external nor a proxy.
pub fn is_emitted_class(c: &Class) -> (r: bool)
    ensures
        r == is_emitted_class_spec(c.v()),
{
    !c.is_extern && !meta_has(&c.meta, "proxy")
}

/// Whether a function of a module is a free C++ function.
pub fn is_plain_fn(f: &Function) -> (r: bool)
    ensures
        r == is_plain_fn_spec(f.v()),
{
    !f.modifiers.is_macro && !meta_has(&f.meta, "cexport") && f.body.is_some()
}

/// Whether a final of a module is a constant of its source.
pub fn is_file_final(g: &GlobalVar) -> (r: bool)
    ensures
        r == is_file_final_spec(g.v()),
{
    g.is_final && !g.is_extern && g.access == Access::Private && !is_lambda_global(g)
}

/// Whether a declaration is of a sort.
pub fn is_sort(d: &Decl, sort: Sort) -> (r: bool)
    ensures
        r == is_sort_spec(d.v(), sort),
{
    match d {
        Decl::Class(c) => sort == Sort::Class && is_emitted_class(c),
        Decl::Global(g) => (sort == Sort::Lambda && is_lambda_global(g)) || (sort == Sort::FileFinal && is_file_final(g)),
        Decl::Function(f) => (sort == Sort::Export && meta_has(&f.meta, "cexport")) || (sort == Sort::Plain && is_plain_fn(f)),
        _ => false,
    }
}

/// Whether one of the declarations from `i` on is of a sort.
pub fn any_of(decls: &Vec<Decl>, sort: Sort, i: usize) -> (r: bool)
    ensures
        r == any_of_spec(decls_v(decls@), sort, (i as int)),
{
    let ghost i_0 = i;
    let mut i: usize = i;
    #[verifier::loop_isolation(false)]
    loop
        invariant
            any_of_spec(decls_v(decls@), sort, (i_0 as int)) == any_of_spec(decls_v(decls@), sort, (i as int)),
        decreases decls.len() - i,
    {
        if i >= decls.len() {
            return false;
        }
        if is_sort(&decls[i], sort) {
            return true;
        }
        i = i + 1;
    }
}

impl<'a> BodyGen<'a> {
    fn finals_from(&mut self, decls: &Vec<Decl>, i: usize, out: String) -> (r: String)
        ensures
            final(self).pg() == old(self).pg(),
            final(self).room() == old(self).room(),
            (final(self).gv(), r@) == finals_from_spec(old(self).pg(), old(self).room(), old(self).gv(), decls_v(decls@), (i as int), out@),
    {
        let ghost i_0 = i;
        let ghost out_0 = out;
        let mut i: usize = i;
        let mut out: String = out;
        #[verifier::loop_isolation(false)]
        loop
            invariant
                self.pg() == old(self).pg(),
                self.room() == old(self).room(),
                finals_from_spec(old(self).pg(), old(self).room(), old(self).gv(), decls_v(decls@), (i_0 as int), out_0@) == finals_from_spec(self.pg(), self.room(), self.gv(), decls_v(decls@), (i as int), out@),
            decreases decls.len() - i,
        {
            proof {
                reveal(finals_from_spec);
            }
            if i >= decls.len() {
                return out;
            }
            match &decls[i] {
                Decl::Global(g) => {
                    if is_file_final(g) {
                        match self.file_scope_const(g) {
                            Some(text) => {
                                out = cat2(&out, &text);
                            },
                            None => {},
                        }
                    }
                },
                _ => {},
            }
            i = i + 1;
        }
    }

    /// A declaration ahead of its definition, of a function only the file sees. What is to be
    /// reported is reported at the definition.
    fn forward_decl(&mut self, d: &Decl, sort: Sort, kw: &str, defaults: bool) -> (r: String)
        ensures
            final(self).pg() == old(self).pg(),
            final(self).room() == old(self).room(),
            (final(self).gv(), r@) == forward_decl_spec(old(self).pg(), old(self).gv(), d.v(), sort, kw@, defaults),
    {
        proof {
            reveal(forward_decl_spec);
        }
        let nw: usize = self.warnings().len();
        let ne: usize = self.errors().len();
        self.restart(false);
        let sig = match d {
            Decl::Global(g) => {
                if sort == Sort::Lambda && is_lambda_global(g) && g.access == Access::Private {
                    self.free_fn_signature(g, defaults)
                } else {
                    None
                }
            },
            Decl::Function(f) => {
                if sort == Sort::Plain && is_plain_fn(f) && f.access == Access::Private {
                    self.plain_fn_signature(f, false)
                } else {
                    None
                }
            },
            _ => None,
        };
        self.forget_since(nw, ne);
        match sig {
            Some(text) => cat4("\t", kw, &text, ";\n"),
            None => String::new(),
        }
    }

    fn forward_decls(&mut self, decls: &Vec<Decl>, sort: Sort, kw: &str, defaults: bool, i: usize, out: String) -> (r: String)
        ensures
            final(self).pg() == old(self).pg(),
            final(self).room() == old(self).room(),
            (final(self).gv(), r@) == forward_decls_spec(old(self).pg(), old(self).gv(), decls_v(decls@), sort, kw@, defaults, (i as int), out@),
    {
        let ghost i_0 = i;
        let ghost out_0 = out;
        let mut i: usize = i;
        let mut out: String = out;
        #[verifier::loop_isolation(false)]
        loop
            invariant
                self.pg() == old(self).pg(),
                self.room() == old(self).room(),
                forward_decls_spec(old(self).pg(), old(self).gv(), decls_v(decls@), sort, kw@, defaults, (i_0 as int), out_0@) == forward_decls_spec(self.pg(), self.gv(), decls_v(decls@), sort, kw@, defaults, (i as int), out@),
            decreases decls.len() - i,
        {
            proof {
                reveal(forward_decls_spec);
            }
            if i >= decls.len() {
                return out;
            }
            let text = self.forward_decl(&decls[i], sort, kw, defaults);
            out = cat2(&out, &text);
            i = i + 1;
        }
    }

    /// The definition of a declaration of a sort, and what follows it.
    fn definition(&mut self, d: &Decl, sort: Sort, inline: bool, sep: &str) -> (r: String)
        ensures
            final(self).pg() == old(self).pg(),
            final(self).room() == old(self).room(),
            (final(self).gv(), r@) == definition_spec(old(self).pg(), old(self).room(), old(self).gv(), d.v(), sort, inline, sep@),
    {
        proof {
            reveal(definition_spec);
        }
        match d {
            Decl::Global(g) => {
                if sort != Sort::Lambda || !is_lambda_global(g) {
                    return String::new();
                }
                self.restart(inline);
                let text = self.free_fn_def(g);
                cat2(&text, sep)
            },
            Decl::Function(f) => {
                if sort == Sort::Plain && is_plain_fn(f) {
                    self.restart(inline);
                    let text = self.plain_fn_def(f);
                    return cat2(&text, sep);
                }
                if sort == Sort::Export && meta_has(&f.meta, "cexport") {
                    self.restart(inline);
                    self.set_ns(Vec::new());
                    let text = self.extern_fn_def(f);
                    return cat2(sep, &text);
                }
                String::new()
            },
            _ => String::new(),
        }
    }

    /// The definitions of one sort among the declarations from `i` on.
    pub fn definitions(&mut self, decls: &Vec<Decl>, sort: Sort, inline: bool, sep: &str, i: usize, out: String) -> (r: String)
        ensures
            final(self).pg() == old(self).pg(),
            final(self).room() == old(self).room(),
            (final(self).gv(), r@) == definitions_spec(old(self).pg(), old(self).room(), old(self).gv(), decls_v(decls@), sort, inline, sep@, (i as int), out@),
    {
        let ghost i_0 = i;
        let ghost out_0 = out;
        let mut i: usize = i;
        let mut out: String = out;
        #[verifier::loop_isolation(false)]
        loop
            invariant
                self.pg() == old(self).pg(),
                self.room() == old(self).room(),
                definitions_spec(old(self).pg(), old(self).room(), old(self).gv(), decls_v(decls@), sort, inline, sep@, (i_0 as int), out_0@) == definitions_spec(self.pg(), self.room(), self.gv(), decls_v(decls@), sort, inline, sep@, (i as int), out@),
            decreases decls.len() - i,
        {
            proof {
                reveal(definitions_spec);
            }
            if i >= decls.len() {
                return out;
            }
            let text = self.definition(&decls[i], sort, inline, sep);
            out = cat2(&out, &text);
            i = i + 1;
        }
    }

    /// The constants and functions of a module, as they stand in its source file.
    pub fn source_fns(&mut self, decls: &Vec<Decl>) -> (r: String)
        ensures
            final(self).pg() == old(self).pg(),
            final(self).room() == old(self).room(),
            (final(self).gv(), r@) == source_fns_spec(old(self).pg(), old(self).room(), old(self).gv(), decls_v(decls@)),
    {
        proof {
            reveal(source_fns_spec);
        }
        let finals = if any_of(decls, Sort::FileFinal, 0) {
            let text = self.finals_from(decls, 0, String::new());
            cat2(&text, "\n")
        } else {
            String::new()
        };
        let fwd1 = self.forward_decls(decls, Sort::Lambda, "static ", true, 0, String::new());
        let gap1 = if empty(&fwd1) { "" } else { "\n" };
        let lambdas = self.definitions(decls, Sort::Lambda, false, "\n", 0, String::new());
        let fwd2 = self.forward_decls(decls, Sort::Plain, "static ", false, 0, String::new());
        let gap2 = if empty(&fwd2) { "" } else { "\n" };
        let plains = self.definitions(decls, Sort::Plain, false, "\n", 0, String::new());
        cat7(&finals, &fwd1, gap1, &lambdas, &fwd2, gap2, &plains)
    }

    /// The functions of a module, defined in a header.
    pub fn inline_fns(&mut self, decls: &Vec<Decl>) -> (r: String)
        ensures
            final(self).pg() == old(self).pg(),
            final(self).room() == old(self).room(),
            (final(self).gv(), r@) == inline_fns_spec(old(self).pg(), old(self).room(), old(self).gv(), decls_v(decls@)),
    {
        proof {
            reveal(inline_fns_spec);
        }
        let fwd1 = self.forward_decls(decls, Sort::Lambda, "inline ", false, 0, String::new());
        let fwd = self.forward_decls(decls, Sort::Plain, "inline ", false, 0, fwd1);
        let gap = if empty(&fwd) { "" } else { "\n" };
        let lambdas = self.definitions(decls, Sort::Lambda, true, "", 0, String::new());
        let plains = self.definitions(decls, Sort::Plain, true, "", 0, String::new());
        cat4(&fwd, gap, &lambdas, &plains)
    }
}

/// What [`is_emitted_class`] computes.
pub open spec fn is_emitted_class_spec(c: ClassV) -> bool
{
    (!c.is_extern) && (!meta_has_spec(c.meta, "proxy"@))
}

/// What [`is_plain_fn`] computes.
pub open spec fn is_plain_fn_spec(f: FunctionV) -> bool
{
    (!f.modifiers.is_macro) && (!meta_has_spec(f.meta, "cexport"@)) && (f.body is Some)
}

/// What [`is_file_final`] computes.
pub open spec fn is_file_final_spec(g: GlobalVarV) -> bool
{
    g.is_final && (!g.is_extern) && (g.access == (Access::Private)) && (!is_lambda_global_spec(g))
}

/// What [`is_sort`] computes.
pub open spec fn is_sort_spec(d: DeclV, sort: Sort) -> bool
{
    match d {
        DeclV::Class(c) => { (sort == (Sort::Class)) && is_emitted_class_spec(*c) },
        DeclV::Global(g) => {
            ((sort == (Sort::Lambda)) && is_lambda_global_spec(g)) || ((sort == (Sort::FileFinal)) && is_file_final_spec(g))
        },
        DeclV::Function(f) => {
            ((sort == (Sort::Export)) && meta_has_spec(f.meta, "cexport"@)) || ((sort == (Sort::Plain)) && is_plain_fn_spec(f))
        },
        _ => { false },
    }
}

/// What [`any_of`] computes.
pub open spec fn any_of_spec(decls: Seq<DeclV>, sort: Sort, i: int) -> bool
    decreases decls.len() - i,
{
    if !(0 <= i < decls.len()) { false } else {
        if is_sort_spec(decls[i], sort) { true } else {
            let i = i + 1;
            any_of_spec(decls, sort, i)
        }
    }
}

/// What [`BodyGen::finals_from`] computes.
#[verifier::opaque]
pub open spec fn finals_from_spec(p: Env, room: int, st: GenV, decls: Seq<DeclV>, i: int, out: Seq<char>) -> (GenV, Seq<char>)
    decreases decls.len() - i,
{
    if !(0 <= i < decls.len()) { (st, out) } else {
        let (st, out) = match decls[i] {
            DeclV::Global(g) => {
                if is_file_final_spec(g) {
                    let (st, x1) = file_scope_const_spec(p, room, st, g);
                    match x1 {
                        Some(text) => {
                            let out = out + text;
                            (st, out)
                        },
                        None => { (st, out) },
                    }
                } else { (st, out) }
            },
            _ => { (st, out) },
        };
        let i = i + 1;
        finals_from_spec(p, room, st, decls, i, out)
    }
}

/// What [`BodyGen::forward_decl`] computes.
#[verifier::opaque]
pub open spec fn forward_decl_spec(p: Env, st: GenV, d: DeclV, sort: Sort, kw: Seq<char>, defaults: bool) -> (GenV, Seq<char>)
{
    let nw: int = st.warnings.len() as int;
    let ne: int = st.errors.len() as int;
    let st = restart_spec(p, st, false);
    let (st, sig) = match d {
        DeclV::Global(g) => {
            if (sort == (Sort::Lambda)) && is_lambda_global_spec(g) && (g.access == (Access::Private)) {
                let (st, x1) = free_fn_signature_spec(p, st, g, defaults);
                (st, x1)
            } else { (st, None) }
        },
        DeclV::Function(f) => {
            if (sort == (Sort::Plain)) && is_plain_fn_spec(f) && (f.access == (Access::Private)) {
                let (st, x2) = plain_fn_signature_spec(p, st, f, false);
                (st, x2)
            } else { (st, None) }
        },
        _ => { (st, None) },
    };
    let st = forget_since_spec(p, st, nw, ne);
    match sig {
        Some(text) => {
            (st, "\t"@ + kw + text + ";\n"@)
        },
        None => { (st, Seq::empty()) },
    }
}

/// What [`BodyGen::forward_decls`] computes.
#[verifier::opaque]
pub open spec fn forward_decls_spec(p: Env, st: GenV, decls: Seq<DeclV>, sort: Sort, kw: Seq<char>, defaults: bool, i: int, out: Seq<char>) -> (GenV, Seq<char>)
    decreases decls.len() - i,
{
    if !(0 <= i < decls.len()) { (st, out) } else {
        let (st, text) = forward_decl_spec(p, st, decls[i], sort, kw, defaults);
        let out = out + text;
        let i = i + 1;
        forward_decls_spec(p, st, decls, sort, kw, defaults, i, out)
    }
}

/// What [`BodyGen::definition`] computes.
#[verifier::opaque]
pub open spec fn definition_spec(p: Env, room: int, st: GenV, d: DeclV, sort: Sort, inline: bool, sep: Seq<char>) -> (GenV, Seq<char>)
{
    match d {
        DeclV::Global(g) => {
            if (sort != (Sort::Lambda)) || (!is_lambda_global_spec(g)) { (st, Seq::empty()) } else {
                let st = restart_spec(p, st, inline);
                let (st, text) = free_fn_def_spec(p, room, st, g);
                (st, text + sep)
            }
        },
        DeclV::Function(f) => {
            if (sort == (Sort::Plain)) && is_plain_fn_spec(f) {
                let st = restart_spec(p, st, inline);
                let (st, text) = plain_fn_def_spec(p, room, st, f);
                (st, text + sep)
            } else {
                if (sort == (Sort::Export)) && meta_has_spec(f.meta, "cexport"@) {
                    let st = restart_spec(p, st, inline);
                    let st = GenV { ns: Seq::empty(), ..st };
                    let (st, text) = extern_fn_def_spec(p, room, st, f);
                    (st, sep + text)
                } else { (st, Seq::empty()) }
            }
        },
        _ => { (st, Seq::empty()) },
    }
}

/// What [`BodyGen::definitions`] computes.
#[verifier::opaque]
pub open spec fn definitions_spec(p: Env, room: int, st: GenV, decls: Seq<DeclV>, sort: Sort, inline: bool, sep: Seq<char>, i: int, out: Seq<char>) -> (GenV, Seq<char>)
    decreases decls.len() - i,
{
    if !(0 <= i < decls.len()) { (st, out) } else {
        let (st, text) = definition_spec(p, room, st, decls[i], sort, inline, sep);
        let out = out + text;
        let i = i + 1;
        definitions_spec(p, room, st, decls, sort, inline, sep, i, out)
    }
}

/// What [`BodyGen::source_fns`] computes.
#[verifier::opaque]
pub open spec fn source_fns_spec(p: Env, room: int, st: GenV, decls: Seq<DeclV>) -> (GenV, Seq<char>)
{
    let (st, finals) = if any_of_spec(decls, Sort::FileFinal, 0int) {
        let (st, text) = finals_from_spec(p, room, st, decls, 0int, Seq::empty());
        (st, text + "\n"@)
    } else { (st, Seq::empty()) };
    let (st, fwd1) = forward_decls_spec(p, st, decls, Sort::Lambda, "static "@, true, 0int, Seq::empty());
    let gap1 = if ((fwd1).len() == 0) { ""@ } else { "\n"@ };
    let (st, lambdas) = definitions_spec(p, room, st, decls, Sort::Lambda, false, "\n"@, 0int, Seq::empty());
    let (st, fwd2) = forward_decls_spec(p, st, decls, Sort::Plain, "static "@, false, 0int, Seq::empty());
    let gap2 = if ((fwd2).len() == 0) { ""@ } else { "\n"@ };
    let (st, plains) = definitions_spec(p, room, st, decls, Sort::Plain, false, "\n"@, 0int, Seq::empty());
    (st, finals + fwd1 + gap1 + lambdas + fwd2 + gap2 + plains)
}

/// What [`BodyGen::inline_fns`] computes.
#[verifier::opaque]
pub open spec fn inline_fns_spec(p: Env, room: int, st: GenV, decls: Seq<DeclV>) -> (GenV, Seq<char>)
{
    let (st, fwd1) = forward_decls_spec(p, st, decls, Sort::Lambda, "inline "@, false, 0int, Seq::empty());
    let (st, fwd) = forward_decls_spec(p, st, decls, Sort::Plain, "inline "@, false, 0int, fwd1);
    let gap = if ((fwd).len() == 0) { ""@ } else { "\n"@ };
    let (st, lambdas) = definitions_spec(p, room, st, decls, Sort::Lambda, true, ""@, 0int, Seq::empty());
    let (st, plains) = definitions_spec(p, room, st, decls, Sort::Plain, true, ""@, 0int, Seq::empty());
    (st, fwd + gap + lambdas + plains)
}

} // verus!
