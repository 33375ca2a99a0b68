//! Branches: what is decided without generating anything.

use vstd::prelude::*;

use crate::ast::{Case, EnumVariant, Expr, Stmt, UnOp};
use crate::codegen::gen::GenV;
use crate::codegen::helpers::{call_pattern_variant, call_pattern_variant_spec, int_ty, int_ty_spec, is_int_ty, is_int_ty_spec};
use crate::codegen::lookup::{adt_enum, adt_enum_spec, enum_constant, enum_constant_spec, variant_named, variant_named_spec};
use crate::codegen::parts::{Saved, SavedV, Shape, Subject, SubjectV};
use crate::codegen::scan::{cases_contain_loop_break, cases_contain_loop_break_spec, stmts_contain_loop_break, stmts_contain_loop_break_spec};
use crate::codegen::state::{BodyGen, Env, Settled, bind_local_name_spec, define_local_spec, flush_spec, settled};
use crate::codegen::ty::{Ty, TyV};
use crate::codegen::ty_copy::{dup_opt_text, dup_opt_ty};
use crate::codegen::types::{decl_spelling, decl_spelling_spec, ty_of_in_spec};
use crate::lexer::{inc, inc_spec};
use crate::model::{CaseV, EnumVariantV, ExprV, StmtV, cases_v, exprs_v, stmts_v};
use crate::program::{Program, ProgramV, TypeInfo, TypeInfoV, TypeKind};
use crate::text::{cat4, cat5, cat6, cat8, empty, same};

verus! {

broadcast use {crate::codegen::gen::group_gen, crate::codegen::ty::group_ty, crate::model::group_model, crate::program::group_program, crate::text::group_texts};

/// Whether a pattern is a constant a C++ `switch` can have as a label.
pub fn is_label(e: &Expr) -> (r: bool)
    ensures
        r == is_label_spec(e.v()),
{
    match e.node() {
        Expr::Int(_) => true,
        Expr::Ident(_) => true,
        Expr::Field(_, _) => true,
        Expr::Unary { op, expr, prefix } => *op == UnOp::Neg && *prefix && matches!(expr.node(), Expr::Int(_)),
        _ => false,
    }
}

/// Whether all patterns from `i` on can be labels of a C++ `switch`.
pub fn all_labels(patterns: &Vec<Expr>, i: usize) -> (r: bool)
    ensures
        r == all_labels_spec(exprs_v(patterns@), (i as int)),
{
    let ghost i_0 = i;
    let mut i: usize = i;
    #[verifier::loop_isolation(false)]
    loop
        invariant
            all_labels_spec(exprs_v(patterns@), (i_0 as int)) == all_labels_spec(exprs_v(patterns@), (i as int)),
        decreases patterns.len() - i,
    {
        if i >= patterns.len() {
            return true;
        }
        if !is_label(&patterns[i]) {
            return false;
        }
        i = i + 1;
    }
}

/// Whether all patterns of the cases from `i` on can be labels of a C++ `switch`.
pub fn cases_all_labels(cases: &Vec<Case>, i: usize) -> (r: bool)
    ensures
        r == cases_all_labels_spec(cases_v(cases@), (i as int)),
{
    let ghost i_0 = i;
    let mut i: usize = i;
    #[verifier::loop_isolation(false)]
    loop
        invariant
            cases_all_labels_spec(cases_v(cases@), (i_0 as int)) == cases_all_labels_spec(cases_v(cases@), (i as int)),
        decreases cases.len() - i,
    {
        if i >= cases.len() {
            return true;
        }
        if !all_labels(&cases[i].patterns, 0) {
            return false;
        }
        i = i + 1;
    }
}

/// Whether a C++ `switch` takes a value of this type.
pub fn is_switchable(ty: &Ty) -> (r: bool)
    ensures
        r == is_switchable_spec(ty.v()),
{
    if ty.is_ptr {
        return false;
    }
    match &ty.info {
        Some(info) => info.kind == TypeKind::Enum || is_int_ty(ty),
        None => empty(&ty.base) || is_int_ty(ty),
    }
}

/// How a `switch` over a value of this type is emitted.
pub fn switch_shape(prog: &Program, ty: &Ty, cases: &Vec<Case>) -> (r: Shape)
    ensures
        r == switch_shape_spec(prog.v(), ty.v(), cases_v(cases@)),
{
    proof {
        reveal(switch_shape_spec);
    }
    match &ty.info {
        Some(info) => {
            if !ty.is_ptr && adt_enum(prog, info).is_some() {
                return Shape::Tag;
            }
        },
        None => {},
    }
    if is_switchable(ty) && cases_all_labels(cases, 0) {
        Shape::Plain
    } else {
        Shape::Chain
    }
}

/// Whether evaluating an expression again costs and changes nothing.
pub fn is_simple(e: &Expr) -> (r: bool)
    ensures
        r == is_simple_spec(e.v()),
    decreases *e,
{
    proof {
        reveal(is_simple_spec);
    }
    match e.node() {
        Expr::Ident(_) => true,
        Expr::This => true,
        Expr::Paren(inner) => is_simple(inner),
        Expr::Field(recv, _) => is_simple(recv),
        _ => false,
    }
}

/// Whether a `break` of the loop around stands in a case or the default.
pub fn breaks_loop(cases: &Vec<Case>, default: &Option<Vec<Stmt>>) -> (r: bool)
    ensures
        r == breaks_loop_spec(cases_v(cases@), (match default { Some(y) => Some(stmts_v(y@)), None => None })),
{
    proof {
        reveal(breaks_loop_spec);
    }
    if cases_contain_loop_break(cases, 0) {
        return true;
    }
    match default {
        Some(d) => stmts_contain_loop_break(d, 0),
        None => false,
    }
}

/// The type that is known: the first where it has a spelling, else the second.
pub fn known_ty(a: Ty, b: &Ty) -> (r: Ty)
    ensures
        r.v() == known_ty_spec(a.v(), b.v()),
{
    if empty(&a.base) {
        b.dup()
    } else {
        a
    }
}

/// The type a branch's value is stored in.
pub fn sink_ty(want: &Option<Ty>, found: Ty) -> (r: Ty)
    ensures
        r.v() == sink_ty_spec((match want { Some(y) => Some(y.v()), None => None }), found.v()),
{
    match want {
        Some(t) => {
            if empty(&t.base) {
                found
            } else {
                t.dup()
            }
        },
        None => found,
    }
}

/// The line that declares the variable a value goes to.
pub fn declare(t: &str, ty: &Ty, name: &str) -> (r: String)
    ensures
        r@ == declare_spec(t@, ty.v(), name@),
{
    if empty(&ty.base) {
        cat4(t, "int ", name, ";\n")
    } else if ty.is_ptr {
        cat5(t, &decl_spelling(ty), " ", name, " = NULL;\n")
    } else {
        cat5(t, &decl_spelling(ty), " ", name, ";\n")
    }
}

/// A value stored where a nullable is wanted is allocated.
pub fn stored_as(code: &str, ty: &Ty, want: &Option<Ty>, is_null: bool) -> (r: String)
    ensures
        r@ == stored_as_spec(code@, ty.v(), (match want { Some(y) => Some(y.v()), None => None }), is_null),
{
    match want {
        Some(w) => {
            if w.is_ptr && w.nullable && !ty.is_ptr && !is_null {
                cat5("new ", &w.base, "(", code, ")")
            } else {
                code.to_owned()
            }
        },
        None => code.to_owned(),
    }
}

impl<'a> BodyGen<'a> {
    /// Put the state of the expression aside, to generate lines at an indentation.
    pub fn suspend(&mut self, t: &str) -> (r: Saved)
        ensures
            final(self).pg() == old(self).pg(),
            final(self).room() == old(self).room(),
            (final(self).gv(), r.v()) == suspend_spec(old(self).pg(), old(self).gv(), t@),
            settled(final(self).gv()) == (Settled { expr_depth: 0, ..settled(old(self).gv()) }),
            r.v().depth == old(self).gv().expr_depth,
    {
        proof {
            reveal(suspend_spec);
        }
        let line: usize = self.current_line();
        let depth: usize = self.expr_depth();
        let expected = dup_opt_ty(self.expected());
        let escape = self.new_args_escape();
        let prelude_t = self.prelude_t().clone();
        let prelude = self.flush();
        self.set_prelude_t(t.to_owned());
        self.set_expr_depth(0);
        self.set_expected(None);
        Saved { prelude, prelude_t, depth, expected, escape, line }
    }

    /// Take the state of the expression up again.
    pub fn resume(&mut self, saved: Saved)
        ensures
            final(self).pg() == old(self).pg(),
            final(self).room() == old(self).room(),
            final(self).gv() == resume_spec(old(self).pg(), old(self).gv(), saved.v()),
            settled(final(self).gv()) == (Settled { expr_depth: saved.v().depth, ..settled(old(self).gv()) }),
    {
        proof {
            reveal(resume_spec);
        }
        self.set_prelude(saved.prelude);
        self.set_prelude_t(saved.prelude_t);
        self.set_expr_depth(saved.depth);
        self.set_expected(saved.expected);
        self.set_new_args_escape(saved.escape);
        self.set_current_line(saved.line);
    }

    /// Enter a loop: a `break` inside binds to it. The flag of the switch around is put
    /// aside.
    pub fn enter_loop(&mut self) -> (r: Option<String>)
        ensures
            final(self).pg() == old(self).pg(),
            final(self).room() == old(self).room(),
            (final(self).gv(), (match r { Some(y) => Some(y@), None => None })) == enter_loop_spec(old(self).pg(), old(self).gv()),
    {
        let flag = dup_opt_text(self.switch_break_flag());
        let depth: usize = self.loop_depth();
        self.set_loop_depth(inc(depth));
        self.set_switch_break_flag(None);
        flag
    }

    /// Leave a loop of the given outer depth.
    pub fn exit_loop(&mut self, flag: Option<String>, depth: usize)
        ensures
            final(self).pg() == old(self).pg(),
            final(self).room() == old(self).room(),
            final(self).gv() == exit_loop_spec(old(self).pg(), old(self).gv(), (match flag { Some(y) => Some(y@), None => None }), (depth as int)),
    {
        self.set_loop_depth(depth);
        self.set_switch_break_flag(flag);
    }

    /// The line after a `switch` that leaves the loop where a case asked for it.
    pub fn break_check(&self, flag: &str, outer: &Option<String>, t: &str) -> (r: String)
        ensures
            r@ == break_check_spec(self.pg(), self.gv(), flag@, (match outer { Some(y) => Some(y@), None => None }), t@),
    {
        proof {
            reveal(break_check_spec);
        }
        match outer {
            Some(o) => cat6(t, "if (", flag, ") { ", o, " = true; break; }\n"),
            None => cat4(t, "if (", flag, ") break;\n"),
        }
    }

    /// The lines that bind the payload of a variant from its parameter `i` on.
    fn bind_payload_from(&mut self, subj: &Subject, info: &TypeInfo, v: &EnumVariant, binds: &Vec<Expr>, t: &str, i: usize, out: String) -> (r: String)
        ensures
            final(self).pg() == old(self).pg(),
            final(self).room() == old(self).room(),
            (final(self).gv(), r@) == bind_payload_from_spec(old(self).pg(), old(self).gv(), subj.v(), info.v(), v.v(), exprs_v(binds@), t@, (i as int), out@),
            settled(final(self).gv()) == settled(old(self).gv()),
    {
        let ghost i_0 = i;
        let ghost out_0 = out;
        let mut i: usize = i;
        let mut out: String = out;
        #[verifier::loop_isolation(false)]
        loop
            invariant
                self.pg() == old(self).pg(),
                self.room() == old(self).room(),
                bind_payload_from_spec(old(self).pg(), old(self).gv(), subj.v(), info.v(), v.v(), exprs_v(binds@), t@, (i_0 as int), out_0@) == bind_payload_from_spec(self.pg(), self.gv(), subj.v(), info.v(), v.v(), exprs_v(binds@), t@, (i as int), out@),
                settled(self.gv()) == settled(old(self).gv()),
            decreases binds.len() - i,
        {
            proof {
                reveal(bind_payload_from_spec);
            }
            if i >= binds.len() || i >= v.params.len() {
                return out;
            }
            match binds[i].node() {
                Expr::Ident(n) => {
                    if !same(n, "_") {
                        let ty = match &v.params[i].ty {
                            Some(pt) => self.ty_of_in(pt, info.module_index),
                            None => int_ty(),
                        };
                        let name = self.bind_local_name(n);
                        out = cat5(&cat8(&out, t, &decl_spelling(&ty), " ", &name, " = ", &subj.code, "."), &v.name, "_", &v.params[i].name, ";\n");
                        self.define_local(n, ty);
                    }
                },
                _ => {},
            }
            i = i + 1;
        }
    }

    /// The lines that bind the payload a pattern names.
    pub fn bind_payload(&mut self, subj: &Subject, patterns: &Vec<Expr>, t: &str) -> (r: String)
        ensures
            final(self).pg() == old(self).pg(),
            final(self).room() == old(self).room(),
            (final(self).gv(), r@) == bind_payload_spec(old(self).pg(), old(self).gv(), subj.v(), exprs_v(patterns@), t@),
            settled(final(self).gv()) == settled(old(self).gv()),
    {
        proof {
            reveal(bind_payload_spec);
        }
        if subj.shape != Shape::Tag || patterns.len() != 1 {
            return String::new();
        }
        match patterns[0].node() {
            Expr::Call(callee, binds) => match &subj.ty.info {
                Some(info) => match adt_enum(self.prog(), info) {
                    Some(e) => match variant_named(&e.variants, &call_pattern_variant(callee), 0) {
                        Some(v) => self.bind_payload_from(subj, info, v, binds, t, 0, String::new()),
                        None => String::new(),
                    },
                    None => String::new(),
                },
                None => String::new(),
            },
            _ => String::new(),
        }
    }

    /// The label of a pattern that names a variant of an algebraic enum.
    pub fn tag_label(&self, pat: &Expr, info: &TypeInfo) -> (r: Option<String>)
        ensures
            (match r { Some(y) => Some(y@), None => None }) == tag_label_spec(self.pg(), self.gv(), pat.v(), info.v()),
    {
        proof {
            reveal(tag_label_spec);
        }
        match pat.node() {
            Expr::Call(callee, _) => Some(enum_constant(info, &call_pattern_variant(callee), self.ns())),
            Expr::Ident(n) => Some(enum_constant(info, n, self.ns())),
            Expr::Field(_, n) => Some(enum_constant(info, n, self.ns())),
            _ => None,
        }
    }
}

/// What [`is_label`] computes.
pub open spec fn is_label_spec(e: ExprV) -> bool
{
    match e {
        ExprV::Int(_) => { true },
        ExprV::Ident(_) => { true },
        ExprV::Field(_, _) => { true },
        ExprV::Unary { op, expr, prefix } => {
            (op == (UnOp::Neg)) && prefix && (match *expr { ExprV::Int(_) => true, _ => false })
        },
        _ => { false },
    }
}

/// What [`all_labels`] computes.
pub open spec fn all_labels_spec(patterns: Seq<ExprV>, i: int) -> bool
    decreases patterns.len() - i,
{
    if !(0 <= i < patterns.len()) { true } else {
        if !is_label_spec(patterns[i]) { false } else {
            let i = i + 1;
            all_labels_spec(patterns, i)
        }
    }
}

/// What [`cases_all_labels`] computes.
pub open spec fn cases_all_labels_spec(cases: Seq<CaseV>, i: int) -> bool
    decreases cases.len() - i,
{
    if !(0 <= i < cases.len()) { true } else {
        if !all_labels_spec(cases[i].patterns, 0int) { false } else {
            let i = i + 1;
            cases_all_labels_spec(cases, i)
        }
    }
}

/// What [`is_switchable`] computes.
pub open spec fn is_switchable_spec(ty: TyV) -> bool
{
    if ty.is_ptr { false } else {
        match ty.info {
            Some(info) => { (info.kind == (TypeKind::Enum)) || is_int_ty_spec(ty) },
            None => { ((ty.base).len() == 0) || is_int_ty_spec(ty) },
        }
    }
}

/// What [`switch_shape`] computes.
#[verifier::opaque]
pub open spec fn switch_shape_spec(prog: ProgramV, ty: TyV, cases: Seq<CaseV>) -> Shape
{
    match ty.info {
        Some(info) => {
            if (!ty.is_ptr) && (adt_enum_spec(prog, info) is Some) { Shape::Tag } else {
                if is_switchable_spec(ty) && cases_all_labels_spec(cases, 0int) { Shape::Plain } else { Shape::Chain }
            }
        },
        None => {
            if is_switchable_spec(ty) && cases_all_labels_spec(cases, 0int) { Shape::Plain } else { Shape::Chain }
        },
    }
}

/// What [`is_simple`] computes.
#[verifier::opaque]
pub open spec fn is_simple_spec(e: ExprV) -> bool
    decreases e,
{
    match e {
        ExprV::Ident(_) => { true },
        ExprV::This => { true },
        ExprV::Paren(inner) => { is_simple_spec(*inner) },
        ExprV::Field(recv, _) => { is_simple_spec(*recv) },
        _ => { false },
    }
}

/// What [`breaks_loop`] computes.
#[verifier::opaque]
pub open spec fn breaks_loop_spec(cases: Seq<CaseV>, default: Option<Seq<StmtV>>) -> bool
{
    if cases_contain_loop_break_spec(cases, 0int) { true } else {
        match default {
            Some(d) => { stmts_contain_loop_break_spec(d, 0int) },
            None => { false },
        }
    }
}

/// What [`known_ty`] computes.
pub open spec fn known_ty_spec(a: TyV, b: TyV) -> TyV
{
    if ((a.base).len() == 0) { b } else { a }
}

/// What [`sink_ty`] computes.
pub open spec fn sink_ty_spec(want: Option<TyV>, found: TyV) -> TyV
{
    match want {
        Some(t) => {
            if ((t.base).len() == 0) { found } else { t }
        },
        None => { found },
    }
}

/// What [`declare`] computes.
pub open spec fn declare_spec(t: Seq<char>, ty: TyV, name: Seq<char>) -> Seq<char>
{
    if ((ty.base).len() == 0) {
        t + "int "@ + name + ";\n"@
    } else if ty.is_ptr {
        t + decl_spelling_spec(ty) + " "@ + name + " = NULL;\n"@
    } else {
        t + decl_spelling_spec(ty) + " "@ + name + ";\n"@
    }
}

/// What [`stored_as`] computes.
pub open spec fn stored_as_spec(code: Seq<char>, ty: TyV, want: Option<TyV>, is_null: bool) -> Seq<char>
{
    match want {
        Some(w) => {
            if w.is_ptr && w.nullable && (!ty.is_ptr) && (!is_null) { "new "@ + w.base + "("@ + code + ")"@ } else { code }
        },
        None => { code },
    }
}

/// What [`BodyGen::suspend`] computes.
#[verifier::opaque]
pub open spec fn suspend_spec(p: Env, st: GenV, t: Seq<char>) -> (GenV, SavedV)
{
    let line: int = st.current_line;
    let depth: int = st.expr_depth;
    let expected = st.expected;
    let escape = st.new_args_escape;
    let prelude_t = st.prelude_t;
    let (st, prelude) = flush_spec(p, st);
    let st = GenV { prelude_t: t, ..st };
    let st = GenV { expr_depth: 0int, ..st };
    let st = GenV { expected: None, ..st };
    (st, SavedV { prelude, prelude_t, depth, expected, escape, line })
}

/// What [`BodyGen::resume`] computes.
#[verifier::opaque]
pub open spec fn resume_spec(p: Env, st: GenV, saved: SavedV) -> GenV
{
    let st = GenV { prelude: saved.prelude, ..st };
    let st = GenV { prelude_t: saved.prelude_t, ..st };
    let st = GenV { expr_depth: saved.depth, ..st };
    let st = GenV { expected: saved.expected, ..st };
    let st = GenV { new_args_escape: saved.escape, ..st };
    let st = GenV { current_line: saved.line, ..st };
    st
}

/// What [`BodyGen::enter_loop`] computes.
pub open spec fn enter_loop_spec(p: Env, st: GenV) -> (GenV, Option<Seq<char>>)
{
    let flag = st.switch_break_flag;
    let depth: int = st.loop_depth;
    let st = GenV { loop_depth: inc_spec(depth), ..st };
    let st = GenV { switch_break_flag: None, ..st };
    (st, flag)
}

/// What [`BodyGen::exit_loop`] computes.
pub open spec fn exit_loop_spec(p: Env, st: GenV, flag: Option<Seq<char>>, depth: int) -> GenV
{
    let st = GenV { loop_depth: depth, ..st };
    let st = GenV { switch_break_flag: flag, ..st };
    st
}

/// What [`BodyGen::break_check`] computes.
#[verifier::opaque]
pub open spec fn break_check_spec(p: Env, st: GenV, flag: Seq<char>, outer: Option<Seq<char>>, t: Seq<char>) -> Seq<char>
{
    match outer {
        Some(o) => { t + "if ("@ + flag + ") { "@ + o + " = true; break; }\n"@ },
        None => {
            t + "if ("@ + flag + ") break;\n"@
        },
    }
}

/// What [`BodyGen::bind_payload_from`] computes.
#[verifier::opaque]
pub open spec fn bind_payload_from_spec(p: Env, st: GenV, subj: SubjectV, info: TypeInfoV, v: EnumVariantV, binds: Seq<ExprV>, t: Seq<char>, i: int, out: Seq<char>) -> (GenV, Seq<char>)
    decreases binds.len() - i,
{
    if !(0 <= i < binds.len()) || !(0 <= i < v.params.len()) { (st, out) } else {
        let (st, out) = match binds[i] {
            ExprV::Ident(n) => {
                if !(n == "_"@) {
                    let ty = match v.params[i].ty {
                        Some(pt) => { ty_of_in_spec(p, st, pt, info.module_index) },
                        None => { int_ty_spec() },
                    };
                    let (st, name) = bind_local_name_spec(p, st, n);
                    let out = out + t + decl_spelling_spec(ty) + " "@ + name + " = "@ + subj.code + "."@ + v.name + "_"@ + (v.params[i].name) + ";\n"@;
                    let st = define_local_spec(p, st, n, ty);
                    (st, out)
                } else { (st, out) }
            },
            _ => { (st, out) },
        };
        let i = i + 1;
        bind_payload_from_spec(p, st, subj, info, v, binds, t, i, out)
    }
}

/// What [`BodyGen::bind_payload`] computes.
#[verifier::opaque]
pub open spec fn bind_payload_spec(p: Env, st: GenV, subj: SubjectV, patterns: Seq<ExprV>, t: Seq<char>) -> (GenV, Seq<char>)
{
    if (subj.shape != (Shape::Tag)) || ((patterns.len()) != 1) { (st, Seq::empty()) } else {
        match patterns[0] {
            ExprV::Call(callee, binds) => {
                match subj.ty.info {
                    Some(info) => {
                        match adt_enum_spec(p.prog, info) {
                            Some(e) => {
                                match variant_named_spec(e.variants, call_pattern_variant_spec(*callee), 0int) {
                                    Some(v) => { bind_payload_from_spec(p, st, subj, info, v, binds, t, 0int, Seq::empty()) },
                                    None => { (st, Seq::empty()) },
                                }
                            },
                            None => { (st, Seq::empty()) },
                        }
                    },
                    None => { (st, Seq::empty()) },
                }
            },
            _ => { (st, Seq::empty()) },
        }
    }
}

/// What [`BodyGen::tag_label`] computes.
#[verifier::opaque]
pub open spec fn tag_label_spec(p: Env, st: GenV, pat: ExprV, info: TypeInfoV) -> Option<Seq<char>>
{
    match pat {
        ExprV::Call(callee, _) => { Some(enum_constant_spec(info, call_pattern_variant_spec(*callee), st.ns)) },
        ExprV::Ident(n) => { Some(enum_constant_spec(info, n, st.ns)) },
        ExprV::Field(_, n) => { Some(enum_constant_spec(info, n, st.ns)) },
        _ => { None },
    }
}

} // verus!
