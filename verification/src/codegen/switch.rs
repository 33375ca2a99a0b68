//! `switch`.

use vstd::prelude::*;

use crate::ast::{Case, Expr, Stmt};
use crate::codegen::branch::{bind_payload_spec, break_check_spec, breaks_loop, breaks_loop_spec, is_simple, is_simple_spec, known_ty, known_ty_spec, switch_shape, switch_shape_spec, tag_label_spec};
use crate::codegen::control::stmts_into_spec;
use crate::codegen::expr::{gen_expr_hinted_spec, gen_expr_spec};
use crate::codegen::gen::GenV;
use crate::codegen::helpers::{no_ty, no_ty_spec};
use crate::codegen::parts::{Shape, Sink, SinkV, Subject, SubjectV};
use crate::codegen::scan::{never_falls_through, never_falls_through_spec};
use crate::codegen::state::{BodyGen, Env, body_close_deletes_spec, flush_spec, fresh_spec, pop_scope_spec, push_scope_spec, settled};
use crate::codegen::ty::{Ty, TyV};
use crate::codegen::ty_copy::dup_opt_text;
use crate::codegen::types::{decl_spelling, decl_spelling_spec};
use crate::model::{CaseV, ExprV, StmtV, cases_v, exprs_v, stmts_v};
use crate::text::{cat2, cat3, cat4, cat5, cat6, cat8, empty};

verus! {

broadcast use {crate::codegen::gen::group_gen, crate::codegen::ty::group_ty, crate::model::group_model, crate::text::group_texts};

impl<'a> BodyGen<'a> {
    /// What a `switch` looks at, and the lines it needs first. A value that is looked at more
    /// than once is put in a variable.
    fn gen_subject(&mut self, subject: &Expr, cases: &Vec<Case>, t: &str) -> (r: (String, Subject))
        ensures
            final(self).pg() == old(self).pg(),
            final(self).room() == old(self).room(),
            (final(self).gv(), (r.0@, r.1.v())) == gen_subject_spec(old(self).pg(), old(self).room(), old(self).gv(), subject.v(), cases_v(cases@), t@),
            settled(final(self).gv()) == settled(old(self).gv()),
        decreases old(self).room(), *subject, 30int, 0int,
    {
        proof {
            reveal(gen_subject_spec);
            reveal(gen_expr_spec);
        }
        self.set_prelude_t(t.to_owned());
        let (code, ty) = self.gen_expr(subject);
        let pre = self.flush();
        let shape = switch_shape(self.prog(), &ty, cases);
        if shape == Shape::Plain || is_simple(subject) || empty(&ty.base) {
            return (pre, Subject { code, ty, shape });
        }
        let tmp = self.fresh("sw");
        (cat8(&pre, t, &decl_spelling(&ty), " ", &tmp, " = ", &code, ";\n"), Subject { code: tmp, ty, shape })
    }

    /// The label of a pattern, or the value it is compared with.
    fn gen_label(&mut self, subj: &Subject, pat: &Expr) -> (r: String)
        ensures
            final(self).pg() == old(self).pg(),
            final(self).room() == old(self).room(),
            (final(self).gv(), r@) == gen_label_spec(old(self).pg(), old(self).room(), old(self).gv(), subj.v(), pat.v()),
            settled(final(self).gv()) == settled(old(self).gv()),
        decreases old(self).room(), *pat, 30int, 0int,
    {
        proof {
            reveal(gen_label_spec);
            reveal(gen_expr_hinted_spec);
        }
        if subj.shape == Shape::Tag {
            match &subj.ty.info {
                Some(info) => match self.tag_label(pat, info) {
                    Some(l) => {
                        return l;
                    },
                    None => {},
                },
                None => {},
            }
        }
        let (code, _) = self.gen_expr_hinted(pat, Some(subj.ty.dup()));
        code
    }

    /// The labels of a case.
    fn gen_labels(&mut self, subj: &Subject, patterns: &Vec<Expr>, t: &str, i: usize, out: String) -> (r: String)
        ensures
            final(self).pg() == old(self).pg(),
            final(self).room() == old(self).room(),
            (final(self).gv(), r@) == gen_labels_spec(old(self).pg(), old(self).room(), old(self).gv(), subj.v(), exprs_v(patterns@), t@, (i as int), out@),
            settled(final(self).gv()) == settled(old(self).gv()),
        decreases old(self).room(), patterns@, 1int, patterns.len()-i,
    {
        let ghost i_0 = i;
        let ghost out_0 = out;
        let mut i: usize = i;
        let mut out: String = out;
        #[verifier::loop_isolation(false)]
        loop
            invariant
                self.pg() == old(self).pg(),
                self.room() == old(self).room(),
                gen_labels_spec(old(self).pg(), old(self).room(), old(self).gv(), subj.v(), exprs_v(patterns@), t@, (i_0 as int), out_0@) == gen_labels_spec(self.pg(), self.room(), self.gv(), subj.v(), exprs_v(patterns@), t@, (i as int), out@),
                settled(self.gv()) == settled(old(self).gv()),
            decreases patterns.len()-i,
        {
            proof {
                reveal(gen_labels_spec);
                reveal(gen_label_spec);
            }
            if i >= patterns.len() {
                return out;
            }
            let label = self.gen_label(subj, &patterns[i]);
            out = if subj.shape == Shape::Chain {
                if i > 0 {
                    cat5(&out, " || ", &subj.code, " == ", &label)
                } else {
                    cat3(&subj.code, " == ", &label)
                }
            } else {
                if i > 0 {
                    cat6(&out, "\n", t, "\tcase ", &label, ":")
                } else {
                    cat4(t, "\tcase ", &label, ":")
                }
            };
            i = i + 1;
        }
    }

    /// The body of a case, in a scope of its own.
    fn gen_case_body(&mut self, subj: &Subject, patterns: &Vec<Expr>, body: &Vec<Stmt>, sink: &Sink, t: &str) -> (r: (String, Ty))
        ensures
            final(self).pg() == old(self).pg(),
            final(self).room() == old(self).room(),
            (final(self).gv(), (r.0@, r.1.v())) == gen_case_body_spec(old(self).pg(), old(self).room(), old(self).gv(), subj.v(), exprs_v(patterns@), stmts_v(body@), sink.v(), t@),
            settled(final(self).gv()) == settled(old(self).gv()),
        decreases old(self).room(), body@, 6int, 0int,
    {
        proof {
            reveal(gen_case_body_spec);
            reveal(stmts_into_spec);
        }
        self.push_scope();
        let binds = self.bind_payload(subj, patterns, t);
        let (text, ty) = self.stmts_into(body, sink, t, 0, binds);
        let deletes = self.body_close_deletes(body, t);
        self.pop_scope();
        if subj.shape == Shape::Chain || never_falls_through(body) {
            (cat2(&text, &deletes), ty)
        } else {
            (cat4(&text, &deletes, t, "break;\n"), ty)
        }
    }

    /// One case, and the lines its patterns need first.
    fn gen_case_arm(&mut self, subj: &Subject, case: &Case, sink: &Sink, first: bool, t: &str) -> (r: (String, String, Ty))
        ensures
            final(self).pg() == old(self).pg(),
            final(self).room() == old(self).room(),
            (final(self).gv(), (r.0@, r.1@, r.2.v())) == gen_case_arm_spec(old(self).pg(), old(self).room(), old(self).gv(), subj.v(), case.v(), sink.v(), first, t@),
            settled(final(self).gv()) == settled(old(self).gv()),
        decreases old(self).room(), *case, 5int, 0int,
    {
        proof {
            reveal(gen_case_arm_spec);
            reveal(gen_labels_spec);
            reveal(gen_case_body_spec);
        }
        let labels = self.gen_labels(subj, &case.patterns, t, 0, String::new());
        let pre = self.flush();
        if subj.shape == Shape::Chain {
            let (body, ty) = self.gen_case_body(subj, &case.patterns, &case.body, sink, &cat2(t, "\t"));
            if first {
                (pre, cat5(t, "if (", &labels, ") {\n", &body), ty)
            } else {
                (pre, cat5(t, "} else if (", &labels, ") {\n", &body), ty)
            }
        } else {
            let (body, ty) = self.gen_case_body(subj, &case.patterns, &case.body, sink, &cat2(t, "\t\t"));
            (pre, cat5(&labels, " {\n", &body, t, "\t}\n"), ty)
        }
    }

    fn gen_cases(&mut self, subj: &Subject, cases: &Vec<Case>, sink: &Sink, t: &str, i: usize, pre: String, out: String, ty: Ty) -> (r: (String, String, Ty))
        ensures
            final(self).pg() == old(self).pg(),
            final(self).room() == old(self).room(),
            (final(self).gv(), (r.0@, r.1@, r.2.v())) == gen_cases_spec(old(self).pg(), old(self).room(), old(self).gv(), subj.v(), cases_v(cases@), sink.v(), t@, (i as int), pre@, out@, ty.v()),
            settled(final(self).gv()) == settled(old(self).gv()),
        decreases old(self).room(), cases@, 1int, cases.len()-i,
    {
        let ghost i_0 = i;
        let ghost pre_0 = pre;
        let ghost out_0 = out;
        let ghost ty_0 = ty;
        let mut i: usize = i;
        let mut pre: String = pre;
        let mut out: String = out;
        let mut ty: Ty = ty;
        #[verifier::loop_isolation(false)]
        loop
            invariant
                self.pg() == old(self).pg(),
                self.room() == old(self).room(),
                gen_cases_spec(old(self).pg(), old(self).room(), old(self).gv(), subj.v(), cases_v(cases@), sink.v(), t@, (i_0 as int), pre_0@, out_0@, ty_0.v()) == gen_cases_spec(self.pg(), self.room(), self.gv(), subj.v(), cases_v(cases@), sink.v(), t@, (i as int), pre@, out@, ty.v()),
                settled(self.gv()) == settled(old(self).gv()),
            decreases cases.len()-i,
        {
            proof {
                reveal(gen_cases_spec);
                reveal(gen_case_arm_spec);
            }
            if i >= cases.len() {
                return (pre, out, ty);
            }
            let (p0, text, found) = self.gen_case_arm(subj, &cases[i], sink, i == 0, t);
            pre = cat2(&pre, &p0);
            out = cat2(&out, &text);
            ty = known_ty(ty, &found);
            i = i + 1;
        }
    }

    /// The default.
    fn gen_default(&mut self, subj: &Subject, body: &Vec<Stmt>, sink: &Sink, first: bool, t: &str) -> (r: (String, Ty))
        ensures
            final(self).pg() == old(self).pg(),
            final(self).room() == old(self).room(),
            (final(self).gv(), (r.0@, r.1.v())) == gen_default_spec(old(self).pg(), old(self).room(), old(self).gv(), subj.v(), stmts_v(body@), sink.v(), first, t@),
            settled(final(self).gv()) == settled(old(self).gv()),
        decreases old(self).room(), body@, 7int, 0int,
    {
        proof {
            reveal(gen_default_spec);
            reveal(gen_case_body_spec);
        }
        if subj.shape == Shape::Chain {
            let (text, ty) = self.gen_case_body(subj, &Vec::new(), body, sink, &cat2(t, "\t"));
            if first {
                (cat3(t, "{\n", &text), ty)
            } else {
                (cat3(t, "} else {\n", &text), ty)
            }
        } else {
            let (text, ty) = self.gen_case_body(subj, &Vec::new(), body, sink, &cat2(t, "\t\t"));
            (cat5(t, "\tdefault: {\n", &text, t, "\t}\n"), ty)
        }
    }

    /// The flag a `break` in a case sets, where one is needed.
    fn switch_flag(&mut self, subj: &Subject, cases: &Vec<Case>, default: &Option<Vec<Stmt>>) -> (r: Option<String>)
        ensures
            final(self).pg() == old(self).pg(),
            final(self).room() == old(self).room(),
            (final(self).gv(), (match r { Some(y) => Some(y@), None => None })) == switch_flag_spec(old(self).pg(), old(self).gv(), subj.v(), cases_v(cases@), (match default { Some(y) => Some(stmts_v(y@)), None => None })),
            settled(final(self).gv()) == settled(old(self).gv()),
    {
        proof {
            reveal(switch_flag_spec);
        }
        if subj.shape != Shape::Chain && self.loop_depth() > 0 && breaks_loop(cases, default) {
            Some(self.fresh("brk"))
        } else {
            None
        }
    }

    /// What a `switch` is closed with, and what is in front of it.
    fn wrap_switch(&self, subj: &Subject, pre: &str, body: &str, some: bool, t: &str) -> (r: String)
        ensures
            r@ == wrap_switch_spec(self.pg(), self.gv(), subj.v(), pre@, body@, some, t@),
    {
        proof {
            reveal(wrap_switch_spec);
        }
        if subj.shape == Shape::Chain {
            if some {
                return cat4(pre, body, t, "}\n");
            }
            return pre.to_owned();
        }
        let tag = if subj.shape == Shape::Tag { ".kind" } else { "" };
        cat2(&cat8(pre, t, "switch (", &subj.code, tag, ") {\n", body, t), "}\n")
    }

    /// A `switch` over what was generated: its cases and the default.
    fn gen_arms(&mut self, subj: &Subject, cases: &Vec<Case>, sink: &Sink, t: &str) -> (r: (String, String, Ty))
        ensures
            final(self).pg() == old(self).pg(),
            final(self).room() == old(self).room(),
            (final(self).gv(), (r.0@, r.1@, r.2.v())) == gen_arms_spec(old(self).pg(), old(self).room(), old(self).gv(), subj.v(), cases_v(cases@), sink.v(), t@),
            settled(final(self).gv()) == settled(old(self).gv()),
        decreases old(self).room(), cases@, 3int, 0int,
    {
        proof {
            reveal(gen_arms_spec);
            reveal(gen_cases_spec);
        }
        self.gen_cases(subj, cases, sink, t, 0, String::new(), String::new(), no_ty())
    }

    /// The text of a `switch`.
    fn finish_switch(&self, subj: &Subject, flag: &Option<String>, outer: &Option<String>, text: &str, t: &str) -> (r: String)
        ensures
            r@ == finish_switch_spec(self.pg(), self.gv(), subj.v(), (match flag { Some(y) => Some(y@), None => None }), (match outer { Some(y) => Some(y@), None => None }), text@, t@),
    {
        proof {
            reveal(finish_switch_spec);
        }
        match flag {
            Some(f) => cat6(t, "bool ", f, " = false;\n", text, &self.break_check(f, outer, t)),
            None => text.to_owned(),
        }
    }

    /// A `switch` whose value goes into a sink.
    pub fn switch_into(&mut self, e: &Expr, sink: &Sink, t: &str) -> (r: (String, Ty))
        ensures
            final(self).pg() == old(self).pg(),
            final(self).room() == old(self).room(),
            (final(self).gv(), (r.0@, r.1.v())) == switch_into_spec(old(self).pg(), old(self).room(), old(self).gv(), e.v(), sink.v(), t@),
            settled(final(self).gv()) == settled(old(self).gv()),
        decreases old(self).room(), *e, 9int, 0int,
    {
        proof {
            reveal(switch_into_spec);
            reveal(gen_subject_spec);
            reveal(gen_arms_spec);
            reveal(gen_default_spec);
        }
        match e.node() {
            Expr::Switch { subject, cases, default } => {
                let (head, subj) = self.gen_subject(subject, cases, t);
                let outer = dup_opt_text(self.switch_break_flag());
                let flag = self.switch_flag(&subj, cases, default);
                if flag.is_some() {
                    self.set_switch_break_flag(dup_opt_text(&flag));
                }
                let (pre, body, ty) = self.gen_arms(&subj, cases, sink, t);
                let (last, lty) = match default {
                    Some(d) => self.gen_default(&subj, d, sink, cases.len() == 0, t),
                    None => (String::new(), no_ty()),
                };
                self.set_switch_break_flag(dup_opt_text(&outer));
                let text = self.wrap_switch(&subj, &pre, &cat2(&body, &last), cases.len() > 0 || default.is_some(), t);
                (cat2(&head, &self.finish_switch(&subj, &flag, &outer, &text, t)), known_ty(ty, &lty))
            },
            _ => (String::new(), no_ty()),
        }
    }

    /// A `switch` statement.
    pub fn gen_switch(&mut self, s: &Stmt, t: &str) -> (r: String)
        ensures
            final(self).pg() == old(self).pg(),
            final(self).room() == old(self).room(),
            (final(self).gv(), r@) == gen_switch_spec(old(self).pg(), old(self).room(), old(self).gv(), s.v(), t@),
            settled(final(self).gv()) == settled(old(self).gv()),
        decreases old(self).room(), *s, 9int, 0int,
    {
        proof {
            reveal(gen_switch_spec);
            reveal(gen_subject_spec);
            reveal(gen_arms_spec);
            reveal(gen_default_spec);
        }
        match s.node() {
            Stmt::Switch { subject, cases, default, line } => {
                self.set_current_line(*line);
                let sink = Sink { dest: String::new(), want: None, escape: false };
                let (head, subj) = self.gen_subject(subject, cases, t);
                let outer = dup_opt_text(self.switch_break_flag());
                let flag = self.switch_flag(&subj, cases, default);
                if flag.is_some() {
                    self.set_switch_break_flag(dup_opt_text(&flag));
                }
                let (pre, body, _) = self.gen_arms(&subj, cases, &sink, t);
                let (last, _) = match default {
                    Some(d) => self.gen_default(&subj, d, &sink, cases.len() == 0, t),
                    None => (String::new(), no_ty()),
                };
                self.set_switch_break_flag(dup_opt_text(&outer));
                let text = self.wrap_switch(&subj, &pre, &cat2(&body, &last), cases.len() > 0 || default.is_some(), t);
                cat2(&head, &self.finish_switch(&subj, &flag, &outer, &text, t))
            },
            _ => String::new(),
        }
    }
}

/// What [`BodyGen::gen_subject`] computes.
#[verifier::opaque]
pub open spec fn gen_subject_spec(p: Env, room: int, st: GenV, subject: ExprV, cases: Seq<CaseV>, t: Seq<char>) -> (GenV, (Seq<char>, SubjectV))
    decreases room, subject, 30int, 0int,
{
    let st = GenV { prelude_t: t, ..st };
    let (st, (code, ty)) = gen_expr_spec(p, room, st, subject);
    let (st, pre) = flush_spec(p, st);
    let shape = switch_shape_spec(p.prog, ty, cases);
    if (shape == (Shape::Plain)) || is_simple_spec(subject) || ((ty.base).len() == 0) { (st, (pre, SubjectV { code, ty, shape })) } else {
        let (st, tmp) = fresh_spec(p, st, "sw"@);
        (st, (pre + t + decl_spelling_spec(ty) + " "@ + tmp + " = "@ + code + ";\n"@, SubjectV { code: tmp, ty, shape }))
    }
}

/// What [`BodyGen::gen_label`] computes.
#[verifier::opaque]
pub open spec fn gen_label_spec(p: Env, room: int, st: GenV, subj: SubjectV, pat: ExprV) -> (GenV, Seq<char>)
    decreases room, pat, 30int, 0int,
{
    if subj.shape == (Shape::Tag) {
        match subj.ty.info {
            Some(info) => {
                match tag_label_spec(p, st, pat, info) {
                    Some(l) => { (st, l) },
                    None => {
                        let (st, (code, _)) = gen_expr_hinted_spec(p, room, st, pat, Some(subj.ty));
                        (st, code)
                    },
                }
            },
            None => {
                let (st, (code, _)) = gen_expr_hinted_spec(p, room, st, pat, Some(subj.ty));
                (st, code)
            },
        }
    } else {
        let (st, (code, _)) = gen_expr_hinted_spec(p, room, st, pat, Some(subj.ty));
        (st, code)
    }
}

/// What [`BodyGen::gen_labels`] computes.
#[verifier::opaque]
pub open spec fn gen_labels_spec(p: Env, room: int, st: GenV, subj: SubjectV, patterns: Seq<ExprV>, t: Seq<char>, i: int, out: Seq<char>) -> (GenV, Seq<char>)
    decreases room, patterns, 1int, patterns.len()-i,
{
    if !(0 <= i < patterns.len()) { (st, out) } else {
        let (st, label) = gen_label_spec(p, room, st, subj, patterns[i]);
        let out = if subj.shape == (Shape::Chain) {
            if i > 0 { out + " || "@ + subj.code + " == "@ + label } else { subj.code + " == "@ + label }
        } else {
            if i > 0 { out + "\n"@ + t + "\tcase "@ + label + ":"@ } else { t + "\tcase "@ + label + ":"@ }
        };
        let i = i + 1;
        gen_labels_spec(p, room, st, subj, patterns, t, i, out)
    }
}

/// What [`BodyGen::gen_case_body`] computes.
#[verifier::opaque]
pub open spec fn gen_case_body_spec(p: Env, room: int, st: GenV, subj: SubjectV, patterns: Seq<ExprV>, body: Seq<StmtV>, sink: SinkV, t: Seq<char>) -> (GenV, (Seq<char>, TyV))
    decreases room, body, 6int, 0int,
{
    let st = push_scope_spec(p, st);
    let (st, binds) = bind_payload_spec(p, st, subj, patterns, t);
    let (st, (text, ty)) = stmts_into_spec(p, room, st, body, sink, t, 0int, binds);
    let deletes = body_close_deletes_spec(p, st, body, t);
    let st = pop_scope_spec(p, st);
    if (subj.shape == (Shape::Chain)) || never_falls_through_spec(body) { (st, (text + deletes, ty)) } else {
        (st, (text + deletes + t + "break;\n"@, ty))
    }
}

/// What [`BodyGen::gen_case_arm`] computes.
#[verifier::opaque]
pub open spec fn gen_case_arm_spec(p: Env, room: int, st: GenV, subj: SubjectV, case: CaseV, sink: SinkV, first: bool, t: Seq<char>) -> (GenV, (Seq<char>, Seq<char>, TyV))
    decreases room, case, 5int, 0int,
{
    let (st, labels) = gen_labels_spec(p, room, st, subj, case.patterns, t, 0int, Seq::empty());
    let (st, pre) = flush_spec(p, st);
    if subj.shape == (Shape::Chain) {
        let (st, (body, ty)) = gen_case_body_spec(p, room, st, subj, case.patterns, case.body, sink, t + "\t"@);
        if first {
            (st, (pre, t + "if ("@ + labels + ") {\n"@ + body, ty))
        } else {
            (st, (pre, t + "} else if ("@ + labels + ") {\n"@ + body, ty))
        }
    } else {
        let (st, (body, ty)) = gen_case_body_spec(p, room, st, subj, case.patterns, case.body, sink, t + "\t\t"@);
        (st, (pre, labels + " {\n"@ + body + t + "\t}\n"@, ty))
    }
}

/// What [`BodyGen::gen_cases`] computes.
#[verifier::opaque]
pub open spec fn gen_cases_spec(p: Env, room: int, st: GenV, subj: SubjectV, cases: Seq<CaseV>, sink: SinkV, t: Seq<char>, i: int, pre: Seq<char>, out: Seq<char>, ty: TyV) -> (GenV, (Seq<char>, Seq<char>, TyV))
    decreases room, cases, 1int, cases.len()-i,
{
    if !(0 <= i < cases.len()) { (st, (pre, out, ty)) } else {
        let (st, (p0, text, found)) = gen_case_arm_spec(p, room, st, subj, cases[i], sink, i == 0, t);
        let pre = pre + p0;
        let out = out + text;
        let ty = known_ty_spec(ty, found);
        let i = i + 1;
        gen_cases_spec(p, room, st, subj, cases, sink, t, i, pre, out, ty)
    }
}

/// What [`BodyGen::gen_default`] computes.
#[verifier::opaque]
pub open spec fn gen_default_spec(p: Env, room: int, st: GenV, subj: SubjectV, body: Seq<StmtV>, sink: SinkV, first: bool, t: Seq<char>) -> (GenV, (Seq<char>, TyV))
    decreases room, body, 7int, 0int,
{
    if subj.shape == (Shape::Chain) {
        let (st, (text, ty)) = gen_case_body_spec(p, room, st, subj, Seq::empty(), body, sink, t + "\t"@);
        if first {
            (st, (t + "{\n"@ + text, ty))
        } else {
            (st, (t + "} else {\n"@ + text, ty))
        }
    } else {
        let (st, (text, ty)) = gen_case_body_spec(p, room, st, subj, Seq::empty(), body, sink, t + "\t\t"@);
        (st, (t + "\tdefault: {\n"@ + text + t + "\t}\n"@, ty))
    }
}

/// What [`BodyGen::switch_flag`] computes.
#[verifier::opaque]
pub open spec fn switch_flag_spec(p: Env, st: GenV, subj: SubjectV, cases: Seq<CaseV>, default: Option<Seq<StmtV>>) -> (GenV, Option<Seq<char>>)
{
    if (subj.shape != (Shape::Chain)) && (st.loop_depth > 0) && breaks_loop_spec(cases, default) {
        let (st, x1) = fresh_spec(p, st, "brk"@);
        (st, Some(x1))
    } else { (st, None) }
}

/// What [`BodyGen::wrap_switch`] computes.
#[verifier::opaque]
pub open spec fn wrap_switch_spec(p: Env, st: GenV, subj: SubjectV, pre: Seq<char>, body: Seq<char>, some: bool, t: Seq<char>) -> Seq<char>
{
    if subj.shape == (Shape::Chain) {
        if some {
            pre + body + t + "}\n"@
        } else { pre }
    } else {
        let tag = if subj.shape == (Shape::Tag) { ".kind"@ } else { ""@ };
        pre + t + "switch ("@ + subj.code + tag + ") {\n"@ + body + t + "}\n"@
    }
}

/// What [`BodyGen::gen_arms`] computes.
#[verifier::opaque]
pub open spec fn gen_arms_spec(p: Env, room: int, st: GenV, subj: SubjectV, cases: Seq<CaseV>, sink: SinkV, t: Seq<char>) -> (GenV, (Seq<char>, Seq<char>, TyV))
    decreases room, cases, 3int, 0int,
{
    gen_cases_spec(p, room, st, subj, cases, sink, t, 0int, Seq::empty(), Seq::empty(), no_ty_spec())
}

/// What [`BodyGen::finish_switch`] computes.
#[verifier::opaque]
pub open spec fn finish_switch_spec(p: Env, st: GenV, subj: SubjectV, flag: Option<Seq<char>>, outer: Option<Seq<char>>, text: Seq<char>, t: Seq<char>) -> Seq<char>
{
    match flag {
        Some(f) => {
            t + "bool "@ + f + " = false;\n"@ + text + break_check_spec(p, st, f, outer, t)
        },
        None => { text },
    }
}

/// What [`BodyGen::switch_into`] computes.
#[verifier::opaque]
pub open spec fn switch_into_spec(p: Env, room: int, st: GenV, e: ExprV, sink: SinkV, t: Seq<char>) -> (GenV, (Seq<char>, TyV))
    decreases room, e, 9int, 0int,
{
    match e {
        ExprV::Switch { subject, cases, default } => {
            let (st, (head, subj)) = gen_subject_spec(p, room, st, *subject, cases, t);
            let outer = st.switch_break_flag;
            let (st, flag) = switch_flag_spec(p, st, subj, cases, default);
            let st = if flag is Some {
                let st = GenV { switch_break_flag: flag, ..st };
                st
            } else { st };
            let (st, (pre, body, ty)) = gen_arms_spec(p, room, st, subj, cases, sink, t);
            let (st, (last, lty)) = match default {
                Some(d) => {
                    let (st, x1) = gen_default_spec(p, room, st, subj, d, sink, (cases.len()) == 0, t);
                    (st, x1)
                },
                None => { (st, (Seq::empty(), no_ty_spec())) },
            };
            let st = GenV { switch_break_flag: outer, ..st };
            let text = wrap_switch_spec(p, st, subj, pre, body + last, ((cases.len()) > 0) || (default is Some), t);
            (st, (head + finish_switch_spec(p, st, subj, flag, outer, text, t), known_ty_spec(ty, lty)))
        },
        _ => { (st, (Seq::empty(), no_ty_spec())) },
    }
}

/// What [`BodyGen::gen_switch`] computes.
#[verifier::opaque]
pub open spec fn gen_switch_spec(p: Env, room: int, st: GenV, s: StmtV, t: Seq<char>) -> (GenV, Seq<char>)
    decreases room, s, 9int, 0int,
{
    match s {
        StmtV::Switch { subject, cases, default, line } => {
            let st = GenV { current_line: line, ..st };
            let sink = SinkV { dest: Seq::empty(), want: None, escape: false };
            let (st, (head, subj)) = gen_subject_spec(p, room, st, subject, cases, t);
            let outer = st.switch_break_flag;
            let (st, flag) = switch_flag_spec(p, st, subj, cases, default);
            let st = if flag is Some {
                let st = GenV { switch_break_flag: flag, ..st };
                st
            } else { st };
            let (st, (pre, body, _)) = gen_arms_spec(p, room, st, subj, cases, sink, t);
            let (st, (last, _)) = match default {
                Some(d) => {
                    let (st, x1) = gen_default_spec(p, room, st, subj, d, sink, (cases.len()) == 0, t);
                    (st, x1)
                },
                None => { (st, (Seq::empty(), no_ty_spec())) },
            };
            let st = GenV { switch_break_flag: outer, ..st };
            let text = wrap_switch_spec(p, st, subj, pre, body + last, ((cases.len()) > 0) || (default is Some), t);
            (st, head + finish_switch_spec(p, st, subj, flag, outer, text, t))
        },
        _ => { (st, Seq::empty()) },
    }
}

} // verus!
