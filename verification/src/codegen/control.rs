//! Branches whose value is wanted.

use vstd::prelude::*;

use crate::ast::{Expr, Stmt};
use crate::codegen::branch::{declare, declare_spec, known_ty, known_ty_spec, resume_spec, sink_ty, sink_ty_spec, stored_as, stored_as_spec, suspend_spec};
use crate::codegen::expr::{gen_expr_hinted_spec, gen_expr_spec};
use crate::codegen::gen::GenV;
use crate::codegen::helpers::{no_ty, no_ty_spec};
use crate::codegen::parts::{Sink, SinkV};
use crate::codegen::state::{BodyGen, Env, body_close_deletes_spec, flush_spec, fresh_spec, hoist_spec, pop_scope_spec, push_scope_spec, settled};
use crate::codegen::stmt::gen_stmt_spec;
use crate::codegen::switch::switch_into_spec;
use crate::codegen::ty::{Ty, TyV};
use crate::codegen::ty_copy::dup_opt_ty;
use crate::model::{ExprV, StmtV, stmts_v};
use crate::text::{cat2, cat4, cat5, cat6, cat8, empty};

verus! {

broadcast use {crate::codegen::gen::group_gen, crate::codegen::ty::group_ty, crate::model::group_model, crate::text::group_texts};

impl<'a> BodyGen<'a> {
    /// The lines that compute an expression into a sink, and the type of its value. A branch
    /// assigns in each of its arms.
    pub fn gen_value_into(&mut self, e: &Expr, sink: &Sink, t: &str) -> (r: (String, Ty))
        ensures
            final(self).pg() == old(self).pg(),
            final(self).room() == old(self).room(),
            (final(self).gv(), (r.0@, r.1.v())) == gen_value_into_spec(old(self).pg(), old(self).room(), old(self).gv(), e.v(), sink.v(), t@),
            settled(final(self).gv()) == settled(old(self).gv()),
        decreases old(self).room(), *e, 30int, 0int,
    {
        proof {
            reveal(gen_value_into_spec);
            reveal(if_into_spec);
            reveal(switch_into_spec);
            reveal(block_into_spec);
            reveal(gen_expr_hinted_spec);
        }
        match e.node() {
            Expr::If { cond: _, then: _, els: _ } => self.if_into(e, sink, t),
            Expr::Switch { subject: _, cases: _, default: _ } => self.switch_into(e, sink, t),
            Expr::Block(stmts) => self.block_into(stmts, sink, t),
            _ => {
                self.set_prelude_t(t.to_owned());
                self.set_new_args_escape(sink.escape);
                let (code, ty) = self.gen_expr_hinted(e, dup_opt_ty(&sink.want));
                let pre = self.flush();
                (cat6(&pre, t, &sink.dest, " = ", &stored_as(&code, &ty, &sink.want, matches!(e.node(), Expr::Null)), ";\n"), ty)
            },
        }
    }

    /// A condition, and the lines it needs first.
    pub fn gen_cond(&mut self, cond: &Expr, t: &str) -> (r: (String, String))
        ensures
            final(self).pg() == old(self).pg(),
            final(self).room() == old(self).room(),
            (final(self).gv(), (r.0@, r.1@)) == gen_cond_spec(old(self).pg(), old(self).room(), old(self).gv(), cond.v(), t@),
            settled(final(self).gv()) == settled(old(self).gv()),
        decreases old(self).room(), *cond, 30int, 0int,
    {
        proof {
            reveal(gen_cond_spec);
            reveal(gen_expr_spec);
        }
        self.set_prelude_t(t.to_owned());
        let (code, _) = self.gen_expr(cond);
        let pre = self.flush();
        (pre, code)
    }

    fn if_into(&mut self, e: &Expr, sink: &Sink, t: &str) -> (r: (String, Ty))
        ensures
            final(self).pg() == old(self).pg(),
            final(self).room() == old(self).room(),
            (final(self).gv(), (r.0@, r.1.v())) == if_into_spec(old(self).pg(), old(self).room(), old(self).gv(), e.v(), sink.v(), t@),
            settled(final(self).gv()) == settled(old(self).gv()),
        decreases old(self).room(), *e, 9int, 0int,
    {
        proof {
            reveal(if_into_spec);
            reveal(gen_cond_spec);
            reveal(gen_value_into_spec);
        }
        match e.node() {
            Expr::If { cond, then, els } => {
                let (pre, c) = self.gen_cond(cond, t);
                let inner = cat2(t, "\t");
                let (a, aty) = self.gen_value_into(then, sink, &inner);
                match els {
                    Some(b) => {
                        let (b, bty) = self.gen_value_into(b, sink, &inner);
                        (cat4(&cat8(&pre, t, "if (", &c, ") {\n", &a, t, "} else {\n"), &b, t, "}\n"), known_ty(aty, &bty))
                    },
                    None => (cat8(&pre, t, "if (", &c, ") {\n", &a, t, "}\n"), aty),
                }
            },
            _ => (String::new(), no_ty()),
        }
    }

    /// A block in a scope of its own.
    pub fn block_into(&mut self, stmts: &Vec<Stmt>, sink: &Sink, t: &str) -> (r: (String, Ty))
        ensures
            final(self).pg() == old(self).pg(),
            final(self).room() == old(self).room(),
            (final(self).gv(), (r.0@, r.1.v())) == block_into_spec(old(self).pg(), old(self).room(), old(self).gv(), stmts_v(stmts@), sink.v(), t@),
            settled(final(self).gv()) == settled(old(self).gv()),
        decreases old(self).room(), stmts@, 4int, 0int,
    {
        proof {
            reveal(block_into_spec);
            reveal(stmts_into_spec);
        }
        self.push_scope();
        let (text, ty) = self.stmts_into(stmts, sink, t, 0, String::new());
        let deletes = self.body_close_deletes(stmts, t);
        self.pop_scope();
        (cat2(&text, &deletes), ty)
    }

    /// Statements, the last of which is the value.
    pub fn stmts_into(&mut self, stmts: &Vec<Stmt>, sink: &Sink, t: &str, i: usize, out: String) -> (r: (String, Ty))
        ensures
            final(self).pg() == old(self).pg(),
            final(self).room() == old(self).room(),
            (final(self).gv(), (r.0@, r.1.v())) == stmts_into_spec(old(self).pg(), old(self).room(), old(self).gv(), stmts_v(stmts@), sink.v(), t@, (i as int), out@),
            settled(final(self).gv()) == settled(old(self).gv()),
        decreases old(self).room(), stmts@, 1int, stmts.len()-i,
    {
        let ghost i_0 = i;
        let ghost out_0 = out;
        let mut i: usize = i;
        let mut out: String = out;
        #[verifier::loop_isolation(false)]
        loop
            invariant
                self.pg() == old(self).pg(),
                self.room() == old(self).room(),
                stmts_into_spec(old(self).pg(), old(self).room(), old(self).gv(), stmts_v(stmts@), sink.v(), t@, (i_0 as int), out_0@) == stmts_into_spec(self.pg(), self.room(), self.gv(), stmts_v(stmts@), sink.v(), t@, (i as int), out@),
                settled(self.gv()) == settled(old(self).gv()),
            decreases stmts.len()-i,
        {
            proof {
                reveal(stmts_into_spec);
                reveal(last_into_spec);
                reveal(gen_stmt_spec);
            }
            if i >= stmts.len() {
                return (out, no_ty());
            }
            if i + 1 >= stmts.len() && !empty(&sink.dest) {
                let (text, ty) = self.last_into(&stmts[i], sink, t);
                return (cat2(&out, &text), ty);
            }
            let text = self.gen_stmt(&stmts[i], t);
            out = cat2(&out, &text);
            i = i + 1;
        }
    }

    /// The last statement: an expression is the value, anything else is emitted.
    fn last_into(&mut self, last: &Stmt, sink: &Sink, t: &str) -> (r: (String, Ty))
        ensures
            final(self).pg() == old(self).pg(),
            final(self).room() == old(self).room(),
            (final(self).gv(), (r.0@, r.1.v())) == last_into_spec(old(self).pg(), old(self).room(), old(self).gv(), last.v(), sink.v(), t@),
            settled(final(self).gv()) == settled(old(self).gv()),
        decreases old(self).room(), *last, 31int, 0int,
    {
        proof {
            reveal(last_into_spec);
            reveal(gen_value_into_spec);
            reveal(gen_stmt_spec);
        }
        match last.node() {
            Stmt::Expr(e, line) => {
                self.set_current_line(*line);
                self.gen_value_into(e, sink, t)
            },
            _ => {
                let text = self.gen_stmt(last, t);
                (text, no_ty())
            },
        }
    }

    /// A branch or a block in an expression: computed into a variable before the statement.
    pub fn gen_hoisted(&mut self, e: &Expr) -> (r: (String, Ty))
        ensures
            final(self).pg() == old(self).pg(),
            final(self).room() == old(self).room(),
            (final(self).gv(), (r.0@, r.1.v())) == gen_hoisted_spec(old(self).pg(), old(self).room(), old(self).gv(), e.v()),
            settled(final(self).gv()) == settled(old(self).gv()),
        decreases old(self).room(), *e, 10int, 0int,
    {
        proof {
            reveal(gen_hoisted_spec);
            reveal(if_into_spec);
            reveal(switch_into_spec);
            reveal(block_into_spec);
        }
        let t = self.prelude_t().clone();
        let tmp = self.fresh("val");
        let saved = self.suspend(&t);
        let sink = Sink { dest: tmp, want: dup_opt_ty(&saved.expected), escape: saved.escape };
        let (text, found) = match e.node() {
            Expr::If { cond: _, then: _, els: _ } => self.if_into(e, &sink, &t),
            Expr::Switch { subject: _, cases: _, default: _ } => self.switch_into(e, &sink, &t),
            Expr::Block(stmts) => {
                let (inner, ty) = self.block_into(stmts, &sink, &cat2(&t, "\t"));
                (cat5(&t, "{\n", &inner, &t, "}\n"), ty)
            },
            _ => (String::new(), no_ty()),
        };
        self.resume(saved);
        let ty = sink_ty(&sink.want, found);
        self.hoist(&declare(&t, &ty, &sink.dest));
        self.hoist(&text);
        (sink.dest, ty)
    }
}

/// What [`BodyGen::gen_value_into`] computes.
#[verifier::opaque]
pub open spec fn gen_value_into_spec(p: Env, room: int, st: GenV, e: ExprV, sink: SinkV, t: Seq<char>) -> (GenV, (Seq<char>, TyV))
    decreases room, e, 30int, 0int,
{
    match e {
        ExprV::If { cond: _, then: _, els: _ } => { if_into_spec(p, room, st, e, sink, t) },
        ExprV::Switch { subject: _, cases: _, default: _ } => { switch_into_spec(p, room, st, e, sink, t) },
        ExprV::Block(stmts) => { block_into_spec(p, room, st, stmts, sink, t) },
        _ => {
            let st = GenV { prelude_t: t, ..st };
            let st = GenV { new_args_escape: sink.escape, ..st };
            let (st, (code, ty)) = gen_expr_hinted_spec(p, room, st, e, sink.want);
            let (st, pre) = flush_spec(p, st);
            (st, (pre + t + sink.dest + " = "@ + (stored_as_spec(code, ty, sink.want, (match e { ExprV::Null => true, _ => false }))) + ";\n"@, ty))
        },
    }
}

/// What [`BodyGen::gen_cond`] computes.
#[verifier::opaque]
pub open spec fn gen_cond_spec(p: Env, room: int, st: GenV, cond: ExprV, t: Seq<char>) -> (GenV, (Seq<char>, Seq<char>))
    decreases room, cond, 30int, 0int,
{
    let st = GenV { prelude_t: t, ..st };
    let (st, (code, _)) = gen_expr_spec(p, room, st, cond);
    let (st, pre) = flush_spec(p, st);
    (st, (pre, code))
}

/// What [`BodyGen::if_into`] computes.
#[verifier::opaque]
pub open spec fn if_into_spec(p: Env, room: int, st: GenV, e: ExprV, sink: SinkV, t: Seq<char>) -> (GenV, (Seq<char>, TyV))
    decreases room, e, 9int, 0int,
{
    match e {
        ExprV::If { cond, then, els } => {
            let (st, (pre, c)) = gen_cond_spec(p, room, st, *cond, t);
            let inner = t + "\t"@;
            let (st, (a, aty)) = gen_value_into_spec(p, room, st, *then, sink, inner);
            match els {
                Some(b) => {
                    let (st, (b, bty)) = gen_value_into_spec(p, room, st, *b, sink, inner);
                    (st, (pre + t + "if ("@ + c + ") {\n"@ + a + t + "} else {\n"@ + b + t + "}\n"@, known_ty_spec(aty, bty)))
                },
                None => { (st, (pre + t + "if ("@ + c + ") {\n"@ + a + t + "}\n"@, aty)) },
            }
        },
        _ => { (st, (Seq::empty(), no_ty_spec())) },
    }
}

/// What [`BodyGen::block_into`] computes.
#[verifier::opaque]
pub open spec fn block_into_spec(p: Env, room: int, st: GenV, stmts: Seq<StmtV>, sink: SinkV, t: Seq<char>) -> (GenV, (Seq<char>, TyV))
    decreases room, stmts, 4int, 0int,
{
    let st = push_scope_spec(p, st);
    let (st, (text, ty)) = stmts_into_spec(p, room, st, stmts, sink, t, 0int, Seq::empty());
    let deletes = body_close_deletes_spec(p, st, stmts, t);
    let st = pop_scope_spec(p, st);
    (st, (text + deletes, ty))
}

/// What [`BodyGen::stmts_into`] computes.
#[verifier::opaque]
pub open spec fn stmts_into_spec(p: Env, room: int, st: GenV, stmts: Seq<StmtV>, sink: SinkV, t: Seq<char>, i: int, out: Seq<char>) -> (GenV, (Seq<char>, TyV))
    decreases room, stmts, 1int, stmts.len()-i,
{
    if !(0 <= i < stmts.len()) { (st, (out, no_ty_spec())) } else {
        if ((i + 1) >= (stmts.len())) && (!((sink.dest).len() == 0)) {
            let (st, (text, ty)) = last_into_spec(p, room, st, stmts[i], sink, t);
            (st, (out + text, ty))
        } else {
            let (st, text) = gen_stmt_spec(p, room, st, stmts[i], t);
            let out = out + text;
            let i = i + 1;
            stmts_into_spec(p, room, st, stmts, sink, t, i, out)
        }
    }
}

/// What [`BodyGen::last_into`] computes.
#[verifier::opaque]
pub open spec fn last_into_spec(p: Env, room: int, st: GenV, last: StmtV, sink: SinkV, t: Seq<char>) -> (GenV, (Seq<char>, TyV))
    decreases room, last, 31int, 0int,
{
    match last {
        StmtV::Expr(e, line) => {
            let st = GenV { current_line: line, ..st };
            gen_value_into_spec(p, room, st, e, sink, t)
        },
        _ => {
            let (st, text) = gen_stmt_spec(p, room, st, last, t);
            (st, (text, no_ty_spec()))
        },
    }
}

/// What [`BodyGen::gen_hoisted`] computes.
#[verifier::opaque]
pub open spec fn gen_hoisted_spec(p: Env, room: int, st: GenV, e: ExprV) -> (GenV, (Seq<char>, TyV))
    decreases room, e, 10int, 0int,
{
    let t = st.prelude_t;
    let (st, tmp) = fresh_spec(p, st, "val"@);
    let (st, saved) = suspend_spec(p, st, t);
    let sink = SinkV { dest: tmp, want: saved.expected, escape: saved.escape };
    let (st, (text, found)) = match e {
        ExprV::If { cond: _, then: _, els: _ } => {
            let (st, x1) = if_into_spec(p, room, st, e, sink, t);
            (st, x1)
        },
        ExprV::Switch { subject: _, cases: _, default: _ } => {
            let (st, x2) = switch_into_spec(p, room, st, e, sink, t);
            (st, x2)
        },
        ExprV::Block(stmts) => {
            let (st, (inner, ty)) = block_into_spec(p, room, st, stmts, sink, t + "\t"@);
            (st, (t + "{\n"@ + inner + t + "}\n"@, ty))
        },
        _ => { (st, (Seq::empty(), no_ty_spec())) },
    };
    let st = resume_spec(p, st, saved);
    let ty = sink_ty_spec(sink.want, found);
    let st = hoist_spec(p, st, declare_spec(t, ty, sink.dest));
    let st = hoist_spec(p, st, text);
    (st, (sink.dest, ty))
}

} // verus!
