//! Comprehensions and the array methods that take a lambda.

use vstd::prelude::*;

use crate::ast::{ComprBody, Expr, LambdaBody, Param, Stmt};
use crate::codegen::branch::{resume_spec, suspend_spec};
use crate::codegen::control::gen_cond_spec;
use crate::codegen::expr::gen_expr_hinted_spec;
use crate::codegen::gen::GenV;
use crate::codegen::helpers::{is_vector_ty, is_vector_ty_spec, no_ty, no_ty_spec, plain_ty, plain_ty_spec, rcode_is_map, rcode_is_map_spec};
use crate::codegen::loops::{gen_source_spec, open_loop_spec, spelled_or_int, spelled_or_int_spec};
use crate::codegen::state::{BodyGen, Env, bind_local_name_spec, define_local_spec, flush_spec, fresh_spec, hoist_spec, owned_deletes_spec, pop_scope_spec, push_scope_spec, settled};
use crate::codegen::stmt::gen_stmt_spec;
use crate::codegen::ty::{Ty, TyV};
use crate::codegen::ty_copy::dup_opt_ty;
use crate::codegen::types::element_ty_spec;
use crate::model::{ComprBodyV, ExprV, LambdaBodyV, ParamV, StmtV, params_v, stmts_v};
use crate::text::{cat2, cat3, cat4, cat5, cat6, cat7, cat8, empty};

verus! {

broadcast use {crate::codegen::gen::group_gen, crate::codegen::ty::group_ty, crate::model::group_model, crate::text::group_texts};

/// The type wanted, if it is a container.
pub fn wanted_container(want: &Option<Ty>, map: bool) -> (r: Option<Ty>)
    ensures
        (match r { Some(y) => Some(y.v()), None => None }) == wanted_container_spec((match want { Some(y) => Some(y.v()), None => None }), map),
{
    match want {
        Some(t) => {
            if (map && rcode_is_map(t)) || (!map && is_vector_ty(t)) {
                Some(t.dup())
            } else {
                None
            }
        },
        None => None,
    }
}

/// The name of the parameter at a position; empty where it is missing.
pub fn param_name(params: &Vec<Param>, i: usize) -> (r: String)
    ensures
        r@ == param_name_spec(params_v(params@), (i as int)),
{
    if i < params.len() {
        params[i].name.clone()
    } else {
        String::new()
    }
}

impl<'a> BodyGen<'a> {
    /// The element type wanted of a container.
    fn wanted_elem(&self, want: &Option<Ty>) -> (r: Option<Ty>)
        ensures
            (match r { Some(y) => Some(y.v()), None => None }) == wanted_elem_spec(self.pg(), self.gv(), (match want { Some(y) => Some(y.v()), None => None })),
    {
        proof {
            reveal(wanted_elem_spec);
        }
        match want {
            Some(t) => Some(self.element_ty(t)),
            None => None,
        }
    }

    /// The lines that add what a comprehension yields, and the types of what is added.
    fn gen_yield(&mut self, body: &ComprBody, acc: &str, want: &Option<Ty>, t: &str) -> (r: (String, Ty, Ty))
        ensures
            final(self).pg() == old(self).pg(),
            final(self).room() == old(self).room(),
            (final(self).gv(), (r.0@, r.1.v(), r.2.v())) == gen_yield_spec(old(self).pg(), old(self).room(), old(self).gv(), body.v(), acc@, (match want { Some(y) => Some(y.v()), None => None }), t@),
            settled(final(self).gv()) == settled(old(self).gv()),
        decreases old(self).room(), *body, 5int, 0int,
    {
        proof {
            reveal(gen_yield_spec);
            reveal(gen_expr_hinted_spec);
        }
        self.set_prelude_t(t.to_owned());
        match body.node() {
            ComprBody::Value(e) => {
                let elem = self.wanted_elem(want);
                let (code, ty) = self.gen_expr_hinted(e, elem);
                let pre = self.flush();
                (cat6(&pre, t, acc, ".push_back(", &code, ");\n"), no_ty(), ty)
            },
            ComprBody::KeyValue(k, v) => {
                let (kc, kty) = self.gen_expr_hinted(k, None);
                let (vc, vty) = self.gen_expr_hinted(v, None);
                let pre = self.flush();
                (cat8(&pre, t, acc, "[", &kc, "] = ", &vc, ";\n"), kty, vty)
            },
        }
    }

    /// The type of what a comprehension builds: the wanted one, else that of what it yields.
    fn built_ty(&self, want: &Option<Ty>, map: bool, kty: &Ty, vty: &Ty) -> (r: Ty)
        ensures
            r.v() == built_ty_spec(self.pg(), self.gv(), (match want { Some(y) => Some(y.v()), None => None }), map, kty.v(), vty.v()),
    {
        proof {
            reveal(built_ty_spec);
        }
        match want {
            Some(t) => t.dup(),
            None => {
                if map {
                    plain_ty(&cat5("std::map<", &spelled_or_int(kty), ", ", &spelled_or_int(vty), " >"))
                } else {
                    plain_ty(&cat3("std::vector<", &spelled_or_int(vty), " >"))
                }
            },
        }
    }

    /// `[for (x in xs) if (cond) value]`, or with `key => value`: a container filled by a loop
    /// before the statement.
    pub fn gen_comprehension(&mut self, e: &Expr) -> (r: (String, Ty))
        ensures
            final(self).pg() == old(self).pg(),
            final(self).room() == old(self).room(),
            (final(self).gv(), (r.0@, r.1.v())) == gen_comprehension_spec(old(self).pg(), old(self).room(), old(self).gv(), e.v()),
            settled(final(self).gv()) == settled(old(self).gv()),
        decreases old(self).room(), *e, 10int, 0int,
    {
        proof {
            reveal(gen_comprehension_spec);
            reveal(gen_source_spec);
            reveal(gen_cond_spec);
            reveal(gen_yield_spec);
        }
        match e.node() {
            Expr::Comprehension { var, value_var, iter, guard, body } => {
                let map = matches!(body.node(), ComprBody::KeyValue(_, _));
                let t = self.prelude_t().clone();
                let acc = self.fresh(if map { "map" } else { "arr" });
                let saved = self.suspend(&t);
                let want = wanted_container(&saved.expected, map);
                let (pre, src) = self.gen_source(iter, &t);
                let head = self.open_loop(&src, var, value_var, &t);
                let inner = cat2(&t, "\t");
                let (open, close, deep) = match guard {
                    Some(g) => {
                        let (gp, gc) = self.gen_cond(g, &inner);
                        (cat5(&gp, &inner, "if (", &gc, ") {\n"), cat2(&inner, "}\n"), cat2(&inner, "\t"))
                    },
                    None => (String::new(), String::new(), inner.clone()),
                };
                let (text, kty, vty) = self.gen_yield(body, &acc, &want, &deep);
                let deletes = self.owned_deletes(&inner);
                self.pop_scope();
                self.resume(saved);
                let ty = self.built_ty(&want, map, &kty, &vty);
                self.hoist(&cat6(&cat8(&t, &ty.base, " ", &acc, ";\n", &pre, &head, &open), &text, &close, &deletes, &t, "}\n"));
                (acc, ty)
            },
            _ => (String::new(), no_ty()),
        }
    }

    /// The last statement of a lambda: the value it returns.
    fn lambda_last(&mut self, last: &Stmt, want: &Option<Ty>, t: &str) -> (r: (String, String, Ty))
        ensures
            final(self).pg() == old(self).pg(),
            final(self).room() == old(self).room(),
            (final(self).gv(), (r.0@, r.1@, r.2.v())) == lambda_last_spec(old(self).pg(), old(self).room(), old(self).gv(), last.v(), (match want { Some(y) => Some(y.v()), None => None }), t@),
            settled(final(self).gv()) == settled(old(self).gv()),
        decreases old(self).room(), *last, 31int, 0int,
    {
        proof {
            reveal(lambda_last_spec);
            reveal(gen_expr_hinted_spec);
            reveal(gen_stmt_spec);
        }
        match last.node() {
            Stmt::Return(Some(e), line) => {
                self.set_current_line(*line);
                self.set_prelude_t(t.to_owned());
                let (code, ty) = self.gen_expr_hinted(e, dup_opt_ty(want));
                let pre = self.flush();
                (pre, code, ty)
            },
            Stmt::Expr(e, line) => {
                self.set_current_line(*line);
                self.set_prelude_t(t.to_owned());
                let (code, ty) = self.gen_expr_hinted(e, dup_opt_ty(want));
                let pre = self.flush();
                (pre, code, ty)
            },
            _ => {
                let text = self.gen_stmt(last, t);
                (text, String::new(), no_ty())
            },
        }
    }

    fn lambda_stmts(&mut self, stmts: &Vec<Stmt>, want: &Option<Ty>, t: &str, i: usize, out: String) -> (r: (String, String, Ty))
        ensures
            final(self).pg() == old(self).pg(),
            final(self).room() == old(self).room(),
            (final(self).gv(), (r.0@, r.1@, r.2.v())) == lambda_stmts_spec(old(self).pg(), old(self).room(), old(self).gv(), stmts_v(stmts@), (match want { Some(y) => Some(y.v()), None => None }), t@, (i as int), out@),
            settled(final(self).gv()) == settled(old(self).gv()),
        decreases old(self).room(), stmts@, 1int, stmts.len()-i,
    {
        let ghost i_0 = i;
        let ghost out_0 = out;
        let mut i: usize = i;
        let mut out: String = out;
        #[verifier::loop_isolation(false)]
        loop
            invariant
                self.pg() == old(self).pg(),
                self.room() == old(self).room(),
                lambda_stmts_spec(old(self).pg(), old(self).room(), old(self).gv(), stmts_v(stmts@), (match want { Some(y) => Some(y.v()), None => None }), t@, (i_0 as int), out_0@) == lambda_stmts_spec(self.pg(), self.room(), self.gv(), stmts_v(stmts@), (match want { Some(y) => Some(y.v()), None => None }), t@, (i as int), out@),
                settled(self.gv()) == settled(old(self).gv()),
            decreases stmts.len()-i,
        {
            proof {
                reveal(lambda_stmts_spec);
                reveal(lambda_last_spec);
                reveal(gen_stmt_spec);
            }
            if i >= stmts.len() {
                return (out, String::new(), no_ty());
            }
            if i + 1 >= stmts.len() {
                let (text, code, ty) = self.lambda_last(&stmts[i], want, t);
                return (cat2(&out, &text), code, ty);
            }
            let text = self.gen_stmt(&stmts[i], t);
            out = cat2(&out, &text);
            i = i + 1;
        }
    }

    /// The lines of a lambda, the value it returns and its type.
    fn gen_lambda_body(&mut self, body: &LambdaBody, want: &Option<Ty>, t: &str) -> (r: (String, String, Ty))
        ensures
            final(self).pg() == old(self).pg(),
            final(self).room() == old(self).room(),
            (final(self).gv(), (r.0@, r.1@, r.2.v())) == gen_lambda_body_spec(old(self).pg(), old(self).room(), old(self).gv(), body.v(), (match want { Some(y) => Some(y.v()), None => None }), t@),
            settled(final(self).gv()) == settled(old(self).gv()),
        decreases old(self).room(), *body, 5int, 0int,
    {
        proof {
            reveal(gen_lambda_body_spec);
            reveal(gen_expr_hinted_spec);
            reveal(lambda_stmts_spec);
        }
        self.set_prelude_t(t.to_owned());
        match body.node() {
            LambdaBody::Expr(e) => {
                let (code, ty) = self.gen_expr_hinted(e, dup_opt_ty(want));
                let pre = self.flush();
                (pre, code, ty)
            },
            LambdaBody::Block(stmts) => self.lambda_stmts(stmts, want, t, 0, String::new()),
        }
    }

    /// The line that binds a lambda's parameter.
    fn bind_lambda_param(&mut self, params: &Vec<Param>, i: usize, ty: &Ty, code: &str, t: &str) -> (r: String)
        ensures
            final(self).pg() == old(self).pg(),
            final(self).room() == old(self).room(),
            (final(self).gv(), r@) == bind_lambda_param_spec(old(self).pg(), old(self).gv(), params_v(params@), (i as int), ty.v(), code@, t@),
            settled(final(self).gv()) == settled(old(self).gv()),
    {
        proof {
            reveal(bind_lambda_param_spec);
        }
        let var = param_name(params, i);
        if empty(&var) {
            return String::new();
        }
        let name = self.bind_local_name(&var);
        self.define_local(&var, ty.dup());
        cat7(t, &spelled_or_int(ty), " ", &name, " = ", code, ";\n")
    }

    /// `arr.map(f)`: a vector filled with what the lambda makes of each element.
    pub fn gen_array_map(&mut self, rcode: &str, rty: &Ty, lam: &Expr) -> (r: (String, Ty))
        ensures
            final(self).pg() == old(self).pg(),
            final(self).room() == old(self).room(),
            (final(self).gv(), (r.0@, r.1.v())) == gen_array_map_spec(old(self).pg(), old(self).room(), old(self).gv(), rcode@, rty.v(), lam.v()),
            settled(final(self).gv()) == settled(old(self).gv()),
        decreases old(self).room(), *lam, 25int, 0int,
    {
        proof {
            reveal(gen_array_map_spec);
            reveal(gen_lambda_body_spec);
        }
        match lam.node() {
            Expr::Lambda { params, ret: _, body } => {
                let t = self.prelude_t().clone();
                let acc = self.fresh("map");
                let i = self.fresh("i");
                let saved = self.suspend(&t);
                let want = wanted_container(&saved.expected, false);
                let inner = cat2(&t, "\t");
                self.push_scope();
                let bind = self.bind_lambda_param(params, 0, &self.element_ty(rty), &cat4(rcode, "[", &i, "]"), &inner);
                let (text, code, ty) = self.gen_lambda_body(body, &self.wanted_elem(&want), &inner);
                let deletes = self.owned_deletes(&inner);
                self.pop_scope();
                self.resume(saved);
                let built = self.built_ty(&want, false, &no_ty(), &ty);
                self.hoist(&cat4(&cat8(&cat8(&cat8(&t, &built.base, " ", &acc, ";\n", &t, "for (size_t ", &i), " = 0; ", &i, " < ", rcode, ".size(); ++", &i, ") {\n"), &bind, &text, &inner, &acc, ".push_back(", &code, ");\n"), &deletes, &t, "}\n"));
                (acc, built)
            },
            _ => (String::new(), no_ty()),
        }
    }

    /// `arr.filter(p)`: a vector of the elements the predicate keeps.
    pub fn gen_array_filter(&mut self, rcode: &str, rty: &Ty, lam: &Expr) -> (r: (String, Ty))
        ensures
            final(self).pg() == old(self).pg(),
            final(self).room() == old(self).room(),
            (final(self).gv(), (r.0@, r.1.v())) == gen_array_filter_spec(old(self).pg(), old(self).room(), old(self).gv(), rcode@, rty.v(), lam.v()),
            settled(final(self).gv()) == settled(old(self).gv()),
        decreases old(self).room(), *lam, 25int, 0int,
    {
        proof {
            reveal(gen_array_filter_spec);
            reveal(gen_lambda_body_spec);
        }
        match lam.node() {
            Expr::Lambda { params, ret: _, body } => {
                let t = self.prelude_t().clone();
                let acc = self.fresh("flt");
                let i = self.fresh("i");
                let saved = self.suspend(&t);
                let inner = cat2(&t, "\t");
                self.push_scope();
                let elem = cat4(rcode, "[", &i, "]");
                let bind = self.bind_lambda_param(params, 0, &self.element_ty(rty), &elem, &inner);
                let (text, code, _) = self.gen_lambda_body(body, &None, &inner);
                let deletes = self.owned_deletes(&inner);
                self.pop_scope();
                self.resume(saved);
                self.hoist(&cat7(&cat8(&cat8(&cat8(&t, &rty.base, " ", &acc, ";\n", &t, "for (size_t ", &i), " = 0; ", &i, " < ", rcode, ".size(); ++", &i, ") {\n"), &bind, &text, &inner, "if (", &code, ") { ", &acc), ".push_back(", &elem, "); }\n", &deletes, &t, "}\n"));
                (acc, rty.dup())
            },
            _ => (String::new(), no_ty()),
        }
    }

    /// `arr.sort(f)`: an insertion sort in place, which keeps the order of equal elements.
    pub fn gen_array_sort(&mut self, rcode: &str, rty: &Ty, lam: &Expr) -> (r: (String, Ty))
        ensures
            final(self).pg() == old(self).pg(),
            final(self).room() == old(self).room(),
            (final(self).gv(), (r.0@, r.1.v())) == gen_array_sort_spec(old(self).pg(), old(self).room(), old(self).gv(), rcode@, rty.v(), lam.v()),
            settled(final(self).gv()) == settled(old(self).gv()),
        decreases old(self).room(), *lam, 25int, 0int,
    {
        proof {
            reveal(gen_array_sort_spec);
            reveal(gen_lambda_body_spec);
        }
        match lam.node() {
            Expr::Lambda { params, ret: _, body } => {
                let t = self.prelude_t().clone();
                let i = self.fresh("i");
                let j = self.fresh("j");
                let key = self.fresh("key");
                let saved = self.suspend(&t);
                let elem = self.element_ty(rty);
                let inner = cat2(&t, "\t\t");
                self.push_scope();
                let a = self.bind_lambda_param(params, 0, &elem, &cat4(rcode, "[", &j, " - 1]"), &inner);
                let b = self.bind_lambda_param(params, 1, &elem, &key, &inner);
                let (text, code, _) = self.gen_lambda_body(body, &None, &inner);
                let deletes = self.owned_deletes(&inner);
                self.pop_scope();
                self.resume(saved);
                let head = cat2(&cat8(&cat8(&cat8(&cat8(&t, "for (size_t ", &i, " = 1; ", &i, " < ", rcode, ".size(); ++"), &i, ") {\n", &t, "\t", &spelled_or_int(&elem), " ", &key), " = ", rcode, "[", &i, "];\n", &t, "\tsize_t "), &j, " = ", &i, ";\n", &t, "\twhile (", &j), " > 0) {\n");
                let order = self.fresh("ord");
                let tail = cat8(&cat8(&cat8(&cat8(&cat8(&inner, "bool ", &order, " = ((", &code, ") > 0);\n", &deletes, &inner), "if (!", &order, ") break;\n", &inner, rcode, "[", &j), "] = ", rcode, "[", &j, " - 1];\n", &inner, "--"), &j, ";\n", &t, "\t}\n", &t, "\t", rcode), "[", &j, "] = ", &key, ";\n", &t, "}\n");
                self.hoist(&cat5(&head, &a, &b, &text, &tail));
                ("((void)0)".to_owned(), no_ty())
            },
            _ => (String::new(), no_ty()),
        }
    }
}

/// What [`wanted_container`] computes.
pub open spec fn wanted_container_spec(want: Option<TyV>, map: bool) -> Option<TyV>
{
    match want {
        Some(t) => {
            if (map && rcode_is_map_spec(t)) || ((!map) && is_vector_ty_spec(t)) { Some(t) } else { None }
        },
        None => { None },
    }
}

/// What [`param_name`] computes.
pub open spec fn param_name_spec(params: Seq<ParamV>, i: int) -> Seq<char>
{
    if i < (params.len()) { params[i].name } else { Seq::empty() }
}

/// What [`BodyGen::wanted_elem`] computes.
#[verifier::opaque]
pub open spec fn wanted_elem_spec(p: Env, st: GenV, want: Option<TyV>) -> Option<TyV>
{
    match want {
        Some(t) => { Some(element_ty_spec(p, st, t)) },
        None => { None },
    }
}

/// What [`BodyGen::gen_yield`] computes.
#[verifier::opaque]
pub open spec fn gen_yield_spec(p: Env, room: int, st: GenV, body: ComprBodyV, acc: Seq<char>, want: Option<TyV>, t: Seq<char>) -> (GenV, (Seq<char>, TyV, TyV))
    decreases room, body, 5int, 0int,
{
    let st = GenV { prelude_t: t, ..st };
    match body {
        ComprBodyV::Value(e) => {
            let elem = wanted_elem_spec(p, st, want);
            let (st, (code, ty)) = gen_expr_hinted_spec(p, room, st, *e, elem);
            let (st, pre) = flush_spec(p, st);
            (st, (pre + t + acc + ".push_back("@ + code + ");\n"@, no_ty_spec(), ty))
        },
        ComprBodyV::KeyValue(k, v) => {
            let (st, (kc, kty)) = gen_expr_hinted_spec(p, room, st, *k, None);
            let (st, (vc, vty)) = gen_expr_hinted_spec(p, room, st, *v, None);
            let (st, pre) = flush_spec(p, st);
            (st, (pre + t + acc + "["@ + kc + "] = "@ + vc + ";\n"@, kty, vty))
        },
    }
}

/// What [`BodyGen::built_ty`] computes.
#[verifier::opaque]
pub open spec fn built_ty_spec(p: Env, st: GenV, want: Option<TyV>, map: bool, kty: TyV, vty: TyV) -> TyV
{
    match want {
        Some(t) => { t },
        None => {
            if map {
                plain_ty_spec("std::map<"@ + spelled_or_int_spec(kty) + ", "@ + spelled_or_int_spec(vty) + " >"@)
            } else { plain_ty_spec("std::vector<"@ + spelled_or_int_spec(vty) + " >"@) }
        },
    }
}

/// What [`BodyGen::gen_comprehension`] computes.
#[verifier::opaque]
pub open spec fn gen_comprehension_spec(p: Env, room: int, st: GenV, e: ExprV) -> (GenV, (Seq<char>, TyV))
    decreases room, e, 10int, 0int,
{
    match e {
        ExprV::Comprehension { var, value_var, iter, guard, body } => {
            let map = (match body { ComprBodyV::KeyValue(_, _) => true, _ => false });
            let t = st.prelude_t;
            let (st, acc) = fresh_spec(p, st, if map { "map"@ } else { "arr"@ });
            let (st, saved) = suspend_spec(p, st, t);
            let want = wanted_container_spec(saved.expected, map);
            let (st, (pre, src)) = gen_source_spec(p, room, st, *iter, t);
            let (st, head) = open_loop_spec(p, st, src, var, value_var, t);
            let inner = t + "\t"@;
            let (st, (open, close, deep)) = match guard {
                Some(g) => {
                    let (st, (gp, gc)) = gen_cond_spec(p, room, st, *g, inner);
                    (st, (gp + inner + "if ("@ + gc + ") {\n"@, inner + "}\n"@, inner + "\t"@))
                },
                None => { (st, (Seq::empty(), Seq::empty(), inner)) },
            };
            let (st, (text, kty, vty)) = gen_yield_spec(p, room, st, body, acc, want, deep);
            let deletes = owned_deletes_spec(p, st, inner);
            let st = pop_scope_spec(p, st);
            let st = resume_spec(p, st, saved);
            let ty = built_ty_spec(p, st, want, map, kty, vty);
            let st = hoist_spec(p, st, t + ty.base + " "@ + acc + ";\n"@ + pre + head + open + text + close + deletes + t + "}\n"@);
            (st, (acc, ty))
        },
        _ => { (st, (Seq::empty(), no_ty_spec())) },
    }
}

/// What [`BodyGen::lambda_last`] computes.
#[verifier::opaque]
pub open spec fn lambda_last_spec(p: Env, room: int, st: GenV, last: StmtV, want: Option<TyV>, t: Seq<char>) -> (GenV, (Seq<char>, Seq<char>, TyV))
    decreases room, last, 31int, 0int,
{
    match last {
        StmtV::Return(Some(e), line) => {
            let st = GenV { current_line: line, ..st };
            let st = GenV { prelude_t: t, ..st };
            let (st, (code, ty)) = gen_expr_hinted_spec(p, room, st, e, want);
            let (st, pre) = flush_spec(p, st);
            (st, (pre, code, ty))
        },
        StmtV::Expr(e, line) => {
            let st = GenV { current_line: line, ..st };
            let st = GenV { prelude_t: t, ..st };
            let (st, (code, ty)) = gen_expr_hinted_spec(p, room, st, e, want);
            let (st, pre) = flush_spec(p, st);
            (st, (pre, code, ty))
        },
        _ => {
            let (st, text) = gen_stmt_spec(p, room, st, last, t);
            (st, (text, Seq::empty(), no_ty_spec()))
        },
    }
}

/// What [`BodyGen::lambda_stmts`] computes.
#[verifier::opaque]
pub open spec fn lambda_stmts_spec(p: Env, room: int, st: GenV, stmts: Seq<StmtV>, want: Option<TyV>, t: Seq<char>, i: int, out: Seq<char>) -> (GenV, (Seq<char>, Seq<char>, TyV))
    decreases room, stmts, 1int, stmts.len()-i,
{
    if !(0 <= i < stmts.len()) { (st, (out, Seq::empty(), no_ty_spec())) } else {
        if (i + 1) >= (stmts.len()) {
            let (st, (text, code, ty)) = lambda_last_spec(p, room, st, stmts[i], want, t);
            (st, (out + text, code, ty))
        } else {
            let (st, text) = gen_stmt_spec(p, room, st, stmts[i], t);
            let out = out + text;
            let i = i + 1;
            lambda_stmts_spec(p, room, st, stmts, want, t, i, out)
        }
    }
}

/// What [`BodyGen::gen_lambda_body`] computes.
#[verifier::opaque]
pub open spec fn gen_lambda_body_spec(p: Env, room: int, st: GenV, body: LambdaBodyV, want: Option<TyV>, t: Seq<char>) -> (GenV, (Seq<char>, Seq<char>, TyV))
    decreases room, body, 5int, 0int,
{
    let st = GenV { prelude_t: t, ..st };
    match body {
        LambdaBodyV::Expr(e) => {
            let (st, (code, ty)) = gen_expr_hinted_spec(p, room, st, e, want);
            let (st, pre) = flush_spec(p, st);
            (st, (pre, code, ty))
        },
        LambdaBodyV::Block(stmts) => { lambda_stmts_spec(p, room, st, stmts, want, t, 0int, Seq::empty()) },
    }
}

/// What [`BodyGen::bind_lambda_param`] computes.
#[verifier::opaque]
pub open spec fn bind_lambda_param_spec(p: Env, st: GenV, params: Seq<ParamV>, i: int, ty: TyV, code: Seq<char>, t: Seq<char>) -> (GenV, Seq<char>)
{
    let var = param_name_spec(params, i);
    if ((var).len() == 0) { (st, Seq::empty()) } else {
        let (st, name) = bind_local_name_spec(p, st, var);
        let st = define_local_spec(p, st, var, ty);
        (st, t + spelled_or_int_spec(ty) + " "@ + name + " = "@ + code + ";\n"@)
    }
}

/// What [`BodyGen::gen_array_map`] computes.
#[verifier::opaque]
pub open spec fn gen_array_map_spec(p: Env, room: int, st: GenV, rcode: Seq<char>, rty: TyV, lam: ExprV) -> (GenV, (Seq<char>, TyV))
    decreases room, lam, 25int, 0int,
{
    match lam {
        ExprV::Lambda { params, ret: _, body } => {
            let t = st.prelude_t;
            let (st, acc) = fresh_spec(p, st, "map"@);
            let (st, i) = fresh_spec(p, st, "i"@);
            let (st, saved) = suspend_spec(p, st, t);
            let want = wanted_container_spec(saved.expected, false);
            let inner = t + "\t"@;
            let st = push_scope_spec(p, st);
            let (st, bind) = bind_lambda_param_spec(p, st, params, 0int, element_ty_spec(p, st, rty), rcode + "["@ + i + "]"@, inner);
            let (st, (text, code, ty)) = gen_lambda_body_spec(p, room, st, *body, wanted_elem_spec(p, st, want), inner);
            let deletes = owned_deletes_spec(p, st, inner);
            let st = pop_scope_spec(p, st);
            let st = resume_spec(p, st, saved);
            let built = built_ty_spec(p, st, want, false, no_ty_spec(), ty);
            let st = hoist_spec(p, st, t + built.base + " "@ + acc + ";\n"@ + t + "for (size_t "@ + i + " = 0; "@ + i + " < "@ + rcode + ".size(); ++"@ + i + ") {\n"@ + bind + text + inner + acc + ".push_back("@ + code + ");\n"@ + deletes + t + "}\n"@);
            (st, (acc, built))
        },
        _ => { (st, (Seq::empty(), no_ty_spec())) },
    }
}

/// What [`BodyGen::gen_array_filter`] computes.
#[verifier::opaque]
pub open spec fn gen_array_filter_spec(p: Env, room: int, st: GenV, rcode: Seq<char>, rty: TyV, lam: ExprV) -> (GenV, (Seq<char>, TyV))
    decreases room, lam, 25int, 0int,
{
    match lam {
        ExprV::Lambda { params, ret: _, body } => {
            let t = st.prelude_t;
            let (st, acc) = fresh_spec(p, st, "flt"@);
            let (st, i) = fresh_spec(p, st, "i"@);
            let (st, saved) = suspend_spec(p, st, t);
            let inner = t + "\t"@;
            let st = push_scope_spec(p, st);
            let elem = rcode + "["@ + i + "]"@;
            let (st, bind) = bind_lambda_param_spec(p, st, params, 0int, element_ty_spec(p, st, rty), elem, inner);
            let (st, (text, code, _)) = gen_lambda_body_spec(p, room, st, *body, None, inner);
            let deletes = owned_deletes_spec(p, st, inner);
            let st = pop_scope_spec(p, st);
            let st = resume_spec(p, st, saved);
            let st = hoist_spec(p, st, t + rty.base + " "@ + acc + ";\n"@ + t + "for (size_t "@ + i + " = 0; "@ + i + " < "@ + rcode + ".size(); ++"@ + i + ") {\n"@ + bind + text + inner + "if ("@ + code + ") { "@ + acc + ".push_back("@ + elem + "); }\n"@ + deletes + t + "}\n"@);
            (st, (acc, rty))
        },
        _ => { (st, (Seq::empty(), no_ty_spec())) },
    }
}

/// What [`BodyGen::gen_array_sort`] computes.
#[verifier::opaque]
pub open spec fn gen_array_sort_spec(p: Env, room: int, st: GenV, rcode: Seq<char>, rty: TyV, lam: ExprV) -> (GenV, (Seq<char>, TyV))
    decreases room, lam, 25int, 0int,
{
    match lam {
        ExprV::Lambda { params, ret: _, body } => {
            let t = st.prelude_t;
            let (st, i) = fresh_spec(p, st, "i"@);
            let (st, j) = fresh_spec(p, st, "j"@);
            let (st, key) = fresh_spec(p, st, "key"@);
            let (st, saved) = suspend_spec(p, st, t);
            let elem = element_ty_spec(p, st, rty);
            let inner = t + "\t\t"@;
            let st = push_scope_spec(p, st);
            let (st, a) = bind_lambda_param_spec(p, st, params, 0int, elem, rcode + "["@ + j + " - 1]"@, inner);
            let (st, b) = bind_lambda_param_spec(p, st, params, 1int, elem, key, inner);
            let (st, (text, code, _)) = gen_lambda_body_spec(p, room, st, *body, None, inner);
            let deletes = owned_deletes_spec(p, st, inner);
            let st = pop_scope_spec(p, st);
            let st = resume_spec(p, st, saved);
            let head = t + "for (size_t "@ + i + " = 1; "@ + i + " < "@ + rcode + ".size(); ++"@ + i + ") {\n"@ + t + "\t"@ + spelled_or_int_spec(elem) + " "@ + key + " = "@ + rcode + "["@ + i + "];\n"@ + t + "\tsize_t "@ + j + " = "@ + i + ";\n"@ + t + "\twhile ("@ + j + " > 0) {\n"@;
            let (st, order) = fresh_spec(p, st, "ord"@);
            let tail = inner + "bool "@ + order + " = (("@ + code + ") > 0);\n"@ + deletes + inner + "if (!"@ + order + ") break;\n"@ + inner + rcode + "["@ + j + "] = "@ + rcode + "["@ + j + " - 1];\n"@ + inner + "--"@ + j + ";\n"@ + t + "\t}\n"@ + t + "\t"@ + rcode + "["@ + j + "] = "@ + key + ";\n"@ + t + "}\n"@;
            let st = hoist_spec(p, st, head + a + b + text + tail);
            (st, ("((void)0)"@, no_ty_spec()))
        },
        _ => { (st, (Seq::empty(), no_ty_spec())) },
    }
}

} // verus!
