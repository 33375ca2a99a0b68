//! Statements.

use vstd::prelude::*;

use crate::ast::{Catch, Expr, Param, Stmt, Type};
use crate::codegen::branch::{enter_loop_spec, exit_loop_spec};
use crate::codegen::common::{param_decl, param_decl_spec};
use crate::codegen::control::gen_cond_spec;
use crate::codegen::expr::gen_expr_spec;
use crate::codegen::gen::GenV;
use crate::codegen::loops::gen_for_spec;
use crate::codegen::simple_stmt::{gen_expr_stmt_spec, gen_return_spec, gen_var_spec};
use crate::codegen::state::{BodyGen, Env, all_owned_deletes_spec, define_local_spec, flush_spec, name_local_spec, owned_deletes_spec, pop_scope_spec, push_scope_spec, settled};
use crate::codegen::switch::gen_switch_spec;
use crate::codegen::types::ty_of_spec;
use crate::model::{CatchV, ExprV, ParamV, StmtV, TypeV, catchs_v, stmts_v};
use crate::resolve::{last_is, last_is_spec};
use crate::text::{cat2, cat3, cat5, cat6, cat8, chars_of, dup_texts, same};

verus! {

broadcast use {crate::codegen::gen::group_gen, crate::codegen::ty::group_ty, crate::model::group_model, crate::text::group_texts};

/// The characters from `i` on with each line ending as a single line feed.
pub fn line_feeds_from(cs: &Vec<char>, i: usize, out: String) -> (r: String)
    ensures
        r@ == line_feeds_from_spec(cs@, (i as int), out@),
{
    let ghost i_0 = i;
    let ghost out_0 = out;
    let mut i: usize = i;
    let mut out: String = out;
    #[verifier::loop_isolation(false)]
    loop
        invariant
            line_feeds_from_spec(cs@, (i_0 as int), out_0@) == line_feeds_from_spec(cs@, (i as int), out@),
        decreases cs.len() - i,
    {
        if i >= cs.len() {
            return out;
        }
        if cs[i] != '\r' {
            out.push(cs[i]);
        } else if i + 1 >= cs.len() || cs[i + 1] != '\n' {
            out.push('\n');
        }
        i = i + 1;
    }
}

/// A text with each line ending as a single line feed.
pub fn line_feeds(s: &str) -> (r: String)
    ensures
        r@ == line_feeds_spec(s@),
{
    let cs = chars_of(s);
    line_feeds_from(&cs, 0, String::new())
}

/// Whether a catch binds nothing: it has no type, or one that is anything.
pub fn catches_all(c: &Catch) -> (r: bool)
    ensures
        r == catches_all_spec(c.v()),
{
    match &c.ty {
        None => true,
        Some(t) => match t.node() {
            Type::Named { path, params: _, optional: _, line: _ } => last_is(path, "Dynamic") || last_is(path, "Any"),
            _ => false,
        },
    }
}

impl<'a> BodyGen<'a> {
    /// The C++ header of a catch, and whether it binds the value.
    pub fn catch_header(&self, c: &Catch) -> (r: (String, bool))
        ensures
            (r.0@, r.1) == catch_header_spec(self.pg(), self.gv(), c.v()),
    {
        proof {
            reveal(catch_header_spec);
        }
        if catches_all(c) {
            return ("catch (...)".to_owned(), false);
        }
        match &c.ty {
            Some(t) => {
                let q = Param { name: c.name.clone(), ty: Some(t.dup()), optional: false, default: None, rest: false, meta: Vec::new() };
                (cat3("catch (", &param_decl(self.prog(), self.mi(), self.ns(), &q), ")"), true)
            },
            None => ("catch (...)".to_owned(), false),
        }
    }

    /// Statements from `i` on.
    pub fn gen_stmts(&mut self, stmts: &Vec<Stmt>, t: &str, i: usize, out: String) -> (r: String)
        ensures
            final(self).pg() == old(self).pg(),
            final(self).room() == old(self).room(),
            (final(self).gv(), r@) == gen_stmts_spec(old(self).pg(), old(self).room(), old(self).gv(), stmts_v(stmts@), t@, (i as int), out@),
            settled(final(self).gv()) == settled(old(self).gv()),
        decreases old(self).room(), stmts@, 1int, stmts.len()-i,
    {
        let ghost i_0 = i;
        let ghost out_0 = out;
        let mut i: usize = i;
        let mut out: String = out;
        #[verifier::loop_isolation(false)]
        loop
            invariant
                self.pg() == old(self).pg(),
                self.room() == old(self).room(),
                gen_stmts_spec(old(self).pg(), old(self).room(), old(self).gv(), stmts_v(stmts@), t@, (i_0 as int), out_0@) == gen_stmts_spec(self.pg(), self.room(), self.gv(), stmts_v(stmts@), t@, (i as int), out@),
                settled(self.gv()) == settled(old(self).gv()),
            decreases stmts.len()-i,
        {
            proof {
                reveal(gen_stmts_spec);
                reveal(gen_stmt_spec);
            }
            if i >= stmts.len() {
                return out;
            }
            let text = self.gen_stmt(&stmts[i], t);
            out = cat2(&out, &text);
            i = i + 1;
        }
    }

    /// The statements of a block, or a single statement, in the current scope.
    pub fn gen_block_inner(&mut self, s: &Stmt, t: &str) -> (r: String)
        ensures
            final(self).pg() == old(self).pg(),
            final(self).room() == old(self).room(),
            (final(self).gv(), r@) == gen_block_inner_spec(old(self).pg(), old(self).room(), old(self).gv(), s.v(), t@),
            settled(final(self).gv()) == settled(old(self).gv()),
        decreases old(self).room(), *s, 30int, 0int,
    {
        proof {
            reveal(gen_block_inner_spec);
            reveal(gen_stmts_spec);
            reveal(gen_stmt_spec);
        }
        match s.node() {
            Stmt::Block(stmts) => self.gen_stmts(stmts, t, 0, String::new()),
            _ => self.gen_stmt(s, t),
        }
    }

    /// A block, or a single statement, in a scope of its own.
    pub fn gen_block(&mut self, s: &Stmt, t: &str) -> (r: String)
        ensures
            final(self).pg() == old(self).pg(),
            final(self).room() == old(self).room(),
            (final(self).gv(), r@) == gen_block_spec(old(self).pg(), old(self).room(), old(self).gv(), s.v(), t@),
            settled(final(self).gv()) == settled(old(self).gv()),
        decreases old(self).room(), *s, 31int, 0int,
    {
        proof {
            reveal(gen_block_spec);
            reveal(gen_block_inner_spec);
        }
        self.push_scope();
        let text = self.gen_block_inner(s, t);
        let deletes = self.owned_deletes(t);
        self.pop_scope();
        cat2(&text, &deletes)
    }

    /// The text of a catch.
    fn gen_catch(&mut self, c: &Catch, t: &str) -> (r: String)
        ensures
            final(self).pg() == old(self).pg(),
            final(self).room() == old(self).room(),
            (final(self).gv(), r@) == gen_catch_spec(old(self).pg(), old(self).room(), old(self).gv(), c.v(), t@),
            settled(final(self).gv()) == settled(old(self).gv()),
        decreases old(self).room(), *c, 5int, 0int,
    {
        proof {
            reveal(gen_catch_spec);
            reveal(gen_stmts_spec);
        }
        let (header, binds) = self.catch_header(c);
        let inner = cat2(t, "\t");
        let saved = dup_texts(self.nonbinding_catch_vars());
        self.push_scope();
        if binds {
            match &c.ty {
                Some(ht) => {
                    self.name_local(&c.name, &c.name);
                    self.define_local(&c.name, self.ty_of(ht));
                },
                None => {},
            }
        } else {
            let mut names = dup_texts(&saved);
            names.push(c.name.clone());
            self.set_nonbinding_catch_vars(names);
        }
        let text = self.gen_stmts(&c.body, &inner, 0, String::new());
        let deletes = self.owned_deletes(&inner);
        self.pop_scope();
        self.set_nonbinding_catch_vars(saved);
        cat6(t, "} ", &header, " {\n", &text, &deletes)
    }

    fn gen_catches(&mut self, catches: &Vec<Catch>, t: &str, i: usize, out: String) -> (r: String)
        ensures
            final(self).pg() == old(self).pg(),
            final(self).room() == old(self).room(),
            (final(self).gv(), r@) == gen_catches_spec(old(self).pg(), old(self).room(), old(self).gv(), catchs_v(catches@), t@, (i as int), out@),
            settled(final(self).gv()) == settled(old(self).gv()),
        decreases old(self).room(), catches@, 1int, catches.len()-i,
    {
        let ghost i_0 = i;
        let ghost out_0 = out;
        let mut i: usize = i;
        let mut out: String = out;
        #[verifier::loop_isolation(false)]
        loop
            invariant
                self.pg() == old(self).pg(),
                self.room() == old(self).room(),
                gen_catches_spec(old(self).pg(), old(self).room(), old(self).gv(), catchs_v(catches@), t@, (i_0 as int), out_0@) == gen_catches_spec(self.pg(), self.room(), self.gv(), catchs_v(catches@), t@, (i as int), out@),
                settled(self.gv()) == settled(old(self).gv()),
            decreases catches.len()-i,
        {
            proof {
                reveal(gen_catches_spec);
                reveal(gen_catch_spec);
            }
            if i >= catches.len() {
                return out;
            }
            let text = self.gen_catch(&catches[i], t);
            out = cat2(&out, &text);
            i = i + 1;
        }
    }

    fn gen_if(&mut self, s: &Stmt, t: &str) -> (r: String)
        ensures
            final(self).pg() == old(self).pg(),
            final(self).room() == old(self).room(),
            (final(self).gv(), r@) == gen_if_spec(old(self).pg(), old(self).room(), old(self).gv(), s.v(), t@),
            settled(final(self).gv()) == settled(old(self).gv()),
        decreases old(self).room(), *s, 9int, 0int,
    {
        proof {
            reveal(gen_if_spec);
            reveal(gen_cond_spec);
            reveal(gen_block_spec);
        }
        match s.node() {
            Stmt::If { cond, then, els, line } => {
                self.set_current_line(*line);
                let (pre, c) = self.gen_cond(cond, t);
                let inner = cat2(t, "\t");
                let a = self.gen_block(then, &inner);
                let b = match els {
                    Some(e) => {
                        let text = self.gen_block(e, &inner);
                        cat3(t, "} else {\n", &text)
                    },
                    None => String::new(),
                };
                cat2(&cat8(&pre, t, "if (", &c, ") {\n", &a, &b, t), "}\n")
            },
            _ => String::new(),
        }
    }

    fn gen_while(&mut self, s: &Stmt, t: &str) -> (r: String)
        ensures
            final(self).pg() == old(self).pg(),
            final(self).room() == old(self).room(),
            (final(self).gv(), r@) == gen_while_spec(old(self).pg(), old(self).room(), old(self).gv(), s.v(), t@),
            settled(final(self).gv()) == settled(old(self).gv()),
        decreases old(self).room(), *s, 9int, 0int,
    {
        proof {
            reveal(gen_while_spec);
            reveal(gen_block_spec);
            reveal(gen_expr_spec);
            reveal(gen_cond_spec);
        }
        match s.node() {
            Stmt::While { cond, body, do_while, line } => {
                self.set_current_line(*line);
                let depth: usize = self.loop_depth();
                let saved = self.enter_loop();
                let inner = cat2(t, "\t");
                let text = if *do_while {
                    let b = self.gen_block(body, &inner);
                    let (c, _) = self.gen_expr(cond);
                    let pre = self.flush();
                    cat8(t, "do {\n", &b, &pre, t, "} while (", &c, ");\n")
                } else {
                    let (pre, c) = self.gen_cond(cond, t);
                    let b = self.gen_block(body, &inner);
                    cat8(&pre, t, "while (", &c, ") {\n", &b, t, "}\n")
                };
                self.exit_loop(saved, depth);
                text
            },
            _ => String::new(),
        }
    }

    fn gen_try(&mut self, s: &Stmt, t: &str) -> (r: String)
        ensures
            final(self).pg() == old(self).pg(),
            final(self).room() == old(self).room(),
            (final(self).gv(), r@) == gen_try_spec(old(self).pg(), old(self).room(), old(self).gv(), s.v(), t@),
            settled(final(self).gv()) == settled(old(self).gv()),
        decreases old(self).room(), *s, 9int, 0int,
    {
        proof {
            reveal(gen_try_spec);
            reveal(gen_block_spec);
            reveal(gen_catches_spec);
        }
        match s.node() {
            Stmt::Try { body, catches, line } => {
                self.set_current_line(*line);
                let b = self.gen_block(body, &cat2(t, "\t"));
                let c = self.gen_catches(catches, t, 0, String::new());
                cat6(t, "try {\n", &b, &c, t, "}\n")
            },
            _ => String::new(),
        }
    }

    /// A thrown string is a `std::string`, which a catch of a `String` catches.
    fn gen_throw(&mut self, e: &Expr, t: &str) -> (r: String)
        ensures
            final(self).pg() == old(self).pg(),
            final(self).room() == old(self).room(),
            (final(self).gv(), r@) == gen_throw_spec(old(self).pg(), old(self).room(), old(self).gv(), e.v(), t@),
            settled(final(self).gv()) == settled(old(self).gv()),
        decreases old(self).room(), *e, 30int, 0int,
    {
        proof {
            reveal(gen_throw_spec);
            reveal(gen_expr_spec);
        }
        let (code, ty) = self.gen_expr(e);
        let pre = self.flush();
        if same(&ty.base, "std::string") {
            cat5(&pre, t, "throw std::string(", &code, ");\n")
        } else {
            cat5(&pre, t, "throw ", &code, ";\n")
        }
    }

    /// The text of a statement.
    pub fn gen_stmt(&mut self, s: &Stmt, t: &str) -> (r: String)
        ensures
            final(self).pg() == old(self).pg(),
            final(self).room() == old(self).room(),
            (final(self).gv(), r@) == gen_stmt_spec(old(self).pg(), old(self).room(), old(self).gv(), s.v(), t@),
            settled(final(self).gv()) == settled(old(self).gv()),
        decreases old(self).room(), *s, 20int, 0int,
    {
        proof {
            reveal(gen_stmt_spec);
            reveal(gen_var_spec);
            reveal(gen_expr_stmt_spec);
            reveal(gen_return_spec);
            reveal(gen_if_spec);
            reveal(gen_while_spec);
            reveal(gen_for_spec);
            reveal(gen_switch_spec);
            reveal(gen_stmts_spec);
            reveal(gen_throw_spec);
            reveal(gen_try_spec);
        }
        self.set_prelude_t(t.to_owned());
        self.set_new_args_escape(false);
        match s.node() {
            Stmt::Var { name: _, ty: _, init: _, is_final: _, delete: _, sink: _, line: _ } => self.gen_var(s, t),
            Stmt::Expr(e, line) => {
                self.set_current_line(*line);
                self.gen_expr_stmt(e, t)
            },
            Stmt::Return(None, _) => cat3(&self.all_owned_deletes(t), t, "return;\n"),
            Stmt::Return(Some(e), line) => {
                self.set_current_line(*line);
                self.gen_return(e, t)
            },
            Stmt::If { cond: _, then: _, els: _, line: _ } => self.gen_if(s, t),
            Stmt::While { cond: _, body: _, do_while: _, line: _ } => self.gen_while(s, t),
            Stmt::For { var: _, value_var: _, iter: _, body: _, line: _ } => self.gen_for(s, t),
            Stmt::Switch { subject: _, cases: _, default: _, line: _ } => self.gen_switch(s, t),
            Stmt::Block(stmts) => {
                self.push_scope();
                let inner = cat2(t, "\t");
                let text = self.gen_stmts(stmts, &inner, 0, String::new());
                let deletes = self.owned_deletes(&inner);
                self.pop_scope();
                cat6(t, "{\n", &text, &deletes, t, "}\n")
            },
            Stmt::Break => match self.switch_break_flag() {
                Some(f) => cat5(t, f, " = true;\n", t, "break;\n"),
                None => cat2(t, "break;\n"),
            },
            Stmt::Continue => cat2(t, "continue;\n"),
            Stmt::Throw(e, line) => {
                self.set_current_line(*line);
                self.gen_throw(e, t)
            },
            Stmt::Verbatim { code, line } => {
                self.set_current_line(*line);
                cat2(&line_feeds(code), "\n")
            },
            Stmt::Try { body: _, catches: _, line: _ } => self.gen_try(s, t),
        }
    }
}

/// What [`line_feeds_from`] computes.
pub open spec fn line_feeds_from_spec(cs: Seq<char>, i: int, out: Seq<char>) -> Seq<char>
    decreases cs.len() - i,
{
    if !(0 <= i < cs.len()) { out } else {
        let out = if (cs[i]) != '\r' {
            let out = out.push(cs[i]);
            out
        } else if ((i + 1) >= (cs.len())) || ((cs[i + 1]) != '\n') {
            let out = out.push('\n');
            out
        } else { out };
        let i = i + 1;
        line_feeds_from_spec(cs, i, out)
    }
}

/// What [`line_feeds`] computes.
pub open spec fn line_feeds_spec(s: Seq<char>) -> Seq<char>
{
    let cs = s;
    line_feeds_from_spec(cs, 0int, Seq::empty())
}

/// What [`catches_all`] computes.
pub open spec fn catches_all_spec(c: CatchV) -> bool
{
    match c.ty {
        None => { true },
        Some(t) => {
            match t {
                TypeV::Named { path, params: _, optional: _, line: _ } => { last_is_spec(path, "Dynamic"@) || last_is_spec(path, "Any"@) },
                _ => { false },
            }
        },
    }
}

/// What [`BodyGen::catch_header`] computes.
#[verifier::opaque]
pub open spec fn catch_header_spec(p: Env, st: GenV, c: CatchV) -> (Seq<char>, bool)
{
    if catches_all_spec(c) { ("catch (...)"@, false) } else {
        match c.ty {
            Some(t) => {
                let q = ParamV { name: c.name, ty: Some(t), optional: false, default: None, rest: false, meta: Seq::empty() };
                ("catch ("@ + param_decl_spec(p.prog, st.mi, st.ns, q) + ")"@, true)
            },
            None => { ("catch (...)"@, false) },
        }
    }
}

/// What [`BodyGen::gen_stmts`] computes.
#[verifier::opaque]
pub open spec fn gen_stmts_spec(p: Env, room: int, st: GenV, stmts: Seq<StmtV>, t: Seq<char>, i: int, out: Seq<char>) -> (GenV, Seq<char>)
    decreases room, stmts, 1int, stmts.len()-i,
{
    if !(0 <= i < stmts.len()) { (st, out) } else {
        let (st, text) = gen_stmt_spec(p, room, st, stmts[i], t);
        let out = out + text;
        let i = i + 1;
        gen_stmts_spec(p, room, st, stmts, t, i, out)
    }
}

/// What [`BodyGen::gen_block_inner`] computes.
#[verifier::opaque]
pub open spec fn gen_block_inner_spec(p: Env, room: int, st: GenV, s: StmtV, t: Seq<char>) -> (GenV, Seq<char>)
    decreases room, s, 30int, 0int,
{
    match s {
        StmtV::Block(stmts) => { gen_stmts_spec(p, room, st, stmts, t, 0int, Seq::empty()) },
        _ => { gen_stmt_spec(p, room, st, s, t) },
    }
}

/// What [`BodyGen::gen_block`] computes.
#[verifier::opaque]
pub open spec fn gen_block_spec(p: Env, room: int, st: GenV, s: StmtV, t: Seq<char>) -> (GenV, Seq<char>)
    decreases room, s, 31int, 0int,
{
    let st = push_scope_spec(p, st);
    let (st, text) = gen_block_inner_spec(p, room, st, s, t);
    let deletes = owned_deletes_spec(p, st, t);
    let st = pop_scope_spec(p, st);
    (st, text + deletes)
}

/// What [`BodyGen::gen_catch`] computes.
#[verifier::opaque]
pub open spec fn gen_catch_spec(p: Env, room: int, st: GenV, c: CatchV, t: Seq<char>) -> (GenV, Seq<char>)
    decreases room, c, 5int, 0int,
{
    let (header, binds) = catch_header_spec(p, st, c);
    let inner = t + "\t"@;
    let saved = st.nonbinding_catch_vars;
    let st = push_scope_spec(p, st);
    let st = if binds {
        match c.ty {
            Some(ht) => {
                let st = name_local_spec(p, st, c.name, c.name);
                let st = define_local_spec(p, st, c.name, ty_of_spec(p, st, ht));
                st
            },
            None => { st },
        }
    } else {
        let names = saved;
        let names = names.push(c.name);
        let st = GenV { nonbinding_catch_vars: names, ..st };
        st
    };
    let (st, text) = gen_stmts_spec(p, room, st, c.body, inner, 0int, Seq::empty());
    let deletes = owned_deletes_spec(p, st, inner);
    let st = pop_scope_spec(p, st);
    let st = GenV { nonbinding_catch_vars: saved, ..st };
    (st, t + "} "@ + header + " {\n"@ + text + deletes)
}

/// What [`BodyGen::gen_catches`] computes.
#[verifier::opaque]
pub open spec fn gen_catches_spec(p: Env, room: int, st: GenV, catches: Seq<CatchV>, t: Seq<char>, i: int, out: Seq<char>) -> (GenV, Seq<char>)
    decreases room, catches, 1int, catches.len()-i,
{
    if !(0 <= i < catches.len()) { (st, out) } else {
        let (st, text) = gen_catch_spec(p, room, st, catches[i], t);
        let out = out + text;
        let i = i + 1;
        gen_catches_spec(p, room, st, catches, t, i, out)
    }
}

/// What [`BodyGen::gen_if`] computes.
#[verifier::opaque]
pub open spec fn gen_if_spec(p: Env, room: int, st: GenV, s: StmtV, t: Seq<char>) -> (GenV, Seq<char>)
    decreases room, s, 9int, 0int,
{
    match s {
        StmtV::If { cond, then, els, line } => {
            let st = GenV { current_line: line, ..st };
            let (st, (pre, c)) = gen_cond_spec(p, room, st, cond, t);
            let inner = t + "\t"@;
            let (st, a) = gen_block_spec(p, room, st, *then, inner);
            let (st, b) = match els {
                Some(e) => {
                    let (st, text) = gen_block_spec(p, room, st, *e, inner);
                    (st, t + "} else {\n"@ + text)
                },
                None => { (st, Seq::empty()) },
            };
            (st, pre + t + "if ("@ + c + ") {\n"@ + a + b + t + "}\n"@)
        },
        _ => { (st, Seq::empty()) },
    }
}

/// What [`BodyGen::gen_while`] computes.
#[verifier::opaque]
pub open spec fn gen_while_spec(p: Env, room: int, st: GenV, s: StmtV, t: Seq<char>) -> (GenV, Seq<char>)
    decreases room, s, 9int, 0int,
{
    match s {
        StmtV::While { cond, body, do_while, line } => {
            let st = GenV { current_line: line, ..st };
            let depth: int = st.loop_depth;
            let (st, saved) = enter_loop_spec(p, st);
            let inner = t + "\t"@;
            let (st, text) = if do_while {
                let (st, b) = gen_block_spec(p, room, st, *body, inner);
                let (st, (c, _)) = gen_expr_spec(p, room, st, cond);
                let (st, pre) = flush_spec(p, st);
                (st, t + "do {\n"@ + b + pre + t + "} while ("@ + c + ");\n"@)
            } else {
                let (st, (pre, c)) = gen_cond_spec(p, room, st, cond, t);
                let (st, b) = gen_block_spec(p, room, st, *body, inner);
                (st, pre + t + "while ("@ + c + ") {\n"@ + b + t + "}\n"@)
            };
            let st = exit_loop_spec(p, st, saved, depth);
            (st, text)
        },
        _ => { (st, Seq::empty()) },
    }
}

/// What [`BodyGen::gen_try`] computes.
#[verifier::opaque]
pub open spec fn gen_try_spec(p: Env, room: int, st: GenV, s: StmtV, t: Seq<char>) -> (GenV, Seq<char>)
    decreases room, s, 9int, 0int,
{
    match s {
        StmtV::Try { body, catches, line } => {
            let st = GenV { current_line: line, ..st };
            let (st, b) = gen_block_spec(p, room, st, *body, t + "\t"@);
            let (st, c) = gen_catches_spec(p, room, st, catches, t, 0int, Seq::empty());
            (st, t + "try {\n"@ + b + c + t + "}\n"@)
        },
        _ => { (st, Seq::empty()) },
    }
}

/// What [`BodyGen::gen_throw`] computes.
#[verifier::opaque]
pub open spec fn gen_throw_spec(p: Env, room: int, st: GenV, e: ExprV, t: Seq<char>) -> (GenV, Seq<char>)
    decreases room, e, 30int, 0int,
{
    let (st, (code, ty)) = gen_expr_spec(p, room, st, e);
    let (st, pre) = flush_spec(p, st);
    if (ty.base == "std::string"@) {
        (st, pre + t + "throw std::string("@ + code + ");\n"@)
    } else {
        (st, pre + t + "throw "@ + code + ";\n"@)
    }
}

/// What [`BodyGen::gen_stmt`] computes.
#[verifier::opaque]
pub open spec fn gen_stmt_spec(p: Env, room: int, st: GenV, s: StmtV, t: Seq<char>) -> (GenV, Seq<char>)
    decreases room, s, 20int, 0int,
{
    let st = GenV { prelude_t: t, ..st };
    let st = GenV { new_args_escape: false, ..st };
    match s {
        StmtV::Var { name: _, ty: _, init: _, is_final: _, delete: _, sink: _, line: _ } => { gen_var_spec(p, room, st, s, t) },
        StmtV::Expr(e, line) => {
            let st = GenV { current_line: line, ..st };
            gen_expr_stmt_spec(p, room, st, e, t)
        },
        StmtV::Return(None, _) => {
            (st, all_owned_deletes_spec(p, st, t) + t + "return;\n"@)
        },
        StmtV::Return(Some(e), line) => {
            let st = GenV { current_line: line, ..st };
            gen_return_spec(p, room, st, e, t)
        },
        StmtV::If { cond: _, then: _, els: _, line: _ } => { gen_if_spec(p, room, st, s, t) },
        StmtV::While { cond: _, body: _, do_while: _, line: _ } => { gen_while_spec(p, room, st, s, t) },
        StmtV::For { var: _, value_var: _, iter: _, body: _, line: _ } => { gen_for_spec(p, room, st, s, t) },
        StmtV::Switch { subject: _, cases: _, default: _, line: _ } => { gen_switch_spec(p, room, st, s, t) },
        StmtV::Block(stmts) => {
            let st = push_scope_spec(p, st);
            let inner = t + "\t"@;
            let (st, text) = gen_stmts_spec(p, room, st, stmts, inner, 0int, Seq::empty());
            let deletes = owned_deletes_spec(p, st, inner);
            let st = pop_scope_spec(p, st);
            (st, t + "{\n"@ + text + deletes + t + "}\n"@)
        },
        StmtV::Break => {
            match st.switch_break_flag {
                Some(f) => {
                    (st, t + f + " = true;\n"@ + t + "break;\n"@)
                },
                None => {
                    (st, t + "break;\n"@)
                },
            }
        },
        StmtV::Continue => {
            (st, t + "continue;\n"@)
        },
        StmtV::Throw(e, line) => {
            let st = GenV { current_line: line, ..st };
            gen_throw_spec(p, room, st, e, t)
        },
        StmtV::Verbatim { code, line } => {
            let st = GenV { current_line: line, ..st };
            (st, line_feeds_spec(code) + "\n"@)
        },
        StmtV::Try { body: _, catches: _, line: _ } => { gen_try_spec(p, room, st, s, t) },
    }
}

} // verus!
