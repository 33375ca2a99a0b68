//! Statement lists: blocks, the bodies of switch cases, and the branches of a value `if`.

use vstd::prelude::*;

use crate::ast::{Expr, Stmt};
use crate::model::{ExprV, StmtV, stmts_v};
use crate::parser::control::parse_if_expr_spec;
use crate::parser::cursor::{Ctx, PResult, Parser, Pr, St, at_eof_spec, at_kw_spec, at_sym_spec, eat_sym_spec, expect_sym_spec, put_back_spec, set_aside_spec, stay, step, take_extra_spec};
use crate::parser::expr::parse_expr_spec;
use crate::parser::stmt::parse_stmt_spec;
use crate::token::{Kw, Sym};

verus! {

broadcast use {crate::model::group_model, crate::token::group_token, crate::text::group_texts};

/// A statement list, a single block in it unwrapped.
pub open spec fn only_block_spec(body: Seq<StmtV>) -> Seq<StmtV> {
    if body.len() == 1 {
        match body[0] {
            StmtV::Block(inner) => inner,
            _ => body,
        }
    } else {
        body
    }
}

/// The statements of a list, or those of the block that is all it holds.
pub fn only_block(body: Vec<Stmt>) -> (r: Vec<Stmt>)
    ensures
        stmts_v(r@) == only_block_spec(stmts_v(body@)),
{
    let mut body = body;
    let ghost all = stmts_v(body@);
    if body.len() != 1 {
        return body;
    }
    let ghost first = body@[0];
    assert(all.len() == 1 && all[0] == first.v());
    match body.pop() {
        Some(Stmt::Block(inner)) => {
            assert(first == Stmt::Block(inner));
            inner
        },
        Some(s) => {
            assert(!(s.v() is Block)) by {
                reveal(Stmt::v);
            }
            body.push(s);
            assert(stmts_v(body@) =~= all);
            body
        },
        None => body,
    }
}

impl Parser {
    /// The statements between braces. Declarators that wait for a list around this one go on
    /// waiting.
    pub fn parse_block(&mut self) -> (r: PResult<Vec<Stmt>>)
        requires
            old(self).wf(),
        ensures
            final(self).wf(),
            final(self).cx() == old(self).cx(),
            parse_block_spec(old(self).cx(), old(self).st()) == (match r { Ok(x) => Pr::Done(stmts_v(x@), final(self).st()), Err(e) => Pr::Fail(e.v()) }),
            final(self).st().pos >= old(self).st().pos,
            r is Ok ==> final(self).st().pos > old(self).st().pos,
            r is Ok ==> final(self).st().extra == old(self).st().extra,
        decreases old(self).left(), 20int,
    {
        proof {
            reveal(parse_block_spec);
            reveal(parse_block_items_spec);
        }
        self.expect_sym(Sym::LBrace)?;
        let waiting = self.set_aside();
        let stmts = self.parse_block_items(Vec::new())?;
        self.put_back(waiting);
        self.expect_sym(Sym::RBrace)?;
        Ok(stmts)
    }

    /// The statements up to the closing brace.
    pub fn parse_block_items(&mut self, stmts: Vec<Stmt>) -> (r: PResult<Vec<Stmt>>)
        requires
            old(self).wf(),
        ensures
            final(self).wf(),
            final(self).cx() == old(self).cx(),
            parse_block_items_spec(old(self).cx(), old(self).st(), stmts_v(stmts@)) == (match r { Ok(x) => Pr::Done(stmts_v(x@), final(self).st()), Err(e) => Pr::Fail(e.v()) }),
            final(self).st().pos >= old(self).st().pos,
        decreases old(self).left(), 61int,
    {
        let ghost stmts_0 = stmts;
        let mut stmts: Vec<Stmt> = stmts;
        #[verifier::loop_isolation(false)]
        loop
            invariant
                self.wf(),
                self.cx() == old(self).cx(),
                self.st().pos >= old(self).st().pos,
                parse_block_items_spec(old(self).cx(), old(self).st(), stmts_v(stmts_0@)) == parse_block_items_spec(self.cx(), self.st(), stmts_v(stmts@)),
            decreases self.left(),
        {
            proof {
                reveal(parse_block_items_spec);
                reveal(parse_stmt_spec);
            }
            if self.at_sym(Sym::RBrace) || self.at_eof() {
                return Ok(stmts);
            }
            if !self.eat_sym(Sym::Semi) {
                let s = self.parse_stmt()?;
                stmts.push(s);
                stmts = self.take_extra(stmts);
            }
        }
    }

    /// Case bodies run until the next `case`/`default`/`}`. A single brace-block body is
    /// unwrapped into its statements.
    pub fn parse_case_body(&mut self) -> (r: PResult<Vec<Stmt>>)
        requires
            old(self).wf(),
        ensures
            final(self).wf(),
            final(self).cx() == old(self).cx(),
            parse_case_body_spec(old(self).cx(), old(self).st()) == (match r { Ok(x) => Pr::Done(stmts_v(x@), final(self).st()), Err(e) => Pr::Fail(e.v()) }),
            final(self).st().pos >= old(self).st().pos,
            r is Ok ==> final(self).st().extra == old(self).st().extra,
        decreases old(self).left(), 62int,
    {
        proof {
            reveal(parse_case_body_spec);
            reveal(parse_case_items_spec);
        }
        let waiting = self.set_aside();
        let body = self.parse_case_items(Vec::new())?;
        self.put_back(waiting);
        Ok(only_block(body))
    }

    /// The statements up to the next case.
    pub fn parse_case_items(&mut self, body: Vec<Stmt>) -> (r: PResult<Vec<Stmt>>)
        requires
            old(self).wf(),
        ensures
            final(self).wf(),
            final(self).cx() == old(self).cx(),
            parse_case_items_spec(old(self).cx(), old(self).st(), stmts_v(body@)) == (match r { Ok(x) => Pr::Done(stmts_v(x@), final(self).st()), Err(e) => Pr::Fail(e.v()) }),
            final(self).st().pos >= old(self).st().pos,
        decreases old(self).left(), 61int,
    {
        let ghost body_0 = body;
        let mut body: Vec<Stmt> = body;
        #[verifier::loop_isolation(false)]
        loop
            invariant
                self.wf(),
                self.cx() == old(self).cx(),
                self.st().pos >= old(self).st().pos,
                parse_case_items_spec(old(self).cx(), old(self).st(), stmts_v(body_0@)) == parse_case_items_spec(self.cx(), self.st(), stmts_v(body@)),
            decreases self.left(),
        {
            proof {
                reveal(parse_case_items_spec);
                reveal(parse_stmt_spec);
            }
            if self.at_kw(Kw::Case) || self.at_kw(Kw::Default) || self.at_sym(Sym::RBrace) || self.at_eof() {
                return Ok(body);
            }
            if !self.eat_sym(Sym::Semi) {
                let s = self.parse_stmt()?;
                body.push(s);
                body = self.take_extra(body);
            }
        }
    }

    /// A single branch of a value `if`: a `{ … }` block, a chained `else if`, or a plain
    /// value expression.
    pub fn parse_branch_expr(&mut self) -> (r: PResult<Expr>)
        requires
            old(self).wf(),
        ensures
            final(self).wf(),
            final(self).cx() == old(self).cx(),
            parse_branch_expr_spec(old(self).cx(), old(self).st()) == (match r { Ok(x) => Pr::Done(x.v(), final(self).st()), Err(e) => Pr::Fail(e.v()) }),
            final(self).st().pos >= old(self).st().pos,
            r is Ok ==> final(self).st().pos > old(self).st().pos,
            r is Ok ==> final(self).st().extra == old(self).st().extra,
        decreases old(self).left(), 51int,
    {
        proof {
            reveal(parse_branch_expr_spec);
            reveal(parse_block_spec);
            reveal(parse_if_expr_spec);
            reveal(parse_expr_spec);
        }
        if self.at_sym(Sym::LBrace) {
            let b = self.parse_block()?;
            Ok(Expr::Block(b))
        } else if self.at_kw(Kw::If) {
            self.parse_if_expr()
        } else {
            self.parse_expr()
        }
    }
}

/// What [`Parser::parse_block`] computes.
#[verifier::opaque]
pub open spec fn parse_block_spec(c: Ctx, st: St) -> Pr<Seq<StmtV>>
    decreases c.toks.len() - st.pos, 20int,
{
    match expect_sym_spec(c, st, Sym::LBrace) {
        Pr::Fail(e) => Pr::Fail(e),
        Pr::Done(_, st) => {
            let (st, waiting) = set_aside_spec(c, st);
            match stay(c, st, parse_block_items_spec(c, st, Seq::empty())) {
                Pr::Fail(e) => Pr::Fail(e),
                Pr::Done(stmts, st) => {
                    let st = put_back_spec(c, st, waiting);
                    match expect_sym_spec(c, st, Sym::RBrace) {
                        Pr::Fail(e) => Pr::Fail(e),
                        Pr::Done(_, st) => { Pr::Done(stmts, st) },
                    }
                },
            }
        },
    }
}

/// What [`Parser::parse_block_items`] computes.
#[verifier::opaque]
pub open spec fn parse_block_items_spec(c: Ctx, st: St, stmts: Seq<StmtV>) -> Pr<Seq<StmtV>>
    decreases c.toks.len() - st.pos, 61int,
{
    if at_sym_spec(c, st, Sym::RBrace) || at_eof_spec(c, st) { Pr::Done(stmts, st) } else {
        let (st, x1) = eat_sym_spec(c, st, Sym::Semi);
        if !x1 {
            match step(c, st, parse_stmt_spec(c, st)) {
                Pr::Fail(e) => Pr::Fail(e),
                Pr::Done(s, st) => {
                    let stmts = stmts.push(s);
                    let (st, x2) = take_extra_spec(c, st, stmts);
                    let stmts = x2;
                    parse_block_items_spec(c, st, stmts)
                },
            }
        } else { parse_block_items_spec(c, st, stmts) }
    }
}

/// What [`Parser::parse_case_body`] computes.
#[verifier::opaque]
pub open spec fn parse_case_body_spec(c: Ctx, st: St) -> Pr<Seq<StmtV>>
    decreases c.toks.len() - st.pos, 62int,
{
    let (st, waiting) = set_aside_spec(c, st);
    match stay(c, st, parse_case_items_spec(c, st, Seq::empty())) {
        Pr::Fail(e) => Pr::Fail(e),
        Pr::Done(body, st) => {
            let st = put_back_spec(c, st, waiting);
            Pr::Done(only_block_spec(body), st)
        },
    }
}

/// What [`Parser::parse_case_items`] computes.
#[verifier::opaque]
pub open spec fn parse_case_items_spec(c: Ctx, st: St, body: Seq<StmtV>) -> Pr<Seq<StmtV>>
    decreases c.toks.len() - st.pos, 61int,
{
    if at_kw_spec(c, st, Kw::Case) || at_kw_spec(c, st, Kw::Default) || at_sym_spec(c, st, Sym::RBrace) || at_eof_spec(c, st) { Pr::Done(body, st) } else {
        let (st, x1) = eat_sym_spec(c, st, Sym::Semi);
        if !x1 {
            match step(c, st, parse_stmt_spec(c, st)) {
                Pr::Fail(e) => Pr::Fail(e),
                Pr::Done(s, st) => {
                    let body = body.push(s);
                    let (st, x2) = take_extra_spec(c, st, body);
                    let body = x2;
                    parse_case_items_spec(c, st, body)
                },
            }
        } else { parse_case_items_spec(c, st, body) }
    }
}

/// What [`Parser::parse_branch_expr`] computes.
#[verifier::opaque]
pub open spec fn parse_branch_expr_spec(c: Ctx, st: St) -> Pr<ExprV>
    decreases c.toks.len() - st.pos, 51int,
{
    if at_sym_spec(c, st, Sym::LBrace) {
        match step(c, st, parse_block_spec(c, st)) {
            Pr::Fail(e) => Pr::Fail(e),
            Pr::Done(b, st) => { Pr::Done(ExprV::Block(b), st) },
        }
    } else if at_kw_spec(c, st, Kw::If) { parse_if_expr_spec(c, st) } else { parse_expr_spec(c, st) }
}

} // verus!
