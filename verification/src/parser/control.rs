//! Control flow: conditionals, loops, `try` and `return`.

use vstd::prelude::*;

use crate::ast::{Catch, Expr, Stmt};
use crate::model::{CatchV, ExprV, StmtV, catchs_v};
use crate::parser::block::{parse_block_spec, parse_branch_expr_spec};
use crate::parser::comprehension::parse_loop_head_spec;
use crate::parser::cursor::{Ctx, PResult, Parser, Pr, St, at_sym_spec, eat_kw_spec, eat_sym_spec, expect_ident_spec, expect_sym_kw_spec, expect_sym_spec, line_spec, stay, step};
use crate::parser::expr::parse_expr_spec;
use crate::parser::stmt::parse_stmt_spec;
use crate::parser::vars::parse_opt_type_spec;
use crate::token::{Kw, Sym};

verus! {

broadcast use {crate::model::group_model, crate::token::group_token, crate::text::group_texts};

impl Parser {
    /// `while (c) body`.
    pub fn parse_while(&mut self, line: usize) -> (r: PResult<Stmt>)
        requires
            old(self).wf(),
        ensures
            final(self).wf(),
            final(self).cx() == old(self).cx(),
            parse_while_spec(old(self).cx(), old(self).st(), (line as int)) == (match r { Ok(x) => Pr::Done(x.v(), final(self).st()), Err(e) => Pr::Fail(e.v()) }),
            final(self).st().pos >= old(self).st().pos,
            r is Ok ==> final(self).st().pos > old(self).st().pos,
        decreases old(self).left(), 30int,
    {
        proof {
            reveal(parse_while_spec);
            reveal(parse_expr_spec);
            reveal(parse_stmt_spec);
        }
        self.expect_sym_kw(Kw::While)?;
        self.expect_sym(Sym::LParen)?;
        let cond = self.parse_expr()?;
        self.expect_sym(Sym::RParen)?;
        let body = self.parse_stmt()?;
        Ok(Stmt::While { cond, body: Box::new(body), do_while: false, line })
    }

    /// `do body while (c)`.
    pub fn parse_do(&mut self, line: usize) -> (r: PResult<Stmt>)
        requires
            old(self).wf(),
        ensures
            final(self).wf(),
            final(self).cx() == old(self).cx(),
            parse_do_spec(old(self).cx(), old(self).st(), (line as int)) == (match r { Ok(x) => Pr::Done(x.v(), final(self).st()), Err(e) => Pr::Fail(e.v()) }),
            final(self).st().pos >= old(self).st().pos,
            r is Ok ==> final(self).st().pos > old(self).st().pos,
        decreases old(self).left(), 30int,
    {
        proof {
            reveal(parse_do_spec);
            reveal(parse_stmt_spec);
            reveal(parse_expr_spec);
        }
        self.expect_sym_kw(Kw::Do)?;
        let body = self.parse_stmt()?;
        self.expect_sym_kw(Kw::While)?;
        self.expect_sym(Sym::LParen)?;
        let cond = self.parse_expr()?;
        self.expect_sym(Sym::RParen)?;
        self.eat_sym(Sym::Semi);
        Ok(Stmt::While { cond, body: Box::new(body), do_while: true, line })
    }

    /// `return`.
    pub fn parse_return(&mut self, line: usize) -> (r: PResult<Stmt>)
        requires
            old(self).wf(),
        ensures
            final(self).wf(),
            final(self).cx() == old(self).cx(),
            parse_return_spec(old(self).cx(), old(self).st(), (line as int)) == (match r { Ok(x) => Pr::Done(x.v(), final(self).st()), Err(e) => Pr::Fail(e.v()) }),
            final(self).st().pos >= old(self).st().pos,
            r is Ok ==> final(self).st().pos > old(self).st().pos,
            r is Ok ==> final(self).st().extra == old(self).st().extra,
        decreases old(self).left(), 30int,
    {
        proof {
            reveal(parse_return_spec);
            reveal(parse_expr_spec);
        }
        self.expect_sym_kw(Kw::Return)?;
        if self.at_sym(Sym::Semi) || self.at_sym(Sym::RBrace) {
            self.eat_sym(Sym::Semi);
            return Ok(Stmt::Return(None, line));
        }
        let e = self.parse_expr()?;
        self.eat_sym(Sym::Semi);
        Ok(Stmt::Return(Some(e), line))
    }

    /// `if (c) a else b`.
    pub fn parse_if(&mut self) -> (r: PResult<Stmt>)
        requires
            old(self).wf(),
        ensures
            final(self).wf(),
            final(self).cx() == old(self).cx(),
            parse_if_spec(old(self).cx(), old(self).st()) == (match r { Ok(x) => Pr::Done(x.v(), final(self).st()), Err(e) => Pr::Fail(e.v()) }),
            final(self).st().pos >= old(self).st().pos,
            r is Ok ==> final(self).st().pos > old(self).st().pos,
        decreases old(self).left(), 30int,
    {
        proof {
            reveal(parse_if_spec);
            reveal(parse_expr_spec);
            reveal(parse_stmt_spec);
        }
        let line: usize = self.line();
        self.expect_sym_kw(Kw::If)?;
        self.expect_sym(Sym::LParen)?;
        let cond = self.parse_expr()?;
        self.expect_sym(Sym::RParen)?;
        let then = self.parse_stmt()?;
        self.eat_sym(Sym::Semi);
        if self.eat_kw(Kw::Else) {
            let els = self.parse_stmt()?;
            Ok(Stmt::If { cond, then: Box::new(then), els: Some(Box::new(els)), line })
        } else {
            Ok(Stmt::If { cond, then: Box::new(then), els: None, line })
        }
    }

    /// An `if`/`else` in expression position. Each branch is a block, a nested `if`, or a
    /// plain value expression.
    pub fn parse_if_expr(&mut self) -> (r: PResult<Expr>)
        requires
            old(self).wf(),
        ensures
            final(self).wf(),
            final(self).cx() == old(self).cx(),
            parse_if_expr_spec(old(self).cx(), old(self).st()) == (match r { Ok(x) => Pr::Done(x.v(), final(self).st()), Err(e) => Pr::Fail(e.v()) }),
            final(self).st().pos >= old(self).st().pos,
            r is Ok ==> final(self).st().pos > old(self).st().pos,
            r is Ok ==> final(self).st().extra == old(self).st().extra,
            r matches Ok(e) ==> !(e.v() is Binary),
        decreases old(self).left(), 21int,
    {
        proof {
            reveal(parse_if_expr_spec);
            reveal(parse_expr_spec);
            reveal(parse_branch_expr_spec);
        }
        self.expect_sym_kw(Kw::If)?;
        self.expect_sym(Sym::LParen)?;
        let cond = self.parse_expr()?;
        self.expect_sym(Sym::RParen)?;
        let then = self.parse_branch_expr()?;
        self.eat_sym(Sym::Semi);
        if self.eat_kw(Kw::Else) {
            let els = self.parse_branch_expr()?;
            Ok(Expr::If { cond: Box::new(cond), then: Box::new(then), els: Some(Box::new(els)) })
        } else {
            Ok(Expr::If { cond: Box::new(cond), then: Box::new(then), els: None })
        }
    }

    /// `try <stmt> (catch (name[:Type]) <block>)*`.
    pub fn parse_try(&mut self, line: usize) -> (r: PResult<Stmt>)
        requires
            old(self).wf(),
        ensures
            final(self).wf(),
            final(self).cx() == old(self).cx(),
            parse_try_spec(old(self).cx(), old(self).st(), (line as int)) == (match r { Ok(x) => Pr::Done(x.v(), final(self).st()), Err(e) => Pr::Fail(e.v()) }),
            final(self).st().pos >= old(self).st().pos,
            r is Ok ==> final(self).st().pos > old(self).st().pos,
        decreases old(self).left(), 30int,
    {
        proof {
            reveal(parse_try_spec);
            reveal(parse_stmt_spec);
            reveal(parse_catches_spec);
        }
        self.expect_sym_kw(Kw::Try)?;
        let body = self.parse_stmt()?;
        let catches = self.parse_catches(Vec::new())?;
        Ok(Stmt::Try { body: Box::new(body), catches, line })
    }

    /// The catches of a `try`.
    pub fn parse_catches(&mut self, catches: Vec<Catch>) -> (r: PResult<Vec<Catch>>)
        requires
            old(self).wf(),
        ensures
            final(self).wf(),
            final(self).cx() == old(self).cx(),
            parse_catches_spec(old(self).cx(), old(self).st(), catchs_v(catches@)) == (match r { Ok(x) => Pr::Done(catchs_v(x@), final(self).st()), Err(e) => Pr::Fail(e.v()) }),
            final(self).st().pos >= old(self).st().pos,
            r is Ok ==> final(self).st().extra == old(self).st().extra,
        decreases old(self).left(), 30int,
    {
        let ghost catches_0 = catches;
        let mut catches: Vec<Catch> = catches;
        #[verifier::loop_isolation(false)]
        loop
            invariant
                self.wf(),
                self.cx() == old(self).cx(),
                self.st().pos >= old(self).st().pos,
                parse_catches_spec(old(self).cx(), old(self).st(), catchs_v(catches_0@)) == parse_catches_spec(self.cx(), self.st(), catchs_v(catches@)),
                self.st().extra == old(self).st().extra,
            decreases self.left(),
        {
            proof {
                reveal(parse_catches_spec);
                reveal(parse_opt_type_spec);
                reveal(parse_block_spec);
            }
            if !self.eat_kw(Kw::Catch) {
                return Ok(catches);
            }
            self.expect_sym(Sym::LParen)?;
            let name = self.expect_ident()?;
            // The exception type is optional (`catch (e)`).
            let ty = self.parse_opt_type()?;
            self.expect_sym(Sym::RParen)?;
            let body = self.parse_block()?;
            catches.push(Catch { name, ty, body });
        }
    }

    /// `for (x in y) body`.
    pub fn parse_for(&mut self) -> (r: PResult<Stmt>)
        requires
            old(self).wf(),
        ensures
            final(self).wf(),
            final(self).cx() == old(self).cx(),
            parse_for_spec(old(self).cx(), old(self).st()) == (match r { Ok(x) => Pr::Done(x.v(), final(self).st()), Err(e) => Pr::Fail(e.v()) }),
            final(self).st().pos >= old(self).st().pos,
            r is Ok ==> final(self).st().pos > old(self).st().pos,
        decreases old(self).left(), 30int,
    {
        proof {
            reveal(parse_for_spec);
            reveal(parse_loop_head_spec);
            reveal(parse_stmt_spec);
        }
        let line: usize = self.line();
        self.expect_sym_kw(Kw::For)?;
        let (var, value_var, iter) = self.parse_loop_head()?;
        let body = self.parse_stmt()?;
        Ok(Stmt::For { var, value_var, iter, body: Box::new(body), line })
    }
}

/// What [`Parser::parse_while`] computes.
#[verifier::opaque]
pub open spec fn parse_while_spec(c: Ctx, st: St, line: int) -> Pr<StmtV>
    decreases c.toks.len() - st.pos, 30int,
{
    match expect_sym_kw_spec(c, st, Kw::While) {
        Pr::Fail(e) => Pr::Fail(e),
        Pr::Done(_, st) => {
            match expect_sym_spec(c, st, Sym::LParen) {
                Pr::Fail(e) => Pr::Fail(e),
                Pr::Done(_, st) => {
                    match step(c, st, parse_expr_spec(c, st)) {
                        Pr::Fail(e) => Pr::Fail(e),
                        Pr::Done(cond, st) => {
                            match expect_sym_spec(c, st, Sym::RParen) {
                                Pr::Fail(e) => Pr::Fail(e),
                                Pr::Done(_, st) => {
                                    match step(c, st, parse_stmt_spec(c, st)) {
                                        Pr::Fail(e) => Pr::Fail(e),
                                        Pr::Done(body, st) => { Pr::Done(StmtV::While { cond, body: Box::new(body), do_while: false, line }, st) },
                                    }
                                },
                            }
                        },
                    }
                },
            }
        },
    }
}

/// What [`Parser::parse_do`] computes.
#[verifier::opaque]
pub open spec fn parse_do_spec(c: Ctx, st: St, line: int) -> Pr<StmtV>
    decreases c.toks.len() - st.pos, 30int,
{
    match expect_sym_kw_spec(c, st, Kw::Do) {
        Pr::Fail(e) => Pr::Fail(e),
        Pr::Done(_, st) => {
            match step(c, st, parse_stmt_spec(c, st)) {
                Pr::Fail(e) => Pr::Fail(e),
                Pr::Done(body, st) => {
                    match expect_sym_kw_spec(c, st, Kw::While) {
                        Pr::Fail(e) => Pr::Fail(e),
                        Pr::Done(_, st) => {
                            match expect_sym_spec(c, st, Sym::LParen) {
                                Pr::Fail(e) => Pr::Fail(e),
                                Pr::Done(_, st) => {
                                    match step(c, st, parse_expr_spec(c, st)) {
                                        Pr::Fail(e) => Pr::Fail(e),
                                        Pr::Done(cond, st) => {
                                            match expect_sym_spec(c, st, Sym::RParen) {
                                                Pr::Fail(e) => Pr::Fail(e),
                                                Pr::Done(_, st) => {
                                                    let (st, _) = eat_sym_spec(c, st, Sym::Semi);
                                                    Pr::Done(StmtV::While { cond, body: Box::new(body), do_while: true, line }, st)
                                                },
                                            }
                                        },
                                    }
                                },
                            }
                        },
                    }
                },
            }
        },
    }
}

/// What [`Parser::parse_return`] computes.
#[verifier::opaque]
pub open spec fn parse_return_spec(c: Ctx, st: St, line: int) -> Pr<StmtV>
    decreases c.toks.len() - st.pos, 30int,
{
    match expect_sym_kw_spec(c, st, Kw::Return) {
        Pr::Fail(e) => Pr::Fail(e),
        Pr::Done(_, st) => {
            if at_sym_spec(c, st, Sym::Semi) || at_sym_spec(c, st, Sym::RBrace) {
                let (st, _) = eat_sym_spec(c, st, Sym::Semi);
                Pr::Done(StmtV::Return(None, line), st)
            } else {
                match step(c, st, parse_expr_spec(c, st)) {
                    Pr::Fail(e) => Pr::Fail(e),
                    Pr::Done(e, st) => {
                        let (st, _) = eat_sym_spec(c, st, Sym::Semi);
                        Pr::Done(StmtV::Return(Some(e), line), st)
                    },
                }
            }
        },
    }
}

/// What [`Parser::parse_if`] computes.
#[verifier::opaque]
pub open spec fn parse_if_spec(c: Ctx, st: St) -> Pr<StmtV>
    decreases c.toks.len() - st.pos, 30int,
{
    let line: int = line_spec(c, st);
    match expect_sym_kw_spec(c, st, Kw::If) {
        Pr::Fail(e) => Pr::Fail(e),
        Pr::Done(_, st) => {
            match expect_sym_spec(c, st, Sym::LParen) {
                Pr::Fail(e) => Pr::Fail(e),
                Pr::Done(_, st) => {
                    match step(c, st, parse_expr_spec(c, st)) {
                        Pr::Fail(e) => Pr::Fail(e),
                        Pr::Done(cond, st) => {
                            match expect_sym_spec(c, st, Sym::RParen) {
                                Pr::Fail(e) => Pr::Fail(e),
                                Pr::Done(_, st) => {
                                    match step(c, st, parse_stmt_spec(c, st)) {
                                        Pr::Fail(e) => Pr::Fail(e),
                                        Pr::Done(then, st) => {
                                            let (st, _) = eat_sym_spec(c, st, Sym::Semi);
                                            let (st, x1) = eat_kw_spec(c, st, Kw::Else);
                                            if x1 {
                                                match step(c, st, parse_stmt_spec(c, st)) {
                                                    Pr::Fail(e) => Pr::Fail(e),
                                                    Pr::Done(els, st) => { Pr::Done(StmtV::If { cond, then: Box::new(then), els: Some(Box::new(els)), line }, st) },
                                                }
                                            } else { Pr::Done(StmtV::If { cond, then: Box::new(then), els: None, line }, st) }
                                        },
                                    }
                                },
                            }
                        },
                    }
                },
            }
        },
    }
}

/// What [`Parser::parse_if_expr`] computes.
#[verifier::opaque]
pub open spec fn parse_if_expr_spec(c: Ctx, st: St) -> Pr<ExprV>
    decreases c.toks.len() - st.pos, 21int,
{
    match expect_sym_kw_spec(c, st, Kw::If) {
        Pr::Fail(e) => Pr::Fail(e),
        Pr::Done(_, st) => {
            match expect_sym_spec(c, st, Sym::LParen) {
                Pr::Fail(e) => Pr::Fail(e),
                Pr::Done(_, st) => {
                    match step(c, st, parse_expr_spec(c, st)) {
                        Pr::Fail(e) => Pr::Fail(e),
                        Pr::Done(cond, st) => {
                            match expect_sym_spec(c, st, Sym::RParen) {
                                Pr::Fail(e) => Pr::Fail(e),
                                Pr::Done(_, st) => {
                                    match step(c, st, parse_branch_expr_spec(c, st)) {
                                        Pr::Fail(e) => Pr::Fail(e),
                                        Pr::Done(then, st) => {
                                            let (st, _) = eat_sym_spec(c, st, Sym::Semi);
                                            let (st, x1) = eat_kw_spec(c, st, Kw::Else);
                                            if x1 {
                                                match step(c, st, parse_branch_expr_spec(c, st)) {
                                                    Pr::Fail(e) => Pr::Fail(e),
                                                    Pr::Done(els, st) => { Pr::Done(ExprV::If { cond: Box::new(cond), then: Box::new(then), els: Some(Box::new(els)) }, st) },
                                                }
                                            } else { Pr::Done(ExprV::If { cond: Box::new(cond), then: Box::new(then), els: None }, st) }
                                        },
                                    }
                                },
                            }
                        },
                    }
                },
            }
        },
    }
}

/// What [`Parser::parse_try`] computes.
#[verifier::opaque]
pub open spec fn parse_try_spec(c: Ctx, st: St, line: int) -> Pr<StmtV>
    decreases c.toks.len() - st.pos, 30int,
{
    match expect_sym_kw_spec(c, st, Kw::Try) {
        Pr::Fail(e) => Pr::Fail(e),
        Pr::Done(_, st) => {
            match step(c, st, parse_stmt_spec(c, st)) {
                Pr::Fail(e) => Pr::Fail(e),
                Pr::Done(body, st) => {
                    match stay(c, st, parse_catches_spec(c, st, Seq::empty())) {
                        Pr::Fail(e) => Pr::Fail(e),
                        Pr::Done(catches, st) => { Pr::Done(StmtV::Try { body: Box::new(body), catches, line }, st) },
                    }
                },
            }
        },
    }
}

/// What [`Parser::parse_catches`] computes.
#[verifier::opaque]
pub open spec fn parse_catches_spec(c: Ctx, st: St, catches: Seq<CatchV>) -> Pr<Seq<CatchV>>
    decreases c.toks.len() - st.pos, 30int,
{
    let (st, x1) = eat_kw_spec(c, st, Kw::Catch);
    if !x1 { Pr::Done(catches, st) } else {
        match expect_sym_spec(c, st, Sym::LParen) {
            Pr::Fail(e) => Pr::Fail(e),
            Pr::Done(_, st) => {
                match expect_ident_spec(c, st) {
                    Pr::Fail(e) => Pr::Fail(e),
                    Pr::Done(name, st) => {
                        match stay(c, st, parse_opt_type_spec(c, st)) {
                            Pr::Fail(e) => Pr::Fail(e),
                            Pr::Done(ty, st) => {
                                match expect_sym_spec(c, st, Sym::RParen) {
                                    Pr::Fail(e) => Pr::Fail(e),
                                    Pr::Done(_, st) => {
                                        match step(c, st, parse_block_spec(c, st)) {
                                            Pr::Fail(e) => Pr::Fail(e),
                                            Pr::Done(body, st) => {
                                                let catches = catches.push(CatchV { name, ty, body });
                                                parse_catches_spec(c, st, catches)
                                            },
                                        }
                                    },
                                }
                            },
                        }
                    },
                }
            },
        }
    }
}

/// What [`Parser::parse_for`] computes.
#[verifier::opaque]
pub open spec fn parse_for_spec(c: Ctx, st: St) -> Pr<StmtV>
    decreases c.toks.len() - st.pos, 30int,
{
    let line: int = line_spec(c, st);
    match expect_sym_kw_spec(c, st, Kw::For) {
        Pr::Fail(e) => Pr::Fail(e),
        Pr::Done(_, st) => {
            match step(c, st, parse_loop_head_spec(c, st)) {
                Pr::Fail(e) => Pr::Fail(e),
                Pr::Done((var, value_var, iter), st) => {
                    match step(c, st, parse_stmt_spec(c, st)) {
                        Pr::Fail(e) => Pr::Fail(e),
                        Pr::Done(body, st) => { Pr::Done(StmtV::For { var, value_var, iter, body: Box::new(body), line }, st) },
                    }
                },
            }
        },
    }
}

} // verus!
