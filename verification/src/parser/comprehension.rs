//! Loop heads and the comprehensions built with them.

use vstd::prelude::*;

use crate::ast::{ComprBody, Expr, Iterable};
use crate::model::{ComprBodyV, ExprV, IterableV};
use crate::parser::control::parse_if_expr_spec;
use crate::parser::cursor::{Ctx, PResult, Parser, Pr, St, at_kw_spec, eat_sym_spec, expect_ident_spec, expect_sym_kw_spec, expect_sym_spec, step};
use crate::parser::expr::parse_expr_spec;
use crate::token::{Kw, Sym};

verus! {

broadcast use {crate::model::group_model, crate::token::group_token, crate::text::group_texts};

/// The condition and the value of a filtering `if` (one without `else`); anything else
/// is the value itself.
pub fn split_filter(e: Expr) -> (r: (Option<Box<Expr>>, Expr))
    ensures
        ((match r.0 { Some(y) => Some(Box::new(y.v())), None => None }), r.1.v()) == split_filter_spec(e.v()),
{
    match e.into_node() {
        Expr::If { cond, then, els: None } => (Some(Box::new(*cond)), *then),
        other => (None, other),
    }
}

impl Parser {
    /// `(v in iter)` or `(key => value in iter)` of a loop, the parentheses included.
    pub fn parse_loop_head(&mut self) -> (r: PResult<(String, Option<String>, Iterable)>)
        requires
            old(self).wf(),
        ensures
            final(self).wf(),
            final(self).cx() == old(self).cx(),
            parse_loop_head_spec(old(self).cx(), old(self).st()) == (match r { Ok(x) => Pr::Done((x.0@, (match x.1 { Some(y) => Some(y@), None => None }), x.2.v()), final(self).st()), Err(e) => Pr::Fail(e.v()) }),
            final(self).st().pos >= old(self).st().pos,
            r is Ok ==> final(self).st().pos > old(self).st().pos,
            r is Ok ==> final(self).st().extra == old(self).st().extra,
        decreases old(self).left(), 30int,
    {
        proof {
            reveal(parse_loop_head_spec);
            reveal(parse_iterable_spec);
        }
        self.expect_sym(Sym::LParen)?;
        let var = self.expect_ident()?;
        let value_var = if self.eat_sym(Sym::FatArrow) {
            let v = self.expect_ident()?;
            Some(v)
        } else {
            None
        };
        self.expect_sym_kw(Kw::In)?;
        let iter = self.parse_iterable()?;
        self.expect_sym(Sym::RParen)?;
        Ok((var, value_var, iter))
    }

    /// After `[`: `for (v in iter) [if (g)] body]`.
    pub fn parse_comprehension_tail(&mut self) -> (r: PResult<Expr>)
        requires
            old(self).wf(),
        ensures
            final(self).wf(),
            final(self).cx() == old(self).cx(),
            parse_comprehension_tail_spec(old(self).cx(), old(self).st()) == (match r { Ok(x) => Pr::Done(x.v(), final(self).st()), Err(e) => Pr::Fail(e.v()) }),
            final(self).st().pos >= old(self).st().pos,
            r is Ok ==> final(self).st().pos > old(self).st().pos,
            r is Ok ==> final(self).st().extra == old(self).st().extra,
            r matches Ok(e) ==> !(e.v() is Binary),
        decreases old(self).left(), 29int,
    {
        proof {
            reveal(parse_comprehension_tail_spec);
            reveal(parse_loop_head_spec);
            reveal(parse_if_expr_spec);
            reveal(parse_expr_spec);
        }
        self.expect_sym_kw(Kw::For)?;
        let (var, value_var, iter) = self.parse_loop_head()?;
        // A leading `if (cond) <body>` with no `else` is a filter: the element is produced
        // only when `cond` holds. With an `else` it is an ordinary value expression.
        let (guard, key_or_val) = if self.at_kw(Kw::If) {
            let e = self.parse_if_expr()?;
            split_filter(e)
        } else {
            let e = self.parse_expr()?;
            (None, e)
        };
        let body = if self.eat_sym(Sym::FatArrow) {
            let v = self.parse_expr()?;
            ComprBody::KeyValue(Box::new(key_or_val), Box::new(v))
        } else {
            ComprBody::Value(Box::new(key_or_val))
        };
        self.expect_sym(Sym::RBracket)?;
        Ok(Expr::Comprehension { var, value_var, iter: Box::new(iter), guard, body })
    }

    /// What a `for` goes through: a range or a value.
    pub fn parse_iterable(&mut self) -> (r: PResult<Iterable>)
        requires
            old(self).wf(),
        ensures
            final(self).wf(),
            final(self).cx() == old(self).cx(),
            parse_iterable_spec(old(self).cx(), old(self).st()) == (match r { Ok(x) => Pr::Done(x.v(), final(self).st()), Err(e) => Pr::Fail(e.v()) }),
            final(self).st().pos >= old(self).st().pos,
            r is Ok ==> final(self).st().pos > old(self).st().pos,
            r is Ok ==> final(self).st().extra == old(self).st().extra,
        decreases old(self).left(), 51int,
    {
        proof {
            reveal(parse_iterable_spec);
            reveal(parse_expr_spec);
        }
        let start = self.parse_expr()?;
        if self.eat_sym(Sym::DotDotDot) {
            let end = self.parse_expr()?;
            Ok(Iterable::Range(start, end))
        } else {
            Ok(Iterable::Coll(start))
        }
    }
}

/// What [`split_filter`] computes.
pub open spec fn split_filter_spec(e: ExprV) -> (Option<Box<ExprV>>, ExprV)
{
    match e {
        ExprV::If { cond, then, els: None } => { (Some(Box::new(*cond)), *then) },
        other => { (None, other) },
    }
}

/// What [`Parser::parse_loop_head`] computes.
#[verifier::opaque]
pub open spec fn parse_loop_head_spec(c: Ctx, st: St) -> Pr<(Seq<char>, Option<Seq<char>>, IterableV)>
    decreases c.toks.len() - st.pos, 30int,
{
    match expect_sym_spec(c, st, Sym::LParen) {
        Pr::Fail(e) => Pr::Fail(e),
        Pr::Done(_, st) => {
            match expect_ident_spec(c, st) {
                Pr::Fail(e) => Pr::Fail(e),
                Pr::Done(var, st) => {
                    match { let (st, x1) = eat_sym_spec(c, st, Sym::FatArrow);
                        if x1 {
                            match expect_ident_spec(c, st) {
                                Pr::Fail(e) => Pr::Fail(e),
                                Pr::Done(v, st) => { Pr::Done(Some(v), st) },
                            }
                        } else { Pr::Done(None, st) } } {
                        Pr::Fail(e) => Pr::Fail(e),
                        Pr::Done(value_var, st) => {
                            match expect_sym_kw_spec(c, st, Kw::In) {
                                Pr::Fail(e) => Pr::Fail(e),
                                Pr::Done(_, st) => {
                                    match step(c, st, parse_iterable_spec(c, st)) {
                                        Pr::Fail(e) => Pr::Fail(e),
                                        Pr::Done(iter, st) => {
                                            match expect_sym_spec(c, st, Sym::RParen) {
                                                Pr::Fail(e) => Pr::Fail(e),
                                                Pr::Done(_, st) => { Pr::Done((var, value_var, iter), st) },
                                            }
                                        },
                                    }
                                },
                            }
                        },
                    }
                },
            }
        },
    }
}

/// What [`Parser::parse_comprehension_tail`] computes.
#[verifier::opaque]
pub open spec fn parse_comprehension_tail_spec(c: Ctx, st: St) -> Pr<ExprV>
    decreases c.toks.len() - st.pos, 29int,
{
    match expect_sym_kw_spec(c, st, Kw::For) {
        Pr::Fail(e) => Pr::Fail(e),
        Pr::Done(_, st) => {
            match step(c, st, parse_loop_head_spec(c, st)) {
                Pr::Fail(e) => Pr::Fail(e),
                Pr::Done((var, value_var, iter), st) => {
                    match { if at_kw_spec(c, st, Kw::If) {
                            match step(c, st, parse_if_expr_spec(c, st)) {
                                Pr::Fail(e) => Pr::Fail(e),
                                Pr::Done(e, st) => { Pr::Done(split_filter_spec(e), st) },
                            }
                        } else {
                            match step(c, st, parse_expr_spec(c, st)) {
                                Pr::Fail(e) => Pr::Fail(e),
                                Pr::Done(e, st) => { Pr::Done((None, e), st) },
                            }
                        } } {
                        Pr::Fail(e) => Pr::Fail(e),
                        Pr::Done((guard, key_or_val), st) => {
                            match { let (st, x1) = eat_sym_spec(c, st, Sym::FatArrow);
                                if x1 {
                                    match step(c, st, parse_expr_spec(c, st)) {
                                        Pr::Fail(e) => Pr::Fail(e),
                                        Pr::Done(v, st) => { Pr::Done(ComprBodyV::KeyValue(Box::new(key_or_val), Box::new(v)), st) },
                                    }
                                } else { Pr::Done(ComprBodyV::Value(Box::new(key_or_val)), st) } } {
                                Pr::Fail(e) => Pr::Fail(e),
                                Pr::Done(body, st) => {
                                    match expect_sym_spec(c, st, Sym::RBracket) {
                                        Pr::Fail(e) => Pr::Fail(e),
                                        Pr::Done(_, st) => { Pr::Done(ExprV::Comprehension { var, value_var, iter: Box::new(iter), guard, body }, st) },
                                    }
                                },
                            }
                        },
                    }
                },
            }
        },
    }
}

/// What [`Parser::parse_iterable`] computes.
#[verifier::opaque]
pub open spec fn parse_iterable_spec(c: Ctx, st: St) -> Pr<IterableV>
    decreases c.toks.len() - st.pos, 51int,
{
    match step(c, st, parse_expr_spec(c, st)) {
        Pr::Fail(e) => Pr::Fail(e),
        Pr::Done(start, st) => {
            let (st, x1) = eat_sym_spec(c, st, Sym::DotDotDot);
            if x1 {
                match step(c, st, parse_expr_spec(c, st)) {
                    Pr::Fail(e) => Pr::Fail(e),
                    Pr::Done(end, st) => { Pr::Done(IterableV::Range(start, end), st) },
                }
            } else { Pr::Done(IterableV::Coll(start), st) }
        },
    }
}

} // verus!
