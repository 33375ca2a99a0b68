//! Expressions from the loosest level down: assignment, the conditional operator and
//! null coalescing.

use vstd::prelude::*;

use crate::ast::{BinOp, Expr};
use crate::model::ExprV;
use crate::parser::binary::parse_binary_spec;
use crate::parser::cursor::{Ctx, PResult, Parser, Pr, St, bump_spec, eat_sym_spec, expect_sym_spec, peek_spec, step};
use crate::token::{Sym, TokKind, TokKindV};

verus! {

broadcast use {crate::model::group_model, crate::token::group_token, crate::text::group_texts};

/// The operator of an assignment: plain, or compound with the operation it does.
pub fn assign_op(k: &TokKind) -> (r: Option<Option<BinOp>>)
    ensures
        r == assign_op_spec(k.v()),
{
    match k {
        TokKind::Sym(Sym::Assign) => Some(None),
        TokKind::Sym(Sym::PlusEq) => Some(Some(BinOp::Add)),
        TokKind::Sym(Sym::MinusEq) => Some(Some(BinOp::Sub)),
        TokKind::Sym(Sym::StarEq) => Some(Some(BinOp::Mul)),
        TokKind::Sym(Sym::SlashEq) => Some(Some(BinOp::Div)),
        TokKind::Sym(Sym::PercentEq) => Some(Some(BinOp::Mod)),
        TokKind::Sym(Sym::AmpEq) => Some(Some(BinOp::BitAnd)),
        TokKind::Sym(Sym::PipeEq) => Some(Some(BinOp::BitOr)),
        TokKind::Sym(Sym::CaretEq) => Some(Some(BinOp::BitXor)),
        TokKind::Sym(Sym::ShlEq) => Some(Some(BinOp::Shl)),
        TokKind::Sym(Sym::ShrEq) => Some(Some(BinOp::Shr)),
        TokKind::Sym(Sym::UShrEq) => Some(Some(BinOp::UShr)),
        _ => None,
    }
}

impl Parser {
    /// An expression.
    pub fn parse_expr(&mut self) -> (r: PResult<Expr>)
        requires
            old(self).wf(),
        ensures
            final(self).wf(),
            final(self).cx() == old(self).cx(),
            parse_expr_spec(old(self).cx(), old(self).st()) == (match r { Ok(x) => Pr::Done(x.v(), final(self).st()), Err(e) => Pr::Fail(e.v()) }),
            final(self).st().pos >= old(self).st().pos,
            r is Ok ==> final(self).st().pos > old(self).st().pos,
            r is Ok ==> final(self).st().extra == old(self).st().extra,
        decreases old(self).left(), 50int,
    {
        proof {
            reveal(parse_expr_spec);
            reveal(parse_assign_spec);
        }
        self.parse_assign()
    }

    /// An assignment, or what binds tighter.
    pub fn parse_assign(&mut self) -> (r: PResult<Expr>)
        requires
            old(self).wf(),
        ensures
            final(self).wf(),
            final(self).cx() == old(self).cx(),
            parse_assign_spec(old(self).cx(), old(self).st()) == (match r { Ok(x) => Pr::Done(x.v(), final(self).st()), Err(e) => Pr::Fail(e.v()) }),
            final(self).st().pos >= old(self).st().pos,
            r is Ok ==> final(self).st().pos > old(self).st().pos,
            r is Ok ==> final(self).st().extra == old(self).st().extra,
        decreases old(self).left(), 49int,
    {
        proof {
            reveal(parse_assign_spec);
            reveal(parse_ternary_spec);
        }
        let lhs = self.parse_ternary()?;
        if self.eat_sym(Sym::QuestionQuestionEq) {
            // `x ??= y` is the assignment of a coalesce.
            let value = self.parse_assign()?;
            return Ok(Expr::Assign {
                op: None,
                target: Box::new(lhs.dup()),
                value: Box::new(Expr::NullCoalesce(Box::new(lhs), Box::new(value))),
            });
        }
        match assign_op(self.peek()) {
            Some(op) => {
                self.bump();
                let value = self.parse_assign()?;
                Ok(Expr::Assign { op, target: Box::new(lhs), value: Box::new(value) })
            },
            None => Ok(lhs),
        }
    }

    /// `c ? a : b`, or what binds tighter.
    pub fn parse_ternary(&mut self) -> (r: PResult<Expr>)
        requires
            old(self).wf(),
        ensures
            final(self).wf(),
            final(self).cx() == old(self).cx(),
            parse_ternary_spec(old(self).cx(), old(self).st()) == (match r { Ok(x) => Pr::Done(x.v(), final(self).st()), Err(e) => Pr::Fail(e.v()) }),
            final(self).st().pos >= old(self).st().pos,
            r is Ok ==> final(self).st().pos > old(self).st().pos,
            r is Ok ==> final(self).st().extra == old(self).st().extra,
        decreases old(self).left(), 48int,
    {
        proof {
            reveal(parse_ternary_spec);
            reveal(parse_coalesce_spec);
            reveal(parse_assign_spec);
        }
        let cond = self.parse_coalesce()?;
        if self.eat_sym(Sym::Question) {
            let then = self.parse_assign()?;
            self.expect_sym(Sym::Colon)?;
            let els = self.parse_assign()?;
            Ok(Expr::Ternary { cond: Box::new(cond), then: Box::new(then), els: Box::new(els) })
        } else {
            Ok(cond)
        }
    }

    /// `a ?? b`, or what binds tighter.
    pub fn parse_coalesce(&mut self) -> (r: PResult<Expr>)
        requires
            old(self).wf(),
        ensures
            final(self).wf(),
            final(self).cx() == old(self).cx(),
            parse_coalesce_spec(old(self).cx(), old(self).st()) == (match r { Ok(x) => Pr::Done(x.v(), final(self).st()), Err(e) => Pr::Fail(e.v()) }),
            final(self).st().pos >= old(self).st().pos,
            r is Ok ==> final(self).st().pos > old(self).st().pos,
            r is Ok ==> final(self).st().extra == old(self).st().extra,
        decreases old(self).left(), 47int,
    {
        proof {
            reveal(parse_coalesce_spec);
            reveal(parse_binary_spec);
            reveal(parse_coalesce_rest_spec);
        }
        let lhs = self.parse_binary(0)?;
        self.parse_coalesce_rest(lhs)
    }

    /// The `??` behind `lhs`.
    pub fn parse_coalesce_rest(&mut self, lhs: Expr) -> (r: PResult<Expr>)
        requires
            old(self).wf(),
        ensures
            final(self).wf(),
            final(self).cx() == old(self).cx(),
            parse_coalesce_rest_spec(old(self).cx(), old(self).st(), lhs.v()) == (match r { Ok(x) => Pr::Done(x.v(), final(self).st()), Err(e) => Pr::Fail(e.v()) }),
            final(self).st().pos >= old(self).st().pos,
            r is Ok ==> final(self).st().extra == old(self).st().extra,
        decreases old(self).left(), 47int,
    {
        let ghost lhs_0 = lhs;
        let mut lhs: Expr = lhs;
        #[verifier::loop_isolation(false)]
        loop
            invariant
                self.wf(),
                self.cx() == old(self).cx(),
                self.st().pos >= old(self).st().pos,
                parse_coalesce_rest_spec(old(self).cx(), old(self).st(), lhs_0.v()) == parse_coalesce_rest_spec(self.cx(), self.st(), lhs.v()),
                self.st().extra == old(self).st().extra,
            decreases self.left(),
        {
            proof {
                reveal(parse_coalesce_rest_spec);
                reveal(parse_binary_spec);
            }
            if !self.eat_sym(Sym::QuestionQuestion) {
                return Ok(lhs);
            }
            let rhs = self.parse_binary(0)?;
            lhs = Expr::NullCoalesce(Box::new(lhs), Box::new(rhs));
        }
    }
}

/// What [`assign_op`] computes.
pub open spec fn assign_op_spec(k: TokKindV) -> Option<Option<BinOp>>
{
    match k {
        TokKindV::Sym(Sym::Assign) => { Some(None) },
        TokKindV::Sym(Sym::PlusEq) => { Some(Some(BinOp::Add)) },
        TokKindV::Sym(Sym::MinusEq) => { Some(Some(BinOp::Sub)) },
        TokKindV::Sym(Sym::StarEq) => { Some(Some(BinOp::Mul)) },
        TokKindV::Sym(Sym::SlashEq) => { Some(Some(BinOp::Div)) },
        TokKindV::Sym(Sym::PercentEq) => { Some(Some(BinOp::Mod)) },
        TokKindV::Sym(Sym::AmpEq) => { Some(Some(BinOp::BitAnd)) },
        TokKindV::Sym(Sym::PipeEq) => { Some(Some(BinOp::BitOr)) },
        TokKindV::Sym(Sym::CaretEq) => { Some(Some(BinOp::BitXor)) },
        TokKindV::Sym(Sym::ShlEq) => { Some(Some(BinOp::Shl)) },
        TokKindV::Sym(Sym::ShrEq) => { Some(Some(BinOp::Shr)) },
        TokKindV::Sym(Sym::UShrEq) => { Some(Some(BinOp::UShr)) },
        _ => { None },
    }
}

/// What [`Parser::parse_expr`] computes.
#[verifier::opaque]
pub open spec fn parse_expr_spec(c: Ctx, st: St) -> Pr<ExprV>
    decreases c.toks.len() - st.pos, 50int,
{
    parse_assign_spec(c, st)
}

/// What [`Parser::parse_assign`] computes.
#[verifier::opaque]
pub open spec fn parse_assign_spec(c: Ctx, st: St) -> Pr<ExprV>
    decreases c.toks.len() - st.pos, 49int,
{
    match step(c, st, parse_ternary_spec(c, st)) {
        Pr::Fail(e) => Pr::Fail(e),
        Pr::Done(lhs, st) => {
            let (st, x1) = eat_sym_spec(c, st, Sym::QuestionQuestionEq);
            if x1 {
                match step(c, st, parse_assign_spec(c, st)) {
                    Pr::Fail(e) => Pr::Fail(e),
                    Pr::Done(value, st) => { Pr::Done(ExprV::Assign { op: None, target: Box::new(lhs), value: Box::new(ExprV::NullCoalesce(Box::new(lhs), Box::new(value))) }, st) },
                }
            } else {
                match assign_op_spec(peek_spec(c, st)) {
                    Some(op) => {
                        let st = bump_spec(c, st);
                        match step(c, st, parse_assign_spec(c, st)) {
                            Pr::Fail(e) => Pr::Fail(e),
                            Pr::Done(value, st) => { Pr::Done(ExprV::Assign { op, target: Box::new(lhs), value: Box::new(value) }, st) },
                        }
                    },
                    None => { Pr::Done(lhs, st) },
                }
            }
        },
    }
}

/// What [`Parser::parse_ternary`] computes.
#[verifier::opaque]
pub open spec fn parse_ternary_spec(c: Ctx, st: St) -> Pr<ExprV>
    decreases c.toks.len() - st.pos, 48int,
{
    match step(c, st, parse_coalesce_spec(c, st)) {
        Pr::Fail(e) => Pr::Fail(e),
        Pr::Done(cond, st) => {
            let (st, x1) = eat_sym_spec(c, st, Sym::Question);
            if x1 {
                match step(c, st, parse_assign_spec(c, st)) {
                    Pr::Fail(e) => Pr::Fail(e),
                    Pr::Done(then, st) => {
                        match expect_sym_spec(c, st, Sym::Colon) {
                            Pr::Fail(e) => Pr::Fail(e),
                            Pr::Done(_, st) => {
                                match step(c, st, parse_assign_spec(c, st)) {
                                    Pr::Fail(e) => Pr::Fail(e),
                                    Pr::Done(els, st) => { Pr::Done(ExprV::Ternary { cond: Box::new(cond), then: Box::new(then), els: Box::new(els) }, st) },
                                }
                            },
                        }
                    },
                }
            } else { Pr::Done(cond, st) }
        },
    }
}

/// What [`Parser::parse_coalesce`] computes.
#[verifier::opaque]
pub open spec fn parse_coalesce_spec(c: Ctx, st: St) -> Pr<ExprV>
    decreases c.toks.len() - st.pos, 47int,
{
    match step(c, st, parse_binary_spec(c, st, 0int)) {
        Pr::Fail(e) => Pr::Fail(e),
        Pr::Done(lhs, st) => { parse_coalesce_rest_spec(c, st, lhs) },
    }
}

/// What [`Parser::parse_coalesce_rest`] computes.
#[verifier::opaque]
pub open spec fn parse_coalesce_rest_spec(c: Ctx, st: St, lhs: ExprV) -> Pr<ExprV>
    decreases c.toks.len() - st.pos, 47int,
{
    let (st, x1) = eat_sym_spec(c, st, Sym::QuestionQuestion);
    if !x1 { Pr::Done(lhs, st) } else {
        match step(c, st, parse_binary_spec(c, st, 0int)) {
            Pr::Fail(e) => Pr::Fail(e),
            Pr::Done(rhs, st) => {
                let lhs = ExprV::NullCoalesce(Box::new(lhs), Box::new(rhs));
                parse_coalesce_rest_spec(c, st, lhs)
            },
        }
    }
}

} // verus!
