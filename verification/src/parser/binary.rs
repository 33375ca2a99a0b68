//! Binary operators by precedence climbing, and the prefix operators under them.

use vstd::prelude::*;

use crate::ast::{BinOp, Expr, UnOp};
use crate::model::ExprV;
use crate::parser::cursor::{Ctx, PResult, Parser, Pr, St, at_kw_spec, at_sym_spec, bump_spec, eat_kw_spec, expect_sym_spec, kind_at, peek2_spec, peek_spec, step};
use crate::parser::expr::parse_expr_spec;
use crate::parser::postfix::parse_postfix_spec;
use crate::parser::types::parse_type_spec;
use crate::text::same;
use crate::token::{Kw, Sym, TokKind, TokKindV};

verus! {

broadcast use {crate::model::group_model, crate::token::group_token, crate::text::group_texts};

/// The binary operator a token is, with its precedence.
pub fn peek_binop(k: &TokKind) -> (r: Option<(BinOp, usize)>)
    ensures
        (match r { Some(y) => Some((y.0, (y.1 as int))), None => None }) == peek_binop_spec(k.v()),
        r matches Some(x) ==> 1 <= x.1 <= 10,
{
    match k {
        TokKind::Sym(Sym::PipePipe) => Some((BinOp::Or, 1usize)),
        TokKind::Sym(Sym::AmpAmp) => Some((BinOp::And, 2usize)),
        TokKind::Sym(Sym::Pipe) => Some((BinOp::BitOr, 3usize)),
        TokKind::Sym(Sym::Caret) => Some((BinOp::BitXor, 4usize)),
        TokKind::Sym(Sym::Amp) => Some((BinOp::BitAnd, 5usize)),
        TokKind::Sym(Sym::Eq) => Some((BinOp::Eq, 6usize)),
        TokKind::Sym(Sym::Ne) => Some((BinOp::Ne, 6usize)),
        TokKind::Sym(Sym::Lt) => Some((BinOp::Lt, 7usize)),
        TokKind::Sym(Sym::Gt) => Some((BinOp::Gt, 7usize)),
        TokKind::Sym(Sym::Le) => Some((BinOp::Le, 7usize)),
        TokKind::Sym(Sym::Ge) => Some((BinOp::Ge, 7usize)),
        TokKind::Sym(Sym::Shl) => Some((BinOp::Shl, 8usize)),
        TokKind::Sym(Sym::Shr) => Some((BinOp::Shr, 8usize)),
        TokKind::Sym(Sym::UShr) => Some((BinOp::UShr, 8usize)),
        TokKind::Sym(Sym::Plus) => Some((BinOp::Add, 9usize)),
        TokKind::Sym(Sym::Minus) => Some((BinOp::Sub, 9usize)),
        TokKind::Sym(Sym::Star) => Some((BinOp::Mul, 10usize)),
        TokKind::Sym(Sym::Slash) => Some((BinOp::Div, 10usize)),
        TokKind::Sym(Sym::Percent) => Some((BinOp::Mod, 10usize)),
        _ => None,
    }
}

/// How tightly a binary operator binds.
pub open spec fn prec_of(op: BinOp) -> int {
    match op {
        BinOp::Or => 1,
        BinOp::And => 2,
        BinOp::BitOr => 3,
        BinOp::BitXor => 4,
        BinOp::BitAnd => 5,
        BinOp::Eq | BinOp::Ne => 6,
        BinOp::Lt | BinOp::Gt | BinOp::Le | BinOp::Ge => 7,
        BinOp::Shl | BinOp::Shr | BinOp::UShr => 8,
        BinOp::Add | BinOp::Sub => 9,
        BinOp::Mul | BinOp::Div | BinOp::Mod => 10,
    }
}

/// Whether operators are grouped as they bind, from `min` on: those on the left of one bind at
/// least as tightly as it, those on its right more tightly. What stands in brackets is on its
/// own.
pub open spec fn is_grouped(e: ExprV, min: int) -> bool
    decreases e,
{
    match e {
        ExprV::Binary { op, lhs, rhs } => {
            &&& min <= prec_of(op)
            &&& is_grouped(*lhs, prec_of(op))
            &&& is_grouped(*rhs, prec_of(op) + 1)
        },
        _ => true,
    }
}

/// Whether no operator comes that binds as tightly as `min`.
pub open spec fn binds_below(c: Ctx, st: St, min: int) -> bool {
    peek_binop_spec(peek_spec(c, st)) matches Some(x) ==> x.1 < min
}

/// The prefix operator a token is.
pub fn prefix_op(k: &TokKind) -> (r: Option<UnOp>)
    ensures
        r == prefix_op_spec(k.v()),
{
    match k {
        TokKind::Sym(Sym::Minus) => Some(UnOp::Neg),
        TokKind::Sym(Sym::Bang) => Some(UnOp::Not),
        TokKind::Sym(Sym::Tilde) => Some(UnOp::BitNot),
        TokKind::Sym(Sym::PlusPlus) => Some(UnOp::Incr),
        TokKind::Sym(Sym::MinusMinus) => Some(UnOp::Decr),
        _ => None,
    }
}

impl Parser {
    /// Operands joined by operators of at least the given precedence, left-associative.
    pub fn parse_binary(&mut self, min_prec: usize) -> (r: PResult<Expr>)
        requires
            old(self).wf(),
        ensures
            final(self).wf(),
            final(self).cx() == old(self).cx(),
            parse_binary_spec(old(self).cx(), old(self).st(), (min_prec as int)) == (match r { Ok(x) => Pr::Done(x.v(), final(self).st()), Err(e) => Pr::Fail(e.v()) }),
            final(self).st().pos >= old(self).st().pos,
            r is Ok ==> final(self).st().pos > old(self).st().pos,
            r is Ok ==> final(self).st().extra == old(self).st().extra,
            r matches Ok(e) ==> is_grouped(e.v(), min_prec as int),
            r is Ok ==> binds_below(final(self).cx(), final(self).st(), min_prec as int),
        decreases old(self).left(), 46int,
    {
        proof {
            reveal(parse_binary_spec);
            reveal(parse_unary_spec);
            reveal(parse_binary_rest_spec);
        }
        let lhs = self.parse_unary()?;
        self.parse_binary_rest(min_prec, lhs)
    }

    /// The operators behind `lhs` that bind at least as tightly as `min_prec`.
    pub fn parse_binary_rest(&mut self, min_prec: usize, lhs: Expr) -> (r: PResult<Expr>)
        requires
            old(self).wf(),
            !(lhs.v() is Binary),
        ensures
            final(self).wf(),
            final(self).cx() == old(self).cx(),
            parse_binary_rest_spec(old(self).cx(), old(self).st(), (min_prec as int), lhs.v()) == (match r { Ok(x) => Pr::Done(x.v(), final(self).st()), Err(e) => Pr::Fail(e.v()) }),
            final(self).st().pos >= old(self).st().pos,
            r is Ok ==> final(self).st().extra == old(self).st().extra,
            r matches Ok(e) ==> is_grouped(e.v(), min_prec as int),
            r is Ok ==> binds_below(final(self).cx(), final(self).st(), min_prec as int),
        decreases old(self).left(), 46int,
    {
        let ghost lhs_0 = lhs;
        let mut lhs: Expr = lhs;
        #[verifier::loop_isolation(false)]
        loop
            invariant
                self.wf(),
                self.cx() == old(self).cx(),
                self.st().pos >= old(self).st().pos,
                parse_binary_rest_spec(old(self).cx(), old(self).st(), (min_prec as int), lhs_0.v()) == parse_binary_rest_spec(self.cx(), self.st(), (min_prec as int), lhs.v()),
                self.st().extra == old(self).st().extra,
                is_grouped(lhs.v(), min_prec as int),
                peek_binop_spec(peek_spec(self.cx(), self.st())) matches Some(x) ==> is_grouped(lhs.v(), x.1),
            decreases self.left(),
        {
            proof {
                reveal(parse_binary_rest_spec);
                reveal(parse_type_spec);
                reveal(parse_binary_spec);
            }
            // `is` lexes as an identifier, so that variables of that name keep working; it
            // is an operator here, in operator position.
            if matches!(self.peek(), TokKind::Ident(n) if same(n, "is")) {
                self.bump();
                let ty = self.parse_type()?;
                lhs = Expr::Is { expr: Box::new(lhs), ty };
            } else {
                match peek_binop(self.peek()) {
                    None => {
                        return Ok(lhs);
                    },
                    Some((op, prec)) => {
                        if prec < min_prec {
                            return Ok(lhs);
                        }
                        self.bump();
                        let rhs = self.parse_binary(prec + 1)?;
                        lhs = Expr::Binary { op, lhs: Box::new(lhs), rhs: Box::new(rhs) };
                    },
                }
            }
        }
    }

    /// A prefix operator and its operand, or a postfix expression.
    pub fn parse_unary(&mut self) -> (r: PResult<Expr>)
        requires
            old(self).wf(),
        ensures
            final(self).wf(),
            final(self).cx() == old(self).cx(),
            parse_unary_spec(old(self).cx(), old(self).st()) == (match r { Ok(x) => Pr::Done(x.v(), final(self).st()), Err(e) => Pr::Fail(e.v()) }),
            final(self).st().pos >= old(self).st().pos,
            r is Ok ==> final(self).st().pos > old(self).st().pos,
            r is Ok ==> final(self).st().extra == old(self).st().extra,
            r matches Ok(e) ==> !(e.v() is Binary),
        decreases old(self).left(), 45int,
    {
        proof {
            reveal(parse_unary_spec);
            reveal(parse_cast_spec);
            reveal(parse_postfix_spec);
        }
        // Call-site inlining (`inline Foo.bar(x)`) has no effect on meaning, and inlining
        // in C++ is the C++ compiler's decision: the call is kept, the keyword dropped.
        if self.at_kw(Kw::Inline) && !matches!(self.peek2(), TokKind::Kw(Kw::Function)) {
            self.bump();
            return self.parse_unary();
        }
        if self.eat_kw(Kw::Untyped) {
            let expr = self.parse_unary()?;
            return Ok(Expr::Untyped(Box::new(expr)));
        }
        if self.eat_kw(Kw::Cast) {
            return self.parse_cast();
        }
        match prefix_op(self.peek()) {
            Some(op) => {
                self.bump();
                let expr = self.parse_unary()?;
                Ok(Expr::Unary { op, expr: Box::new(expr), prefix: true })
            },
            None => self.parse_postfix(),
        }
    }

    /// After `cast`: `(expr, Type)`, or the operand of an unchecked cast. A top-level
    /// comma in the parentheses decides.
    pub fn parse_cast(&mut self) -> (r: PResult<Expr>)
        requires
            old(self).wf(),
        ensures
            final(self).wf(),
            final(self).cx() == old(self).cx(),
            parse_cast_spec(old(self).cx(), old(self).st()) == (match r { Ok(x) => Pr::Done(x.v(), final(self).st()), Err(e) => Pr::Fail(e.v()) }),
            final(self).st().pos >= old(self).st().pos,
            r is Ok ==> final(self).st().pos > old(self).st().pos,
            r is Ok ==> final(self).st().extra == old(self).st().extra,
            r matches Ok(e) ==> !(e.v() is Binary),
        decreases old(self).left(), 46int,
    {
        proof {
            reveal(parse_cast_spec);
            reveal(parse_expr_spec);
            reveal(parse_type_spec);
            reveal(parse_unary_spec);
        }
        if self.at_sym(Sym::LParen) && self.paren_has_top_level_comma() {
            self.expect_sym(Sym::LParen)?;
            let expr = self.parse_expr()?;
            self.expect_sym(Sym::Comma)?;
            let ty = self.parse_type()?;
            self.expect_sym(Sym::RParen)?;
            return Ok(Expr::Cast { expr: Box::new(expr), ty: Some(ty) });
        }
        let expr = self.parse_unary()?;
        Ok(Expr::Cast { expr: Box::new(expr), ty: None })
    }

    /// Does the `(` at the cursor enclose a top-level `,` before its matching `)`?
    pub fn paren_has_top_level_comma(&self) -> (r: bool)
        requires
            self.wf(),
        ensures
            r == paren_has_top_level_comma_spec(self.cx(), self.st()),
    {
        self.comma_scan(self.pos(), 0)
    }

    /// Whether a comma stands at depth one before the bracket closes, from the token at `i` on.
    pub fn comma_scan(&self, i: usize, depth: usize) -> (r: bool)
        requires
            self.wf(),
            depth <= i,
        ensures
            r == comma_scan_spec(self.cx(), self.st(), (i as int), (depth as int)),
    {
        let ghost i_0 = i;
        let ghost depth_0 = depth;
        let mut i: usize = i;
        let mut depth: usize = depth;
        #[verifier::loop_isolation(false)]
        loop
            invariant
                comma_scan_spec(self.cx(), self.st(), (i_0 as int), (depth_0 as int)) == comma_scan_spec(self.cx(), self.st(), (i as int), (depth as int)),
                depth <= i,
            decreases self.cx().toks.len() - i,
        {
            proof {
                reveal(comma_scan_spec);
            }
            if i >= self.count() {
                return false;
            }
            match self.kind_of(i) {
                TokKind::Sym(Sym::LParen | Sym::LBracket | Sym::LBrace) => {
                    depth = depth + 1;
                },
                TokKind::Sym(Sym::RParen | Sym::RBracket | Sym::RBrace) => {
                    if depth <= 1 {
                        return false;
                    }
                    depth = depth - 1;
                },
                TokKind::Sym(Sym::Comma) => {
                    if depth == 1 {
                        return true;
                    }
                },
                TokKind::Eof => {
                    return false;
                },
                _ => {},
            }
            i = i + 1;
        }
    }
}

/// What [`peek_binop`] computes.
pub open spec fn peek_binop_spec(k: TokKindV) -> Option<(BinOp, int)>
{
    match k {
        TokKindV::Sym(Sym::PipePipe) => { Some((BinOp::Or, 1int)) },
        TokKindV::Sym(Sym::AmpAmp) => { Some((BinOp::And, 2int)) },
        TokKindV::Sym(Sym::Pipe) => { Some((BinOp::BitOr, 3int)) },
        TokKindV::Sym(Sym::Caret) => { Some((BinOp::BitXor, 4int)) },
        TokKindV::Sym(Sym::Amp) => { Some((BinOp::BitAnd, 5int)) },
        TokKindV::Sym(Sym::Eq) => { Some((BinOp::Eq, 6int)) },
        TokKindV::Sym(Sym::Ne) => { Some((BinOp::Ne, 6int)) },
        TokKindV::Sym(Sym::Lt) => { Some((BinOp::Lt, 7int)) },
        TokKindV::Sym(Sym::Gt) => { Some((BinOp::Gt, 7int)) },
        TokKindV::Sym(Sym::Le) => { Some((BinOp::Le, 7int)) },
        TokKindV::Sym(Sym::Ge) => { Some((BinOp::Ge, 7int)) },
        TokKindV::Sym(Sym::Shl) => { Some((BinOp::Shl, 8int)) },
        TokKindV::Sym(Sym::Shr) => { Some((BinOp::Shr, 8int)) },
        TokKindV::Sym(Sym::UShr) => { Some((BinOp::UShr, 8int)) },
        TokKindV::Sym(Sym::Plus) => { Some((BinOp::Add, 9int)) },
        TokKindV::Sym(Sym::Minus) => { Some((BinOp::Sub, 9int)) },
        TokKindV::Sym(Sym::Star) => { Some((BinOp::Mul, 10int)) },
        TokKindV::Sym(Sym::Slash) => { Some((BinOp::Div, 10int)) },
        TokKindV::Sym(Sym::Percent) => { Some((BinOp::Mod, 10int)) },
        _ => { None },
    }
}

/// What [`prefix_op`] computes.
pub open spec fn prefix_op_spec(k: TokKindV) -> Option<UnOp>
{
    match k {
        TokKindV::Sym(Sym::Minus) => { Some(UnOp::Neg) },
        TokKindV::Sym(Sym::Bang) => { Some(UnOp::Not) },
        TokKindV::Sym(Sym::Tilde) => { Some(UnOp::BitNot) },
        TokKindV::Sym(Sym::PlusPlus) => { Some(UnOp::Incr) },
        TokKindV::Sym(Sym::MinusMinus) => { Some(UnOp::Decr) },
        _ => { None },
    }
}

/// What [`Parser::parse_binary`] computes.
#[verifier::opaque]
pub open spec fn parse_binary_spec(c: Ctx, st: St, min_prec: int) -> Pr<ExprV>
    decreases c.toks.len() - st.pos, 46int,
{
    match step(c, st, parse_unary_spec(c, st)) {
        Pr::Fail(e) => Pr::Fail(e),
        Pr::Done(lhs, st) => { parse_binary_rest_spec(c, st, min_prec, lhs) },
    }
}

/// What [`Parser::parse_binary_rest`] computes.
#[verifier::opaque]
pub open spec fn parse_binary_rest_spec(c: Ctx, st: St, min_prec: int, lhs: ExprV) -> Pr<ExprV>
    decreases c.toks.len() - st.pos, 46int,
{
    if (match peek_spec(c, st) { TokKindV::Ident(n) => (n == "is"@), _ => false }) {
        let st = bump_spec(c, st);
        match step(c, st, parse_type_spec(c, st)) {
            Pr::Fail(e) => Pr::Fail(e),
            Pr::Done(ty, st) => {
                let lhs = ExprV::Is { expr: Box::new(lhs), ty };
                parse_binary_rest_spec(c, st, min_prec, lhs)
            },
        }
    } else {
        match peek_binop_spec(peek_spec(c, st)) {
            None => { Pr::Done(lhs, st) },
            Some((op, prec)) => {
                if prec < min_prec { Pr::Done(lhs, st) } else {
                    let st = bump_spec(c, st);
                    match step(c, st, parse_binary_spec(c, st, prec + 1)) {
                        Pr::Fail(e) => Pr::Fail(e),
                        Pr::Done(rhs, st) => {
                            let lhs = ExprV::Binary { op, lhs: Box::new(lhs), rhs: Box::new(rhs) };
                            parse_binary_rest_spec(c, st, min_prec, lhs)
                        },
                    }
                }
            },
        }
    }
}

/// What [`Parser::parse_unary`] computes.
#[verifier::opaque]
pub open spec fn parse_unary_spec(c: Ctx, st: St) -> Pr<ExprV>
    decreases c.toks.len() - st.pos, 45int,
{
    if at_kw_spec(c, st, Kw::Inline) && (!(match peek2_spec(c, st) { TokKindV::Kw(Kw::Function) => true, _ => false })) {
        let st = bump_spec(c, st);
        parse_unary_spec(c, st)
    } else {
        let (st, x1) = eat_kw_spec(c, st, Kw::Untyped);
        if x1 {
            match step(c, st, parse_unary_spec(c, st)) {
                Pr::Fail(e) => Pr::Fail(e),
                Pr::Done(expr, st) => { Pr::Done(ExprV::Untyped(Box::new(expr)), st) },
            }
        } else {
            let (st, x2) = eat_kw_spec(c, st, Kw::Cast);
            if x2 { parse_cast_spec(c, st) } else {
                match prefix_op_spec(peek_spec(c, st)) {
                    Some(op) => {
                        let st = bump_spec(c, st);
                        match step(c, st, parse_unary_spec(c, st)) {
                            Pr::Fail(e) => Pr::Fail(e),
                            Pr::Done(expr, st) => { Pr::Done(ExprV::Unary { op, expr: Box::new(expr), prefix: true }, st) },
                        }
                    },
                    None => { parse_postfix_spec(c, st) },
                }
            }
        }
    }
}

/// What [`Parser::parse_cast`] computes.
#[verifier::opaque]
pub open spec fn parse_cast_spec(c: Ctx, st: St) -> Pr<ExprV>
    decreases c.toks.len() - st.pos, 46int,
{
    if at_sym_spec(c, st, Sym::LParen) && paren_has_top_level_comma_spec(c, st) {
        match expect_sym_spec(c, st, Sym::LParen) {
            Pr::Fail(e) => Pr::Fail(e),
            Pr::Done(_, st) => {
                match step(c, st, parse_expr_spec(c, st)) {
                    Pr::Fail(e) => Pr::Fail(e),
                    Pr::Done(expr, st) => {
                        match expect_sym_spec(c, st, Sym::Comma) {
                            Pr::Fail(e) => Pr::Fail(e),
                            Pr::Done(_, st) => {
                                match step(c, st, parse_type_spec(c, st)) {
                                    Pr::Fail(e) => Pr::Fail(e),
                                    Pr::Done(ty, st) => {
                                        match expect_sym_spec(c, st, Sym::RParen) {
                                            Pr::Fail(e) => Pr::Fail(e),
                                            Pr::Done(_, st) => { Pr::Done(ExprV::Cast { expr: Box::new(expr), ty: Some(ty) }, st) },
                                        }
                                    },
                                }
                            },
                        }
                    },
                }
            },
        }
    } else {
        match step(c, st, parse_unary_spec(c, st)) {
            Pr::Fail(e) => Pr::Fail(e),
            Pr::Done(expr, st) => { Pr::Done(ExprV::Cast { expr: Box::new(expr), ty: None }, st) },
        }
    }
}

/// What [`Parser::paren_has_top_level_comma`] computes.
pub open spec fn paren_has_top_level_comma_spec(c: Ctx, st: St) -> bool
{
    comma_scan_spec(c, st, st.pos, 0int)
}

/// What [`Parser::comma_scan`] computes.
#[verifier::opaque]
pub open spec fn comma_scan_spec(c: Ctx, st: St, i: int, depth: int) -> bool
    decreases c.toks.len() - i,
{
    if !(0 <= i < c.toks.len()) { false } else {
        match kind_at(c, i) {
            TokKindV::Sym(Sym::LParen | Sym::LBracket | Sym::LBrace) => {
                let depth = depth + 1;
                let i = i + 1;
                comma_scan_spec(c, st, i, depth)
            },
            TokKindV::Sym(Sym::RParen | Sym::RBracket | Sym::RBrace) => {
                if depth <= 1 { false } else {
                    let depth = depth - 1;
                    let i = i + 1;
                    comma_scan_spec(c, st, i, depth)
                }
            },
            TokKindV::Sym(Sym::Comma) => {
                if depth == 1 { true } else {
                    let i = i + 1;
                    comma_scan_spec(c, st, i, depth)
                }
            },
            TokKindV::Eof => { false },
            _ => {
                let i = i + 1;
                comma_scan_spec(c, st, i, depth)
            },
        }
    }
}

} // verus!
