//! Object creation, anonymous functions, lambdas and parenthesised expressions.

use vstd::prelude::*;

use crate::ast::{Expr, LambdaBody};
use crate::model::{ExprV, LambdaBodyV};
use crate::parser::block::parse_block_spec;
use crate::parser::cursor::{Ctx, PResult, Parser, Pr, St, at_sym_spec, bump_spec, eat_sym_spec, expect_sym_kw_spec, expect_sym_spec, kind_at, peek2_spec, peek_spec, stay, step};
use crate::parser::expr::parse_expr_spec;
use crate::parser::postfix::{parse_call_args_spec, parse_params_spec};
use crate::parser::types::parse_type_spec;
use crate::parser::vars::parse_opt_type_spec;
use crate::token::{Kw, Sym, TokKind, TokKindV};

verus! {

broadcast use {crate::model::group_model, crate::token::group_token, crate::text::group_texts};

impl Parser {
    /// `new T(..)`.
    pub fn parse_new(&mut self) -> (r: PResult<Expr>)
        requires
            old(self).wf(),
        ensures
            final(self).wf(),
            final(self).cx() == old(self).cx(),
            parse_new_spec(old(self).cx(), old(self).st()) == (match r { Ok(x) => Pr::Done(x.v(), final(self).st()), Err(e) => Pr::Fail(e.v()) }),
            final(self).st().pos >= old(self).st().pos,
            r is Ok ==> final(self).st().pos > old(self).st().pos,
            r is Ok ==> final(self).st().extra == old(self).st().extra,
            r matches Ok(e) ==> !(e.v() is Binary),
        decreases old(self).left(), 30int,
    {
        proof {
            reveal(parse_new_spec);
            reveal(parse_type_spec);
            reveal(parse_call_args_spec);
        }
        self.expect_sym_kw(Kw::New)?;
        let ty = self.parse_type()?;
        let args = self.parse_call_args()?;
        Ok(Expr::New(ty, args))
    }

    /// Anonymous function expression: `function (params) [:Ret] { body }`, a lambda with
    /// an explicit return type and a block body.
    pub fn parse_anon_function(&mut self) -> (r: PResult<Expr>)
        requires
            old(self).wf(),
        ensures
            final(self).wf(),
            final(self).cx() == old(self).cx(),
            parse_anon_function_spec(old(self).cx(), old(self).st()) == (match r { Ok(x) => Pr::Done(x.v(), final(self).st()), Err(e) => Pr::Fail(e.v()) }),
            final(self).st().pos >= old(self).st().pos,
            r is Ok ==> final(self).st().pos > old(self).st().pos,
            r is Ok ==> final(self).st().extra == old(self).st().extra,
            r matches Ok(e) ==> !(e.v() is Binary),
        decreases old(self).left(), 30int,
    {
        proof {
            reveal(parse_anon_function_spec);
            reveal(parse_params_spec);
            reveal(parse_opt_type_spec);
            reveal(parse_block_spec);
            reveal(parse_lambda_body_spec);
        }
        self.expect_sym_kw(Kw::Function)?;
        // an optional local name is allowed; it is ignored
        if matches!(self.peek(), TokKind::Ident(_)) {
            self.bump();
        }
        let params = self.parse_params()?;
        let ret = self.parse_opt_type()?;
        if self.at_sym(Sym::LBrace) {
            let body = self.parse_block()?;
            return Ok(Expr::Lambda { params, ret, body: Box::new(LambdaBody::Block(body)) });
        }
        let body = self.parse_lambda_body()?;
        Ok(Expr::Lambda { params, ret, body: Box::new(body) })
    }

    /// `-> { x: ... }` is an object literal; `-> { stmt; ... }` is a block.
    pub fn parse_lambda_body(&mut self) -> (r: PResult<LambdaBody>)
        requires
            old(self).wf(),
        ensures
            final(self).wf(),
            final(self).cx() == old(self).cx(),
            parse_lambda_body_spec(old(self).cx(), old(self).st()) == (match r { Ok(x) => Pr::Done(x.v(), final(self).st()), Err(e) => Pr::Fail(e.v()) }),
            final(self).st().pos >= old(self).st().pos,
            r is Ok ==> final(self).st().pos > old(self).st().pos,
            r is Ok ==> final(self).st().extra == old(self).st().extra,
        decreases old(self).left(), 51int,
    {
        proof {
            reveal(parse_lambda_body_spec);
            reveal(parse_block_spec);
            reveal(parse_expr_spec);
        }
        if self.at_sym(Sym::LBrace) && !self.looks_like_object_literal() {
            let b = self.parse_block()?;
            Ok(LambdaBody::Block(b))
        } else {
            let e = self.parse_expr()?;
            Ok(LambdaBody::Expr(e))
        }
    }

    /// With the cursor on `{`, decide whether it begins an object literal:
    /// `{}`, or `{ key : ... }` where `key` is an identifier or string.
    pub fn looks_like_object_literal(&self) -> (r: bool)
        requires
            self.wf(),
        ensures
            r == looks_like_object_literal_spec(self.cx(), self.st()),
    {
        if !self.at_sym(Sym::LBrace) {
            return false;
        }
        match self.peek2() {
            TokKind::Sym(Sym::RBrace) => true,
            TokKind::Ident(_) | TokKind::Str { raw: _, interpolated: _ } => {
                matches!(self.peek3(), TokKind::Sym(Sym::Colon))
            },
            _ => false,
        }
    }

    /// The kind of the second token behind the current one.
    pub fn peek3(&self) -> (r: &TokKind)
        requires
            self.wf(),
        ensures
            r.v() == kind_at(self.cx(), self.st().pos + 2),
    {
        let p: usize = self.pos();
        if p + 1 < usize::MAX {
            self.kind_of(p + 2)
        } else {
            proof {
                self.count_fits();
            }
            self.kind_of(p + 1)
        }
    }

    /// `(expr)`, `(expr : Type)`, or a lambda `(params) -> body`.
    pub fn parse_paren_or_lambda(&mut self) -> (r: PResult<Expr>)
        requires
            old(self).wf(),
        ensures
            final(self).wf(),
            final(self).cx() == old(self).cx(),
            parse_paren_or_lambda_spec(old(self).cx(), old(self).st()) == (match r { Ok(x) => Pr::Done(x.v(), final(self).st()), Err(e) => Pr::Fail(e.v()) }),
            final(self).st().pos >= old(self).st().pos,
            r is Ok ==> final(self).st().pos > old(self).st().pos,
            r is Ok ==> final(self).st().extra == old(self).st().extra,
            r matches Ok(e) ==> !(e.v() is Binary),
        decreases old(self).left(), 30int,
    {
        proof {
            reveal(parse_paren_or_lambda_spec);
            reveal(parse_params_spec);
            reveal(parse_lambda_body_spec);
            reveal(parse_expr_spec);
            reveal(parse_type_spec);
        }
        if self.parens_introduce_lambda() {
            let params = self.parse_params()?;
            self.expect_sym(Sym::Arrow)?;
            let body = self.parse_lambda_body()?;
            return Ok(Expr::Lambda { params, ret: None, body: Box::new(body) });
        }
        self.expect_sym(Sym::LParen)?;
        let e = self.parse_expr()?;
        if self.eat_sym(Sym::Colon) {
            let ty = self.parse_type()?;
            self.expect_sym(Sym::RParen)?;
            return Ok(Expr::TypeCheck { expr: Box::new(e), ty });
        }
        self.expect_sym(Sym::RParen)?;
        Ok(Expr::Paren(Box::new(e)))
    }

    /// Is the `(` at the cursor the start of a lambda parameter list, i.e. its
    /// matching `)` is immediately followed by `->`?
    pub fn parens_introduce_lambda(&self) -> (r: bool)
        requires
            self.wf(),
        ensures
            r == parens_introduce_lambda_spec(self.cx(), self.st()),
    {
        self.lambda_scan(self.pos(), 0)
    }

    /// Whether an arrow follows the parenthesis that closes, from the token at `i` on.
    pub fn lambda_scan(&self, i: usize, depth: usize) -> (r: bool)
        requires
            self.wf(),
            depth <= i,
        ensures
            r == lambda_scan_spec(self.cx(), self.st(), (i as int), (depth as int)),
    {
        let ghost i_0 = i;
        let ghost depth_0 = depth;
        let mut i: usize = i;
        let mut depth: usize = depth;
        #[verifier::loop_isolation(false)]
        loop
            invariant
                lambda_scan_spec(self.cx(), self.st(), (i_0 as int), (depth_0 as int)) == lambda_scan_spec(self.cx(), self.st(), (i as int), (depth as int)),
                depth <= i,
            decreases self.cx().toks.len() - i,
        {
            proof {
                reveal(lambda_scan_spec);
            }
            if i >= self.count() {
                return false;
            }
            match self.kind_of(i) {
                TokKind::Sym(Sym::LParen) => {
                    depth = depth + 1;
                },
                TokKind::Sym(Sym::RParen) => {
                    if depth <= 1 {
                        return matches!(self.kind_of(i + 1), TokKind::Sym(Sym::Arrow));
                    }
                    depth = depth - 1;
                },
                TokKind::Eof => {
                    return false;
                },
                _ => {},
            }
            i = i + 1;
        }
    }
}

/// What [`Parser::parse_new`] computes.
#[verifier::opaque]
pub open spec fn parse_new_spec(c: Ctx, st: St) -> Pr<ExprV>
    decreases c.toks.len() - st.pos, 30int,
{
    match expect_sym_kw_spec(c, st, Kw::New) {
        Pr::Fail(e) => Pr::Fail(e),
        Pr::Done(_, st) => {
            match step(c, st, parse_type_spec(c, st)) {
                Pr::Fail(e) => Pr::Fail(e),
                Pr::Done(ty, st) => {
                    match step(c, st, parse_call_args_spec(c, st)) {
                        Pr::Fail(e) => Pr::Fail(e),
                        Pr::Done(args, st) => { Pr::Done(ExprV::New(ty, args), st) },
                    }
                },
            }
        },
    }
}

/// What [`Parser::parse_anon_function`] computes.
#[verifier::opaque]
pub open spec fn parse_anon_function_spec(c: Ctx, st: St) -> Pr<ExprV>
    decreases c.toks.len() - st.pos, 30int,
{
    match expect_sym_kw_spec(c, st, Kw::Function) {
        Pr::Fail(e) => Pr::Fail(e),
        Pr::Done(_, st) => {
            let st = if (match peek_spec(c, st) { TokKindV::Ident(_) => true, _ => false }) {
                let st = bump_spec(c, st);
                st
            } else { st };
            match step(c, st, parse_params_spec(c, st)) {
                Pr::Fail(e) => Pr::Fail(e),
                Pr::Done(params, st) => {
                    match stay(c, st, parse_opt_type_spec(c, st)) {
                        Pr::Fail(e) => Pr::Fail(e),
                        Pr::Done(ret, st) => {
                            if at_sym_spec(c, st, Sym::LBrace) {
                                match step(c, st, parse_block_spec(c, st)) {
                                    Pr::Fail(e) => Pr::Fail(e),
                                    Pr::Done(body, st) => { Pr::Done(ExprV::Lambda { params, ret, body: Box::new(LambdaBodyV::Block(body)) }, st) },
                                }
                            } else {
                                match step(c, st, parse_lambda_body_spec(c, st)) {
                                    Pr::Fail(e) => Pr::Fail(e),
                                    Pr::Done(body, st) => { Pr::Done(ExprV::Lambda { params, ret, body: Box::new(body) }, st) },
                                }
                            }
                        },
                    }
                },
            }
        },
    }
}

/// What [`Parser::parse_lambda_body`] computes.
#[verifier::opaque]
pub open spec fn parse_lambda_body_spec(c: Ctx, st: St) -> Pr<LambdaBodyV>
    decreases c.toks.len() - st.pos, 51int,
{
    if at_sym_spec(c, st, Sym::LBrace) && (!looks_like_object_literal_spec(c, st)) {
        match step(c, st, parse_block_spec(c, st)) {
            Pr::Fail(e) => Pr::Fail(e),
            Pr::Done(b, st) => { Pr::Done(LambdaBodyV::Block(b), st) },
        }
    } else {
        match step(c, st, parse_expr_spec(c, st)) {
            Pr::Fail(e) => Pr::Fail(e),
            Pr::Done(e, st) => { Pr::Done(LambdaBodyV::Expr(e), st) },
        }
    }
}

/// What [`Parser::looks_like_object_literal`] computes.
pub open spec fn looks_like_object_literal_spec(c: Ctx, st: St) -> bool
{
    if !at_sym_spec(c, st, Sym::LBrace) { false } else {
        match peek2_spec(c, st) {
            TokKindV::Sym(Sym::RBrace) => { true },
            TokKindV::Ident(_) | TokKindV::Str { raw: _, interpolated: _ } => {
                (match kind_at(c, st.pos + 2) { TokKindV::Sym(Sym::Colon) => true, _ => false })
            },
            _ => { false },
        }
    }
}

/// What [`Parser::parse_paren_or_lambda`] computes.
#[verifier::opaque]
pub open spec fn parse_paren_or_lambda_spec(c: Ctx, st: St) -> Pr<ExprV>
    decreases c.toks.len() - st.pos, 30int,
{
    if parens_introduce_lambda_spec(c, st) {
        match step(c, st, parse_params_spec(c, st)) {
            Pr::Fail(e) => Pr::Fail(e),
            Pr::Done(params, st) => {
                match expect_sym_spec(c, st, Sym::Arrow) {
                    Pr::Fail(e) => Pr::Fail(e),
                    Pr::Done(_, st) => {
                        match step(c, st, parse_lambda_body_spec(c, st)) {
                            Pr::Fail(e) => Pr::Fail(e),
                            Pr::Done(body, st) => { Pr::Done(ExprV::Lambda { params, ret: None, body: Box::new(body) }, st) },
                        }
                    },
                }
            },
        }
    } else {
        match expect_sym_spec(c, st, Sym::LParen) {
            Pr::Fail(e) => Pr::Fail(e),
            Pr::Done(_, st) => {
                match step(c, st, parse_expr_spec(c, st)) {
                    Pr::Fail(e) => Pr::Fail(e),
                    Pr::Done(e, st) => {
                        let (st, x1) = eat_sym_spec(c, st, Sym::Colon);
                        if x1 {
                            match step(c, st, parse_type_spec(c, st)) {
                                Pr::Fail(e) => Pr::Fail(e),
                                Pr::Done(ty, st) => {
                                    match expect_sym_spec(c, st, Sym::RParen) {
                                        Pr::Fail(e) => Pr::Fail(e),
                                        Pr::Done(_, st) => { Pr::Done(ExprV::TypeCheck { expr: Box::new(e), ty }, st) },
                                    }
                                },
                            }
                        } else {
                            match expect_sym_spec(c, st, Sym::RParen) {
                                Pr::Fail(e) => Pr::Fail(e),
                                Pr::Done(_, st) => { Pr::Done(ExprV::Paren(Box::new(e)), st) },
                            }
                        }
                    },
                }
            },
        }
    }
}

/// What [`Parser::parens_introduce_lambda`] computes.
pub open spec fn parens_introduce_lambda_spec(c: Ctx, st: St) -> bool
{
    lambda_scan_spec(c, st, st.pos, 0int)
}

/// What [`Parser::lambda_scan`] computes.
#[verifier::opaque]
pub open spec fn lambda_scan_spec(c: Ctx, st: St, i: int, depth: int) -> bool
    decreases c.toks.len() - i,
{
    if !(0 <= i < c.toks.len()) { false } else {
        match kind_at(c, i) {
            TokKindV::Sym(Sym::LParen) => {
                let depth = depth + 1;
                let i = i + 1;
                lambda_scan_spec(c, st, i, depth)
            },
            TokKindV::Sym(Sym::RParen) => {
                if depth <= 1 {
                    (match kind_at(c, i + 1) { TokKindV::Sym(Sym::Arrow) => true, _ => false })
                } else {
                    let depth = depth - 1;
                    let i = i + 1;
                    lambda_scan_spec(c, st, i, depth)
                }
            },
            TokKindV::Eof => { false },
            _ => {
                let i = i + 1;
                lambda_scan_spec(c, st, i, depth)
            },
        }
    }
}

} // verus!
