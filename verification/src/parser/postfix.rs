//! Postfix expressions: member access, calls and indexing; argument and parameter lists.

use vstd::prelude::*;

use crate::ast::{Expr, Param, UnOp};
use crate::model::{ExprV, ParamV, exprs_v, params_v};
use crate::parser::cursor::{Ctx, PResult, Parser, Pr, St, bump_spec, eat_sym_spec, err_spec, expect_ident_spec, expect_sym_spec, parse_meta_list_spec, peek_spec, stay, step};
use crate::parser::expr::parse_expr_spec;
use crate::parser::primary::parse_primary_spec;
use crate::parser::vars::{parse_opt_init_spec, parse_opt_type_spec};
use crate::text::cat2;
use crate::token::{Sym, TokKind, TokKindV, kw_text, kw_text_spec, tok_name, tok_name_spec};

verus! {

broadcast use {crate::model::group_model, crate::token::group_token, crate::text::group_texts};

impl Parser {
    /// A primary expression and what follows it: fields, calls, indices, `++` and `--`.
    pub fn parse_postfix(&mut self) -> (r: PResult<Expr>)
        requires
            old(self).wf(),
        ensures
            final(self).wf(),
            final(self).cx() == old(self).cx(),
            parse_postfix_spec(old(self).cx(), old(self).st()) == (match r { Ok(x) => Pr::Done(x.v(), final(self).st()), Err(e) => Pr::Fail(e.v()) }),
            final(self).st().pos >= old(self).st().pos,
            r is Ok ==> final(self).st().pos > old(self).st().pos,
            r is Ok ==> final(self).st().extra == old(self).st().extra,
            r matches Ok(e) ==> !(e.v() is Binary),
        decreases old(self).left(), 44int,
    {
        proof {
            reveal(parse_postfix_spec);
            reveal(parse_primary_spec);
            reveal(parse_postfix_rest_spec);
        }
        let e = self.parse_primary()?;
        self.parse_postfix_rest(e)
    }

    /// What follows `e`.
    pub fn parse_postfix_rest(&mut self, e: Expr) -> (r: PResult<Expr>)
        requires
            old(self).wf(),
            !(e.v() is Binary),
        ensures
            final(self).wf(),
            final(self).cx() == old(self).cx(),
            parse_postfix_rest_spec(old(self).cx(), old(self).st(), e.v()) == (match r { Ok(x) => Pr::Done(x.v(), final(self).st()), Err(e) => Pr::Fail(e.v()) }),
            final(self).st().pos >= old(self).st().pos,
            r is Ok ==> final(self).st().extra == old(self).st().extra,
            r matches Ok(x) ==> !(x.v() is Binary),
        decreases old(self).left(), 44int,
    {
        let ghost e_0 = e;
        let mut e: Expr = e;
        #[verifier::loop_isolation(false)]
        loop
            invariant
                self.wf(),
                self.cx() == old(self).cx(),
                self.st().pos >= old(self).st().pos,
                parse_postfix_rest_spec(old(self).cx(), old(self).st(), e_0.v()) == parse_postfix_rest_spec(self.cx(), self.st(), e.v()),
                self.st().extra == old(self).st().extra,
                !(e.v() is Binary),
            decreases self.left(),
        {
            proof {
                reveal(parse_postfix_rest_spec);
                reveal(parse_call_args_spec);
                reveal(parse_expr_spec);
            }
            match self.peek() {
                TokKind::Sym(Sym::Dot) => {
                    self.bump();
                    let name = self.member_name()?;
                    e = Expr::Field(Box::new(e), name);
                },
                TokKind::Sym(Sym::QuestionDot) => {
                    self.bump();
                    let name = self.member_name()?;
                    e = Expr::SafeField(Box::new(e), name);
                },
                TokKind::Sym(Sym::LParen) => {
                    let args = self.parse_call_args()?;
                    e = Expr::Call(Box::new(e), args);
                },
                TokKind::Sym(Sym::LBracket) => {
                    self.bump();
                    let idx = self.parse_expr()?;
                    self.expect_sym(Sym::RBracket)?;
                    e = Expr::Index(Box::new(e), Box::new(idx));
                },
                TokKind::Sym(Sym::PlusPlus) => {
                    self.bump();
                    e = Expr::Unary { op: UnOp::Incr, expr: Box::new(e), prefix: false };
                },
                TokKind::Sym(Sym::MinusMinus) => {
                    self.bump();
                    e = Expr::Unary { op: UnOp::Decr, expr: Box::new(e), prefix: false };
                },
                _ => {
                    return Ok(e);
                },
            }
        }
    }

    /// A member name after `.` may be an identifier or a reserved word used as a name
    /// (e.g. `new` in `Type.new`).
    pub fn member_name(&mut self) -> (r: PResult<String>)
        requires
            old(self).wf(),
        ensures
            final(self).wf(),
            final(self).cx() == old(self).cx(),
            member_name_spec(old(self).cx(), old(self).st()) == (match r { Ok(x) => Pr::Done(x@, final(self).st()), Err(e) => Pr::Fail(e.v()) }),
            final(self).st().pos >= old(self).st().pos,
            r is Ok ==> final(self).st().pos > old(self).st().pos,
            r is Ok ==> final(self).st().extra == old(self).st().extra,
    {
        match self.peek() {
            TokKind::Ident(s) => {
                let s = s.clone();
                self.bump();
                Ok(s)
            },
            TokKind::Kw(k) => {
                let s = kw_text(*k);
                self.bump();
                Ok(s)
            },
            other => Err(self.err(&cat2("expected member name, found ", &tok_name(other)))),
        }
    }

    /// The arguments between parentheses.
    pub fn parse_call_args(&mut self) -> (r: PResult<Vec<Expr>>)
        requires
            old(self).wf(),
        ensures
            final(self).wf(),
            final(self).cx() == old(self).cx(),
            parse_call_args_spec(old(self).cx(), old(self).st()) == (match r { Ok(x) => Pr::Done(exprs_v(x@), final(self).st()), Err(e) => Pr::Fail(e.v()) }),
            final(self).st().pos >= old(self).st().pos,
            r is Ok ==> final(self).st().pos > old(self).st().pos,
            r is Ok ==> final(self).st().extra == old(self).st().extra,
        decreases old(self).left(), 30int,
    {
        proof {
            reveal(parse_call_args_spec);
            reveal(parse_args_from_spec);
        }
        self.expect_sym(Sym::LParen)?;
        if self.eat_sym(Sym::RParen) {
            return Ok(Vec::new());
        }
        self.parse_args_from(Vec::new())
    }

    /// The arguments up to the closing parenthesis.
    pub fn parse_args_from(&mut self, args: Vec<Expr>) -> (r: PResult<Vec<Expr>>)
        requires
            old(self).wf(),
        ensures
            final(self).wf(),
            final(self).cx() == old(self).cx(),
            parse_args_from_spec(old(self).cx(), old(self).st(), exprs_v(args@)) == (match r { Ok(x) => Pr::Done(exprs_v(x@), final(self).st()), Err(e) => Pr::Fail(e.v()) }),
            final(self).st().pos >= old(self).st().pos,
            r is Ok ==> final(self).st().pos > old(self).st().pos,
            r is Ok ==> final(self).st().extra == old(self).st().extra,
        decreases old(self).left(), 51int,
    {
        let ghost args_0 = args;
        let mut args: Vec<Expr> = args;
        #[verifier::loop_isolation(false)]
        loop
            invariant
                self.wf(),
                self.cx() == old(self).cx(),
                self.st().pos >= old(self).st().pos,
                parse_args_from_spec(old(self).cx(), old(self).st(), exprs_v(args_0@)) == parse_args_from_spec(self.cx(), self.st(), exprs_v(args@)),
                self.st().extra == old(self).st().extra,
            decreases self.left(),
        {
            proof {
                reveal(parse_args_from_spec);
                reveal(parse_expr_spec);
            }
            let a = self.parse_expr()?;
            args.push(a);
            if !self.eat_sym(Sym::Comma) {
                self.expect_sym(Sym::RParen)?;
                return Ok(args);
            }
        }
    }

    /// The parameters between parentheses.
    pub fn parse_params(&mut self) -> (r: PResult<Vec<Param>>)
        requires
            old(self).wf(),
        ensures
            final(self).wf(),
            final(self).cx() == old(self).cx(),
            parse_params_spec(old(self).cx(), old(self).st()) == (match r { Ok(x) => Pr::Done(params_v(x@), final(self).st()), Err(e) => Pr::Fail(e.v()) }),
            final(self).st().pos >= old(self).st().pos,
            r is Ok ==> final(self).st().pos > old(self).st().pos,
            r is Ok ==> final(self).st().extra == old(self).st().extra,
        decreases old(self).left(), 28int,
    {
        proof {
            reveal(parse_params_spec);
            reveal(parse_params_from_spec);
        }
        self.expect_sym(Sym::LParen)?;
        if self.eat_sym(Sym::RParen) {
            return Ok(Vec::new());
        }
        self.parse_params_from(Vec::new())
    }

    /// The parameters up to the closing parenthesis.
    pub fn parse_params_from(&mut self, params: Vec<Param>) -> (r: PResult<Vec<Param>>)
        requires
            old(self).wf(),
        ensures
            final(self).wf(),
            final(self).cx() == old(self).cx(),
            parse_params_from_spec(old(self).cx(), old(self).st(), params_v(params@)) == (match r { Ok(x) => Pr::Done(params_v(x@), final(self).st()), Err(e) => Pr::Fail(e.v()) }),
            final(self).st().pos >= old(self).st().pos,
            r is Ok ==> final(self).st().pos > old(self).st().pos,
            r is Ok ==> final(self).st().extra == old(self).st().extra,
        decreases old(self).left(), 30int,
    {
        let ghost params_0 = params;
        let mut params: Vec<Param> = params;
        #[verifier::loop_isolation(false)]
        loop
            invariant
                self.wf(),
                self.cx() == old(self).cx(),
                self.st().pos >= old(self).st().pos,
                parse_params_from_spec(old(self).cx(), old(self).st(), params_v(params_0@)) == parse_params_from_spec(self.cx(), self.st(), params_v(params@)),
                self.st().extra == old(self).st().extra,
            decreases self.left(),
        {
            proof {
                reveal(parse_params_from_spec);
                reveal(parse_opt_type_spec);
                reveal(parse_opt_init_spec);
            }
            // Leading parameter metadata (`@sink val:T`).
            let meta = self.parse_meta_list()?;
            // A rest parameter (`...vals:Int`) is parsed and marked, not supported later on.
            let rest = self.eat_sym(Sym::DotDotDot);
            let optional = self.eat_sym(Sym::Question);
            let name = self.expect_ident()?;
            let ty = self.parse_opt_type()?;
            let default = self.parse_opt_init()?;
            params.push(Param { name, ty, optional: optional || default.is_some(), default, rest, meta });
            if !self.eat_sym(Sym::Comma) {
                self.expect_sym(Sym::RParen)?;
                return Ok(params);
            }
        }
    }
}

/// What [`Parser::parse_postfix`] computes.
#[verifier::opaque]
pub open spec fn parse_postfix_spec(c: Ctx, st: St) -> Pr<ExprV>
    decreases c.toks.len() - st.pos, 44int,
{
    match step(c, st, parse_primary_spec(c, st)) {
        Pr::Fail(e) => Pr::Fail(e),
        Pr::Done(e, st) => { parse_postfix_rest_spec(c, st, e) },
    }
}

/// What [`Parser::parse_postfix_rest`] computes.
#[verifier::opaque]
pub open spec fn parse_postfix_rest_spec(c: Ctx, st: St, e: ExprV) -> Pr<ExprV>
    decreases c.toks.len() - st.pos, 44int,
{
    match peek_spec(c, st) {
        TokKindV::Sym(Sym::Dot) => {
            let st = bump_spec(c, st);
            match member_name_spec(c, st) {
                Pr::Fail(e) => Pr::Fail(e),
                Pr::Done(name, st) => {
                    let e = ExprV::Field(Box::new(e), name);
                    parse_postfix_rest_spec(c, st, e)
                },
            }
        },
        TokKindV::Sym(Sym::QuestionDot) => {
            let st = bump_spec(c, st);
            match member_name_spec(c, st) {
                Pr::Fail(e) => Pr::Fail(e),
                Pr::Done(name, st) => {
                    let e = ExprV::SafeField(Box::new(e), name);
                    parse_postfix_rest_spec(c, st, e)
                },
            }
        },
        TokKindV::Sym(Sym::LParen) => {
            match step(c, st, parse_call_args_spec(c, st)) {
                Pr::Fail(e) => Pr::Fail(e),
                Pr::Done(args, st) => {
                    let e = ExprV::Call(Box::new(e), args);
                    parse_postfix_rest_spec(c, st, e)
                },
            }
        },
        TokKindV::Sym(Sym::LBracket) => {
            let st = bump_spec(c, st);
            match step(c, st, parse_expr_spec(c, st)) {
                Pr::Fail(e) => Pr::Fail(e),
                Pr::Done(idx, st) => {
                    match expect_sym_spec(c, st, Sym::RBracket) {
                        Pr::Fail(e) => Pr::Fail(e),
                        Pr::Done(_, st) => {
                            let e = ExprV::Index(Box::new(e), Box::new(idx));
                            parse_postfix_rest_spec(c, st, e)
                        },
                    }
                },
            }
        },
        TokKindV::Sym(Sym::PlusPlus) => {
            let st = bump_spec(c, st);
            let e = ExprV::Unary { op: UnOp::Incr, expr: Box::new(e), prefix: false };
            parse_postfix_rest_spec(c, st, e)
        },
        TokKindV::Sym(Sym::MinusMinus) => {
            let st = bump_spec(c, st);
            let e = ExprV::Unary { op: UnOp::Decr, expr: Box::new(e), prefix: false };
            parse_postfix_rest_spec(c, st, e)
        },
        _ => { Pr::Done(e, st) },
    }
}

/// What [`Parser::member_name`] computes.
pub open spec fn member_name_spec(c: Ctx, st: St) -> Pr<Seq<char>>
{
    match peek_spec(c, st) {
        TokKindV::Ident(s) => {
            let s = s;
            let st = bump_spec(c, st);
            Pr::Done(s, st)
        },
        TokKindV::Kw(k) => {
            let s = kw_text_spec(k);
            let st = bump_spec(c, st);
            Pr::Done(s, st)
        },
        other => {
            Pr::Fail(err_spec(c, st, "expected member name, found "@ + tok_name_spec(other)))
        },
    }
}

/// What [`Parser::parse_call_args`] computes.
#[verifier::opaque]
pub open spec fn parse_call_args_spec(c: Ctx, st: St) -> Pr<Seq<ExprV>>
    decreases c.toks.len() - st.pos, 30int,
{
    match expect_sym_spec(c, st, Sym::LParen) {
        Pr::Fail(e) => Pr::Fail(e),
        Pr::Done(_, st) => {
            let (st, x1) = eat_sym_spec(c, st, Sym::RParen);
            if x1 { Pr::Done(Seq::empty(), st) } else { parse_args_from_spec(c, st, Seq::empty()) }
        },
    }
}

/// What [`Parser::parse_args_from`] computes.
#[verifier::opaque]
pub open spec fn parse_args_from_spec(c: Ctx, st: St, args: Seq<ExprV>) -> Pr<Seq<ExprV>>
    decreases c.toks.len() - st.pos, 51int,
{
    match step(c, st, parse_expr_spec(c, st)) {
        Pr::Fail(e) => Pr::Fail(e),
        Pr::Done(a, st) => {
            let args = args.push(a);
            let (st, x1) = eat_sym_spec(c, st, Sym::Comma);
            if !x1 {
                match expect_sym_spec(c, st, Sym::RParen) {
                    Pr::Fail(e) => Pr::Fail(e),
                    Pr::Done(_, st) => { Pr::Done(args, st) },
                }
            } else { parse_args_from_spec(c, st, args) }
        },
    }
}

/// What [`Parser::parse_params`] computes.
#[verifier::opaque]
pub open spec fn parse_params_spec(c: Ctx, st: St) -> Pr<Seq<ParamV>>
    decreases c.toks.len() - st.pos, 28int,
{
    match expect_sym_spec(c, st, Sym::LParen) {
        Pr::Fail(e) => Pr::Fail(e),
        Pr::Done(_, st) => {
            let (st, x1) = eat_sym_spec(c, st, Sym::RParen);
            if x1 { Pr::Done(Seq::empty(), st) } else { parse_params_from_spec(c, st, Seq::empty()) }
        },
    }
}

/// What [`Parser::parse_params_from`] computes.
#[verifier::opaque]
pub open spec fn parse_params_from_spec(c: Ctx, st: St, params: Seq<ParamV>) -> Pr<Seq<ParamV>>
    decreases c.toks.len() - st.pos, 30int,
{
    match stay(c, st, parse_meta_list_spec(c, st)) {
        Pr::Fail(e) => Pr::Fail(e),
        Pr::Done(meta, st) => {
            let (st, rest) = eat_sym_spec(c, st, Sym::DotDotDot);
            let (st, optional) = eat_sym_spec(c, st, Sym::Question);
            match expect_ident_spec(c, st) {
                Pr::Fail(e) => Pr::Fail(e),
                Pr::Done(name, st) => {
                    match stay(c, st, parse_opt_type_spec(c, st)) {
                        Pr::Fail(e) => Pr::Fail(e),
                        Pr::Done(ty, st) => {
                            match stay(c, st, parse_opt_init_spec(c, st)) {
                                Pr::Fail(e) => Pr::Fail(e),
                                Pr::Done(default, st) => {
                                    let params = params.push(ParamV { name, ty, optional: optional || (default is Some), default, rest, meta });
                                    let (st, x1) = eat_sym_spec(c, st, Sym::Comma);
                                    if !x1 {
                                        match expect_sym_spec(c, st, Sym::RParen) {
                                            Pr::Fail(e) => Pr::Fail(e),
                                            Pr::Done(_, st) => { Pr::Done(params, st) },
                                        }
                                    } else { parse_params_from_spec(c, st, params) }
                                },
                            }
                        },
                    }
                },
            }
        },
    }
}

} // verus!
