//! Primary expressions.

use vstd::prelude::*;

use crate::ast::{Expr, Meta, Param};
use crate::model::{ExprV, MetaV, ParamV};
use crate::parser::control::parse_if_expr_spec;
use crate::parser::cursor::{Ctx, PResult, Parser, Pr, St, bump_spec, eat_sym_spec, err_spec, parse_meta_spec, parse_metas_spec, peek_spec, stay, step};
use crate::parser::lambda::{parse_anon_function_spec, parse_lambda_body_spec, parse_new_spec, parse_paren_or_lambda_spec};
use crate::parser::literal::{parse_array_or_comprehension_spec, parse_object_literal_spec};
use crate::parser::switch::parse_switch_parts_spec;
use crate::text::cat2;
use crate::token::{Kw, Sym, TokKind, TokKindV, tok_name, tok_name_spec};

verus! {

broadcast use {crate::model::group_model, crate::token::group_token, crate::text::group_texts};

/// A parameter of a lambda that is only a name.
pub fn bare_param(name: String) -> (r: Param)
    ensures
        r.v() == bare_param_spec(name@),
{
    Param { name, ty: None, optional: false, default: None, rest: false, meta: Vec::new() }
}

impl Parser {
    /// A literal, a name, or an expression in brackets.
    pub fn parse_primary(&mut self) -> (r: PResult<Expr>)
        requires
            old(self).wf(),
        ensures
            final(self).wf(),
            final(self).cx() == old(self).cx(),
            parse_primary_spec(old(self).cx(), old(self).st()) == (match r { Ok(x) => Pr::Done(x.v(), final(self).st()), Err(e) => Pr::Fail(e.v()) }),
            final(self).st().pos >= old(self).st().pos,
            r is Ok ==> final(self).st().pos > old(self).st().pos,
            r is Ok ==> final(self).st().extra == old(self).st().extra,
            r matches Ok(e) ==> !(e.v() is Binary),
        decreases old(self).left(), 43int,
    {
        proof {
            reveal(parse_primary_spec);
            reveal(parse_new_spec);
            reveal(parse_if_expr_spec);
            reveal(parse_anon_function_spec);
            reveal(parse_switch_parts_spec);
            reveal(parse_lambda_body_spec);
            reveal(parse_paren_or_lambda_spec);
            reveal(parse_array_or_comprehension_spec);
            reveal(parse_object_literal_spec);
        }
        match self.peek() {
            // Leading expression metadata (`@sink new Vertex(...)`) is carried on a
            // wrapper, transparent to type and value.
            TokKind::Meta(_) => {
                let mut first: Vec<Meta> = Vec::new();
                let m = self.parse_meta()?;
                first.push(m);
                let meta = self.parse_metas(first)?;
                let inner = self.parse_primary()?;
                Ok(Expr::Meta(meta, Box::new(inner)))
            },
            TokKind::Int(s) => {
                let s = s.clone();
                self.bump();
                Ok(Expr::Int(s))
            },
            TokKind::Float(s) => {
                let s = s.clone();
                self.bump();
                Ok(Expr::Float(s))
            },
            TokKind::Str { raw, interpolated } => {
                let raw = raw.clone();
                let interpolated = *interpolated;
                self.bump();
                Ok(Expr::Str { raw, interpolated })
            },
            TokKind::Regex { pattern, flags } => {
                let pattern = pattern.clone();
                let flags = flags.clone();
                self.bump();
                Ok(Expr::Regex { pattern, flags })
            },
            TokKind::Kw(Kw::True) => {
                self.bump();
                Ok(Expr::Bool(true))
            },
            TokKind::Kw(Kw::False) => {
                self.bump();
                Ok(Expr::Bool(false))
            },
            TokKind::Kw(Kw::Null) => {
                self.bump();
                Ok(Expr::Null)
            },
            TokKind::Kw(Kw::This) => {
                self.bump();
                Ok(Expr::This)
            },
            TokKind::Kw(Kw::Super) => {
                self.bump();
                Ok(Expr::Super)
            },
            TokKind::Kw(Kw::New) => self.parse_new(),
            TokKind::Kw(Kw::If) => self.parse_if_expr(),
            TokKind::Kw(Kw::Function) => self.parse_anon_function(),
            TokKind::Kw(Kw::Switch) => {
                let (subject, cases, default) = self.parse_switch_parts()?;
                Ok(Expr::Switch { subject: Box::new(subject), cases, default })
            },
            TokKind::Ident(name) => {
                let name = name.clone();
                self.bump();
                if self.eat_sym(Sym::Arrow) {
                    // single-parameter lambda `x -> expr`
                    let mut params: Vec<Param> = Vec::new();
                    params.push(bare_param(name));
                    let body = self.parse_lambda_body()?;
                    return Ok(Expr::Lambda { params, ret: None, body: Box::new(body) });
                }
                Ok(Expr::Ident(name))
            },
            TokKind::Sym(Sym::LParen) => self.parse_paren_or_lambda(),
            TokKind::Sym(Sym::LBracket) => self.parse_array_or_comprehension(),
            TokKind::Sym(Sym::LBrace) => self.parse_object_literal(),
            other => Err(self.err(&cat2("unexpected token in expression: ", &tok_name(other)))),
        }
    }
}

/// What [`bare_param`] computes.
pub open spec fn bare_param_spec(name: Seq<char>) -> ParamV
{
    ParamV { name, ty: None, optional: false, default: None, rest: false, meta: Seq::empty() }
}

/// What [`Parser::parse_primary`] computes.
#[verifier::opaque]
pub open spec fn parse_primary_spec(c: Ctx, st: St) -> Pr<ExprV>
    decreases c.toks.len() - st.pos, 43int,
{
    match peek_spec(c, st) {
        TokKindV::Meta(_) => {
            let first: Seq<MetaV> = Seq::empty();
            match step(c, st, parse_meta_spec(c, st)) {
                Pr::Fail(e) => Pr::Fail(e),
                Pr::Done(m, st) => {
                    let first = first.push(m);
                    match stay(c, st, parse_metas_spec(c, st, first)) {
                        Pr::Fail(e) => Pr::Fail(e),
                        Pr::Done(meta, st) => {
                            match step(c, st, parse_primary_spec(c, st)) {
                                Pr::Fail(e) => Pr::Fail(e),
                                Pr::Done(inner, st) => { Pr::Done(ExprV::Meta(meta, Box::new(inner)), st) },
                            }
                        },
                    }
                },
            }
        },
        TokKindV::Int(s) => {
            let s = s;
            let st = bump_spec(c, st);
            Pr::Done(ExprV::Int(s), st)
        },
        TokKindV::Float(s) => {
            let s = s;
            let st = bump_spec(c, st);
            Pr::Done(ExprV::Float(s), st)
        },
        TokKindV::Str { raw, interpolated } => {
            let raw = raw;
            let interpolated = interpolated;
            let st = bump_spec(c, st);
            Pr::Done(ExprV::Str { raw, interpolated }, st)
        },
        TokKindV::Regex { pattern, flags } => {
            let pattern = pattern;
            let flags = flags;
            let st = bump_spec(c, st);
            Pr::Done(ExprV::Regex { pattern, flags }, st)
        },
        TokKindV::Kw(Kw::True) => {
            let st = bump_spec(c, st);
            Pr::Done(ExprV::Bool(true), st)
        },
        TokKindV::Kw(Kw::False) => {
            let st = bump_spec(c, st);
            Pr::Done(ExprV::Bool(false), st)
        },
        TokKindV::Kw(Kw::Null) => {
            let st = bump_spec(c, st);
            Pr::Done(ExprV::Null, st)
        },
        TokKindV::Kw(Kw::This) => {
            let st = bump_spec(c, st);
            Pr::Done(ExprV::This, st)
        },
        TokKindV::Kw(Kw::Super) => {
            let st = bump_spec(c, st);
            Pr::Done(ExprV::Super, st)
        },
        TokKindV::Kw(Kw::New) => { parse_new_spec(c, st) },
        TokKindV::Kw(Kw::If) => { parse_if_expr_spec(c, st) },
        TokKindV::Kw(Kw::Function) => { parse_anon_function_spec(c, st) },
        TokKindV::Kw(Kw::Switch) => {
            match step(c, st, parse_switch_parts_spec(c, st)) {
                Pr::Fail(e) => Pr::Fail(e),
                Pr::Done((subject, cases, default), st) => { Pr::Done(ExprV::Switch { subject: Box::new(subject), cases, default }, st) },
            }
        },
        TokKindV::Ident(name) => {
            let name = name;
            let st = bump_spec(c, st);
            let (st, x1) = eat_sym_spec(c, st, Sym::Arrow);
            if x1 {
                let params: Seq<ParamV> = Seq::empty();
                let params = params.push(bare_param_spec(name));
                match step(c, st, parse_lambda_body_spec(c, st)) {
                    Pr::Fail(e) => Pr::Fail(e),
                    Pr::Done(body, st) => { Pr::Done(ExprV::Lambda { params, ret: None, body: Box::new(body) }, st) },
                }
            } else { Pr::Done(ExprV::Ident(name), st) }
        },
        TokKindV::Sym(Sym::LParen) => { parse_paren_or_lambda_spec(c, st) },
        TokKindV::Sym(Sym::LBracket) => { parse_array_or_comprehension_spec(c, st) },
        TokKindV::Sym(Sym::LBrace) => { parse_object_literal_spec(c, st) },
        other => {
            Pr::Fail(err_spec(c, st, "unexpected token in expression: "@ + tok_name_spec(other)))
        },
    }
}

} // verus!
