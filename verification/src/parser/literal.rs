//! Array, map and object literals.

use vstd::prelude::*;

use crate::ast::Expr;
use crate::model::{ExprV, expr_exprs_v, exprs_v, text_exprs_v};
use crate::parser::comprehension::parse_comprehension_tail_spec;
use crate::parser::cursor::{Ctx, PResult, Parser, Pr, St, at_kw_spec, eat_sym_spec, expect_sym_spec, step};
use crate::parser::expr::parse_expr_spec;
use crate::parser::types::field_key_spec;
use crate::token::{Kw, Sym};

verus! {

broadcast use {crate::model::group_model, crate::token::group_token, crate::text::group_texts};

impl Parser {
    /// What stands between square brackets: elements, pairs or a comprehension.
    pub fn parse_array_or_comprehension(&mut self) -> (r: PResult<Expr>)
        requires
            old(self).wf(),
        ensures
            final(self).wf(),
            final(self).cx() == old(self).cx(),
            parse_array_or_comprehension_spec(old(self).cx(), old(self).st()) == (match r { Ok(x) => Pr::Done(x.v(), final(self).st()), Err(e) => Pr::Fail(e.v()) }),
            final(self).st().pos >= old(self).st().pos,
            r is Ok ==> final(self).st().pos > old(self).st().pos,
            r is Ok ==> final(self).st().extra == old(self).st().extra,
            r matches Ok(e) ==> !(e.v() is Binary),
        decreases old(self).left(), 30int,
    {
        proof {
            reveal(parse_array_or_comprehension_spec);
            reveal(parse_comprehension_tail_spec);
            reveal(parse_expr_spec);
            reveal(parse_map_rest_spec);
            reveal(parse_array_rest_spec);
        }
        self.expect_sym(Sym::LBracket)?;
        if self.at_kw(Kw::For) {
            return self.parse_comprehension_tail();
        }
        if self.eat_sym(Sym::RBracket) {
            return Ok(Expr::ArrayLit(Vec::new()));
        }
        let first = self.parse_expr()?;
        if self.eat_sym(Sym::FatArrow) {
            let v = self.parse_expr()?;
            let mut entries: Vec<(Expr, Expr)> = Vec::new();
            entries.push((first, v));
            let entries = self.parse_map_rest(entries)?;
            return Ok(Expr::MapLit(entries));
        }
        let mut elems: Vec<Expr> = Vec::new();
        elems.push(first);
        let elems = self.parse_array_rest(elems)?;
        Ok(Expr::ArrayLit(elems))
    }

    /// The elements up to the closing bracket.
    pub fn parse_array_rest(&mut self, elems: Vec<Expr>) -> (r: PResult<Vec<Expr>>)
        requires
            old(self).wf(),
        ensures
            final(self).wf(),
            final(self).cx() == old(self).cx(),
            parse_array_rest_spec(old(self).cx(), old(self).st(), exprs_v(elems@)) == (match r { Ok(x) => Pr::Done(exprs_v(x@), final(self).st()), Err(e) => Pr::Fail(e.v()) }),
            final(self).st().pos >= old(self).st().pos,
            r is Ok ==> final(self).st().pos > old(self).st().pos,
            r is Ok ==> final(self).st().extra == old(self).st().extra,
        decreases old(self).left(), 30int,
    {
        let ghost elems_0 = elems;
        let mut elems: Vec<Expr> = elems;
        #[verifier::loop_isolation(false)]
        loop
            invariant
                self.wf(),
                self.cx() == old(self).cx(),
                self.st().pos >= old(self).st().pos,
                parse_array_rest_spec(old(self).cx(), old(self).st(), exprs_v(elems_0@)) == parse_array_rest_spec(self.cx(), self.st(), exprs_v(elems@)),
                self.st().extra == old(self).st().extra,
            decreases self.left(),
        {
            proof {
                reveal(parse_array_rest_spec);
                reveal(parse_expr_spec);
            }
            if !self.eat_sym(Sym::Comma) {
                self.expect_sym(Sym::RBracket)?;
                return Ok(elems);
            }
            if self.eat_sym(Sym::RBracket) {
                return Ok(elems);
            }
            let e = self.parse_expr()?;
            elems.push(e);
        }
    }

    /// The pairs up to the closing bracket.
    pub fn parse_map_rest(&mut self, entries: Vec<(Expr, Expr)>) -> (r: PResult<Vec<(Expr, Expr)>>)
        requires
            old(self).wf(),
        ensures
            final(self).wf(),
            final(self).cx() == old(self).cx(),
            parse_map_rest_spec(old(self).cx(), old(self).st(), expr_exprs_v(entries@)) == (match r { Ok(x) => Pr::Done(expr_exprs_v(x@), final(self).st()), Err(e) => Pr::Fail(e.v()) }),
            final(self).st().pos >= old(self).st().pos,
            r is Ok ==> final(self).st().pos > old(self).st().pos,
            r is Ok ==> final(self).st().extra == old(self).st().extra,
        decreases old(self).left(), 30int,
    {
        let ghost entries_0 = entries;
        let mut entries: Vec<(Expr, Expr)> = entries;
        #[verifier::loop_isolation(false)]
        loop
            invariant
                self.wf(),
                self.cx() == old(self).cx(),
                self.st().pos >= old(self).st().pos,
                parse_map_rest_spec(old(self).cx(), old(self).st(), expr_exprs_v(entries_0@)) == parse_map_rest_spec(self.cx(), self.st(), expr_exprs_v(entries@)),
                self.st().extra == old(self).st().extra,
            decreases self.left(),
        {
            proof {
                reveal(parse_map_rest_spec);
                reveal(parse_expr_spec);
            }
            if !self.eat_sym(Sym::Comma) {
                self.expect_sym(Sym::RBracket)?;
                return Ok(entries);
            }
            if self.eat_sym(Sym::RBracket) {
                return Ok(entries);
            }
            let k = self.parse_expr()?;
            self.expect_sym(Sym::FatArrow)?;
            let v = self.parse_expr()?;
            entries.push((k, v));
        }
    }

    /// An object literal.
    pub fn parse_object_literal(&mut self) -> (r: PResult<Expr>)
        requires
            old(self).wf(),
        ensures
            final(self).wf(),
            final(self).cx() == old(self).cx(),
            parse_object_literal_spec(old(self).cx(), old(self).st()) == (match r { Ok(x) => Pr::Done(x.v(), final(self).st()), Err(e) => Pr::Fail(e.v()) }),
            final(self).st().pos >= old(self).st().pos,
            r is Ok ==> final(self).st().pos > old(self).st().pos,
            r is Ok ==> final(self).st().extra == old(self).st().extra,
            r matches Ok(e) ==> !(e.v() is Binary),
        decreases old(self).left(), 30int,
    {
        proof {
            reveal(parse_object_literal_spec);
            reveal(parse_object_rest_spec);
        }
        self.expect_sym(Sym::LBrace)?;
        if self.eat_sym(Sym::RBrace) {
            return Ok(Expr::ObjectLit(Vec::new()));
        }
        self.parse_object_rest(Vec::new())
    }

    /// The fields up to the closing brace.
    pub fn parse_object_rest(&mut self, fields: Vec<(String, Expr)>) -> (r: PResult<Expr>)
        requires
            old(self).wf(),
        ensures
            final(self).wf(),
            final(self).cx() == old(self).cx(),
            parse_object_rest_spec(old(self).cx(), old(self).st(), text_exprs_v(fields@)) == (match r { Ok(x) => Pr::Done(x.v(), final(self).st()), Err(e) => Pr::Fail(e.v()) }),
            final(self).st().pos >= old(self).st().pos,
            r is Ok ==> final(self).st().pos > old(self).st().pos,
            r is Ok ==> final(self).st().extra == old(self).st().extra,
            r matches Ok(e) ==> !(e.v() is Binary),
        decreases old(self).left(), 30int,
    {
        let ghost fields_0 = fields;
        let mut fields: Vec<(String, Expr)> = fields;
        #[verifier::loop_isolation(false)]
        loop
            invariant
                self.wf(),
                self.cx() == old(self).cx(),
                self.st().pos >= old(self).st().pos,
                parse_object_rest_spec(old(self).cx(), old(self).st(), text_exprs_v(fields_0@)) == parse_object_rest_spec(self.cx(), self.st(), text_exprs_v(fields@)),
                self.st().extra == old(self).st().extra,
            decreases self.left(),
        {
            proof {
                reveal(parse_object_rest_spec);
                reveal(parse_expr_spec);
            }
            let key = self.field_key()?;
            self.expect_sym(Sym::Colon)?;
            let value = self.parse_expr()?;
            fields.push((key, value));
            if !self.eat_sym(Sym::Comma) {
                self.expect_sym(Sym::RBrace)?;
                return Ok(Expr::ObjectLit(fields));
            }
            if self.eat_sym(Sym::RBrace) {
                return Ok(Expr::ObjectLit(fields));
            }
        }
    }
}

/// What [`Parser::parse_array_or_comprehension`] computes.
#[verifier::opaque]
pub open spec fn parse_array_or_comprehension_spec(c: Ctx, st: St) -> Pr<ExprV>
    decreases c.toks.len() - st.pos, 30int,
{
    match expect_sym_spec(c, st, Sym::LBracket) {
        Pr::Fail(e) => Pr::Fail(e),
        Pr::Done(_, st) => {
            if at_kw_spec(c, st, Kw::For) { parse_comprehension_tail_spec(c, st) } else {
                let (st, x1) = eat_sym_spec(c, st, Sym::RBracket);
                if x1 { Pr::Done(ExprV::ArrayLit(Seq::empty()), st) } else {
                    match step(c, st, parse_expr_spec(c, st)) {
                        Pr::Fail(e) => Pr::Fail(e),
                        Pr::Done(first, st) => {
                            let (st, x2) = eat_sym_spec(c, st, Sym::FatArrow);
                            if x2 {
                                match step(c, st, parse_expr_spec(c, st)) {
                                    Pr::Fail(e) => Pr::Fail(e),
                                    Pr::Done(v, st) => {
                                        let entries: Seq<(ExprV, ExprV)> = Seq::empty();
                                        let entries = entries.push((first, v));
                                        match step(c, st, parse_map_rest_spec(c, st, entries)) {
                                            Pr::Fail(e) => Pr::Fail(e),
                                            Pr::Done(entries, st) => { Pr::Done(ExprV::MapLit(entries), st) },
                                        }
                                    },
                                }
                            } else {
                                let elems: Seq<ExprV> = Seq::empty();
                                let elems = elems.push(first);
                                match step(c, st, parse_array_rest_spec(c, st, elems)) {
                                    Pr::Fail(e) => Pr::Fail(e),
                                    Pr::Done(elems, st) => { Pr::Done(ExprV::ArrayLit(elems), st) },
                                }
                            }
                        },
                    }
                }
            }
        },
    }
}

/// What [`Parser::parse_array_rest`] computes.
#[verifier::opaque]
pub open spec fn parse_array_rest_spec(c: Ctx, st: St, elems: Seq<ExprV>) -> Pr<Seq<ExprV>>
    decreases c.toks.len() - st.pos, 30int,
{
    let (st, x1) = eat_sym_spec(c, st, Sym::Comma);
    if !x1 {
        match expect_sym_spec(c, st, Sym::RBracket) {
            Pr::Fail(e) => Pr::Fail(e),
            Pr::Done(_, st) => { Pr::Done(elems, st) },
        }
    } else {
        let (st, x2) = eat_sym_spec(c, st, Sym::RBracket);
        if x2 { Pr::Done(elems, st) } else {
            match step(c, st, parse_expr_spec(c, st)) {
                Pr::Fail(e) => Pr::Fail(e),
                Pr::Done(e, st) => {
                    let elems = elems.push(e);
                    parse_array_rest_spec(c, st, elems)
                },
            }
        }
    }
}

/// What [`Parser::parse_map_rest`] computes.
#[verifier::opaque]
pub open spec fn parse_map_rest_spec(c: Ctx, st: St, entries: Seq<(ExprV, ExprV)>) -> Pr<Seq<(ExprV, ExprV)>>
    decreases c.toks.len() - st.pos, 30int,
{
    let (st, x1) = eat_sym_spec(c, st, Sym::Comma);
    if !x1 {
        match expect_sym_spec(c, st, Sym::RBracket) {
            Pr::Fail(e) => Pr::Fail(e),
            Pr::Done(_, st) => { Pr::Done(entries, st) },
        }
    } else {
        let (st, x2) = eat_sym_spec(c, st, Sym::RBracket);
        if x2 { Pr::Done(entries, st) } else {
            match step(c, st, parse_expr_spec(c, st)) {
                Pr::Fail(e) => Pr::Fail(e),
                Pr::Done(k, st) => {
                    match expect_sym_spec(c, st, Sym::FatArrow) {
                        Pr::Fail(e) => Pr::Fail(e),
                        Pr::Done(_, st) => {
                            match step(c, st, parse_expr_spec(c, st)) {
                                Pr::Fail(e) => Pr::Fail(e),
                                Pr::Done(v, st) => {
                                    let entries = entries.push((k, v));
                                    parse_map_rest_spec(c, st, entries)
                                },
                            }
                        },
                    }
                },
            }
        }
    }
}

/// What [`Parser::parse_object_literal`] computes.
#[verifier::opaque]
pub open spec fn parse_object_literal_spec(c: Ctx, st: St) -> Pr<ExprV>
    decreases c.toks.len() - st.pos, 30int,
{
    match expect_sym_spec(c, st, Sym::LBrace) {
        Pr::Fail(e) => Pr::Fail(e),
        Pr::Done(_, st) => {
            let (st, x1) = eat_sym_spec(c, st, Sym::RBrace);
            if x1 { Pr::Done(ExprV::ObjectLit(Seq::empty()), st) } else { parse_object_rest_spec(c, st, Seq::empty()) }
        },
    }
}

/// What [`Parser::parse_object_rest`] computes.
#[verifier::opaque]
pub open spec fn parse_object_rest_spec(c: Ctx, st: St, fields: Seq<(Seq<char>, ExprV)>) -> Pr<ExprV>
    decreases c.toks.len() - st.pos, 30int,
{
    match field_key_spec(c, st) {
        Pr::Fail(e) => Pr::Fail(e),
        Pr::Done(key, st) => {
            match expect_sym_spec(c, st, Sym::Colon) {
                Pr::Fail(e) => Pr::Fail(e),
                Pr::Done(_, st) => {
                    match step(c, st, parse_expr_spec(c, st)) {
                        Pr::Fail(e) => Pr::Fail(e),
                        Pr::Done(value, st) => {
                            let fields = fields.push((key, value));
                            let (st, x1) = eat_sym_spec(c, st, Sym::Comma);
                            if !x1 {
                                match expect_sym_spec(c, st, Sym::RBrace) {
                                    Pr::Fail(e) => Pr::Fail(e),
                                    Pr::Done(_, st) => { Pr::Done(ExprV::ObjectLit(fields), st) },
                                }
                            } else {
                                let (st, x2) = eat_sym_spec(c, st, Sym::RBrace);
                                if x2 { Pr::Done(ExprV::ObjectLit(fields), st) } else { parse_object_rest_spec(c, st, fields) }
                            }
                        },
                    }
                },
            }
        },
    }
}

} // verus!
