//! `switch`, shared by its statement and expression forms.

use vstd::prelude::*;

use crate::ast::{BinOp, Case, Expr, Stmt};
use crate::model::{CaseV, ExprV, StmtV, cases_v, exprs_v, stmts_v};
use crate::parser::block::parse_case_body_spec;
use crate::parser::cursor::{Ctx, PResult, Parser, Pr, St, at_eof_spec, eat_kw_spec, eat_sym_spec, err_spec, expect_sym_kw_spec, expect_sym_spec, line_spec, stay, step};
use crate::parser::expr::parse_expr_spec;
use crate::text::same;
use crate::token::{Kw, Sym};

verus! {

broadcast use {crate::model::group_model, crate::token::group_token, crate::text::group_texts};

/// The alternatives of a pattern: a top-level `|` separates them.
pub fn flatten_or_pattern(e: &Expr) -> (r: Vec<Expr>)
    ensures
        exprs_v(r@) == flatten_or_pattern_spec(e.v()),
    decreases e,
{
    match e.node() {
        Expr::Binary { op: BinOp::BitOr, lhs, rhs } => {
            let mut out = flatten_or_pattern(lhs);
            let mut more = flatten_or_pattern(rhs);
            out.append(&mut more);
            out
        },
        other => {
            let mut out: Vec<Expr> = Vec::new();
            out.push(other.dup());
            out
        },
    }
}

/// The patterns from `i` on, with `a | b` taken apart.
pub fn flatten_patterns(ps: &Vec<Expr>, i: usize, out: Vec<Expr>) -> (r: Vec<Expr>)
    ensures
        exprs_v(r@) == flatten_patterns_spec(exprs_v(ps@), (i as int), exprs_v(out@)),
{
    let ghost i_0 = i;
    let ghost out_0 = out;
    let mut i: usize = i;
    let mut out: Vec<Expr> = out;
    #[verifier::loop_isolation(false)]
    loop
        invariant
            flatten_patterns_spec(exprs_v(ps@), (i_0 as int), exprs_v(out_0@)) == flatten_patterns_spec(exprs_v(ps@), (i as int), exprs_v(out@)),
        decreases ps.len() - i,
    {
        if i >= ps.len() {
            return out;
        }
        let mut more = flatten_or_pattern(&ps[i]);
        out.append(&mut more);
        i = i + 1;
    }
}

/// Whether one of the patterns is Haxe's `_` wildcard.
pub open spec fn has_wildcard_spec(ps: Seq<ExprV>) -> bool {
    exists|i: int| 0 <= i < ps.len() && is_wildcard_pattern_spec(#[trigger] ps[i])
}

/// Whether a pattern is `_`.
pub fn is_wildcard_pattern(e: &Expr) -> (r: bool)
    ensures
        r == is_wildcard_pattern_spec(e.v()),
{
    matches!(e.node(), Expr::Ident(n) if same(n, "_"))
}

/// Whether one of the patterns is `_`.
pub fn has_wildcard(ps: &Vec<Expr>) -> (r: bool)
    ensures
        r == has_wildcard_spec(exprs_v(ps@)),
{
    let mut i: usize = 0;
    while i < ps.len()
        invariant
            i <= ps.len(),
            forall|j: int| 0 <= j < i ==> !is_wildcard_pattern_spec(#[trigger] exprs_v(ps@)[j]),
        decreases ps.len() - i,
    {
        if is_wildcard_pattern(&ps[i]) {
            proof {
                assert(is_wildcard_pattern_spec(exprs_v(ps@)[i as int]));
            }
            return true;
        }
        proof {
            assert(exprs_v(ps@)[i as int] == ps@[i as int].v());
        }
        i += 1;
    }
    false
}

impl Parser {
    /// `switch (x) { .. }`.
    pub fn parse_switch(&mut self) -> (r: PResult<Stmt>)
        requires
            old(self).wf(),
        ensures
            final(self).wf(),
            final(self).cx() == old(self).cx(),
            parse_switch_spec(old(self).cx(), old(self).st()) == (match r { Ok(x) => Pr::Done(x.v(), final(self).st()), Err(e) => Pr::Fail(e.v()) }),
            final(self).st().pos >= old(self).st().pos,
            r is Ok ==> final(self).st().pos > old(self).st().pos,
            r is Ok ==> final(self).st().extra == old(self).st().extra,
        decreases old(self).left(), 30int,
    {
        proof {
            reveal(parse_switch_spec);
            reveal(parse_switch_parts_spec);
        }
        let line: usize = self.line();
        let (subject, cases, default) = self.parse_switch_parts()?;
        Ok(Stmt::Switch { subject, cases, default, line })
    }

    /// `switch (subject) { case …: …; default: … }`, shared by the statement and
    /// expression forms. The leading `switch` keyword is current.
    pub fn parse_switch_parts(&mut self) -> (r: PResult<(Expr, Vec<Case>, Option<Vec<Stmt>>)>)
        requires
            old(self).wf(),
        ensures
            final(self).wf(),
            final(self).cx() == old(self).cx(),
            parse_switch_parts_spec(old(self).cx(), old(self).st()) == (match r { Ok(x) => Pr::Done((x.0.v(), cases_v(x.1@), (match x.2 { Some(y) => Some(stmts_v(y@)), None => None })), final(self).st()), Err(e) => Pr::Fail(e.v()) }),
            final(self).st().pos >= old(self).st().pos,
            r is Ok ==> final(self).st().pos > old(self).st().pos,
            r is Ok ==> final(self).st().extra == old(self).st().extra,
        decreases old(self).left(), 25int,
    {
        proof {
            reveal(parse_switch_parts_spec);
            reveal(parse_expr_spec);
            reveal(parse_cases_spec);
        }
        self.expect_sym_kw(Kw::Switch)?;
        let paren = self.eat_sym(Sym::LParen);
        let subject = self.parse_expr()?;
        if paren {
            self.expect_sym(Sym::RParen)?;
        }
        self.expect_sym(Sym::LBrace)?;
        let (cases, default) = self.parse_cases(Vec::new(), None)?;
        Ok((subject, cases, default))
    }

    /// The cases up to the closing brace.
    pub fn parse_cases(&mut self, cases: Vec<Case>, default: Option<Vec<Stmt>>) -> (r: PResult<(Vec<Case>, Option<Vec<Stmt>>)>)
        requires
            old(self).wf(),
        ensures
            final(self).wf(),
            final(self).cx() == old(self).cx(),
            parse_cases_spec(old(self).cx(), old(self).st(), cases_v(cases@), (match default { Some(y) => Some(stmts_v(y@)), None => None })) == (match r { Ok(x) => Pr::Done((cases_v(x.0@), (match x.1 { Some(y) => Some(stmts_v(y@)), None => None })), final(self).st()), Err(e) => Pr::Fail(e.v()) }),
            final(self).st().pos >= old(self).st().pos,
            r is Ok ==> final(self).st().pos > old(self).st().pos,
            r is Ok ==> final(self).st().extra == old(self).st().extra,
        decreases old(self).left(), 25int,
    {
        let ghost cases_0 = cases;
        let ghost default_0 = default;
        let mut cases: Vec<Case> = cases;
        let mut default: Option<Vec<Stmt>> = default;
        #[verifier::loop_isolation(false)]
        loop
            invariant
                self.wf(),
                self.cx() == old(self).cx(),
                self.st().pos >= old(self).st().pos,
                parse_cases_spec(old(self).cx(), old(self).st(), cases_v(cases_0@), (match default_0 { Some(y) => Some(stmts_v(y@)), None => None })) == parse_cases_spec(self.cx(), self.st(), cases_v(cases@), (match default { Some(y) => Some(stmts_v(y@)), None => None })),
                self.st().extra == old(self).st().extra,
            decreases self.left(),
        {
            proof {
                reveal(parse_cases_spec);
                reveal(parse_patterns_spec);
                reveal(parse_case_body_spec);
            }
            if self.eat_sym(Sym::RBrace) {
                return Ok((cases, default));
            }
            if self.at_eof() {
                return Err(self.err("expected RBrace, found Eof"));
            }
            if self.eat_kw(Kw::Case) {
                let listed = self.parse_patterns(Vec::new())?;
                self.expect_sym(Sym::Colon)?;
                let body = self.parse_case_body()?;
                // In pattern position `|` is Haxe's or-pattern: `case A | B:` lists the same
                // alternatives as `case A, B:`.
                let patterns = flatten_patterns(&listed, 0, Vec::new());
                // `case _:` is Haxe's wildcard: the spelling of `default`.
                if has_wildcard(&patterns) {
                    if default.is_some() {
                        return Err(self.err(
                            "duplicate catch-all: this switch already has a `default:` or `case _:`"));
                    }
                    default = Some(body);
                } else {
                    cases.push(Case { patterns, body });
                }
            } else if self.eat_kw(Kw::Default) {
                self.expect_sym(Sym::Colon)?;
                if default.is_some() {
                    return Err(self.err(
                        "duplicate catch-all: this switch already has a `default:` or `case _:`"));
                }
                let body = self.parse_case_body()?;
                default = Some(body);
            } else {
                return Err(self.err("expected 'case' or 'default' in switch"));
            }
        }
    }

    /// The patterns of a case.
    pub fn parse_patterns(&mut self, patterns: Vec<Expr>) -> (r: PResult<Vec<Expr>>)
        requires
            old(self).wf(),
        ensures
            final(self).wf(),
            final(self).cx() == old(self).cx(),
            parse_patterns_spec(old(self).cx(), old(self).st(), exprs_v(patterns@)) == (match r { Ok(x) => Pr::Done(exprs_v(x@), final(self).st()), Err(e) => Pr::Fail(e.v()) }),
            final(self).st().pos >= old(self).st().pos,
            r is Ok ==> final(self).st().pos > old(self).st().pos,
            r is Ok ==> final(self).st().extra == old(self).st().extra,
        decreases old(self).left(), 51int,
    {
        let ghost patterns_0 = patterns;
        let mut patterns: Vec<Expr> = patterns;
        #[verifier::loop_isolation(false)]
        loop
            invariant
                self.wf(),
                self.cx() == old(self).cx(),
                self.st().pos >= old(self).st().pos,
                parse_patterns_spec(old(self).cx(), old(self).st(), exprs_v(patterns_0@)) == parse_patterns_spec(self.cx(), self.st(), exprs_v(patterns@)),
                self.st().extra == old(self).st().extra,
            decreases self.left(),
        {
            proof {
                reveal(parse_patterns_spec);
                reveal(parse_expr_spec);
            }
            let p = self.parse_expr()?;
            patterns.push(p);
            if !self.eat_sym(Sym::Comma) {
                return Ok(patterns);
            }
        }
    }
}

/// What [`flatten_or_pattern`] computes.
pub open spec fn flatten_or_pattern_spec(e: ExprV) -> Seq<ExprV>
    decreases e,
{
    match e {
        ExprV::Binary { op: BinOp::BitOr, lhs, rhs } => {
            let out = flatten_or_pattern_spec(*lhs);
            let more = flatten_or_pattern_spec(*rhs);
            let out = out + more;
            out
        },
        other => {
            let out: Seq<ExprV> = Seq::empty();
            let out = out.push(other);
            out
        },
    }
}

/// What [`flatten_patterns`] computes.
pub open spec fn flatten_patterns_spec(ps: Seq<ExprV>, i: int, out: Seq<ExprV>) -> Seq<ExprV>
    decreases ps.len() - i,
{
    if !(0 <= i < ps.len()) { out } else {
        let more = flatten_or_pattern_spec(ps[i]);
        let out = out + more;
        let i = i + 1;
        flatten_patterns_spec(ps, i, out)
    }
}

/// What [`is_wildcard_pattern`] computes.
pub open spec fn is_wildcard_pattern_spec(e: ExprV) -> bool
{
    (match e { ExprV::Ident(n) => (n == "_"@), _ => false })
}

/// What [`Parser::parse_switch`] computes.
#[verifier::opaque]
pub open spec fn parse_switch_spec(c: Ctx, st: St) -> Pr<StmtV>
    decreases c.toks.len() - st.pos, 30int,
{
    let line: int = line_spec(c, st);
    match step(c, st, parse_switch_parts_spec(c, st)) {
        Pr::Fail(e) => Pr::Fail(e),
        Pr::Done((subject, cases, default), st) => { Pr::Done(StmtV::Switch { subject, cases, default, line }, st) },
    }
}

/// What [`Parser::parse_switch_parts`] computes.
#[verifier::opaque]
pub open spec fn parse_switch_parts_spec(c: Ctx, st: St) -> Pr<(ExprV, Seq<CaseV>, Option<Seq<StmtV>>)>
    decreases c.toks.len() - st.pos, 25int,
{
    match expect_sym_kw_spec(c, st, Kw::Switch) {
        Pr::Fail(e) => Pr::Fail(e),
        Pr::Done(_, st) => {
            let (st, paren) = eat_sym_spec(c, st, Sym::LParen);
            match step(c, st, parse_expr_spec(c, st)) {
                Pr::Fail(e) => Pr::Fail(e),
                Pr::Done(subject, st) => {
                    match { if paren {
                            match expect_sym_spec(c, st, Sym::RParen) {
                                Pr::Fail(e) => Pr::Fail(e),
                                Pr::Done(_, st) => { Pr::Done((), st) },
                            }
                        } else { Pr::Done((), st) } } {
                        Pr::Fail(e) => Pr::Fail(e),
                        Pr::Done(_, st) => {
                            match expect_sym_spec(c, st, Sym::LBrace) {
                                Pr::Fail(e) => Pr::Fail(e),
                                Pr::Done(_, st) => {
                                    match step(c, st, parse_cases_spec(c, st, Seq::empty(), None)) {
                                        Pr::Fail(e) => Pr::Fail(e),
                                        Pr::Done((cases, default), st) => { Pr::Done((subject, cases, default), st) },
                                    }
                                },
                            }
                        },
                    }
                },
            }
        },
    }
}

/// What [`Parser::parse_cases`] computes.
#[verifier::opaque]
pub open spec fn parse_cases_spec(c: Ctx, st: St, cases: Seq<CaseV>, default: Option<Seq<StmtV>>) -> Pr<(Seq<CaseV>, Option<Seq<StmtV>>)>
    decreases c.toks.len() - st.pos, 25int,
{
    let (st, x1) = eat_sym_spec(c, st, Sym::RBrace);
    if x1 { Pr::Done((cases, default), st) } else {
        match { if at_eof_spec(c, st) { Pr::Fail(err_spec(c, st, "expected RBrace, found Eof"@)) } else { Pr::Done((), st) } } {
            Pr::Fail(e) => Pr::Fail(e),
            Pr::Done(_, st) => {
                let (st, x2) = eat_kw_spec(c, st, Kw::Case);
                if x2 {
                    match step(c, st, parse_patterns_spec(c, st, Seq::empty())) {
                        Pr::Fail(e) => Pr::Fail(e),
                        Pr::Done(listed, st) => {
                            match expect_sym_spec(c, st, Sym::Colon) {
                                Pr::Fail(e) => Pr::Fail(e),
                                Pr::Done(_, st) => {
                                    match stay(c, st, parse_case_body_spec(c, st)) {
                                        Pr::Fail(e) => Pr::Fail(e),
                                        Pr::Done(body, st) => {
                                            let patterns = flatten_patterns_spec(listed, 0int, Seq::empty());
                                            if has_wildcard_spec(patterns) {
                                                match { if default is Some {
                                                        Pr::Fail(err_spec(c, st, "duplicate catch-all: this switch already has a `default:` or `case _:`"@))
                                                    } else { Pr::Done((), st) } } {
                                                    Pr::Fail(e) => Pr::Fail(e),
                                                    Pr::Done(_, st) => {
                                                        let default = Some(body);
                                                        parse_cases_spec(c, st, cases, default)
                                                    },
                                                }
                                            } else {
                                                let cases = cases.push(CaseV { patterns, body });
                                                parse_cases_spec(c, st, cases, default)
                                            }
                                        },
                                    }
                                },
                            }
                        },
                    }
                } else {
                    let (st, x3) = eat_kw_spec(c, st, Kw::Default);
                    if x3 {
                        match expect_sym_spec(c, st, Sym::Colon) {
                            Pr::Fail(e) => Pr::Fail(e),
                            Pr::Done(_, st) => {
                                match { if default is Some {
                                        Pr::Fail(err_spec(c, st, "duplicate catch-all: this switch already has a `default:` or `case _:`"@))
                                    } else { Pr::Done((), st) } } {
                                    Pr::Fail(e) => Pr::Fail(e),
                                    Pr::Done(_, st) => {
                                        match stay(c, st, parse_case_body_spec(c, st)) {
                                            Pr::Fail(e) => Pr::Fail(e),
                                            Pr::Done(body, st) => {
                                                let default = Some(body);
                                                parse_cases_spec(c, st, cases, default)
                                            },
                                        }
                                    },
                                }
                            },
                        }
                    } else { Pr::Fail(err_spec(c, st, "expected 'case' or 'default' in switch"@)) }
                }
            },
        }
    }
}

/// What [`Parser::parse_patterns`] computes.
#[verifier::opaque]
pub open spec fn parse_patterns_spec(c: Ctx, st: St, patterns: Seq<ExprV>) -> Pr<Seq<ExprV>>
    decreases c.toks.len() - st.pos, 51int,
{
    match step(c, st, parse_expr_spec(c, st)) {
        Pr::Fail(e) => Pr::Fail(e),
        Pr::Done(p, st) => {
            let patterns = patterns.push(p);
            let (st, x1) = eat_sym_spec(c, st, Sym::Comma);
            if !x1 { Pr::Done(patterns, st) } else { parse_patterns_spec(c, st, patterns) }
        },
    }
}

} // verus!
