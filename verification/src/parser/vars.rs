//! Type annotations, initialisers and local variable declarations.

use vstd::prelude::*;

use crate::ast::{Expr, Stmt, Type};
use crate::model::{ExprV, StmtV, TypeV};
use crate::parser::cursor::{Ctx, PResult, Parser, Pr, St, at_kw_spec, bump_spec, eat_sym_spec, expect_ident_spec, hold_spec, stay, step};
use crate::parser::expr::parse_expr_spec;
use crate::parser::types::parse_type_spec;
use crate::token::{Kw, Sym};

verus! {

broadcast use {crate::model::group_model, crate::token::group_token, crate::text::group_texts};

impl Parser {
    /// `: Type`, where it stands.
    pub fn parse_opt_type(&mut self) -> (r: PResult<Option<Type>>)
        requires
            old(self).wf(),
        ensures
            final(self).wf(),
            final(self).cx() == old(self).cx(),
            parse_opt_type_spec(old(self).cx(), old(self).st()) == (match r { Ok(x) => Pr::Done((match x { Some(y) => Some(y.v()), None => None }), final(self).st()), Err(e) => Pr::Fail(e.v()) }),
            final(self).st().pos >= old(self).st().pos,
            r is Ok ==> final(self).st().extra == old(self).st().extra,
        decreases old(self).left(), 5int,
    {
        proof {
            reveal(parse_opt_type_spec);
            reveal(parse_type_spec);
        }
        if self.eat_sym(Sym::Colon) {
            let t = self.parse_type()?;
            Ok(Some(t))
        } else {
            Ok(None)
        }
    }

    /// `= expr`, where it stands.
    pub fn parse_opt_init(&mut self) -> (r: PResult<Option<Expr>>)
        requires
            old(self).wf(),
        ensures
            final(self).wf(),
            final(self).cx() == old(self).cx(),
            parse_opt_init_spec(old(self).cx(), old(self).st()) == (match r { Ok(x) => Pr::Done((match x { Some(y) => Some(y.v()), None => None }), final(self).st()), Err(e) => Pr::Fail(e.v()) }),
            final(self).st().pos >= old(self).st().pos,
            r is Ok ==> final(self).st().extra == old(self).st().extra,
        decreases old(self).left(), 5int,
    {
        proof {
            reveal(parse_opt_init_spec);
            reveal(parse_expr_spec);
        }
        if self.eat_sym(Sym::Assign) {
            let e = self.parse_expr()?;
            Ok(Some(e))
        } else {
            Ok(None)
        }
    }

    /// A `var`/`final` local declaration (the keyword is current). `delete` carries an
    /// `@delete` marker requesting a scope-close free; `sink` carries an `@sink` marker
    /// suppressing it.
    pub fn parse_var_stmt(&mut self, line: usize, delete: bool, sink: bool) -> (r: PResult<Stmt>)
        requires
            old(self).wf(),
            old(self).at_decl(),
        ensures
            final(self).wf(),
            final(self).cx() == old(self).cx(),
            parse_var_stmt_spec(old(self).cx(), old(self).st(), (line as int), delete, sink) == (match r { Ok(x) => Pr::Done(x.v(), final(self).st()), Err(e) => Pr::Fail(e.v()) }),
            final(self).st().pos >= old(self).st().pos,
            r is Ok ==> final(self).st().pos > old(self).st().pos,
        decreases old(self).left(), 30int,
    {
        proof {
            reveal(parse_var_stmt_spec);
            reveal(parse_opt_type_spec);
            reveal(parse_opt_init_spec);
            reveal(parse_more_vars_spec);
        }
        let is_final = self.at_kw(Kw::Final);
        self.bump();
        let name = self.expect_ident()?;
        let ty = self.parse_opt_type()?;
        let init = self.parse_opt_init()?;
        self.parse_more_vars(is_final, delete, sink, line)?;
        self.eat_sym(Sym::Semi);
        Ok(Stmt::Var { name, ty, init, is_final, delete, sink, line })
    }

    /// `var a = 1, b:Int = 2;`: each further declarator is its own `Stmt::Var`, kept for
    /// the enclosing statement list.
    pub fn parse_more_vars(&mut self, is_final: bool, delete: bool, sink: bool, line: usize) -> (r: PResult<()>)
        requires
            old(self).wf(),
        ensures
            final(self).wf(),
            final(self).cx() == old(self).cx(),
            parse_more_vars_spec(old(self).cx(), old(self).st(), is_final, delete, sink, (line as int)) == (match r { Ok(x) => Pr::Done((), final(self).st()), Err(e) => Pr::Fail(e.v()) }),
            final(self).st().pos >= old(self).st().pos,
        decreases old(self).left(), 30int,
    {
        #[verifier::loop_isolation(false)]
        loop
            invariant
                self.wf(),
                self.cx() == old(self).cx(),
                self.st().pos >= old(self).st().pos,
                parse_more_vars_spec(old(self).cx(), old(self).st(), is_final, delete, sink, (line as int)) == parse_more_vars_spec(self.cx(), self.st(), is_final, delete, sink, (line as int)),
            decreases self.left(),
        {
            proof {
                reveal(parse_more_vars_spec);
                reveal(parse_opt_type_spec);
                reveal(parse_opt_init_spec);
            }
            if !self.eat_sym(Sym::Comma) {
                return Ok(());
            }
            let name = self.expect_ident()?;
            let ty = self.parse_opt_type()?;
            let init = self.parse_opt_init()?;
            self.hold(Stmt::Var { name, ty, init, is_final, delete, sink, line });
        }
    }

    /// Whether a `var` or `final` is current.
    pub open spec fn at_decl(&self) -> bool {
        at_kw_spec(self.cx(), self.st(), Kw::Var) || at_kw_spec(self.cx(), self.st(), Kw::Final)
    }
}

/// What [`Parser::parse_opt_type`] computes.
#[verifier::opaque]
pub open spec fn parse_opt_type_spec(c: Ctx, st: St) -> Pr<Option<TypeV>>
    decreases c.toks.len() - st.pos, 5int,
{
    let (st, x1) = eat_sym_spec(c, st, Sym::Colon);
    if x1 {
        match step(c, st, parse_type_spec(c, st)) {
            Pr::Fail(e) => Pr::Fail(e),
            Pr::Done(t, st) => { Pr::Done(Some(t), st) },
        }
    } else { Pr::Done(None, st) }
}

/// What [`Parser::parse_opt_init`] computes.
#[verifier::opaque]
pub open spec fn parse_opt_init_spec(c: Ctx, st: St) -> Pr<Option<ExprV>>
    decreases c.toks.len() - st.pos, 5int,
{
    let (st, x1) = eat_sym_spec(c, st, Sym::Assign);
    if x1 {
        match step(c, st, parse_expr_spec(c, st)) {
            Pr::Fail(e) => Pr::Fail(e),
            Pr::Done(e, st) => { Pr::Done(Some(e), st) },
        }
    } else { Pr::Done(None, st) }
}

/// What [`Parser::parse_var_stmt`] computes.
#[verifier::opaque]
pub open spec fn parse_var_stmt_spec(c: Ctx, st: St, line: int, delete: bool, sink: bool) -> Pr<StmtV>
    decreases c.toks.len() - st.pos, 30int,
{
    let is_final = at_kw_spec(c, st, Kw::Final);
    let st = bump_spec(c, st);
    match expect_ident_spec(c, st) {
        Pr::Fail(e) => Pr::Fail(e),
        Pr::Done(name, st) => {
            match stay(c, st, parse_opt_type_spec(c, st)) {
                Pr::Fail(e) => Pr::Fail(e),
                Pr::Done(ty, st) => {
                    match stay(c, st, parse_opt_init_spec(c, st)) {
                        Pr::Fail(e) => Pr::Fail(e),
                        Pr::Done(init, st) => {
                            match stay(c, st, parse_more_vars_spec(c, st, is_final, delete, sink, line)) {
                                Pr::Fail(e) => Pr::Fail(e),
                                Pr::Done(_, st) => {
                                    let (st, _) = eat_sym_spec(c, st, Sym::Semi);
                                    Pr::Done(StmtV::Var { name, ty, init, is_final, delete, sink, line }, st)
                                },
                            }
                        },
                    }
                },
            }
        },
    }
}

/// What [`Parser::parse_more_vars`] computes.
#[verifier::opaque]
pub open spec fn parse_more_vars_spec(c: Ctx, st: St, is_final: bool, delete: bool, sink: bool, line: int) -> Pr<()>
    decreases c.toks.len() - st.pos, 30int,
{
    let (st, x1) = eat_sym_spec(c, st, Sym::Comma);
    if !x1 { Pr::Done((), st) } else {
        match expect_ident_spec(c, st) {
            Pr::Fail(e) => Pr::Fail(e),
            Pr::Done(name, st) => {
                match stay(c, st, parse_opt_type_spec(c, st)) {
                    Pr::Fail(e) => Pr::Fail(e),
                    Pr::Done(ty, st) => {
                        match stay(c, st, parse_opt_init_spec(c, st)) {
                            Pr::Fail(e) => Pr::Fail(e),
                            Pr::Done(init, st) => {
                                let st = hold_spec(c, st, StmtV::Var { name, ty, init, is_final, delete, sink, line });
                                parse_more_vars_spec(c, st, is_final, delete, sink, line)
                            },
                        }
                    },
                }
            },
        }
    }
}

} // verus!
