//! Type parsing: named types with parameters, function types and structures.

use vstd::prelude::*;

use crate::ast::{Meta, StructField, Type, has_meta};
use crate::model::{MetaV, StructFieldV, TypeV, metas_v, struct_fields_v, types_v};
use crate::parser::cursor::{Ctx, PResult, Parser, Pr, St, at_sym_spec, bump_spec, eat_gt_spec, eat_kw_spec, eat_sym_spec, err_spec, expect_ident_spec, expect_sym_spec, line_spec, parse_meta_list_spec, peek2_spec, peek_spec, stay, step};
use crate::text::{cat2, texts};
use crate::token::{Kw, Sym, TokKind, TokKindV, tok_name, tok_name_spec};

verus! {

broadcast use {crate::model::group_model, crate::token::group_token, crate::text::group_texts};

impl Parser {
    /// `a.b.c`
    pub fn parse_dotted(&mut self) -> (r: PResult<Vec<String>>)
        requires
            old(self).wf(),
        ensures
            final(self).wf(),
            final(self).cx() == old(self).cx(),
            parse_dotted_spec(old(self).cx(), old(self).st()) == (match r { Ok(x) => Pr::Done(texts(x@), final(self).st()), Err(e) => Pr::Fail(e.v()) }),
            final(self).st().pos >= old(self).st().pos,
            r is Ok ==> final(self).st().pos > old(self).st().pos,
            r is Ok ==> final(self).st().extra == old(self).st().extra,
    {
        proof {
            reveal(parse_dotted_spec);
        }
        let mut parts: Vec<String> = Vec::new();
        let first = self.expect_ident()?;
        parts.push(first);
        self.parse_dots(parts)
    }

    fn parse_dots(&mut self, parts: Vec<String>) -> (r: PResult<Vec<String>>)
        requires
            old(self).wf(),
        ensures
            final(self).wf(),
            final(self).cx() == old(self).cx(),
            parse_dots_spec(old(self).cx(), old(self).st(), texts(parts@)) == (match r { Ok(x) => Pr::Done(texts(x@), final(self).st()), Err(e) => Pr::Fail(e.v()) }),
            final(self).st().pos >= old(self).st().pos,
            r is Ok ==> final(self).st().extra == old(self).st().extra,
    {
        let ghost parts_0 = parts;
        let mut parts: Vec<String> = parts;
        #[verifier::loop_isolation(false)]
        loop
            invariant
                self.wf(),
                self.cx() == old(self).cx(),
                self.st().pos >= old(self).st().pos,
                parse_dots_spec(old(self).cx(), old(self).st(), texts(parts_0@)) == parse_dots_spec(self.cx(), self.st(), texts(parts@)),
                self.st().extra == old(self).st().extra,
            decreases self.left(),
        {
            proof {
                reveal(parse_dots_spec);
            }
            if !self.eat_sym(Sym::Dot) {
                return Ok(parts);
            }
            let part = self.expect_ident()?;
            parts.push(part);
        }
    }

    /// The `>` that closes a parameter list, also one of `>>` or `>>>`.
    pub fn expect_type_gt(&mut self) -> (r: PResult<()>)
        requires
            old(self).wf(),
        ensures
            final(self).wf(),
            final(self).cx() == old(self).cx(),
            expect_type_gt_spec(old(self).cx(), old(self).st()) == (match r { Ok(x) => Pr::Done((), final(self).st()), Err(e) => Pr::Fail(e.v()) }),
            final(self).st().pos >= old(self).st().pos,
            r is Ok ==> final(self).st().extra == old(self).st().extra,
    {
        if self.eat_gt() {
            Ok(())
        } else {
            Err(self.err(&cat2("expected Gt, found ", &tok_name(self.peek()))))
        }
    }

    /// A type: a name, a structure, or a function type `A -> B -> C`.
    pub fn parse_type(&mut self) -> (r: PResult<Type>)
        requires
            old(self).wf(),
        ensures
            final(self).wf(),
            final(self).cx() == old(self).cx(),
            parse_type_spec(old(self).cx(), old(self).st()) == (match r { Ok(x) => Pr::Done(x.v(), final(self).st()), Err(e) => Pr::Fail(e.v()) }),
            final(self).st().pos >= old(self).st().pos,
            r is Ok ==> final(self).st().pos > old(self).st().pos,
            r is Ok ==> final(self).st().extra == old(self).st().extra,
        decreases old(self).left(), 3int,
    {
        proof {
            reveal(parse_type_spec);
            reveal(parse_type_atom_spec);
            reveal(parse_arrows_spec);
        }
        let first = self.parse_type_atom()?;
        if self.at_sym(Sym::Arrow) {
            self.parse_arrows(Vec::new(), first)
        } else {
            Ok(first)
        }
    }

    fn parse_arrows(&mut self, params: Vec<Type>, last: Type) -> (r: PResult<Type>)
        requires
            old(self).wf(),
        ensures
            final(self).wf(),
            final(self).cx() == old(self).cx(),
            parse_arrows_spec(old(self).cx(), old(self).st(), types_v(params@), last.v()) == (match r { Ok(x) => Pr::Done(x.v(), final(self).st()), Err(e) => Pr::Fail(e.v()) }),
            final(self).st().pos >= old(self).st().pos,
            r is Ok ==> final(self).st().extra == old(self).st().extra,
        decreases old(self).left(), 2int,
    {
        let ghost params_0 = params;
        let ghost last_0 = last;
        let mut params: Vec<Type> = params;
        let mut last: Type = last;
        #[verifier::loop_isolation(false)]
        loop
            invariant
                self.wf(),
                self.cx() == old(self).cx(),
                self.st().pos >= old(self).st().pos,
                parse_arrows_spec(old(self).cx(), old(self).st(), types_v(params_0@), last_0.v()) == parse_arrows_spec(self.cx(), self.st(), types_v(params@), last.v()),
                self.st().extra == old(self).st().extra,
            decreases self.left(),
        {
            proof {
                reveal(parse_arrows_spec);
                reveal(parse_type_atom_spec);
            }
            if !self.eat_sym(Sym::Arrow) {
                return Ok(Type::Func { params, ret: Box::new(last) });
            }
            let next = self.parse_type_atom()?;
            params.push(last);
            last = next;
        }
    }

    fn parse_type_atom(&mut self) -> (r: PResult<Type>)
        requires
            old(self).wf(),
        ensures
            final(self).wf(),
            final(self).cx() == old(self).cx(),
            parse_type_atom_spec(old(self).cx(), old(self).st()) == (match r { Ok(x) => Pr::Done(x.v(), final(self).st()), Err(e) => Pr::Fail(e.v()) }),
            final(self).st().pos >= old(self).st().pos,
            r is Ok ==> final(self).st().pos > old(self).st().pos,
            r is Ok ==> final(self).st().extra == old(self).st().extra,
        decreases old(self).left(), 2int,
    {
        proof {
            reveal(parse_type_atom_spec);
            reveal(parse_struct_fields_spec);
            reveal(parse_paren_type_spec);
            reveal(parse_type_args_spec);
        }
        if self.at_sym(Sym::LBrace) {
            let fields = self.parse_struct_fields()?;
            return Ok(Type::Anon(fields));
        }
        if self.at_sym(Sym::LParen) {
            return self.parse_paren_type();
        }
        if self.eat_sym(Sym::Question) {
            let t = self.parse_type_atom()?;
            return Ok(make_optional(t));
        }
        let line: usize = self.line();
        let path = self.parse_dotted()?;
        if self.eat_sym(Sym::Lt) {
            let params = self.parse_type_args(Vec::new())?;
            self.expect_type_gt()?;
            Ok(Type::Named { path, params, optional: false, line })
        } else {
            Ok(Type::Named { path, params: Vec::new(), optional: false, line })
        }
    }

    fn parse_type_args(&mut self, params: Vec<Type>) -> (r: PResult<Vec<Type>>)
        requires
            old(self).wf(),
        ensures
            final(self).wf(),
            final(self).cx() == old(self).cx(),
            parse_type_args_spec(old(self).cx(), old(self).st(), types_v(params@)) == (match r { Ok(x) => Pr::Done(types_v(x@), final(self).st()), Err(e) => Pr::Fail(e.v()) }),
            final(self).st().pos >= old(self).st().pos,
            r is Ok ==> final(self).st().pos > old(self).st().pos,
            r is Ok ==> final(self).st().extra == old(self).st().extra,
        decreases old(self).left(), 4int,
    {
        let ghost params_0 = params;
        let mut params: Vec<Type> = params;
        #[verifier::loop_isolation(false)]
        loop
            invariant
                self.wf(),
                self.cx() == old(self).cx(),
                self.st().pos >= old(self).st().pos,
                parse_type_args_spec(old(self).cx(), old(self).st(), types_v(params_0@)) == parse_type_args_spec(self.cx(), self.st(), types_v(params@)),
                self.st().extra == old(self).st().extra,
            decreases self.left(),
        {
            proof {
                reveal(parse_type_args_spec);
                reveal(parse_type_spec);
            }
            let t = self.parse_type()?;
            params.push(t);
            if !self.eat_sym(Sym::Comma) {
                return Ok(params);
            }
        }
    }

    /// `(A, b:B) -> C`, or one type in parentheses.
    fn parse_paren_type(&mut self) -> (r: PResult<Type>)
        requires
            old(self).wf(),
        ensures
            final(self).wf(),
            final(self).cx() == old(self).cx(),
            parse_paren_type_spec(old(self).cx(), old(self).st()) == (match r { Ok(x) => Pr::Done(x.v(), final(self).st()), Err(e) => Pr::Fail(e.v()) }),
            final(self).st().pos >= old(self).st().pos,
            r is Ok ==> final(self).st().pos > old(self).st().pos,
            r is Ok ==> final(self).st().extra == old(self).st().extra,
        decreases old(self).left(), 1int,
    {
        proof {
            reveal(parse_paren_type_spec);
            reveal(parse_paren_types_spec);
            reveal(parse_type_spec);
        }
        self.expect_sym(Sym::LParen)?;
        let params = if self.eat_sym(Sym::RParen) {
            Vec::new()
        } else {
            self.parse_paren_types(Vec::new())?
        };
        if self.eat_sym(Sym::Arrow) {
            let ret = self.parse_type()?;
            return Ok(Type::Func { params, ret: Box::new(ret) });
        }
        match sole_type(&params) {
            Some(t) => Ok(t),
            None => Err(self.err(&cat2("expected Arrow, found ", &tok_name(self.peek())))),
        }
    }

    fn parse_paren_types(&mut self, params: Vec<Type>) -> (r: PResult<Vec<Type>>)
        requires
            old(self).wf(),
        ensures
            final(self).wf(),
            final(self).cx() == old(self).cx(),
            parse_paren_types_spec(old(self).cx(), old(self).st(), types_v(params@)) == (match r { Ok(x) => Pr::Done(types_v(x@), final(self).st()), Err(e) => Pr::Fail(e.v()) }),
            final(self).st().pos >= old(self).st().pos,
            r is Ok ==> final(self).st().pos > old(self).st().pos,
            r is Ok ==> final(self).st().extra == old(self).st().extra,
        decreases old(self).left(), 4int,
    {
        let ghost params_0 = params;
        let mut params: Vec<Type> = params;
        #[verifier::loop_isolation(false)]
        loop
            invariant
                self.wf(),
                self.cx() == old(self).cx(),
                self.st().pos >= old(self).st().pos,
                parse_paren_types_spec(old(self).cx(), old(self).st(), types_v(params_0@)) == parse_paren_types_spec(self.cx(), self.st(), types_v(params@)),
                self.st().extra == old(self).st().extra,
            decreases self.left(),
        {
            proof {
                reveal(parse_paren_types_spec);
                reveal(parse_type_spec);
            }
            let optional = self.eat_sym(Sym::Question);
            if matches!(self.peek(), TokKind::Ident(_)) && matches!(self.peek2(), TokKind::Sym(Sym::Colon)) {
                self.bump();
                self.bump();
            }
            let t = self.parse_type()?;
            params.push(if optional { make_optional(t) } else { t });
            if self.eat_sym(Sym::RParen) {
                return Ok(params);
            }
            if !self.eat_sym(Sym::Comma) {
                return Err(self.err(&cat2("expected RParen, found ", &tok_name(self.peek()))));
            }
        }
    }

    /// `{ x:Float, ?color:UInt32 }`, or with `var` and `;` in the class notation.
    pub fn parse_struct_fields(&mut self) -> (r: PResult<Vec<StructField>>)
        requires
            old(self).wf(),
        ensures
            final(self).wf(),
            final(self).cx() == old(self).cx(),
            parse_struct_fields_spec(old(self).cx(), old(self).st()) == (match r { Ok(x) => Pr::Done(struct_fields_v(x@), final(self).st()), Err(e) => Pr::Fail(e.v()) }),
            final(self).st().pos >= old(self).st().pos,
            r is Ok ==> final(self).st().pos > old(self).st().pos,
            r is Ok ==> final(self).st().extra == old(self).st().extra,
        decreases old(self).left(), 1int,
    {
        proof {
            reveal(parse_struct_fields_spec);
            reveal(parse_fields_from_spec);
        }
        self.expect_sym(Sym::LBrace)?;
        self.parse_fields_from(Vec::new())
    }

    fn parse_fields_from(&mut self, fields: Vec<StructField>) -> (r: PResult<Vec<StructField>>)
        requires
            old(self).wf(),
        ensures
            final(self).wf(),
            final(self).cx() == old(self).cx(),
            parse_fields_from_spec(old(self).cx(), old(self).st(), struct_fields_v(fields@)) == (match r { Ok(x) => Pr::Done(struct_fields_v(x@), final(self).st()), Err(e) => Pr::Fail(e.v()) }),
            final(self).st().pos >= old(self).st().pos,
            r is Ok ==> final(self).st().pos > old(self).st().pos,
            r is Ok ==> final(self).st().extra == old(self).st().extra,
        decreases old(self).left(), 4int,
    {
        let ghost fields_0 = fields;
        let mut fields: Vec<StructField> = fields;
        #[verifier::loop_isolation(false)]
        loop
            invariant
                self.wf(),
                self.cx() == old(self).cx(),
                self.st().pos >= old(self).st().pos,
                parse_fields_from_spec(old(self).cx(), old(self).st(), struct_fields_v(fields_0@)) == parse_fields_from_spec(self.cx(), self.st(), struct_fields_v(fields@)),
                self.st().extra == old(self).st().extra,
            decreases self.left(),
        {
            proof {
                reveal(parse_fields_from_spec);
                reveal(parse_type_spec);
            }
            if self.eat_sym(Sym::RBrace) {
                return Ok(fields);
            }
            let metas = self.parse_meta_list()?;
            if !self.eat_kw(Kw::Var) {
                self.eat_kw(Kw::Final);
            }
            let question = self.eat_sym(Sym::Question);
            let name = self.field_key()?;
            self.expect_sym(Sym::Colon)?;
            let ty = self.parse_type()?;
            fields.push(StructField { name, optional: question || meta_has(&metas, "optional"), ty });
            if !self.eat_sym(Sym::Comma) {
                if !self.eat_sym(Sym::Semi) {
                    if !self.at_sym(Sym::RBrace) {
                        return Err(self.err(&cat2("expected RBrace, found ", &tok_name(self.peek()))));
                    }
                }
            }
        }
    }

    /// The key of a structure or object field: an identifier or a string.
    pub fn field_key(&mut self) -> (r: PResult<String>)
        requires
            old(self).wf(),
        ensures
            final(self).wf(),
            final(self).cx() == old(self).cx(),
            field_key_spec(old(self).cx(), old(self).st()) == (match r { Ok(x) => Pr::Done(x@, final(self).st()), Err(e) => Pr::Fail(e.v()) }),
            final(self).st().pos >= old(self).st().pos,
            r is Ok ==> final(self).st().pos > old(self).st().pos,
            r is Ok ==> final(self).st().extra == old(self).st().extra,
    {
        match self.peek() {
            TokKind::Ident(s) => {
                let s = s.clone();
                self.bump();
                Ok(s)
            },
            TokKind::Str { raw, interpolated: _ } => {
                let s = raw.clone();
                self.bump();
                Ok(s)
            },
            other => Err(self.err(&cat2("expected field name, found ", &tok_name(other)))),
        }
    }
}

/// The type marked optional, where it is a named one.
pub fn make_optional(t: Type) -> (r: Type)
    ensures
        r.v() == make_optional_spec(t.v()),
{
    match t.into_node() {
        Type::Named { path, params, optional: _, line } => Type::Named { path, params, optional: true, line },
        other => other,
    }
}

/// The only type of a list of one.
pub fn sole_type(ts: &Vec<Type>) -> (r: Option<Type>)
    ensures
        (match r { Some(y) => Some(y.v()), None => None }) == sole_type_spec(types_v(ts@)),
{
    if ts.len() == 1 {
        Some(ts[0].dup())
    } else {
        None
    }
}

/// Whether a metadata list contains `name`.
pub open spec fn meta_has_spec(metas: Seq<MetaV>, name: Seq<char>) -> bool {
    exists|i: int| 0 <= i < metas.len() && (#[trigger] metas[i]).name == name
}

/// Whether metadata has an entry of the name.
pub fn meta_has(metas: &Vec<Meta>, name: &str) -> (r: bool)
    ensures
        r == meta_has_spec(metas_v(metas@), name@),
{
    let r = has_meta(metas, name);
    proof {
        if r {
            let i = choose|i: int| 0 <= i < metas@.len() && (#[trigger] metas@[i]).name@ == name@;
            assert(metas_v(metas@)[i].name == name@);
        }
        if meta_has_spec(metas_v(metas@), name@) {
            let i = choose|i: int| 0 <= i < metas_v(metas@).len() && (#[trigger] metas_v(metas@)[i]).name == name@;
            assert(metas@[i].name@ == name@);
        }
    }
    r
}

/// What [`Parser::parse_dotted`] computes.
#[verifier::opaque]
pub open spec fn parse_dotted_spec(c: Ctx, st: St) -> Pr<Seq<Seq<char>>>
{
    let parts: Seq<Seq<char>> = Seq::empty();
    match expect_ident_spec(c, st) {
        Pr::Fail(e) => Pr::Fail(e),
        Pr::Done(first, st) => {
            let parts = parts.push(first);
            parse_dots_spec(c, st, parts)
        },
    }
}

/// What [`Parser::parse_dots`] computes.
#[verifier::opaque]
pub open spec fn parse_dots_spec(c: Ctx, st: St, parts: Seq<Seq<char>>) -> Pr<Seq<Seq<char>>>
    decreases c.toks.len() - st.pos,
{
    let (st, x1) = eat_sym_spec(c, st, Sym::Dot);
    if !x1 { Pr::Done(parts, st) } else {
        match expect_ident_spec(c, st) {
            Pr::Fail(e) => Pr::Fail(e),
            Pr::Done(part, st) => {
                let parts = parts.push(part);
                parse_dots_spec(c, st, parts)
            },
        }
    }
}

/// What [`Parser::expect_type_gt`] computes.
pub open spec fn expect_type_gt_spec(c: Ctx, st: St) -> Pr<()>
{
    let (st, x1) = eat_gt_spec(c, st);
    if x1 { Pr::Done((), st) } else {
        Pr::Fail(err_spec(c, st, "expected Gt, found "@ + (tok_name_spec(peek_spec(c, st)))))
    }
}

/// What [`Parser::parse_type`] computes.
#[verifier::opaque]
pub open spec fn parse_type_spec(c: Ctx, st: St) -> Pr<TypeV>
    decreases c.toks.len() - st.pos, 3int,
{
    match step(c, st, parse_type_atom_spec(c, st)) {
        Pr::Fail(e) => Pr::Fail(e),
        Pr::Done(first, st) => {
            if at_sym_spec(c, st, Sym::Arrow) { parse_arrows_spec(c, st, Seq::empty(), first) } else { Pr::Done(first, st) }
        },
    }
}

/// What [`Parser::parse_arrows`] computes.
#[verifier::opaque]
pub open spec fn parse_arrows_spec(c: Ctx, st: St, params: Seq<TypeV>, last: TypeV) -> Pr<TypeV>
    decreases c.toks.len() - st.pos, 2int,
{
    let (st, x1) = eat_sym_spec(c, st, Sym::Arrow);
    if !x1 { Pr::Done(TypeV::Func { params, ret: Box::new(last) }, st) } else {
        match step(c, st, parse_type_atom_spec(c, st)) {
            Pr::Fail(e) => Pr::Fail(e),
            Pr::Done(next, st) => {
                let params = params.push(last);
                let last = next;
                parse_arrows_spec(c, st, params, last)
            },
        }
    }
}

/// What [`Parser::parse_type_atom`] computes.
#[verifier::opaque]
pub open spec fn parse_type_atom_spec(c: Ctx, st: St) -> Pr<TypeV>
    decreases c.toks.len() - st.pos, 2int,
{
    if at_sym_spec(c, st, Sym::LBrace) {
        match step(c, st, parse_struct_fields_spec(c, st)) {
            Pr::Fail(e) => Pr::Fail(e),
            Pr::Done(fields, st) => { Pr::Done(TypeV::Anon(fields), st) },
        }
    } else {
        if at_sym_spec(c, st, Sym::LParen) { parse_paren_type_spec(c, st) } else {
            let (st, x1) = eat_sym_spec(c, st, Sym::Question);
            if x1 {
                match step(c, st, parse_type_atom_spec(c, st)) {
                    Pr::Fail(e) => Pr::Fail(e),
                    Pr::Done(t, st) => { Pr::Done(make_optional_spec(t), st) },
                }
            } else {
                let line: int = line_spec(c, st);
                match step(c, st, parse_dotted_spec(c, st)) {
                    Pr::Fail(e) => Pr::Fail(e),
                    Pr::Done(path, st) => {
                        let (st, x2) = eat_sym_spec(c, st, Sym::Lt);
                        if x2 {
                            match step(c, st, parse_type_args_spec(c, st, Seq::empty())) {
                                Pr::Fail(e) => Pr::Fail(e),
                                Pr::Done(params, st) => {
                                    match expect_type_gt_spec(c, st) {
                                        Pr::Fail(e) => Pr::Fail(e),
                                        Pr::Done(_, st) => { Pr::Done(TypeV::Named { path, params, optional: false, line }, st) },
                                    }
                                },
                            }
                        } else { Pr::Done(TypeV::Named { path, params: Seq::empty(), optional: false, line }, st) }
                    },
                }
            }
        }
    }
}

/// What [`Parser::parse_type_args`] computes.
#[verifier::opaque]
pub open spec fn parse_type_args_spec(c: Ctx, st: St, params: Seq<TypeV>) -> Pr<Seq<TypeV>>
    decreases c.toks.len() - st.pos, 4int,
{
    match step(c, st, parse_type_spec(c, st)) {
        Pr::Fail(e) => Pr::Fail(e),
        Pr::Done(t, st) => {
            let params = params.push(t);
            let (st, x1) = eat_sym_spec(c, st, Sym::Comma);
            if !x1 { Pr::Done(params, st) } else { parse_type_args_spec(c, st, params) }
        },
    }
}

/// What [`Parser::parse_paren_type`] computes.
#[verifier::opaque]
pub open spec fn parse_paren_type_spec(c: Ctx, st: St) -> Pr<TypeV>
    decreases c.toks.len() - st.pos, 1int,
{
    match expect_sym_spec(c, st, Sym::LParen) {
        Pr::Fail(e) => Pr::Fail(e),
        Pr::Done(_, st) => {
            match { let (st, x1) = eat_sym_spec(c, st, Sym::RParen);
                if x1 { Pr::Done(Seq::empty(), st) } else {
                    match step(c, st, parse_paren_types_spec(c, st, Seq::empty())) {
                        Pr::Fail(e) => Pr::Fail(e),
                        Pr::Done(x2, st) => { Pr::Done(x2, st) },
                    }
                } } {
                Pr::Fail(e) => Pr::Fail(e),
                Pr::Done(params, st) => {
                    let (st, x3) = eat_sym_spec(c, st, Sym::Arrow);
                    if x3 {
                        match step(c, st, parse_type_spec(c, st)) {
                            Pr::Fail(e) => Pr::Fail(e),
                            Pr::Done(ret, st) => { Pr::Done(TypeV::Func { params, ret: Box::new(ret) }, st) },
                        }
                    } else {
                        match sole_type_spec(params) {
                            Some(t) => { Pr::Done(t, st) },
                            None => {
                                Pr::Fail(err_spec(c, st, "expected Arrow, found "@ + (tok_name_spec(peek_spec(c, st)))))
                            },
                        }
                    }
                },
            }
        },
    }
}

/// What [`Parser::parse_paren_types`] computes.
#[verifier::opaque]
pub open spec fn parse_paren_types_spec(c: Ctx, st: St, params: Seq<TypeV>) -> Pr<Seq<TypeV>>
    decreases c.toks.len() - st.pos, 4int,
{
    let (st, optional) = eat_sym_spec(c, st, Sym::Question);
    let st = if (match peek_spec(c, st) { TokKindV::Ident(_) => true, _ => false }) && (match peek2_spec(c, st) { TokKindV::Sym(Sym::Colon) => true, _ => false }) {
        let st = bump_spec(c, st);
        let st = bump_spec(c, st);
        st
    } else { st };
    match step(c, st, parse_type_spec(c, st)) {
        Pr::Fail(e) => Pr::Fail(e),
        Pr::Done(t, st) => {
            let params = params.push(if optional { make_optional_spec(t) } else { t });
            let (st, x1) = eat_sym_spec(c, st, Sym::RParen);
            if x1 { Pr::Done(params, st) } else {
                let (st, x2) = eat_sym_spec(c, st, Sym::Comma);
                if !x2 {
                    Pr::Fail(err_spec(c, st, "expected RParen, found "@ + (tok_name_spec(peek_spec(c, st)))))
                } else { parse_paren_types_spec(c, st, params) }
            }
        },
    }
}

/// What [`Parser::parse_struct_fields`] computes.
#[verifier::opaque]
pub open spec fn parse_struct_fields_spec(c: Ctx, st: St) -> Pr<Seq<StructFieldV>>
    decreases c.toks.len() - st.pos, 1int,
{
    match expect_sym_spec(c, st, Sym::LBrace) {
        Pr::Fail(e) => Pr::Fail(e),
        Pr::Done(_, st) => { parse_fields_from_spec(c, st, Seq::empty()) },
    }
}

/// What [`Parser::parse_fields_from`] computes.
#[verifier::opaque]
pub open spec fn parse_fields_from_spec(c: Ctx, st: St, fields: Seq<StructFieldV>) -> Pr<Seq<StructFieldV>>
    decreases c.toks.len() - st.pos, 4int,
{
    let (st, x1) = eat_sym_spec(c, st, Sym::RBrace);
    if x1 { Pr::Done(fields, st) } else {
        match stay(c, st, parse_meta_list_spec(c, st)) {
            Pr::Fail(e) => Pr::Fail(e),
            Pr::Done(metas, st) => {
                let st = {
                    let (st, x2) = eat_kw_spec(c, st, Kw::Var);
                    if !x2 {
                        let (st, _) = eat_kw_spec(c, st, Kw::Final);
                        st
                    } else { st }
                };
                let (st, question) = eat_sym_spec(c, st, Sym::Question);
                match field_key_spec(c, st) {
                    Pr::Fail(e) => Pr::Fail(e),
                    Pr::Done(name, st) => {
                        match expect_sym_spec(c, st, Sym::Colon) {
                            Pr::Fail(e) => Pr::Fail(e),
                            Pr::Done(_, st) => {
                                match step(c, st, parse_type_spec(c, st)) {
                                    Pr::Fail(e) => Pr::Fail(e),
                                    Pr::Done(ty, st) => {
                                        let fields = fields.push(StructFieldV { name, optional: question || meta_has_spec(metas, "optional"@), ty });
                                        let (st, x3) = eat_sym_spec(c, st, Sym::Comma);
                                        if !x3 {
                                            let (st, x4) = eat_sym_spec(c, st, Sym::Semi);
                                            if !x4 {
                                                if !at_sym_spec(c, st, Sym::RBrace) {
                                                    Pr::Fail(err_spec(c, st, "expected RBrace, found "@ + (tok_name_spec(peek_spec(c, st)))))
                                                } else { parse_fields_from_spec(c, st, fields) }
                                            } else { parse_fields_from_spec(c, st, fields) }
                                        } else { parse_fields_from_spec(c, st, fields) }
                                    },
                                }
                            },
                        }
                    },
                }
            },
        }
    }
}

/// What [`Parser::field_key`] computes.
pub open spec fn field_key_spec(c: Ctx, st: St) -> Pr<Seq<char>>
{
    match peek_spec(c, st) {
        TokKindV::Ident(s) => {
            let s = s;
            let st = bump_spec(c, st);
            Pr::Done(s, st)
        },
        TokKindV::Str { raw, interpolated: _ } => {
            let s = raw;
            let st = bump_spec(c, st);
            Pr::Done(s, st)
        },
        other => { Pr::Fail(err_spec(c, st, "expected field name, found "@ + tok_name_spec(other))) },
    }
}

/// What [`make_optional`] computes.
pub open spec fn make_optional_spec(t: TypeV) -> TypeV
{
    match t {
        TypeV::Named { path, params, optional: _, line } => { TypeV::Named { path, params, optional: true, line } },
        other => { other },
    }
}

/// What [`sole_type`] computes.
pub open spec fn sole_type_spec(ts: Seq<TypeV>) -> Option<TypeV>
{
    if (ts.len()) == 1 { Some(ts[0]) } else { None }
}

} // verus!
