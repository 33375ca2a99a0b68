//! Expressions.

use vstd::prelude::*;

use crate::ast::Expr;
use crate::codegen::access::{gen_field_spec, gen_index_spec, gen_null_coalesce_spec, gen_safe_field_spec};
use crate::codegen::args::gen_new_spec;
use crate::codegen::call::gen_call_expr_spec;
use crate::codegen::common::{is_number_literal, is_number_literal_spec, promoted_ty, promoted_ty_spec};
use crate::codegen::compr::gen_comprehension_spec;
use crate::codegen::control::gen_hoisted_spec;
use crate::codegen::ctypes::{map_type_use, map_type_use_spec};
use crate::codegen::gen::GenV;
use crate::codegen::helpers::{bool_ty, bool_ty_spec, float32_ty, float32_ty_spec, float_lit, float_lit_spec, float_ty, float_ty_spec, info_ty, info_ty_spec, int_lit, int_lit_spec, int_ty, int_ty_spec, no_ty, no_ty_spec};
use crate::codegen::literal::{gen_array_lit_spec, gen_map_lit_spec, gen_object_lit_spec};
use crate::codegen::operators::{gen_assign_spec, gen_binary_spec, gen_ternary_spec, gen_type_check_spec, gen_unary_spec};
use crate::codegen::state::{BodyGen, Env, fail_spec, settled};
use crate::codegen::textual::gen_string_spec;
use crate::codegen::ty::{Ty, TyV};
use crate::codegen::ty_copy::dup_opt_ty;
use crate::codegen::types::{expects_float_spec, narrow_to_target_spec, ty_of_spec};
use crate::codegen::values::{gen_ident_spec, operand, operand_spec, this_info_spec};
use crate::lexer::{inc, inc_spec};
use crate::model::ExprV;
use crate::text::{cat2, cat3, cat5};

verus! {

broadcast use {crate::codegen::gen::group_gen, crate::codegen::ty::group_ty, crate::model::group_model, crate::text::group_texts};

/// Whether an expression only groups another one.
pub fn is_transparent(e: &Expr) -> (r: bool)
    ensures
        r == is_transparent_spec(e.v()),
{
    match e.node() {
        Expr::Paren(_) => true,
        Expr::Cast { expr: _, ty: _ } => true,
        Expr::TypeCheck { expr: _, ty: _ } => true,
        _ => false,
    }
}

impl<'a> BodyGen<'a> {
    /// The code of an expression and its type. Its nesting depth tells a value that the
    /// statement takes from one buried in a larger expression; grouping does not count.
    pub fn gen_expr(&mut self, e: &Expr) -> (r: (String, Ty))
        ensures
            final(self).pg() == old(self).pg(),
            final(self).room() == old(self).room(),
            (final(self).gv(), (r.0@, r.1.v())) == gen_expr_spec(old(self).pg(), old(self).room(), old(self).gv(), e.v()),
            settled(final(self).gv()) == settled(old(self).gv()),
        decreases old(self).room(), *e, 21int, 0int,
    {
        proof {
            reveal(gen_expr_spec);
            reveal(gen_expr_inner_spec);
        }
        if is_transparent(e) {
            return self.gen_expr_inner(e);
        }
        let depth: usize = self.expr_depth();
        self.set_expr_depth(inc(depth));
        let (code, ty) = self.gen_expr_inner(e);
        self.set_expr_depth(depth);
        (code, ty)
    }

    /// The code of an expression that lands in a value of the type `hint`. A number that is
    /// written out is of that type already.
    pub fn gen_expr_hinted(&mut self, e: &Expr, hint: Option<Ty>) -> (r: (String, Ty))
        ensures
            final(self).pg() == old(self).pg(),
            final(self).room() == old(self).room(),
            (final(self).gv(), (r.0@, r.1.v())) == gen_expr_hinted_spec(old(self).pg(), old(self).room(), old(self).gv(), e.v(), (match hint { Some(y) => Some(y.v()), None => None })),
            settled(final(self).gv()) == settled(old(self).gv()),
        decreases old(self).room(), *e, 22int, 0int,
    {
        proof {
            reveal(gen_expr_hinted_spec);
            reveal(gen_expr_spec);
        }
        let saved = dup_opt_ty(self.expected());
        self.set_expected(dup_opt_ty(&hint));
        let (code, ty) = self.gen_expr(e);
        self.set_expected(saved);
        if is_number_literal(e) {
            return (code, ty);
        }
        let promoted = promoted_ty(e, &ty);
        (self.narrow_to_target(&hint, &code, &promoted), ty)
    }

    /// The code of an expression of an interpolated string of `n` characters.
    pub fn gen_nested(&mut self, e: &Expr, n: usize) -> (r: (String, Ty))
        requires
            n < old(self).room(),
        ensures
            final(self).pg() == old(self).pg(),
            final(self).room() == old(self).room(),
            (final(self).gv(), (r.0@, r.1.v())) == gen_expr_spec(old(self).pg(), n as int, old(self).gv(), e.v()),
            settled(final(self).gv()) == settled(old(self).gv()),
        decreases n as int, *e, 22int, 0int,
    {
        let saved: usize = self.room_now();
        self.set_room(n);
        let r = self.gen_expr(e);
        self.set_room(saved);
        r
    }

    /// `this`: in a method of an abstract it is the underlying value.
    fn gen_this(&self) -> (r: (String, Ty))
        ensures
            (r.0@, r.1.v()) == gen_this_spec(self.pg(), self.gv()),
    {
        proof {
            reveal(gen_this_spec);
        }
        match self.abstract_this() {
            Some(t) => ("this->__this".to_owned(), t.dup()),
            None => ("this".to_owned(), info_ty(&self.class().name, true, self.this_info())),
        }
    }

    fn gen_float(&self, s: &str) -> (r: (String, Ty))
        ensures
            (r.0@, r.1.v()) == gen_float_spec(self.pg(), self.gv(), s@),
    {
        proof {
            reveal(gen_float_spec);
        }
        if self.expects_float() {
            (cat2(&float_lit(s), "f"), float32_ty())
        } else {
            (float_lit(s), float_ty())
        }
    }

    /// The code and the type of an expression; its statements go into the prelude.
    pub fn gen_expr_inner(&mut self, e: &Expr) -> (r: (String, Ty))
        ensures
            final(self).pg() == old(self).pg(),
            final(self).room() == old(self).room(),
            (final(self).gv(), (r.0@, r.1.v())) == gen_expr_inner_spec(old(self).pg(), old(self).room(), old(self).gv(), e.v()),
            settled(final(self).gv()) == settled(old(self).gv()),
        decreases old(self).room(), *e, 20int, 0int,
    {
        proof {
            reveal(gen_expr_inner_spec);
            reveal(gen_expr_spec);
            reveal(gen_string_spec);
            reveal(gen_field_spec);
            reveal(gen_index_spec);
            reveal(gen_call_expr_spec);
            reveal(gen_new_spec);
            reveal(gen_unary_spec);
            reveal(gen_binary_spec);
            reveal(gen_ternary_spec);
            reveal(gen_assign_spec);
            reveal(gen_null_coalesce_spec);
            reveal(gen_safe_field_spec);
            reveal(gen_type_check_spec);
            reveal(gen_array_lit_spec);
            reveal(gen_map_lit_spec);
            reveal(gen_object_lit_spec);
            reveal(gen_hoisted_spec);
            reveal(gen_comprehension_spec);
        }
        match e.node() {
            Expr::Int(s) => (int_lit(s), int_ty()),
            Expr::Float(s) => self.gen_float(s),
            Expr::Bool(b) => (if *b { "true".to_owned() } else { "false".to_owned() }, bool_ty()),
            Expr::Null => ("NULL".to_owned(), no_ty()),
            Expr::Untyped(inner) => {
                let (code, _) = self.gen_expr(inner);
                (code, no_ty())
            },
            Expr::Meta(_, inner) => self.gen_expr_inner(inner),
            Expr::Regex { pattern: _, flags: _ } => {
                self.fail("regular-expression literals are not supported");
                ("/* regex unsupported */".to_owned(), no_ty())
            },
            Expr::Is { expr: _, ty: _ } => {
                self.fail("the `is` type-check operator is not supported");
                ("/* is unsupported */".to_owned(), bool_ty())
            },
            Expr::Str { raw: _, interpolated: _ } => self.gen_string(e),
            Expr::This => self.gen_this(),
            Expr::Super => ("super".to_owned(), no_ty()),
            Expr::Ident(name) => self.gen_ident(name),
            Expr::Paren(inner) => {
                let (code, ty) = self.gen_expr(inner);
                (cat3("(", &code, ")"), ty)
            },
            Expr::Field(recv, name) => self.gen_field(recv, name),
            Expr::Index(_, _) => self.gen_index(e),
            Expr::Call(_, _) => self.gen_call_expr(e),
            Expr::New(ty, args) => self.gen_new(ty, args),
            Expr::Unary { op: _, expr: _, prefix: _ } => self.gen_unary(e),
            Expr::Binary { op: _, lhs: _, rhs: _ } => self.gen_binary(e),
            Expr::Ternary { cond: _, then: _, els: _ } => self.gen_ternary(e),
            Expr::Assign { op: _, target: _, value: _ } => self.gen_assign(e),
            Expr::NullCoalesce(_, _) => self.gen_null_coalesce(e),
            Expr::SafeField(recv, field) => self.gen_safe_field(recv, field),
            Expr::TypeCheck { expr: _, ty: _ } => self.gen_type_check(e),
            Expr::ArrayLit(elems) => self.gen_array_lit(elems),
            Expr::MapLit(pairs) => self.gen_map_lit(pairs),
            Expr::ObjectLit(fields) => self.gen_object_lit(fields),
            Expr::Lambda { params: _, ret: _, body: _ } => ("/* lambda */".to_owned(), no_ty()),
            Expr::Cast { expr, ty } => {
                let (code, cty) = self.gen_expr(expr);
                match ty {
                    Some(t) => (cat5("((", &map_type_use(self.prog(), t, self.mi(), self.ns()), ") ", &operand(expr, &code), ")"), self.ty_of(t)),
                    None => (code, cty),
                }
            },
            Expr::Switch { subject: _, cases: _, default: _ } => self.gen_hoisted(e),
            Expr::If { cond: _, then: _, els: _ } => self.gen_hoisted(e),
            Expr::Block(_) => self.gen_hoisted(e),
            Expr::Comprehension { var: _, value_var: _, iter: _, guard: _, body: _ } => self.gen_comprehension(e),
        }
    }
}

/// A type that an expression lands in is its alone: what was wanted before is wanted again.
pub proof fn law_hint_is_restored(p: Env, room: int, st: GenV, e: ExprV, hint: Option<TyV>)
    ensures
        gen_expr_hinted_spec(p, room, st, e, hint).0.expected == st.expected,
{
    reveal(gen_expr_hinted_spec);
}

/// What [`is_transparent`] computes.
pub open spec fn is_transparent_spec(e: ExprV) -> bool
{
    match e {
        ExprV::Paren(_) => { true },
        ExprV::Cast { expr: _, ty: _ } => { true },
        ExprV::TypeCheck { expr: _, ty: _ } => { true },
        _ => { false },
    }
}

/// What [`BodyGen::gen_expr`] computes.
#[verifier::opaque]
pub open spec fn gen_expr_spec(p: Env, room: int, st: GenV, e: ExprV) -> (GenV, (Seq<char>, TyV))
    decreases room, e, 21int, 0int,
{
    if is_transparent_spec(e) { gen_expr_inner_spec(p, room, st, e) } else {
        let depth: int = st.expr_depth;
        let st = GenV { expr_depth: inc_spec(depth), ..st };
        let (st, (code, ty)) = gen_expr_inner_spec(p, room, st, e);
        let st = GenV { expr_depth: depth, ..st };
        (st, (code, ty))
    }
}

/// What [`BodyGen::gen_expr_hinted`] computes.
#[verifier::opaque]
pub open spec fn gen_expr_hinted_spec(p: Env, room: int, st: GenV, e: ExprV, hint: Option<TyV>) -> (GenV, (Seq<char>, TyV))
    decreases room, e, 22int, 0int,
{
    let saved = st.expected;
    let st = GenV { expected: hint, ..st };
    let (st, (code, ty)) = gen_expr_spec(p, room, st, e);
    let st = GenV { expected: saved, ..st };
    if is_number_literal_spec(e) { (st, (code, ty)) } else {
        let promoted = promoted_ty_spec(e, ty);
        (st, (narrow_to_target_spec(p, st, hint, code, promoted), ty))
    }
}

/// What [`BodyGen::gen_this`] computes.
#[verifier::opaque]
pub open spec fn gen_this_spec(p: Env, st: GenV) -> (Seq<char>, TyV)
{
    match st.abstract_this {
        Some(t) => { ("this->__this"@, t) },
        None => { ("this"@, info_ty_spec(p.class.name, true, this_info_spec(p, st))) },
    }
}

/// What [`BodyGen::gen_float`] computes.
#[verifier::opaque]
pub open spec fn gen_float_spec(p: Env, st: GenV, s: Seq<char>) -> (Seq<char>, TyV)
{
    if expects_float_spec(p, st) { (float_lit_spec(s) + "f"@, float32_ty_spec()) } else { (float_lit_spec(s), float_ty_spec()) }
}

/// What [`BodyGen::gen_expr_inner`] computes.
#[verifier::opaque]
pub open spec fn gen_expr_inner_spec(p: Env, room: int, st: GenV, e: ExprV) -> (GenV, (Seq<char>, TyV))
    decreases room, e, 20int, 0int,
{
    match e {
        ExprV::Int(s) => { (st, (int_lit_spec(s), int_ty_spec())) },
        ExprV::Float(s) => { (st, gen_float_spec(p, st, s)) },
        ExprV::Bool(b) => {
            (st, (if b { "true"@ } else { "false"@ }, bool_ty_spec()))
        },
        ExprV::Null => { (st, ("NULL"@, no_ty_spec())) },
        ExprV::Untyped(inner) => {
            let (st, (code, _)) = gen_expr_spec(p, room, st, *inner);
            (st, (code, no_ty_spec()))
        },
        ExprV::Meta(_, inner) => { gen_expr_inner_spec(p, room, st, *inner) },
        ExprV::Regex { pattern: _, flags: _ } => {
            let st = fail_spec(p, st, "regular-expression literals are not supported"@);
            (st, ("/* regex unsupported */"@, no_ty_spec()))
        },
        ExprV::Is { expr: _, ty: _ } => {
            let st = fail_spec(p, st, "the `is` type-check operator is not supported"@);
            (st, ("/* is unsupported */"@, bool_ty_spec()))
        },
        ExprV::Str { raw: _, interpolated: _ } => { gen_string_spec(p, room, st, e) },
        ExprV::This => { (st, gen_this_spec(p, st)) },
        ExprV::Super => { (st, ("super"@, no_ty_spec())) },
        ExprV::Ident(name) => { gen_ident_spec(p, st, name) },
        ExprV::Paren(inner) => {
            let (st, (code, ty)) = gen_expr_spec(p, room, st, *inner);
            (st, ("("@ + code + ")"@, ty))
        },
        ExprV::Field(recv, name) => { gen_field_spec(p, room, st, *recv, name) },
        ExprV::Index(_, _) => { gen_index_spec(p, room, st, e) },
        ExprV::Call(_, _) => { gen_call_expr_spec(p, room, st, e) },
        ExprV::New(ty, args) => { gen_new_spec(p, room, st, ty, args) },
        ExprV::Unary { op: _, expr: _, prefix: _ } => { gen_unary_spec(p, room, st, e) },
        ExprV::Binary { op: _, lhs: _, rhs: _ } => { gen_binary_spec(p, room, st, e) },
        ExprV::Ternary { cond: _, then: _, els: _ } => { gen_ternary_spec(p, room, st, e) },
        ExprV::Assign { op: _, target: _, value: _ } => { gen_assign_spec(p, room, st, e) },
        ExprV::NullCoalesce(_, _) => { gen_null_coalesce_spec(p, room, st, e) },
        ExprV::SafeField(recv, field) => { gen_safe_field_spec(p, room, st, *recv, field) },
        ExprV::TypeCheck { expr: _, ty: _ } => { gen_type_check_spec(p, room, st, e) },
        ExprV::ArrayLit(elems) => { gen_array_lit_spec(p, room, st, elems) },
        ExprV::MapLit(pairs) => { gen_map_lit_spec(p, room, st, pairs) },
        ExprV::ObjectLit(fields) => { gen_object_lit_spec(p, room, st, fields) },
        ExprV::Lambda { params: _, ret: _, body: _ } => { (st, ("/* lambda */"@, no_ty_spec())) },
        ExprV::Cast { expr, ty } => {
            let (st, (code, cty)) = gen_expr_spec(p, room, st, *expr);
            match ty {
                Some(t) => {
                    (st, ("(("@ + map_type_use_spec(p.prog, t, st.mi, st.ns) + ") "@ + operand_spec(*expr, code) + ")"@, ty_of_spec(p, st, t)))
                },
                None => { (st, (code, cty)) },
            }
        },
        ExprV::Switch { subject: _, cases: _, default: _ } => { gen_hoisted_spec(p, room, st, e) },
        ExprV::If { cond: _, then: _, els: _ } => { gen_hoisted_spec(p, room, st, e) },
        ExprV::Block(_) => { gen_hoisted_spec(p, room, st, e) },
        ExprV::Comprehension { var: _, value_var: _, iter: _, guard: _, body: _ } => { gen_comprehension_spec(p, room, st, e) },
    }
}

} // verus!
