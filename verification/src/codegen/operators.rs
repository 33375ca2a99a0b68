//! Operators.

use vstd::prelude::*;

use crate::ast::{BinOp, Expr, UnOp};
use crate::codegen::ctypes::{map_type_use, map_type_use_spec};
use crate::codegen::expr::{gen_expr_hinted_spec, gen_expr_spec};
use crate::codegen::gen::GenV;
use crate::codegen::helpers::{binop, binop_result_ty, binop_result_ty_spec, binop_spec, bool_ty, bool_ty_spec, cast_signed_for_unsigned, cast_signed_for_unsigned_spec, float_ty, float_ty_spec, int_ty, int_ty_spec, is_arith_scalar, is_arith_scalar_spec, is_comparison, is_comparison_spec, is_container_ty, is_container_ty_spec, is_float_base, is_float_base_spec, is_int_ty, is_int_ty_spec, is_value_string, is_value_string_spec, no_ty, no_ty_spec, str_ty, str_ty_spec, unop, unop_spec};
use crate::codegen::literal::gen_map_of_spec;
use crate::codegen::state::{BodyGen, Env, fail_spec, settled};
use crate::codegen::ty::{Ty, TyV};
use crate::codegen::ty_copy::dup_opt_ty;
use crate::codegen::types::{own_field_setter_spec, ty_of_spec};
use crate::codegen::values::{ascribed_operand, ascribed_operand_spec, binding, binding_spec, concat_part_spec, emits_c_string_literal, emits_c_string_literal_spec, operand, operand_of, operand_of_spec, operand_spec, try_iter_null_check_spec};
use crate::codegen::write::{gen_lvalue_spec, own_field_ty_spec, routed_compound_write_spec};
use crate::lexer::{inc, inc_spec};
use crate::model::ExprV;
use crate::strings::starts_with;
use crate::text::{cat2, cat3, cat4, cat5, cat6, cat7, has_text, same};

verus! {

broadcast use {crate::codegen::gen::group_gen, crate::codegen::ty::group_ty, crate::model::group_model, crate::text::group_texts};

/// The code that combines a value with another by an operator, in a compound assignment.
pub fn combined(op: BinOp, read: &str, rty: &Ty, value: &Expr, v: &str, vty: &Ty) -> (r: String)
    ensures
        r@ == combined_spec(op, read@, rty.v(), value.v(), v@, vty.v()),
{
    proof {
        reveal(combined_spec);
    }
    let by = operand_of(value, v, binding(op) + 1);
    match op {
        BinOp::UShr => cat5("(int)((unsigned int)(", read, ") >> ", &by, ")"),
        BinOp::Mod => {
            if is_float_base(rty) || is_float_base(vty) {
                cat5("fmod(", read, ", ", v, ")")
            } else {
                cat5(read, " ", &binop(op), " ", &by)
            }
        },
        _ => cat5(read, " ", &binop(op), " ", &by),
    }
}

/// A compound assignment to a place.
pub fn compound(op: BinOp, place: &str, pty: &Ty, value: &Expr, v: &str, vty: &Ty) -> (r: String)
    ensures
        r@ == compound_spec(op, place@, pty.v(), value.v(), v@, vty.v()),
{
    proof {
        reveal(compound_spec);
    }
    match op {
        BinOp::UShr => cat6(place, " = (int)((unsigned int)(", place, ") >> ", &operand_of(value, v, binding(op) + 1), ")"),
        BinOp::Mod => {
            if is_float_base(pty) || is_float_base(vty) {
                cat6(place, " = fmod(", place, ", ", v, ")")
            } else {
                cat5(place, " ", &binop(op), "= ", v)
            }
        },
        _ => cat5(place, " ", &binop(op), "= ", v),
    }
}

/// Whether an expression is `null`.
pub fn is_null(e: &Expr) -> (r: bool)
    ensures
        r == is_null_spec(e.v()),
{
    matches!(e.node(), Expr::Null)
}

/// Whether an expression is a string literal.
pub fn is_string_literal(e: &Expr) -> (r: bool)
    ensures
        r == is_string_literal_spec(e.v()),
{
    matches!(e.node(), Expr::Str { raw: _, interpolated: _ })
}

impl<'a> BodyGen<'a> {
    /// Whether an expression is an optional `String` parameter.
    fn is_optional_string(&self, e: &Expr) -> (r: bool)
        ensures
            r == is_optional_string_spec(self.pg(), self.gv(), e.v()),
    {
        proof {
            reveal(is_optional_string_spec);
        }
        match e.node() {
            Expr::Ident(n) => has_text(self.optional_string_params(), n),
            _ => false,
        }
    }

    /// A `String` value compared with `null`: whether an optional parameter was given, and an
    /// error for any other, which is never null.
    fn gen_string_null_check(&mut self, op: BinOp, lhs: &Expr, rhs: &Expr, l: &str, lty: &Ty, r0: &str, rty: &Ty) -> (r: Option<(String, Ty)>)
        ensures
            final(self).pg() == old(self).pg(),
            final(self).room() == old(self).room(),
            (final(self).gv(), (match r { Some(y) => Some((y.0@, y.1.v())), None => None })) == gen_string_null_check_spec(old(self).pg(), old(self).gv(), op, lhs.v(), rhs.v(), l@, lty.v(), r0@, rty.v()),
            settled(final(self).gv()) == settled(old(self).gv()),
    {
        proof {
            reveal(gen_string_null_check_spec);
        }
        if (op != BinOp::Eq && op != BinOp::Ne) || is_null(lhs) == is_null(rhs) {
            return None;
        }
        let left = is_null(lhs);
        let sty = if left { rty } else { lty };
        if !is_value_string(sty) {
            return None;
        }
        let optional = if left { self.is_optional_string(rhs) } else { self.is_optional_string(lhs) };
        if optional {
            let neg = if op == BinOp::Ne { "!" } else { "" };
            let s = if left { r0 } else { l };
            return Some((cat3(neg, s, ".empty()"), bool_ty()));
        }
        self.fail("a `String` compared to `null` is never null in Hatchet (it is a value `std::string`, not a nullable reference). Use `!= \"\"` / `== \"\"` to test for the empty string, or declare it `Null<String>` for a genuinely nullable string (an optional `?s:String` may instead take a default, e.g. `?s:String = \"…\"`)");
        Some((cat5(l, " ", &binop(op), " ", r0), bool_ty()))
    }

    /// A binary operation on generated operands.
    fn finish_binary(&mut self, op: BinOp, lhs: &Expr, rhs: &Expr, l: &str, lty: &Ty, r0: &str, rty: &Ty) -> (r: (String, Ty))
        ensures
            final(self).pg() == old(self).pg(),
            final(self).room() == old(self).room(),
            (final(self).gv(), (r.0@, r.1.v())) == finish_binary_spec(old(self).pg(), old(self).gv(), op, lhs.v(), rhs.v(), l@, lty.v(), r0@, rty.v()),
            settled(final(self).gv()) == settled(old(self).gv()),
    {
        proof {
            reveal(finish_binary_spec);
        }
        match self.gen_string_null_check(op, lhs, rhs, l, lty, r0, rty) {
            Some(res) => {
                return res;
            },
            None => {},
        }
        if op == BinOp::Add && (same(&lty.base, "std::string") || same(&rty.base, "std::string")) {
            let lpart = self.concat_part(l, lty);
            let rpart = self.concat_part(r0, rty);
            if (is_string_literal(lhs) && is_string_literal(rhs))
                || (emits_c_string_literal(lhs) && emits_c_string_literal(rhs)) {
                return (cat4("std::string(", &lpart, ") + ", &rpart), str_ty());
            }
            return (cat3(&lpart, " + ", &rpart), str_ty());
        }
        // the quotient of integers is a `Float`
        if op == BinOp::Div && is_int_ty(lty) && is_int_ty(rty) {
            return (cat5("((double)(", l, ") / ", &ascribed_operand(rhs, r0, 11), ")"), float_ty());
        }
        if op == BinOp::UShr {
            return (cat5("((int)((unsigned int)(", l, ") >> ", &ascribed_operand(rhs, r0, 9), "))"), int_ty());
        }
        if op == BinOp::Mod && (is_float_base(lty) || is_float_base(rty)) {
            return (cat5("fmod(", l, ", ", r0, ")"), float_ty());
        }
        let ty = binop_result_ty(op, lty, rty);
        let left = ascribed_operand(lhs, l, binding(op));
        let right = ascribed_operand(rhs, r0, binding(op) + 1);
        if is_comparison(op) {
            let (a, b) = cast_signed_for_unsigned(&left, lty, &right, rty);
            return (cat5(&a, " ", &binop(op), " ", &b), ty);
        }
        (cat5(&left, " ", &binop(op), " ", &right), ty)
    }

    /// A binary operation. Its operands do not inherit the type it lands in.
    pub fn gen_binary(&mut self, e: &Expr) -> (r: (String, Ty))
        ensures
            final(self).pg() == old(self).pg(),
            final(self).room() == old(self).room(),
            (final(self).gv(), (r.0@, r.1.v())) == gen_binary_spec(old(self).pg(), old(self).room(), old(self).gv(), e.v()),
            settled(final(self).gv()) == settled(old(self).gv()),
        decreases old(self).room(), *e, 10int, 0int,
    {
        proof {
            reveal(gen_binary_spec);
            reveal(gen_expr_hinted_spec);
        }
        match e.node() {
            Expr::Binary { op, lhs, rhs } => {
                match self.try_iter_null_check(*op, lhs, rhs) {
                    Some(res) => {
                        return res;
                    },
                    None => {},
                }
                let saved = self.no_nullable_deref();
                self.set_no_nullable_deref((*op == BinOp::Eq || *op == BinOp::Ne) && (is_null(lhs) || is_null(rhs)));
                let (l, lty) = self.gen_expr_hinted(lhs, None);
                let (r0, rty) = self.gen_expr_hinted(rhs, None);
                self.set_no_nullable_deref(saved);
                self.finish_binary(*op, lhs, rhs, &l, &lty, &r0, &rty)
            },
            _ => (String::new(), no_ty()),
        }
    }

    /// A conditional. Two string literals are made a string.
    pub fn gen_ternary(&mut self, e: &Expr) -> (r: (String, Ty))
        ensures
            final(self).pg() == old(self).pg(),
            final(self).room() == old(self).room(),
            (final(self).gv(), (r.0@, r.1.v())) == gen_ternary_spec(old(self).pg(), old(self).room(), old(self).gv(), e.v()),
            settled(final(self).gv()) == settled(old(self).gv()),
        decreases old(self).room(), *e, 10int, 0int,
    {
        proof {
            reveal(gen_ternary_spec);
            reveal(gen_expr_spec);
        }
        match e.node() {
            Expr::Ternary { cond, then, els } => {
                let (c, _) = self.gen_expr(cond);
                let (a, aty) = self.gen_expr(then);
                let (b, _) = self.gen_expr(els);
                if is_value_string(&aty) && emits_c_string_literal(then) && emits_c_string_literal(els) {
                    return (cat7("std::string(", &c, " ? ", &a, " : ", &b, ")"), aty);
                }
                (cat5(&c, " ? ", &a, " : ", &b), aty)
            },
            _ => (String::new(), no_ty()),
        }
    }

    /// A unary operation. `++` and `--` on a property go through its setter.
    pub fn gen_unary(&mut self, e: &Expr) -> (r: (String, Ty))
        ensures
            final(self).pg() == old(self).pg(),
            final(self).room() == old(self).room(),
            (final(self).gv(), (r.0@, r.1.v())) == gen_unary_spec(old(self).pg(), old(self).room(), old(self).gv(), e.v()),
            settled(final(self).gv()) == settled(old(self).gv()),
        decreases old(self).room(), *e, 10int, 0int,
    {
        proof {
            reveal(gen_unary_spec);
            reveal(routed_compound_write_spec);
            reveal(gen_lvalue_spec);
            reveal(gen_expr_spec);
        }
        match e.node() {
            Expr::Unary { op, expr, prefix } => {
                if *op == UnOp::Incr || *op == UnOp::Decr {
                    match self.routed_compound_write(expr) {
                        Some((w, read, fty)) => {
                            let delta = if *op == UnOp::Incr { " + 1)" } else { " - 1)" };
                            return (cat4(&w, "(", &read, delta), fty);
                        },
                        None => {},
                    }
                    let (c, ty) = self.gen_lvalue(expr);
                    if *prefix {
                        return (cat2(&unop(*op), &c), ty);
                    }
                    return (cat2(&c, &unop(*op)), ty);
                }
                let (code, ty) = self.gen_expr(expr);
                let c = ascribed_operand(expr, &code, 11);
                if *prefix {
                    (cat2(&unop(*op), &c), ty)
                } else {
                    (cat2(&c, &unop(*op)), ty)
                }
            },
            _ => (String::new(), no_ty()),
        }
    }

    /// An assignment in an expression. One to a property goes through its setter.
    pub fn gen_assign(&mut self, e: &Expr) -> (r: (String, Ty))
        ensures
            final(self).pg() == old(self).pg(),
            final(self).room() == old(self).room(),
            (final(self).gv(), (r.0@, r.1.v())) == gen_assign_spec(old(self).pg(), old(self).room(), old(self).gv(), e.v()),
            settled(final(self).gv()) == settled(old(self).gv()),
        decreases old(self).room(), *e, 10int, 0int,
    {
        proof {
            reveal(gen_assign_spec);
            reveal(routed_compound_write_spec);
            reveal(gen_expr_spec);
            reveal(gen_lvalue_spec);
        }
        match e.node() {
            Expr::Assign { op, target, value } => {
                match op {
                    Some(o) => {
                        match self.routed_compound_write(target) {
                            Some((w, read, fty)) => {
                                let (v, vty) = self.gen_expr(value);
                                return (cat4(&w, "(", &combined(*o, &read, &fty, value, &v, &vty), ")"), fty);
                            },
                            None => {},
                        }
                        let (t, tty) = self.gen_lvalue(target);
                        let (v, vty) = self.gen_expr(value);
                        (compound(*o, &t, &tty, value, &v, &vty), tty)
                    },
                    None => {
                        match self.own_field_setter(target) {
                            Some(name) => {
                                let fty = self.own_field_ty(&name);
                                let (v, _) = self.gen_expr(value);
                                return (cat5("this->set_", &name, "(", &v, ")"), fty);
                            },
                            None => {},
                        }
                        let (t, tty) = self.gen_lvalue(target);
                        let (v, _) = self.gen_expr(value);
                        (cat3(&t, " = ", &v), tty)
                    },
                }
            },
            _ => (String::new(), no_ty()),
        }
    }

    /// `(expr : Type)`: a cast to a number, a hint for a container, and nothing otherwise.
    pub fn gen_type_check(&mut self, e: &Expr) -> (r: (String, Ty))
        ensures
            final(self).pg() == old(self).pg(),
            final(self).room() == old(self).room(),
            (final(self).gv(), (r.0@, r.1.v())) == gen_type_check_spec(old(self).pg(), old(self).room(), old(self).gv(), e.v()),
            settled(final(self).gv()) == settled(old(self).gv()),
        decreases old(self).room(), *e, 10int, 0int,
    {
        proof {
            reveal(gen_type_check_spec);
            reveal(gen_map_of_spec);
            reveal(gen_expr_spec);
        }
        match e.node() {
            Expr::TypeCheck { expr, ty } => {
                let aty = self.ty_of(ty);
                match expr.node() {
                    Expr::MapLit(pairs) => {
                        if starts_with(&aty.base, "std::map") {
                            let depth: usize = self.expr_depth();
                            self.set_expr_depth(inc(depth));
                            let code = self.gen_map_of(pairs, &aty);
                            self.set_expr_depth(depth);
                            return (code, aty);
                        }
                    },
                    _ => {},
                }
                let saved = dup_opt_ty(self.expected());
                if is_container_ty(&aty) {
                    self.set_expected(Some(aty.dup()));
                }
                let (code, cty) = self.gen_expr(expr);
                if is_container_ty(&aty) {
                    self.set_expected(saved);
                }
                if is_arith_scalar(&aty) && !same(&cty.base, &aty.base) {
                    (cat5("((", &map_type_use(self.prog(), ty, self.mi(), self.ns()), ") ", &operand(expr, &code), ")"), aty)
                } else {
                    (code, aty)
                }
            },
            _ => (String::new(), no_ty()),
        }
    }
}

/// What [`combined`] computes.
#[verifier::opaque]
pub open spec fn combined_spec(op: BinOp, read: Seq<char>, rty: TyV, value: ExprV, v: Seq<char>, vty: TyV) -> Seq<char>
{
    let by = operand_of_spec(value, v, binding_spec(op) + 1);
    match op {
        BinOp::UShr => { "(int)((unsigned int)("@ + read + ") >> "@ + by + ")"@ },
        BinOp::Mod => {
            if is_float_base_spec(rty) || is_float_base_spec(vty) { "fmod("@ + read + ", "@ + v + ")"@ } else { read + " "@ + binop_spec(op) + " "@ + by }
        },
        _ => { read + " "@ + binop_spec(op) + " "@ + by },
    }
}

/// What [`compound`] computes.
#[verifier::opaque]
pub open spec fn compound_spec(op: BinOp, place: Seq<char>, pty: TyV, value: ExprV, v: Seq<char>, vty: TyV) -> Seq<char>
{
    match op {
        BinOp::UShr => {
            place + " = (int)((unsigned int)("@ + place + ") >> "@ + (operand_of_spec(value, v, binding_spec(op) + 1)) + ")"@
        },
        BinOp::Mod => {
            if is_float_base_spec(pty) || is_float_base_spec(vty) { place + " = fmod("@ + place + ", "@ + v + ")"@ } else { place + " "@ + binop_spec(op) + "= "@ + v }
        },
        _ => { place + " "@ + binop_spec(op) + "= "@ + v },
    }
}

/// What [`is_null`] computes.
pub open spec fn is_null_spec(e: ExprV) -> bool
{
    (match e { ExprV::Null => true, _ => false })
}

/// What [`is_string_literal`] computes.
pub open spec fn is_string_literal_spec(e: ExprV) -> bool
{
    (match e { ExprV::Str { raw: _, interpolated: _ } => true, _ => false })
}

/// What [`BodyGen::is_optional_string`] computes.
#[verifier::opaque]
pub open spec fn is_optional_string_spec(p: Env, st: GenV, e: ExprV) -> bool
{
    match e {
        ExprV::Ident(n) => { st.optional_string_params.contains(n) },
        _ => { false },
    }
}

/// What [`BodyGen::gen_string_null_check`] computes.
#[verifier::opaque]
pub open spec fn gen_string_null_check_spec(p: Env, st: GenV, op: BinOp, lhs: ExprV, rhs: ExprV, l: Seq<char>, lty: TyV, r0: Seq<char>, rty: TyV) -> (GenV, Option<(Seq<char>, TyV)>)
{
    if ((op != (BinOp::Eq)) && (op != (BinOp::Ne))) || (is_null_spec(lhs) == is_null_spec(rhs)) { (st, None) } else {
        let left = is_null_spec(lhs);
        let sty = if left { rty } else { lty };
        if !is_value_string_spec(sty) { (st, None) } else {
            let optional = if left { is_optional_string_spec(p, st, rhs) } else { is_optional_string_spec(p, st, lhs) };
            if optional {
                let neg = if op == (BinOp::Ne) { "!"@ } else { ""@ };
                let s = if left { r0 } else { l };
                (st, Some((neg + s + ".empty()"@, bool_ty_spec())))
            } else {
                let st = fail_spec(p, st, "a `String` compared to `null` is never null in Hatchet (it is a value `std::string`, not a nullable reference). Use `!= \"\"` / `== \"\"` to test for the empty string, or declare it `Null<String>` for a genuinely nullable string (an optional `?s:String` may instead take a default, e.g. `?s:String = \"…\"`)"@);
                (st, Some((l + " "@ + binop_spec(op) + " "@ + r0, bool_ty_spec())))
            }
        }
    }
}

/// What [`BodyGen::finish_binary`] computes.
#[verifier::opaque]
pub open spec fn finish_binary_spec(p: Env, st: GenV, op: BinOp, lhs: ExprV, rhs: ExprV, l: Seq<char>, lty: TyV, r0: Seq<char>, rty: TyV) -> (GenV, (Seq<char>, TyV))
{
    let (st, x1) = gen_string_null_check_spec(p, st, op, lhs, rhs, l, lty, r0, rty);
    match x1 {
        Some(res) => { (st, res) },
        None => {
            if (op == (BinOp::Add)) && ((lty.base == "std::string"@) || (rty.base == "std::string"@)) {
                let (st, lpart) = concat_part_spec(p, st, l, lty);
                let (st, rpart) = concat_part_spec(p, st, r0, rty);
                if (is_string_literal_spec(lhs) && is_string_literal_spec(rhs)) || (emits_c_string_literal_spec(lhs) && emits_c_string_literal_spec(rhs)) { (st, ("std::string("@ + lpart + ") + "@ + rpart, str_ty_spec())) } else { (st, (lpart + " + "@ + rpart, str_ty_spec())) }
            } else {
                if (op == (BinOp::Div)) && is_int_ty_spec(lty) && is_int_ty_spec(rty) {
                    (st, ("((double)("@ + l + ") / "@ + ascribed_operand_spec(rhs, r0, 11int) + ")"@, float_ty_spec()))
                } else {
                    if op == (BinOp::UShr) {
                        (st, ("((int)((unsigned int)("@ + l + ") >> "@ + ascribed_operand_spec(rhs, r0, 9int) + "))"@, int_ty_spec()))
                    } else {
                        if (op == (BinOp::Mod)) && (is_float_base_spec(lty) || is_float_base_spec(rty)) { (st, ("fmod("@ + l + ", "@ + r0 + ")"@, float_ty_spec())) } else {
                            let ty = binop_result_ty_spec(op, lty, rty);
                            let left = ascribed_operand_spec(lhs, l, binding_spec(op));
                            let right = ascribed_operand_spec(rhs, r0, binding_spec(op) + 1);
                            if is_comparison_spec(op) {
                                let (a, b) = cast_signed_for_unsigned_spec(left, lty, right, rty);
                                (st, (a + " "@ + binop_spec(op) + " "@ + b, ty))
                            } else { (st, (left + " "@ + binop_spec(op) + " "@ + right, ty)) }
                        }
                    }
                }
            }
        },
    }
}

/// What [`BodyGen::gen_binary`] computes.
#[verifier::opaque]
pub open spec fn gen_binary_spec(p: Env, room: int, st: GenV, e: ExprV) -> (GenV, (Seq<char>, TyV))
    decreases room, e, 10int, 0int,
{
    match e {
        ExprV::Binary { op, lhs, rhs } => {
            match try_iter_null_check_spec(p, st, op, *lhs, *rhs) {
                Some(res) => { (st, res) },
                None => {
                    let saved = st.no_nullable_deref;
                    let st = GenV { no_nullable_deref: ((op == (BinOp::Eq)) || (op == (BinOp::Ne))) && (is_null_spec(*lhs) || is_null_spec(*rhs)), ..st };
                    let (st, (l, lty)) = gen_expr_hinted_spec(p, room, st, *lhs, None);
                    let (st, (r0, rty)) = gen_expr_hinted_spec(p, room, st, *rhs, None);
                    let st = GenV { no_nullable_deref: saved, ..st };
                    finish_binary_spec(p, st, op, *lhs, *rhs, l, lty, r0, rty)
                },
            }
        },
        _ => { (st, (Seq::empty(), no_ty_spec())) },
    }
}

/// What [`BodyGen::gen_ternary`] computes.
#[verifier::opaque]
pub open spec fn gen_ternary_spec(p: Env, room: int, st: GenV, e: ExprV) -> (GenV, (Seq<char>, TyV))
    decreases room, e, 10int, 0int,
{
    match e {
        ExprV::Ternary { cond, then, els } => {
            let (st, (c, _)) = gen_expr_spec(p, room, st, *cond);
            let (st, (a, aty)) = gen_expr_spec(p, room, st, *then);
            let (st, (b, _)) = gen_expr_spec(p, room, st, *els);
            if is_value_string_spec(aty) && emits_c_string_literal_spec(*then) && emits_c_string_literal_spec(*els) { (st, ("std::string("@ + c + " ? "@ + a + " : "@ + b + ")"@, aty)) } else { (st, (c + " ? "@ + a + " : "@ + b, aty)) }
        },
        _ => { (st, (Seq::empty(), no_ty_spec())) },
    }
}

/// What [`BodyGen::gen_unary`] computes.
#[verifier::opaque]
pub open spec fn gen_unary_spec(p: Env, room: int, st: GenV, e: ExprV) -> (GenV, (Seq<char>, TyV))
    decreases room, e, 10int, 0int,
{
    match e {
        ExprV::Unary { op, expr, prefix } => {
            if (op == (UnOp::Incr)) || (op == (UnOp::Decr)) {
                let (st, x1) = routed_compound_write_spec(p, room, st, *expr);
                match x1 {
                    Some((w, read, fty)) => {
                        let delta = if op == (UnOp::Incr) { " + 1)"@ } else { " - 1)"@ };
                        (st, (w + "("@ + read + delta, fty))
                    },
                    None => {
                        let (st, (c, ty)) = gen_lvalue_spec(p, room, st, *expr);
                        if prefix { (st, (unop_spec(op) + c, ty)) } else { (st, (c + unop_spec(op), ty)) }
                    },
                }
            } else {
                let (st, (code, ty)) = gen_expr_spec(p, room, st, *expr);
                let c = ascribed_operand_spec(*expr, code, 11int);
                if prefix { (st, (unop_spec(op) + c, ty)) } else { (st, (c + unop_spec(op), ty)) }
            }
        },
        _ => { (st, (Seq::empty(), no_ty_spec())) },
    }
}

/// What [`BodyGen::gen_assign`] computes.
#[verifier::opaque]
pub open spec fn gen_assign_spec(p: Env, room: int, st: GenV, e: ExprV) -> (GenV, (Seq<char>, TyV))
    decreases room, e, 10int, 0int,
{
    match e {
        ExprV::Assign { op, target, value } => {
            match op {
                Some(o) => {
                    let (st, x1) = routed_compound_write_spec(p, room, st, *target);
                    match x1 {
                        Some((w, read, fty)) => {
                            let (st, (v, vty)) = gen_expr_spec(p, room, st, *value);
                            (st, (w + "("@ + combined_spec(o, read, fty, *value, v, vty) + ")"@, fty))
                        },
                        None => {
                            let (st, (t, tty)) = gen_lvalue_spec(p, room, st, *target);
                            let (st, (v, vty)) = gen_expr_spec(p, room, st, *value);
                            (st, (compound_spec(o, t, tty, *value, v, vty), tty))
                        },
                    }
                },
                None => {
                    match own_field_setter_spec(p, st, *target) {
                        Some(name) => {
                            let fty = own_field_ty_spec(p, st, name);
                            let (st, (v, _)) = gen_expr_spec(p, room, st, *value);
                            (st, ("this->set_"@ + name + "("@ + v + ")"@, fty))
                        },
                        None => {
                            let (st, (t, tty)) = gen_lvalue_spec(p, room, st, *target);
                            let (st, (v, _)) = gen_expr_spec(p, room, st, *value);
                            (st, (t + " = "@ + v, tty))
                        },
                    }
                },
            }
        },
        _ => { (st, (Seq::empty(), no_ty_spec())) },
    }
}

/// What [`BodyGen::gen_type_check`] computes.
#[verifier::opaque]
pub open spec fn gen_type_check_spec(p: Env, room: int, st: GenV, e: ExprV) -> (GenV, (Seq<char>, TyV))
    decreases room, e, 10int, 0int,
{
    match e {
        ExprV::TypeCheck { expr, ty } => {
            let aty = ty_of_spec(p, st, ty);
            match *expr {
                ExprV::MapLit(pairs) => {
                    if ("std::map"@).is_prefix_of(aty.base) {
                        let depth: int = st.expr_depth;
                        let st = GenV { expr_depth: inc_spec(depth), ..st };
                        let (st, code) = gen_map_of_spec(p, room, st, pairs, aty);
                        let st = GenV { expr_depth: depth, ..st };
                        (st, (code, aty))
                    } else {
                        let saved = st.expected;
                        let st = if is_container_ty_spec(aty) {
                            let st = GenV { expected: Some(aty), ..st };
                            st
                        } else { st };
                        let (st, (code, cty)) = gen_expr_spec(p, room, st, *expr);
                        let st = if is_container_ty_spec(aty) {
                            let st = GenV { expected: saved, ..st };
                            st
                        } else { st };
                        if is_arith_scalar_spec(aty) && !(cty.base == aty.base) {
                            (st, ("(("@ + map_type_use_spec(p.prog, ty, st.mi, st.ns) + ") "@ + operand_spec(*expr, code) + ")"@, aty))
                        } else { (st, (code, aty)) }
                    }
                },
                _ => {
                    let saved = st.expected;
                    let st = if is_container_ty_spec(aty) {
                        let st = GenV { expected: Some(aty), ..st };
                        st
                    } else { st };
                    let (st, (code, cty)) = gen_expr_spec(p, room, st, *expr);
                    let st = if is_container_ty_spec(aty) {
                        let st = GenV { expected: saved, ..st };
                        st
                    } else { st };
                    if is_arith_scalar_spec(aty) && !(cty.base == aty.base) {
                        (st, ("(("@ + map_type_use_spec(p.prog, ty, st.mi, st.ns) + ") "@ + operand_spec(*expr, code) + ")"@, aty))
                    } else { (st, (code, aty)) }
                },
            }
        },
        _ => { (st, (Seq::empty(), no_ty_spec())) },
    }
}

} // verus!
