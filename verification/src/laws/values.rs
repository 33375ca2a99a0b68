//! What the values of a program become.

use vstd::prelude::*;

use crate::ast::{BinOp, Meta, PropAccess, UnOp};
use crate::codegen::access::{gen_index_spec, gen_null_coalesce_spec, gen_safe_parts_spec};
use crate::codegen::args::gen_args_owned_spec;
use crate::codegen::call::gen_plain_call_spec;
use crate::codegen::callee::{callee_param_types_spec, callee_sink_params_spec, check_overload_spec};
use crate::codegen::ctypes::map_type_use_spec;
use crate::codegen::expr::{gen_expr_hinted_spec, gen_expr_inner_spec, gen_expr_spec, gen_float_spec, gen_this_spec};
use crate::codegen::gen::GenV;
use crate::codegen::helpers::{binop_result_ty_spec, binop_spec, cast_signed_for_unsigned_spec, getter_method_spec, intrinsic_field_spec, is_arith_scalar_spec, is_arithmetic_op_spec, is_boolean_op_spec, is_comparison_spec, is_container_ty_spec, is_float_base_spec, is_int_ty_spec, is_signed_int_spec, is_value_string_spec, is_vector_ty_spec, no_ty_spec, plain_ty_spec, rcode_is_map_spec, unop_spec};
use crate::codegen::operators::{combined_spec, compound_spec, finish_binary_spec, gen_assign_spec, gen_binary_spec, gen_string_null_check_spec, gen_ternary_spec, gen_unary_spec, is_null_spec, is_optional_string_spec, is_string_literal_spec};
use crate::codegen::state::{Env, lookup_local_spec};
use crate::codegen::ty::{IterAliasV, TyV};
use crate::codegen::types::{deref_alias_spec, expects_float_spec, method_is_overloaded_spec, own_field_setter_spec, ty_of_spec};
use crate::codegen::values::{ascribed_operand_spec, binding_spec, concat_part_spec, container_access_spec, emits_c_string_literal_spec, enclosed_spec, member_op_spec, operand_of_spec, operand_spec, scalar_buffer_spec, spec_for_spec, try_iter_null_check_spec};
use crate::codegen::write::{gen_lvalue_spec, own_field_ty_spec, routed_compound_write_spec};
use crate::model::{ExprV, FieldV, TypeV};
use crate::strings::cap_spec;

verus! {

broadcast use {crate::codegen::gen::group_gen, crate::codegen::ty::group_ty, crate::model::group_model, crate::text::group_texts};

/// A literal is written as it stands; `null` is C++'s `NULL`, and a float that is wanted as a
/// `float` is marked as one.
pub proof fn law_literal_values(p: Env, room: int, st: GenV, s: Seq<char>, b: bool)
    ensures
        gen_expr_inner_spec(p, room, st, ExprV::Int(s)) == (st, (s, plain_ty_spec("int"@))),
        gen_expr_inner_spec(p, room, st, ExprV::Bool(true)) == (st, ("true"@, plain_ty_spec("bool"@))),
        gen_expr_inner_spec(p, room, st, ExprV::Bool(false)) == (st, ("false"@, plain_ty_spec("bool"@))),
        gen_expr_inner_spec(p, room, st, ExprV::Null) == (st, ("NULL"@, no_ty_spec())),
        !(st.expected matches Some(t) && !t.is_ptr && t.base == "float"@) ==> gen_expr_inner_spec(p, room, st, ExprV::Float(s)) == (
            st,
            (s, plain_ty_spec("double"@)),
        ),
        (st.expected matches Some(t) && !t.is_ptr && t.base == "float"@) ==> gen_expr_inner_spec(p, room, st, ExprV::Float(s)) == (
            st,
            (s + "f"@, plain_ty_spec("float"@)),
        ),
{
    reveal(gen_expr_inner_spec);
    reveal(gen_float_spec);
    reveal(expects_float_spec);
}

/// `this` is the object, or in a method of an abstract the value it wraps.
pub proof fn law_this_value(p: Env, room: int, st: GenV)
    ensures
        st.abstract_this matches Some(t) ==> gen_expr_inner_spec(p, room, st, ExprV::This) == (st, ("this->__this"@, t)),
        st.abstract_this is None ==> ({
            let (s, v) = gen_expr_inner_spec(p, room, st, ExprV::This);
            s == st && v.0 == "this"@ && v.1.is_ptr && v.1.base == p.class.name
        }),
{
    reveal(gen_expr_inner_spec);
    reveal(gen_this_spec);
}

/// Brackets stay, and a cast converts the value in them; one without a type changes nothing.
pub proof fn law_brackets_and_casts(p: Env, room: int, st: GenV, e: ExprV, t: TypeV)
    ensures
        ({
            let (s, v) = gen_expr_spec(p, room, st, e);
            &&& gen_expr_inner_spec(p, room, st, ExprV::Paren(Box::new(e))) == (s, ("("@ + v.0 + ")"@, v.1))
            &&& gen_expr_inner_spec(p, room, st, ExprV::Cast { expr: Box::new(e), ty: None }) == (s, v)
            &&& gen_expr_inner_spec(p, room, st, ExprV::Cast { expr: Box::new(e), ty: Some(t) }) == (
                s,
                ("(("@ + map_type_use_spec(p.prog, t, s.mi, s.ns) + ") "@ + operand_spec(e, v.0) + ")"@, ty_of_spec(p, s, t)),
            )
            &&& gen_expr_inner_spec(p, room, st, ExprV::Untyped(Box::new(e))) == (s, (v.0, no_ty_spec()))
        }),
{
    reveal(gen_expr_inner_spec);
    reveal(gen_expr_spec);
}

/// A conditional evaluates the condition, the value for it and the value against it, and
/// stands in this order. Its type is that of the first value.
pub proof fn law_conditional_value(p: Env, room: int, st: GenV, cond: ExprV, a: ExprV, b: ExprV)
    ensures
        ({
            let e = ExprV::Ternary { cond: Box::new(cond), then: Box::new(a), els: Box::new(b) };
            let (s1, c) = gen_expr_spec(p, room, st, cond);
            let (s2, x) = gen_expr_spec(p, room, s1, a);
            let (s3, y) = gen_expr_spec(p, room, s2, b);
            let text = c.0 + " ? "@ + x.0 + " : "@ + y.0;
            let (s, v) = gen_ternary_spec(p, room, st, e);
            &&& s == s3
            &&& v.1 == x.1
            &&& v.0 == text || v.0 == "std::string("@ + text + ")"@
            &&& v.0 != text ==> emits_c_string_literal_spec(a) && emits_c_string_literal_spec(b)
        }),
{
    reveal(gen_ternary_spec);
    reveal(gen_expr_spec);
    let (s1, c) = gen_expr_spec(p, room, st, cond);
    let (s2, x) = gen_expr_spec(p, room, s1, a);
    let (s3, y) = gen_expr_spec(p, room, s2, b);
    assert("std::string("@ + c.0 + " ? "@ + x.0 + " : "@ + y.0 + ")"@ =~= "std::string("@ + (c.0 + " ? "@ + x.0 + " : "@ + y.0) + ")"@);
}

/// An operator on one value stands in front of it where it was written there, else behind it.
pub proof fn law_unary_value(p: Env, room: int, st: GenV, op: UnOp, e: ExprV, prefix: bool)
    requires
        op != UnOp::Incr && op != UnOp::Decr,
    ensures
        ({
            let (s, v) = gen_expr_spec(p, room, st, e);
            let c = ascribed_operand_spec(e, v.0, 11);
            gen_unary_spec(p, room, st, ExprV::Unary { op, expr: Box::new(e), prefix }) == (
                s,
                (if prefix { unop_spec(op) + c } else { c + unop_spec(op) }, v.1),
            )
        }),
{
    reveal(gen_unary_spec);
    reveal(gen_expr_spec);
}

/// `++` and `--` change the place they are applied to; on a property they hand the setter one
/// more or one less than what is read.
pub proof fn law_stepped_value(p: Env, room: int, st: GenV, up: bool, e: ExprV, prefix: bool)
    ensures
        ({
            let op = if up { UnOp::Incr } else { UnOp::Decr };
            let (s, route) = routed_compound_write_spec(p, room, st, e);
            let (s1, place) = gen_lvalue_spec(p, room, s, e);
            let r = gen_unary_spec(p, room, st, ExprV::Unary { op, expr: Box::new(e), prefix });
            &&& route matches Some((w, read, ty)) ==> r == (s, (w + "("@ + read + if up { " + 1)"@ } else { " - 1)"@ }, ty))
            &&& route is None ==> r == (s1, (if prefix { unop_spec(op) + place.0 } else { place.0 + unop_spec(op) }, place.1))
        }),
{
    reveal(gen_unary_spec);
    reveal(routed_compound_write_spec);
    reveal(gen_lvalue_spec);
}

/// An assignment writes the value to the place, or hands it to the setter of a property.
pub proof fn law_assigned_value(p: Env, room: int, st: GenV, target: ExprV, value: ExprV)
    ensures
        ({
            let e = ExprV::Assign { op: None, target: Box::new(target), value: Box::new(value) };
            let r = gen_assign_spec(p, room, st, e);
            &&& own_field_setter_spec(p, st, target) matches Some(name) ==> ({
                let (s, v) = gen_expr_spec(p, room, st, value);
                r == (s, ("this->set_"@ + name + "("@ + v.0 + ")"@, own_field_ty_spec(p, st, name)))
            })
            &&& own_field_setter_spec(p, st, target) is None ==> ({
                let (s1, t) = gen_lvalue_spec(p, room, st, target);
                let (s2, v) = gen_expr_spec(p, room, s1, value);
                r == (s2, (t.0 + " = "@ + v.0, t.1))
            })
        }),
{
    reveal(gen_assign_spec);
    reveal(gen_expr_spec);
    reveal(gen_lvalue_spec);
}

/// An assignment with an operator: C++'s own, but for what C++ lacks. A remainder of floats is
/// taken by `fmod`, and `>>>` shifts as unsigned. On a property the setter gets what the
/// operator makes of the value read and the new one.
pub proof fn law_compound_assignment(op: BinOp, place: Seq<char>, pty: TyV, value: ExprV, v: Seq<char>, vty: TyV)
    ensures
        op != BinOp::UShr && op != BinOp::Mod ==> {
            &&& compound_spec(op, place, pty, value, v, vty) == place + " "@ + binop_spec(op) + "= "@ + v
            &&& combined_spec(op, place, pty, value, v, vty) == place + " "@ + binop_spec(op) + " "@ + operand_of_spec(value, v, binding_spec(op) + 1)
        },
        is_float_base_spec(pty) || is_float_base_spec(vty) ==> {
            &&& compound_spec(BinOp::Mod, place, pty, value, v, vty) == place + " = "@ + combined_spec(BinOp::Mod, place, pty, value, v, vty)
            &&& combined_spec(BinOp::Mod, place, pty, value, v, vty) == "fmod("@ + place + ", "@ + v + ")"@
        },
        !is_float_base_spec(pty) && !is_float_base_spec(vty) ==> compound_spec(BinOp::Mod, place, pty, value, v, vty) == place + " %= "@ + v,
        compound_spec(BinOp::UShr, place, pty, value, v, vty) == place + " = "@ + combined_spec(BinOp::UShr, place, pty, value, v, vty),
        combined_spec(BinOp::UShr, place, pty, value, v, vty) == "(int)((unsigned int)("@ + place + ") >> "@ + operand_of_spec(value, v, 9)
            + ")"@,
{
    reveal(compound_spec);
    reveal(combined_spec);
    reveal(binop_spec);
    reveal(binding_spec);
    reveal_strlit(" = fmod(");
    reveal_strlit(" = ");
    reveal_strlit("fmod(");
    reveal_strlit(" = (int)((unsigned int)(");
    reveal_strlit("(int)((unsigned int)(");
    reveal_strlit(" ");
    reveal_strlit("%");
    reveal_strlit("= ");
    reveal_strlit(" %= ");
    assert(" = fmod("@ =~= " = "@ + "fmod("@);
    assert(" = (int)((unsigned int)("@ =~= " = "@ + "(int)((unsigned int)("@);
    assert(" %= "@ =~= " "@ + "%"@ + "= "@);
    assert(place + (" "@ + "%"@ + "= "@) + v =~= place + " "@ + "%"@ + "= "@ + v);
}

/// A value whose operator binds less tightly than its surroundings stands in brackets, and so
/// does a conditional or an assignment; any other stands as it is.
pub proof fn law_operand_brackets(e: ExprV, code: Seq<char>, least: int)
    ensures
        e matches ExprV::Binary { op, lhs, rhs } ==> operand_of_spec(e, code, least) == if binding_spec(op) < least {
            enclosed_spec(code)
        } else {
            code
        },
        e is Ternary || e is Assign ==> operand_of_spec(e, code, least) == enclosed_spec(code),
        !(e is Binary || e is Ternary || e is Assign || e is Meta || e is Untyped || e is TypeCheck) ==> operand_of_spec(e, code, least) == code,
        enclosed_spec(code) == code || enclosed_spec(code) == "("@ + code + ")"@,
{
    reveal(operand_of_spec);
}

/// A binary operation stands as it was written: the left operand, the operator, the right
/// operand. What C++ does otherwise is spelled out: the quotient of integers is a float, the
/// remainder of floats goes by `fmod`, `>>>` by an unsigned shift.
pub proof fn law_binary_value(p: Env, st: GenV, op: BinOp, lhs: ExprV, rhs: ExprV, l: Seq<char>, lty: TyV, r: Seq<char>, rty: TyV)
    requires
        op != BinOp::Eq && op != BinOp::Ne || is_null_spec(lhs) == is_null_spec(rhs),
        op != BinOp::Add || lty.base != "std::string"@ && rty.base != "std::string"@,
    ensures
        ({
            let (s, v) = finish_binary_spec(p, st, op, lhs, rhs, l, lty, r, rty);
            let ints = is_int_ty_spec(lty) && is_int_ty_spec(rty);
            let floats = is_float_base_spec(lty) || is_float_base_spec(rty);
            let a = ascribed_operand_spec(lhs, l, binding_spec(op));
            let b = ascribed_operand_spec(rhs, r, binding_spec(op) + 1);
            &&& s == st
            &&& op == BinOp::Div && ints ==> v == ("((double)("@ + l + ") / "@ + ascribed_operand_spec(rhs, r, 11) + ")"@, plain_ty_spec("double"@))
            &&& op == BinOp::UShr ==> v == (
                "((int)((unsigned int)("@ + l + ") >> "@ + ascribed_operand_spec(rhs, r, 9) + "))"@,
                plain_ty_spec("int"@),
            )
            &&& op == BinOp::Mod && floats ==> v == ("fmod("@ + l + ", "@ + r + ")"@, plain_ty_spec("double"@))
            &&& !(op == BinOp::Div && ints) && op != BinOp::UShr && !(op == BinOp::Mod && floats) ==> {
                &&& !is_comparison_spec(op) ==> v.0 == a + " "@ + binop_spec(op) + " "@ + b
                &&& is_comparison_spec(op) ==> v.0 == cast_signed_for_unsigned_spec(a, lty, b, rty).0 + " "@ + binop_spec(op) + " "@
                    + cast_signed_for_unsigned_spec(a, lty, b, rty).1
            }
            &&& is_boolean_op_spec(op) ==> v.1 == plain_ty_spec("bool"@)
            &&& is_arithmetic_op_spec(op) && floats ==> v.1 == plain_ty_spec("double"@)
        }),
{
    reveal(finish_binary_spec);
    reveal(gen_string_null_check_spec);
    reveal(binop_result_ty_spec);
}

/// Texts are joined in the order they stand in; a value that is no text is made one first.
pub proof fn law_joined_texts(p: Env, st: GenV, lhs: ExprV, rhs: ExprV, l: Seq<char>, lty: TyV, r: Seq<char>, rty: TyV)
    requires
        lty.base == "std::string"@ && rty.base == "std::string"@,
    ensures
        ({
            let (s, v) = finish_binary_spec(p, st, BinOp::Add, lhs, rhs, l, lty, r, rty);
            &&& s == st
            &&& v.1 == plain_ty_spec("std::string"@)
            &&& v.0 == l + " + "@ + r || v.0 == "std::string("@ + l + ") + "@ + r
            &&& !emits_c_string_literal_spec(lhs) && !is_string_literal_spec(lhs) ==> v.0 == l + " + "@ + r
        }),
{
    reveal(finish_binary_spec);
    reveal(gen_string_null_check_spec);
    reveal(concat_part_spec);
}

/// The operands of a binary operation are evaluated from left to right.
pub proof fn law_binary_order(p: Env, room: int, st: GenV, op: BinOp, lhs: ExprV, rhs: ExprV)
    requires
        op != BinOp::Eq && op != BinOp::Ne,
        !st.no_nullable_deref,
    ensures
        ({
            let (s1, l) = gen_expr_hinted_spec(p, room, st, lhs, None);
            let (s2, r) = gen_expr_hinted_spec(p, room, s1, rhs, None);
            gen_binary_spec(p, room, st, ExprV::Binary { op, lhs: Box::new(lhs), rhs: Box::new(rhs) }) == finish_binary_spec(
                p,
                GenV { no_nullable_deref: false, ..s2 },
                op,
                lhs,
                rhs,
                l.0,
                l.1,
                r.0,
                r.1,
            )
        }),
{
    reveal(gen_binary_spec);
    reveal(gen_expr_hinted_spec);
    reveal(try_iter_null_check_spec);
    assert(GenV { no_nullable_deref: false, ..st } == st);
}

/// A value that may be null is tested: for `a ?? b` the first stands where it is not null.
pub proof fn law_null_tests(p: Env, room: int, st: GenV, a: ExprV, b: ExprV)
    ensures
        ({
            let (s, parts) = gen_safe_parts_spec(p, room, st, a);
            let r = gen_null_coalesce_spec(p, room, st, ExprV::NullCoalesce(Box::new(a), Box::new(b)));
            &&& parts is None ==> ({
                let (s1, x) = gen_expr_spec(p, room, s, a);
                let (s2, y) = gen_expr_spec(p, room, s1, b);
                r == (s2, ("("@ + x.0 + " != NULL ? "@ + x.0 + " : "@ + y.0 + ")"@, x.1))
            })
            &&& parts matches Some((code, is_ptr, access, ty)) ==> ({
                let (s1, y) = gen_expr_spec(p, room, s, b);
                &&& is_ptr ==> r == (s1, ("("@ + code + " != NULL ? "@ + access + " : "@ + y.0 + ")"@, ty))
                &&& !is_ptr ==> r == (s, (access, ty))
            })
        }),
{
    reveal(gen_null_coalesce_spec);
    reveal(gen_expr_spec);
    reveal(gen_safe_parts_spec);
}

/// A comparison of a map's entry with null asks whether the entry was found.
pub proof fn law_entry_test(p: Env, st: GenV, name: Seq<char>, ty: TyV, alias: IterAliasV)
    requires
        lookup_local_spec(p, st, name) == Some(ty),
        ty.iter == Some(Box::new(alias)),
    ensures
        try_iter_null_check_spec(p, st, BinOp::Ne, ExprV::Ident(name), ExprV::Null) == Some(
            (alias.it_name + " != "@ + alias.map_code + ".end()"@, plain_ty_spec("bool"@)),
        ),
        try_iter_null_check_spec(p, st, BinOp::Eq, ExprV::Ident(name), ExprV::Null) == Some(
            (alias.it_name + " == "@ + alias.map_code + ".end()"@, plain_ty_spec("bool"@)),
        ),
        try_iter_null_check_spec(p, st, BinOp::Ne, ExprV::Null, ExprV::Ident(name)) == try_iter_null_check_spec(
            p,
            st,
            BinOp::Ne,
            ExprV::Ident(name),
            ExprV::Null,
        ),
        try_iter_null_check_spec(p, st, BinOp::Eq, ExprV::Null, ExprV::Ident(name)) == try_iter_null_check_spec(
            p,
            st,
            BinOp::Eq,
            ExprV::Ident(name),
            ExprV::Null,
        ),
{
    reveal(try_iter_null_check_spec);
}

/// An optional text was given when it is not empty.
pub proof fn law_optional_text_test(p: Env, st: GenV, e: ExprV, l: Seq<char>, ty: TyV, r: Seq<char>, other: TyV)
    requires
        is_value_string_spec(ty),
        is_optional_string_spec(p, st, e),
        !is_null_spec(e),
    ensures
        finish_binary_spec(p, st, BinOp::Ne, e, ExprV::Null, l, ty, r, other) == (st, ("!"@ + l + ".empty()"@, plain_ty_spec("bool"@))),
        finish_binary_spec(p, st, BinOp::Eq, e, ExprV::Null, l, ty, r, other) == (st, (l + ".empty()"@, plain_ty_spec("bool"@))),
        finish_binary_spec(p, st, BinOp::Ne, ExprV::Null, e, r, other, l, ty) == (st, ("!"@ + l + ".empty()"@, plain_ty_spec("bool"@))),
        finish_binary_spec(p, st, BinOp::Eq, ExprV::Null, e, r, other, l, ty) == (st, (l + ".empty()"@, plain_ty_spec("bool"@))),
{
    reveal(finish_binary_spec);
    reveal(gen_string_null_check_spec);
    reveal_strlit("");
    assert(""@ + l =~= l);
}

/// A member is reached by an arrow through a pointer and by a dot through a value, and an item
/// of a container behind a pointer through that pointer.
pub proof fn law_member_access(p: Env, room: int, st: GenV, ty: TyV, code: Seq<char>, held: TyV, recv: ExprV, index: ExprV)
    ensures
        member_op_spec(ty) == if ty.is_ptr { "->"@ } else { "."@ },
        container_access_spec(code, ty, held) == if ty.is_ptr && is_container_ty_spec(held) { "(*"@ + code + ")"@ } else { code },
        ({
            let (s1, r) = gen_expr_spec(p, room, st, recv);
            let (s2, i) = gen_expr_spec(p, room, s1, index);
            let (s, v) = gen_index_spec(p, room, st, ExprV::Index(Box::new(recv), Box::new(index)));
            s == s2 && v.0 == container_access_spec(r.0, r.1, deref_alias_spec(p, s2, r.1)) + "["@ + i.0 + "]"@
        }),
{
    reveal(gen_index_spec);
    reveal(gen_expr_spec);
}

/// A method call stands as receiver, member operator, name and arguments; one of the base
/// class is qualified by its name.
pub proof fn law_method_call(p: Env, room: int, st: GenV, code: Seq<char>, ty: TyV, method: Seq<char>, args: Seq<ExprV>)
    ensures
        exists|a: Seq<char>| (#[trigger] (code + member_op_spec(ty) + method + "("@ + a + ")"@)) == gen_plain_call_spec(
            p,
            room,
            st,
            code,
            ty,
            method,
            args,
        ).1.0,
{
    reveal(gen_plain_call_spec);
    reveal(gen_args_owned_spec);
    let s = check_overload_spec(p, st, ty, method, args);
    let a = gen_args_owned_spec(
        p,
        room,
        s,
        args,
        callee_param_types_spec(p, st, ty, method),
        callee_sink_params_spec(p, s, ty, method),
        method_is_overloaded_spec(p, s, ty, method),
    ).1;
    assert((code + member_op_spec(ty) + method + "("@ + a + ")"@) == gen_plain_call_spec(p, room, st, code, ty, method, args).1.0);
}

/// Signed and unsigned numbers are compared as unsigned.
pub proof fn law_mixed_comparison(a: Seq<char>, aty: TyV, b: Seq<char>, bty: TyV)
    ensures
        cast_signed_for_unsigned_spec(a, aty, b, bty) == if aty.unsigned && is_signed_int_spec(bty) {
            (a, "(size_t)("@ + b + ")"@)
        } else if bty.unsigned && is_signed_int_spec(aty) {
            ("(size_t)("@ + a + ")"@, b)
        } else {
            (a, b)
        },
        is_signed_int_spec(aty) <==> !aty.is_ptr && !aty.unsigned && aty.base == "int"@,
{
    reveal(cast_signed_for_unsigned_spec);
    reveal(is_signed_int_spec);
}

/// Which types count as integers, as floats, as texts and as containers; a pointer is none of
/// the first three.
pub proof fn law_kinds_of_types(t: TyV)
    ensures
        is_int_ty_spec(t) <==> !t.is_ptr && (t.base == "int"@ || t.base == "unsigned int"@ || t.base == "uint8_t"@ || t.base == "uint16_t"@
            || t.base == "uint32_t"@ || t.base == "char"@ || t.base == "short"@ || t.base == "long"@),
        is_float_base_spec(t) <==> !t.is_ptr && (t.base == "float"@ || t.base == "double"@),
        is_arith_scalar_spec(t) <==> is_int_ty_spec(t) || is_float_base_spec(t) || !t.is_ptr && t.base == "bool"@,
        is_value_string_spec(t) <==> !t.is_ptr && t.base == "std::string"@,
        is_container_ty_spec(t) <==> "std::vector"@.is_prefix_of(t.base) || "std::map"@.is_prefix_of(t.base),
{
    reveal(is_int_ty_spec);
    reveal(is_float_base_spec);
    reveal(is_arith_scalar_spec);
    reveal(is_value_string_spec);
    reveal(is_container_ty_spec);
    reveal(is_vector_ty_spec);
    reveal(rcode_is_map_spec);
}

/// The constants of `Math`.
pub proof fn law_math_constants()
    ensures
        intrinsic_field_spec("Math"@, "PI"@) == Some(("3.141592653589793"@, plain_ty_spec("double"@))),
        intrinsic_field_spec("Math"@, "POSITIVE_INFINITY"@) == Some(("HUGE_VAL"@, plain_ty_spec("double"@))),
        intrinsic_field_spec("Math"@, "NEGATIVE_INFINITY"@) == Some(("(-HUGE_VAL)"@, plain_ty_spec("double"@))),
        intrinsic_field_spec("Math"@, "NaN"@) == Some(("(HUGE_VAL - HUGE_VAL)"@, plain_ty_spec("double"@))),
{
    reveal(intrinsic_field_spec);
    reveal_strlit("PI");
    reveal_strlit("NaN");
    reveal_strlit("POSITIVE_INFINITY");
    reveal_strlit("NEGATIVE_INFINITY");
    assert("PI"@.len() == 2 && "NaN"@.len() == 3 && "POSITIVE_INFINITY"@.len() == 17 && "NEGATIVE_INFINITY"@.len() == 17);
    assert("POSITIVE_INFINITY"@[0] == 'P' && "NEGATIVE_INFINITY"@[0] == 'N');
}

/// A property is read from outside by its own getter, by the one made for it where its field
/// is hidden, and otherwise directly.
pub proof fn law_outside_read(f: FieldV)
    ensures
        f.get == PropAccess::Get ==> getter_method_spec(f) == Some("get_"@ + f.name),
        f.get == PropAccess::Default && f.set == PropAccess::Default ==> getter_method_spec(f) is None,
        f.get == PropAccess::Default && f.set != PropAccess::Default ==> getter_method_spec(f) == Some("Get"@ + cap_spec(f.name)),
{
    reveal(getter_method_spec);
}

/// How a value of each type is printed: a text by its characters, a float as a float, any
/// other as an integer, into a buffer that holds every value of the type.
pub proof fn law_printed_value(code: Seq<char>, t: TyV)
    ensures
        t.base == "std::string"@ ==> spec_for_spec(code, t) == ("%s"@, code + ".c_str()"@),
        t.base == "float"@ || t.base == "double"@ ==> spec_for_spec(code, t) == ("%f"@, code),
        t.base != "std::string"@ && t.base != "float"@ && t.base != "double"@ ==> spec_for_spec(code, t) == ("%d"@, code),
        scalar_buffer_spec(t) == if t.base == "double"@ { "320"@ } else if t.base == "float"@ { "64"@ } else { "24"@ },
{
    reveal(spec_for_spec);
    reveal_strlit("std::string");
    reveal_strlit("float");
    reveal_strlit("double");
    assert("std::string"@.len() == 11 && "float"@.len() == 5 && "double"@.len() == 6);
}

} // verus!
