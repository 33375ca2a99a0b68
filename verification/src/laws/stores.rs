//! What assignments, literals and the definitions of a module become.

use vstd::prelude::*;

use crate::ast::{Access, UnOp};
use crate::codegen::expr::{gen_expr_hinted_spec, gen_expr_spec};
use crate::codegen::fndef::plain_fn_signature_spec;
use crate::codegen::gen::GenV;
use crate::codegen::literal::{assign_object_field_spec, expand_object_field_spec, expand_object_fields_spec, gen_elem_spec, int_const_spec, or_no_ty_spec, push_elems_spec, set_pairs_spec};
use crate::codegen::modfns::{Sort, forward_decl_spec, is_emitted_class_spec, is_file_final_spec, is_plain_fn_spec};
use crate::codegen::scan::is_lambda_global_spec;
use crate::codegen::state::{Env, flush_spec, restart_spec};
use crate::codegen::ty::TyV;
use crate::codegen::types::member_field_ty_spec;
use crate::codegen::write::{gen_lvalue_spec, gen_plain_store_spec, own_field_ty_spec, own_getter_field_spec};
use crate::model::{ClassV, DeclV, ExprV, FunctionV, GlobalVarV};
use crate::parser::types::meta_has_spec;

verus! {

broadcast use {crate::codegen::gen::group_gen, crate::codegen::ty::group_ty, crate::model::group_model, crate::text::group_texts};

/// An assignment of a value to a place writes it there. One to a place that may be null
/// allocates it, unless it is null or a pointer already.
pub proof fn law_plain_store(p: Env, room: int, st: GenV, target: ExprV, value: ExprV)
    requires
        !(value is ObjectLit),
    ensures
        ({
            let e = ExprV::Assign { op: None, target: Box::new(target), value: Box::new(value) };
            let (s1, t) = gen_lvalue_spec(p, room, st, target);
            let (s2, v) = gen_expr_hinted_spec(p, room, s1, value, Some(t.1));
            let r = gen_plain_store_spec(p, room, st, e).1;
            let allocates = t.1.is_ptr && t.1.nullable && !v.1.is_ptr && !(value is Null);
            r == (if allocates { t.0 + " = new "@ + t.1.base + "("@ + v.0 + ")"@ } else { t.0 + " = "@ + v.0 }, t.1)
        }),
{
    reveal(gen_plain_store_spec);
    reveal(gen_lvalue_spec);
    reveal(gen_expr_hinted_spec);
}

/// What stands on the left of an assignment is a place and no value: a property's own field is
/// written directly, and what may be null is not looked through.
pub proof fn law_places(p: Env, room: int, st: GenV, target: ExprV)
    ensures
        own_getter_field_spec(p, st, target) matches Some(name) ==> gen_lvalue_spec(p, room, st, target) == (
            st,
            ("this->"@ + name, own_field_ty_spec(p, st, name)),
        ),
        own_getter_field_spec(p, st, target) is None ==> ({
            let (s, v) = gen_expr_spec(p, room, GenV { no_nullable_deref: true, ..st }, target);
            gen_lvalue_spec(p, room, st, target) == (GenV { no_nullable_deref: st.no_nullable_deref, ..s }, v)
        }),
{
    reveal(gen_lvalue_spec);
    reveal(gen_expr_spec);
}

/// The fields of an object literal are assigned one by one, in the order they are written in.
pub proof fn law_object_fields(p: Env, room: int, st: GenV, name: Seq<char>, target: TyV, fields: Seq<(Seq<char>, ExprV)>, t: Seq<char>, i: int, out: Seq<char>)
    requires
        0 <= i < fields.len(),
    ensures
        ({
            let member = match target.info {
                Some(info) => member_field_ty_spec(p, st, info, fields[i].0),
                None => None,
            };
            let (s, text) = expand_object_field_spec(p, room, st, name + "."@ + fields[i].0, fields[i].1, member, t);
            expand_object_fields_spec(p, room, st, name, target, fields, t, i, out) == expand_object_fields_spec(
                p,
                room,
                s,
                name,
                target,
                fields,
                t,
                i + 1,
                out + text,
            )
        }),
        expand_object_fields_spec(p, room, st, name, target, fields, t, fields.len() as int, out) == (st, out),
{
    reveal(expand_object_fields_spec);
    reveal(expand_object_field_spec);
}

/// A pointer that goes into a field that holds a value is followed where it is not null;
/// anything else is assigned.
pub proof fn law_object_field(p: Env, room: int, st: GenV, place: Seq<char>, value: ExprV, member: Option<TyV>, t: Seq<char>)
    ensures
        ({
            let (s1, v) = gen_expr_hinted_spec(p, room, st, value, member);
            let (s2, pre) = flush_spec(p, s1);
            let held = member matches Some(m) && m.is_ptr;
            assign_object_field_spec(p, room, st, place, value, member, t) == (
                s2,
                if v.1.is_ptr && !held {
                    pre + t + "if ("@ + v.0 + " != NULL) { "@ + place + " = *"@ + v.0 + "; }\n"@
                } else {
                    pre + t + place + " = "@ + v.0 + ";\n"@
                },
            )
        }),
{
    reveal(assign_object_field_spec);
    reveal(gen_expr_hinted_spec);
    reveal(or_no_ty_spec);
}

/// The elements of an array literal are put at its end one by one, in their order.
pub proof fn law_array_elements(p: Env, room: int, st: GenV, name: Seq<char>, elem: TyV, elems: Seq<ExprV>, t: Seq<char>, i: int, out: Seq<char>)
    requires
        0 <= i < elems.len(),
    ensures
        ({
            let (s, made) = gen_elem_spec(p, room, st, "elem"@, elems[i], elem, t);
            push_elems_spec(p, room, st, name, elem, elems, t, i, out) == push_elems_spec(
                p,
                room,
                s,
                name,
                elem,
                elems,
                t,
                i + 1,
                out + made.0 + t + name + ".push_back("@ + made.1 + ");\n"@,
            )
        }),
        push_elems_spec(p, room, st, name, elem, elems, t, elems.len() as int, out) == (st, out),
{
    reveal(push_elems_spec);
    reveal(gen_elem_spec);
}

/// The pairs of a map literal are stored one by one, each value under its key.
pub proof fn law_map_pairs(p: Env, room: int, st: GenV, name: Seq<char>, val: TyV, pairs: Seq<(ExprV, ExprV)>, t: Seq<char>, i: int, out: Seq<char>)
    requires
        0 <= i < pairs.len(),
    ensures
        ({
            let (s1, k) = gen_expr_spec(p, room, st, pairs[i].0);
            let (s2, pre) = flush_spec(p, s1);
            let (s3, v) = gen_elem_spec(p, room, s2, "val"@, pairs[i].1, val, t);
            set_pairs_spec(p, room, st, name, val, pairs, t, i, out) == set_pairs_spec(
                p,
                room,
                s3,
                name,
                val,
                pairs,
                t,
                i + 1,
                out + pre + v.0 + t + name + "["@ + k.0 + "] = "@ + v.1 + ";\n"@,
            )
        }),
        set_pairs_spec(p, room, st, name, val, pairs, t, pairs.len() as int, out) == (st, out),
{
    reveal(set_pairs_spec);
    reveal(gen_elem_spec);
    reveal(gen_expr_spec);
}

/// A table is made of integers alone, written as they stand or with a minus.
pub proof fn law_integer_constants(v: Seq<char>, e: ExprV)
    ensures
        int_const_spec(ExprV::Int(v)) == Some(v),
        int_const_spec(ExprV::Unary { op: UnOp::Neg, expr: Box::new(ExprV::Int(v)), prefix: true }) == Some("-"@ + v),
        int_const_spec(e) is Some ==> e is Int || (e matches ExprV::Unary { op, expr, prefix } && op == UnOp::Neg && prefix && *expr is Int),
{
    reveal(int_const_spec);
}

/// What of a module is defined: classes that are neither external nor proxies, functions with a
/// body that are neither macros nor exported, exported functions, and private constants.
pub proof fn law_defined_declarations(c: ClassV, f: FunctionV, g: GlobalVarV)
    ensures
        is_emitted_class_spec(c) <==> !c.is_extern && !meta_has_spec(c.meta, "proxy"@),
        is_plain_fn_spec(f) <==> !f.modifiers.is_macro && !meta_has_spec(f.meta, "cexport"@) && f.body is Some,
        is_file_final_spec(g) <==> g.is_final && !g.is_extern && g.access == Access::Private && !is_lambda_global_spec(g),
{
    reveal(is_emitted_class_spec);
    reveal(is_plain_fn_spec);
    reveal(is_file_final_spec);
}

/// A function that only its file sees is declared ahead of the definitions; one that others see
/// is not.
pub proof fn law_forward_declarations(p: Env, st: GenV, f: FunctionV, kw: Seq<char>, defaults: bool)
    ensures
        f.access != Access::Private ==> forward_decl_spec(p, st, DeclV::Function(f), Sort::Plain, kw, defaults).1 == Seq::<char>::empty(),
        f.access == Access::Private && is_plain_fn_spec(f) ==> ({
            let sig = plain_fn_signature_spec(p, restart_spec(p, st, false), f, false).1;
            forward_decl_spec(p, st, DeclV::Function(f), Sort::Plain, kw, defaults).1 == match sig {
                Some(text) => "\t"@ + kw + text + ";\n"@,
                None => Seq::empty(),
            }
        }),
{
    reveal(forward_decl_spec);
}

} // verus!
