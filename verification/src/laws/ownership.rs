//! Who frees what a statement makes.

use vstd::prelude::*;

use crate::ast::Field;
use crate::codegen::expr::gen_expr_hinted_spec;
use crate::codegen::gen::GenV;
use crate::codegen::helpers::is_container_ty_spec;
use crate::codegen::simple_stmt::{gen_expr_stmt_spec, gen_value_return_spec, note_assigned_spec, note_retained_spec};
use crate::codegen::state::{Env, flush_spec, fresh_spec, is_local_spec, push_last, register_owned_spec, transfer_owned_spec};
use crate::codegen::types::{assigned_own_field_spec, decl_spelling_spec, own_field_setter_spec, return_null_value_spec, wrap_ret_spec};
use crate::codegen::values::{finish_return_spec, heap_new_spec, push_into_retaining_container_spec};
use crate::codegen::write::gen_assign_or_expr_spec;
use crate::model::ExprV;
use crate::parser::pp::trim_spec;

verus! {

broadcast use {crate::codegen::gen::group_gen, crate::codegen::ty::group_ty, crate::model::group_model, crate::text::group_texts};

/// The value that an owned field held is deleted before another is assigned: not in the
/// constructor, where there is none yet, and not where a setter does so. No other assignment
/// deletes anything.
pub proof fn law_old_value_is_deleted(p: Env, st: GenV, target: ExprV, value: ExprV, t: Seq<char>)
    ensures
        ({
            let e = ExprV::Assign { op: None, target: Box::new(target), value: Box::new(value) };
            let (s, first) = note_assigned_spec(p, st, e, t);
            let own = assigned_own_field_spec(p, st, target);
            let frees = own matches Some(f) && st.current_fn != "new"@ && st.owned_fields.contains(f) && own_field_setter_spec(p, s, target) is None;
            &&& frees ==> first == t + "delete this->"@ + own->0 + ";\n"@
            &&& !frees ==> first == Seq::<char>::empty()
            &&& s == if target is Field || own is Some { GenV { new_args_escape: true, ..st } } else { st }
        }),
{
    reveal(note_assigned_spec);
}

/// An expression as a statement: what has to stand before it, and then its code. A nullable
/// result that nobody takes is kept by the scope, which frees it.
pub proof fn law_expression_statement(p: Env, room: int, st: GenV, e: ExprV, t: Seq<char>)
    ensures
        ({
            let (s1, first) = note_assigned_spec(p, note_retained_spec(p, st, e), e, t);
            let (s2, v) = gen_assign_or_expr_spec(p, room, s1, e);
            let s3 = flush_spec(p, s2).0;
            let pre = flush_spec(p, s2).1;
            let (s4, tmp) = fresh_spec(p, s3, "null"@);
            let (s, text) = gen_expr_stmt_spec(p, room, st, e, t);
            let dropped = e is Call && v.1.nullable;
            &&& dropped ==> {
                &&& text == first + pre + t + decl_spelling_spec(v.1) + " "@ + tmp + " = "@ + v.0 + ";\n"@
                &&& s.owned == push_last(s4.owned, tmp)
            }
            &&& !dropped ==> {
                &&& s == s3
                &&& text == if trim_spec(v.0).len() == 0 { first + pre } else { first + pre + t + v.0 + ";\n"@ }
            }
        }),
{
    reveal(gen_expr_stmt_spec);
    reveal(gen_assign_or_expr_spec);
    reveal(register_owned_spec);
}

/// A local that is stored in a container that outlives the scope is no longer owned by it; where
/// nothing is stored so, nothing changes.
pub proof fn law_retained_local(p: Env, st: GenV, e: ExprV, name: Seq<char>)
    ensures
        push_into_retaining_container_spec(p, st, e) is None ==> note_retained_spec(p, st, e) == st,
        push_into_retaining_container_spec(p, st, e) == Some(ExprV::Ident(name)) && is_local_spec(p, st, name) ==> note_retained_spec(p, st, e)
            == transfer_owned_spec(p, st, name),
{
    reveal(note_retained_spec);
    reveal(heap_new_spec);
}

/// What a function returns is the value: allocated where the result is a pointer and the value
/// is none.
pub proof fn law_returned_value(p: Env, room: int, st: GenV, e: ExprV, t: Seq<char>)
    ensures
        ({
            let (s1, v) = gen_expr_hinted_spec(p, room, st, e, Some(st.current_ret));
            let (s2, pre) = flush_spec(p, s1);
            let value = if s2.current_ret.is_ptr && !v.1.is_ptr { "new "@ + s2.current_ret.base + "("@ + v.0 + ")"@ } else { v.0 };
            let (s3, last) = finish_return_spec(p, s2, t, value);
            gen_value_return_spec(p, room, st, e, t) == (s3, pre + last)
        }),
        wrap_ret_spec(p, st, t) == if st.current_ret.is_ptr { "new "@ + st.current_ret.base + "("@ + t + ")"@ } else { t },
{
    reveal(gen_value_return_spec);
    reveal(gen_expr_hinted_spec);
    reveal(wrap_ret_spec);
}

/// `null` returned where the result is no pointer is an empty value of its type.
pub proof fn law_returned_null(p: Env, st: GenV)
    ensures
        st.current_ret.is_ptr ==> return_null_value_spec(p, st) == "NULL"@,
        !st.current_ret.is_ptr && st.current_ret.base == "std::string"@ ==> return_null_value_spec(p, st) == "std::string"@ + "()"@,
        !st.current_ret.is_ptr && st.current_ret.base.len() > 0 && (st.current_ret.info is Some || is_container_ty_spec(st.current_ret))
            ==> return_null_value_spec(p, st) == st.current_ret.base + "()"@,
{
    reveal(return_null_value_spec);
    reveal_strlit("std::string");
    assert("std::string"@.len() == 11);
}

} // verus!
