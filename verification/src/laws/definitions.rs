//! What a `switch` and the definitions of a class become.

use vstd::prelude::*;

use crate::ast::PropAccess;
use crate::codegen::branch::{all_labels_spec, bind_payload_spec, cases_all_labels_spec, is_label_spec, switch_shape_spec};
use crate::codegen::classdef::{field_inits_spec, gen_static_init_spec, method_text_spec, meyers_text_spec, runs_init_spec, starts_with_super_spec, static_field_def_spec, take_stmts_spec, with_field_inits_spec};
use crate::codegen::common::{accessor_ret_type_spec, is_const_static_spec, is_integral_literal_spec, is_meyers_static_spec, render_scalar_literal_spec};
use crate::codegen::control::stmts_into_spec;
use crate::codegen::expr::gen_expr_spec;
use crate::codegen::fndef::{bind_params_spec, header_params_spec, inline_kw_spec, method_impl_spec, note_abstract_this_spec, opt_body_spec, return_type_spec};
use crate::codegen::gen::GenV;
use crate::codegen::helpers::{is_int_ty_spec, is_value_string_spec};
use crate::codegen::lookup::{adt_enum_spec, is_accessor_method_spec};
use crate::codegen::parts::{Shape, SinkV, SubjectV};
use crate::codegen::scan::never_falls_through_spec;
use crate::codegen::state::{Env, body_close_deletes_spec, flush_spec, pop_scope_spec, push_scope_spec};
use crate::codegen::switch::{gen_case_arm_spec, gen_case_body_spec, gen_default_spec, gen_label_spec, gen_labels_spec, wrap_switch_spec};
use crate::codegen::ty::TyV;
use crate::codegen::types::{decl_spelling_spec, field_ty_spec, opt_ty_spec};
use crate::laws::statements::{freed_at_close, law_body_frees_what_it_owns};
use crate::model::{CaseV, ClassV, ExprV, FieldV, FunctionV, StmtV, TypeV};
use crate::parser::types::meta_has_spec;
use crate::program::{ProgramV, TypeKind};

verus! {

broadcast use {crate::codegen::gen::group_gen, crate::codegen::ty::group_ty, crate::model::group_model, crate::program::group_program, crate::text::group_texts};

/// A case frees what it owns and then leaves the `switch`, unless its body never reaches its
/// end; in a chain of conditions there is nothing to leave.
pub proof fn law_case_body(p: Env, room: int, st: GenV, subj: SubjectV, patterns: Seq<ExprV>, body: Seq<StmtV>, sink: SinkV, t: Seq<char>)
    ensures
        ({
            let (s1, binds) = bind_payload_spec(p, push_scope_spec(p, st), subj, patterns, t);
            let (s2, inner) = stmts_into_spec(p, room, s1, body, sink, t, 0, binds);
            let freed = if body.len() > 0 && body.last() is Return { Seq::empty() } else { freed_at_close(s2, t) };
            let leave = if subj.shape == Shape::Chain || never_falls_through_spec(body) { Seq::empty() } else { t + "break;\n"@ };
            let (s, r) = gen_case_body_spec(p, room, st, subj, patterns, body, sink, t);
            s == pop_scope_spec(p, s2) && r == (inner.0 + freed + leave, inner.1)
        }),
{
    reveal(gen_case_body_spec);
    reveal(stmts_into_spec);
    let (s1, binds) = bind_payload_spec(p, push_scope_spec(p, st), subj, patterns, t);
    let (s2, inner) = stmts_into_spec(p, room, s1, body, sink, t, 0, binds);
    law_body_frees_what_it_owns(p, room, s2, body, t);
    let freed = body_close_deletes_spec(p, s2, body, t);
    assert(inner.0 + freed + Seq::empty() =~= inner.0 + freed);
    assert(inner.0 + freed + (t + "break;\n"@) =~= inner.0 + freed + t + "break;\n"@);
}

/// A case applies to any of its patterns: it has a label for each, or compares what is looked
/// at with each for equality.
pub proof fn law_case_labels(p: Env, room: int, st: GenV, subj: SubjectV, patterns: Seq<ExprV>, t: Seq<char>, i: int, out: Seq<char>)
    requires
        0 <= i < patterns.len(),
    ensures
        ({
            let (s, label) = gen_label_spec(p, room, st, subj, patterns[i]);
            let more = if subj.shape == Shape::Chain {
                if i == 0 {
                    subj.code + " == "@ + label
                } else {
                    out + " || "@ + subj.code + " == "@ + label
                }
            } else {
                if i == 0 {
                    t + "\tcase "@ + label + ":"@
                } else {
                    out + "\n"@ + t + "\tcase "@ + label + ":"@
                }
            };
            gen_labels_spec(p, room, st, subj, patterns, t, i, out) == gen_labels_spec(p, room, s, subj, patterns, t, i + 1, more)
        }),
        gen_labels_spec(p, room, st, subj, patterns, t, patterns.len() as int, out) == (st, out),
{
    reveal(gen_labels_spec);
    reveal(gen_label_spec);
}

/// A chain opens with `if` and goes on with `else if`; otherwise a case is its labels and its
/// body in braces.
pub proof fn law_case_arm(p: Env, room: int, st: GenV, subj: SubjectV, case: CaseV, sink: SinkV, first: bool, t: Seq<char>)
    ensures
        ({
            let (s1, labels) = gen_labels_spec(p, room, st, subj, case.patterns, t, 0, Seq::empty());
            let (s2, pre) = flush_spec(p, s1);
            let deep = if subj.shape == Shape::Chain { t + "\t"@ } else { t + "\t\t"@ };
            let (s3, body) = gen_case_body_spec(p, room, s2, subj, case.patterns, case.body, sink, deep);
            let text = if subj.shape != Shape::Chain {
                labels + " {\n"@ + body.0 + t + "\t}\n"@
            } else if first {
                t + "if ("@ + labels + ") {\n"@ + body.0
            } else {
                t + "} else if ("@ + labels + ") {\n"@ + body.0
            };
            gen_case_arm_spec(p, room, st, subj, case, sink, first, t) == (s3, (pre, text, body.1))
        }),
{
    reveal(gen_case_arm_spec);
    reveal(gen_labels_spec);
    reveal(gen_case_body_spec);
}

/// The default stands last: as `else` of a chain, or under `default`.
pub proof fn law_default_arm(p: Env, room: int, st: GenV, subj: SubjectV, body: Seq<StmtV>, sink: SinkV, first: bool, t: Seq<char>)
    ensures
        ({
            let deep = if subj.shape == Shape::Chain { t + "\t"@ } else { t + "\t\t"@ };
            let (s, b) = gen_case_body_spec(p, room, st, subj, Seq::empty(), body, sink, deep);
            let text = if subj.shape != Shape::Chain {
                t + "\tdefault: {\n"@ + b.0 + t + "\t}\n"@
            } else if first {
                t + "{\n"@ + b.0
            } else {
                t + "} else {\n"@ + b.0
            };
            gen_default_spec(p, room, st, subj, body, sink, first, t) == (s, (text, b.1))
        }),
{
    reveal(gen_default_spec);
    reveal(gen_case_body_spec);
}

/// A `switch` looks at the value, or at the kind of one that carries values, and a chain is
/// closed by a brace.
pub proof fn law_switch_frame(p: Env, st: GenV, subj: SubjectV, pre: Seq<char>, body: Seq<char>, t: Seq<char>)
    ensures
        subj.shape == Shape::Plain ==> wrap_switch_spec(p, st, subj, pre, body, true, t) == pre + t + "switch ("@ + subj.code + ") {\n"@ + body + t
            + "}\n"@,
        subj.shape == Shape::Tag ==> wrap_switch_spec(p, st, subj, pre, body, true, t) == pre + t + "switch ("@ + subj.code + ".kind"@ + ") {\n"@
            + body + t + "}\n"@,
        subj.shape == Shape::Chain ==> wrap_switch_spec(p, st, subj, pre, body, true, t) == pre + body + t + "}\n"@,
{
    reveal(wrap_switch_spec);
    reveal_strlit("");
    assert(pre + t + "switch ("@ + subj.code + ""@ =~= pre + t + "switch ("@ + subj.code);
}

proof fn labels_everywhere(cases: Seq<CaseV>, i: int)
    requires
        0 <= i <= cases.len(),
    ensures
        cases_all_labels_spec(cases, i) <==> forall|k: int, j: int|
            i <= k < cases.len() && 0 <= j < cases[k].patterns.len() ==> is_label_spec(#[trigger] cases[k].patterns[j]),
    decreases cases.len() - i,
{
    if i < cases.len() {
        labels_in(cases[i].patterns, 0);
        labels_everywhere(cases, i + 1);
        if cases_all_labels_spec(cases, i) {
            assert forall|k: int, j: int| i <= k < cases.len() && 0 <= j < cases[k].patterns.len() implies is_label_spec(#[trigger] cases[k].patterns[j]) by {
                if k == i {
                    assert(is_label_spec(cases[i].patterns[j]));
                }
            }
        }
        if forall|k: int, j: int| i <= k < cases.len() && 0 <= j < cases[k].patterns.len() ==> is_label_spec(#[trigger] cases[k].patterns[j]) {
            assert forall|j: int| 0 <= j < cases[i].patterns.len() implies is_label_spec(#[trigger] cases[i].patterns[j]) by {}
            assert forall|k: int, j: int| i + 1 <= k < cases.len() && 0 <= j < cases[k].patterns.len() implies is_label_spec(
                #[trigger] cases[k].patterns[j],
            ) by {}
        }
    }
}

proof fn labels_in(patterns: Seq<ExprV>, i: int)
    requires
        0 <= i <= patterns.len(),
    ensures
        all_labels_spec(patterns, i) <==> forall|j: int| i <= j < patterns.len() ==> is_label_spec(#[trigger] patterns[j]),
    decreases patterns.len() - i,
{
    if i < patterns.len() {
        labels_in(patterns, i + 1);
        if all_labels_spec(patterns, i) {
            assert(is_label_spec(patterns[i]));
        }
    }
}

/// C++ has a `switch` only for numbers and enums, and only labels that are constants: where a
/// value or a pattern is neither, the cases are compared one after the other. A value that
/// carries others is told by its kind.
pub proof fn law_switch_shape(prog: ProgramV, ty: TyV, cases: Seq<CaseV>)
    ensures
        switch_shape_spec(prog, ty, cases) == Shape::Tag <==> !ty.is_ptr && (ty.info matches Some(info) && adt_enum_spec(prog, info) is Some),
        switch_shape_spec(prog, ty, cases) == Shape::Plain ==> {
            &&& !ty.is_ptr
            &&& is_int_ty_spec(ty) || ty.base.len() == 0 || (ty.info matches Some(info) && info.kind == TypeKind::Enum)
            &&& forall|k: int, j: int|
                0 <= k < cases.len() && 0 <= j < cases[k].patterns.len() ==> is_label_spec(#[trigger] cases[k].patterns[j])
        },
        is_int_ty_spec(ty) && ty.info is None && (forall|k: int, j: int|
            0 <= k < cases.len() && 0 <= j < cases[k].patterns.len() ==> is_label_spec(#[trigger] cases[k].patterns[j])) ==> switch_shape_spec(
            prog,
            ty,
            cases,
        ) == Shape::Plain,
        is_value_string_spec(ty) && ty.info is None ==> switch_shape_spec(prog, ty, cases) == Shape::Chain,
{
    reveal(switch_shape_spec);
    reveal(is_int_ty_spec);
    reveal(is_value_string_spec);
    labels_everywhere(cases, 0);
    reveal_strlit("std::string");
    reveal_strlit("int");
    reveal_strlit("unsigned int");
    reveal_strlit("uint8_t");
    reveal_strlit("uint16_t");
    reveal_strlit("uint32_t");
    reveal_strlit("char");
    reveal_strlit("short");
    reveal_strlit("long");
    assert("std::string"@.len() == 11 && "int"@.len() == 3 && "unsigned int"@.len() == 12 && "uint8_t"@.len() == 7 && "uint16_t"@.len() == 8
        && "uint32_t"@.len() == 8 && "char"@.len() == 4 && "short"@.len() == 5 && "long"@.len() == 4);
}

/// The assignments that a constructor makes for the initialisers of the stored fields, in
/// their order.
pub open spec fn initial_values(fields: Seq<FieldV>) -> Seq<StmtV>
    decreases fields.len(),
{
    if fields.len() == 0 {
        Seq::empty()
    } else {
        let f = fields.last();
        let before = initial_values(fields.drop_last());
        let computed = f.get == PropAccess::Get && f.set == PropAccess::Never && !meta_has_spec(f.meta, "isVar"@);
        if f.is_static || f.init is None || computed {
            before
        } else {
            before.push(
                StmtV::Expr(
                    ExprV::Assign {
                        op: None,
                        target: Box::new(ExprV::Field(Box::new(ExprV::This), f.name)),
                        value: Box::new(f.init->0),
                    },
                    0,
                ),
            )
        }
    }
}

proof fn inits_are_values(fields: Seq<FieldV>, i: int, out: Seq<StmtV>)
    requires
        0 <= i <= fields.len(),
    ensures
        field_inits_spec(fields, i, out + initial_values(fields.take(i))) == out + initial_values(fields),
    decreases fields.len() - i,
{
    let done = initial_values(fields.take(i));
    if i < fields.len() {
        let f = fields[i];
        assert(fields.take(i + 1).drop_last() =~= fields.take(i));
        assert(fields.take(i + 1).last() == f);
        inits_are_values(fields, i + 1, out);
        if runs_init_spec(f) {
            let s = StmtV::Expr(
                ExprV::Assign { op: None, target: Box::new(ExprV::Field(Box::new(ExprV::This), f.name)), value: Box::new(f.init->0) },
                0,
            );
            assert((out + done).push(s) =~= out + done.push(s));
        }
    } else {
        assert(fields.take(i) =~= fields);
    }
}

proof fn taken(stmts: Seq<StmtV>, n: int, i: int, out: Seq<StmtV>)
    requires
        0 <= i <= n <= stmts.len(),
    ensures
        take_stmts_spec(stmts, n, i, out) == out + stmts.subrange(i, n),
    decreases n - i,
{
    if i < n {
        taken(stmts, n, i + 1, out.push(stmts[i]));
        assert(out.push(stmts[i]) + stmts.subrange(i + 1, n) =~= out + stmts.subrange(i, n));
    } else {
        assert(out + stmts.subrange(i, n) =~= out);
    }
}

/// A constructor first calls that of the base class, then gives each stored field its initial
/// value, then does what it says.
pub proof fn law_fields_are_initialised(class: ClassV, stmts: Seq<StmtV>)
    ensures
        ({
            let n: int = if starts_with_super_spec(stmts) { 1 } else { 0 };
            with_field_inits_spec(class, stmts) == stmts.take(n) + initial_values(class.fields) + stmts.skip(n)
        }),
        starts_with_super_spec(stmts) <==> stmts.len() > 0 && (stmts[0] matches StmtV::Expr(e, _) && (e matches ExprV::Call(f, _) && *f is Super)),
{
    reveal(with_field_inits_spec);
    reveal(starts_with_super_spec);
    let n: int = if starts_with_super_spec(stmts) { 1 } else { 0 };
    taken(stmts, n, 0, Seq::empty());
    let head = Seq::<StmtV>::empty() + stmts.subrange(0, n);
    assert(head =~= stmts.take(n));
    inits_are_values(class.fields, 0, head);
    assert(initial_values(class.fields.take(0)) =~= Seq::empty());
    assert(head + initial_values(class.fields.take(0)) =~= head);
    taken(stmts, stmts.len() as int, n, head + initial_values(class.fields));
    assert(stmts.subrange(n, stmts.len() as int) =~= stmts.skip(n));
}

/// A static with a constant is defined without its value, which stands in the class; another
/// one with its value; one that has to be computed behind a function that does so once.
pub proof fn law_static_fields(p: Env, room: int, st: GenV, class: Seq<char>, f: FieldV, code: Seq<char>)
    ensures
        ({
            let inside = GenV { current_fn: f.name, ..push_scope_spec(p, st) };
            let ty = field_ty_spec(p, inside, f);
            let name = decl_spelling_spec(ty) + " "@ + class + "::"@ + f.name;
            let text = static_field_def_spec(p, room, st, class, f).1;
            &&& is_const_static_spec(f) ==> text == "\tconst "@ + name + ";\n"@
            &&& !is_const_static_spec(f) && !is_meyers_static_spec(p.prog, st.mi, f) && f.init is None ==> text == "\t"@ + name + ";\n"@
            &&& !is_const_static_spec(f) && !is_meyers_static_spec(p.prog, st.mi, f) ==> (f.init matches Some(e) ==> text == "\t"@ + name + " = "@
                + gen_expr_spec(p, room, GenV { expected: Some(ty), ..inside }, e).1.0 + ";\n"@)
        }),
        f.is_final ==> meyers_text_spec(p, st, class, f, code, code) == "\t"@ + inline_kw_spec(p, st) + "const "@ + code + "& "@ + class + "::"@
            + f.name + "() {\n\t\tstatic "@ + "const "@ + code + " _hx_v = "@ + code + ";\n\t\treturn _hx_v;\n\t}\n"@,
{
    reveal(static_field_def_spec);
    reveal(meyers_text_spec);
    reveal(gen_static_init_spec);
    let inside = GenV { current_fn: f.name, ..push_scope_spec(p, st) };
    let sp = decl_spelling_spec(field_ty_spec(p, inside, f));
    let name = sp + " "@ + class + "::"@ + f.name;
    assert("\tconst "@ + sp + " "@ + class + "::"@ + f.name + ";\n"@ =~= "\tconst "@ + name + ";\n"@);
    assert("\t"@ + sp + " "@ + class + "::"@ + f.name + Seq::empty() + ";\n"@ =~= "\t"@ + name + ";\n"@);
    if f.init is Some {
        let c = gen_expr_spec(p, room, GenV { expected: Some(field_ty_spec(p, inside, f)), ..inside }, f.init->0).1.0;
        assert("\t"@ + sp + " "@ + class + "::"@ + f.name + (" = "@ + c) + ";\n"@ =~= "\t"@ + name + " = "@ + c + ";\n"@);
    }
}

/// Which statics are constants, and which have to be computed.
pub proof fn law_kinds_of_statics(prog: ProgramV, mi: int, f: FieldV)
    ensures
        is_const_static_spec(f) <==> f.is_static && (f.is_final || f.is_inline) && (f.init matches Some(e) && is_integral_literal_spec(e)),
        f.init matches Some(e) ==> (is_meyers_static_spec(prog, mi, f) <==> f.is_static && !(e is Null) && render_scalar_literal_spec(e) is None),
        is_meyers_static_spec(prog, mi, f) ==> f.is_static,
{
    reveal(is_const_static_spec);
    reveal(is_meyers_static_spec);
}

/// The definition of a method: its result, the class and the name it belongs to, its
/// parameters and its body.
pub proof fn law_method_definition(p: Env, room: int, st: GenV, class: Seq<char>, name: Seq<char>, m: FunctionV, ret: Option<TypeV>)
    ensures
        ({
            let s1 = bind_params_spec(p, note_abstract_this_spec(p, push_scope_spec(p, st)), m.params);
            let s2 = GenV { current_ret: opt_ty_spec(p, s1, ret), current_fn: name, ..s1 };
            let (s3, body) = opt_body_spec(p, room, s2, m.body);
            let s4 = pop_scope_spec(p, s3);
            method_impl_spec(p, room, st, class, name, m, ret) == (
                s4,
                "\t"@ + inline_kw_spec(p, s4) + return_type_spec(p, s4, ret) + " "@ + class + "::"@ + name + "("@ + header_params_spec(p, s2, m.params)
                    + ") {\n"@ + body + "\t}\n"@,
            )
        }),
        inline_kw_spec(p, st) == if st.inline_defs { "inline "@ } else { Seq::empty() },
{
    reveal(method_impl_spec);
    reveal(inline_kw_spec);
}

/// A method is defined where it has a body and is not the accessor of a property that the
/// header defines; its result is that of its property where it names none.
pub proof fn law_defined_methods(p: Env, room: int, st: GenV, class: Seq<char>, m: FunctionV)
    ensures
        m.name is None || m.body is None ==> method_text_spec(p, room, st, class, m) == (st, Seq::<char>::empty()),
        m.name matches Some(name) ==> {
            &&& is_accessor_method_spec(p.class, name) ==> method_text_spec(p, room, st, class, m) == (st, Seq::<char>::empty())
            &&& !is_accessor_method_spec(p.class, name) && m.body is Some ==> ({
                let ret = if m.ret is Some { m.ret } else { accessor_ret_type_spec(p.class, name) };
                let (s, text) = method_impl_spec(p, room, st, class, name, m, ret);
                method_text_spec(p, room, st, class, m) == (s, text + "\n"@)
            })
        },
{
    reveal(method_text_spec);
}

} // verus!
