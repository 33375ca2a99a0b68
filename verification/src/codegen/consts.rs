//! Constants of a file.

use vstd::prelude::*;

use crate::ast::{Expr, GlobalVar, StructField};
use crate::codegen::common::{render_scalar_literal, render_scalar_literal_spec};
use crate::codegen::expr::gen_expr_spec;
use crate::codegen::gen::GenV;
use crate::codegen::literal::{expand_array_into_local_spec, expand_map_into_local_spec};
use crate::codegen::lookup::{struct_fields_of, struct_fields_of_spec};
use crate::codegen::state::{BodyGen, Env, dup_text_lists};
use crate::codegen::ty::{Ty, TyV};
use crate::codegen::types::{decl_spelling, decl_spelling_spec, element_ty_spec, ty_of_spec};
use crate::codegen::values::{elem_member_ty_spec, gen_ident_spec};
use crate::model::{ExprV, GlobalVarV, StructFieldV, expr_exprs_v, exprs_v, struct_fields_v, text_exprs_v};
use crate::program::{Program, ProgramV};
use crate::strings::{join, join_spec, starts_with};
use crate::text::{cat3, cat6, cat7, cat8, empty, same, texts};

verus! {

broadcast use {crate::codegen::gen::group_gen, crate::codegen::ty::group_ty, crate::model::group_model, crate::program::group_program, crate::text::group_texts};

/// The value of a field in an object literal, from `i` on, as a constant; `None` where it is
/// missing or none.
pub fn const_field(fields: &Vec<(String, Expr)>, name: &str, i: usize) -> (r: Option<String>)
    ensures
        (match r { Some(y) => Some(y@), None => None }) == const_field_spec(text_exprs_v(fields@), name@, (i as int)),
{
    let ghost i_0 = i;
    let mut i: usize = i;
    #[verifier::loop_isolation(false)]
    loop
        invariant
            const_field_spec(text_exprs_v(fields@), name@, (i_0 as int)) == const_field_spec(text_exprs_v(fields@), name@, (i as int)),
        decreases fields.len() - i,
    {
        if i >= fields.len() {
            return None;
        }
        if same(&fields[i].0, name) {
            if matches!(fields[i].1.node(), Expr::ObjectLit(_)) {
                return None;
            }
            return render_scalar_literal(&fields[i].1);
        }
        i = i + 1;
    }
}

/// The values of an object literal in the order of the fields a structure declares.
pub fn const_fields(sfields: &Vec<StructField>, fields: &Vec<(String, Expr)>, i: usize, out: Vec<String>) -> (r: Option<Vec<String>>)
    ensures
        (match r { Some(y) => Some(texts(y@)), None => None }) == const_fields_spec(struct_fields_v(sfields@), text_exprs_v(fields@), (i as int), texts(out@)),
{
    let ghost i_0 = i;
    let ghost out_0 = out;
    let mut i: usize = i;
    let mut out: Vec<String> = out;
    #[verifier::loop_isolation(false)]
    loop
        invariant
            const_fields_spec(struct_fields_v(sfields@), text_exprs_v(fields@), (i_0 as int), texts(out_0@)) == const_fields_spec(struct_fields_v(sfields@), text_exprs_v(fields@), (i as int), texts(out@)),
        decreases sfields.len() - i,
    {
        if i >= sfields.len() {
            return Some(out);
        }
        match const_field(fields, &sfields[i].name, 0) {
            Some(v) => {
                out.push(v);
            },
            None => {
                return None;
            },
        }
        i = i + 1;
    }
}

/// A constant structure as an aggregate; `None` where the type is no structure or a value is
/// missing or no constant.
pub fn render_const_aggregate(prog: &Program, ty: &Ty, fields: &Vec<(String, Expr)>) -> (r: Option<String>)
    ensures
        (match r { Some(y) => Some(y@), None => None }) == render_const_aggregate_spec(prog.v(), ty.v(), text_exprs_v(fields@)),
{
    proof {
        reveal(render_const_aggregate_spec);
    }
    match &ty.info {
        Some(info) => match struct_fields_of(prog, info) {
            Some(sfields) => match const_fields(sfields, fields, 0, Vec::new()) {
                Some(parts) => Some(cat3("{ ", &join(&parts, ", "), " }")),
                None => None,
            },
            None => None,
        },
        None => None,
    }
}

impl<'a> BodyGen<'a> {
    /// A constant vector: a function that builds it, and an object made by that function.
    fn render_const_vector(&mut self, name: &str, vec_ty: &Ty, elems: &Vec<Expr>) -> (r: String)
        ensures
            final(self).pg() == old(self).pg(),
            final(self).room() == old(self).room(),
            (final(self).gv(), r@) == render_const_vector_spec(old(self).pg(), old(self).room(), old(self).gv(), name@, vec_ty.v(), exprs_v(elems@)),
    {
        proof {
            reveal(render_const_vector_spec);
        }
        let spell = decl_spelling(vec_ty);
        let elem = self.elem_member_ty(vec_ty);
        let body = self.expand_array_into_local("v", vec_ty, &elem, elems, "\t\t");
        cat6(&cat8("\tstatic ", &spell, " _init_", name, "() {\n", &body, "\t\treturn v;\n\t}\n\tstatic const ", &spell), " ", name, " = _init_", name, "();\n")
    }

    /// A constant map: a function that builds it, and an object made by that function.
    fn render_const_map(&mut self, name: &str, map_ty: &Ty, pairs: &Vec<(Expr, Expr)>) -> (r: String)
        ensures
            final(self).pg() == old(self).pg(),
            final(self).room() == old(self).room(),
            (final(self).gv(), r@) == render_const_map_spec(old(self).pg(), old(self).room(), old(self).gv(), name@, map_ty.v(), expr_exprs_v(pairs@)),
    {
        proof {
            reveal(render_const_map_spec);
        }
        let spell = decl_spelling(map_ty);
        let val = self.element_ty(map_ty);
        let body = self.expand_map_into_local("m", map_ty, &val, pairs, "\t\t");
        cat6(&cat8("\tstatic ", &spell, " _init_", name, "() {\n", &body, "\t\treturn m;\n\t}\n\tstatic const ", &spell), " ", name, " = _init_", name, "();\n")
    }

    /// The type of a constant: its annotation, else that of its value.
    fn const_ty(&mut self, g: &GlobalVar, init: &Expr) -> (r: Ty)
        ensures
            final(self).pg() == old(self).pg(),
            final(self).room() == old(self).room(),
            (final(self).gv(), r.v()) == const_ty_spec(old(self).pg(), old(self).room(), old(self).gv(), g.v(), init.v()),
            final(self).gv().prelude == old(self).gv().prelude && final(self).gv().owned == old(self).gv().owned,
    {
        proof {
            reveal(const_ty_spec);
        }
        match &g.ty {
            Some(t) => self.ty_of(t),
            None => {
                let lines = self.prelude().clone();
                let owned = dup_text_lists(self.owned());
                let (_, ty) = self.gen_expr(init);
                self.undo(lines, owned);
                ty
            },
        }
    }

    /// The definition of a constant of a file; `None` where it cannot be one.
    pub fn file_scope_const(&mut self, g: &GlobalVar) -> (r: Option<String>)
        ensures
            final(self).pg() == old(self).pg(),
            final(self).room() == old(self).room(),
            (final(self).gv(), (match r { Some(y) => Some(y@), None => None })) == file_scope_const_spec(old(self).pg(), old(self).room(), old(self).gv(), g.v()),
    {
        proof {
            reveal(file_scope_const_spec);
        }
        match &g.init {
            Some(init) => {
                let ty = self.const_ty(g, init);
                match init.node() {
                    Expr::ArrayLit(elems) => {
                        if starts_with(&ty.base, "std::vector") {
                            return Some(self.render_const_vector(&g.name, &ty, elems));
                        }
                    },
                    Expr::MapLit(pairs) => {
                        if starts_with(&ty.base, "std::map") {
                            return Some(self.render_const_map(&g.name, &ty, pairs));
                        }
                    },
                    // another constant is copied
                    Expr::Ident(other) => {
                        if empty(&ty.base) || ty.is_ptr {
                            return None;
                        }
                        let (code, _) = self.gen_ident(other);
                        return Some(cat7("\tstatic const ", &ty.base, " ", &g.name, " = ", &code, ";\n"));
                    },
                    Expr::ObjectLit(fields) => {
                        return match render_const_aggregate(self.prog(), &ty, fields) {
                            Some(agg) => Some(cat7("\tstatic const ", &ty.base, " ", &g.name, " = ", &agg, ";\n")),
                            None => None,
                        };
                    },
                    _ => {},
                }
                match render_scalar_literal(init) {
                    Some(v) => Some(cat7("\tstatic const ", &ty.base, " ", &g.name, " = ", &v, ";\n")),
                    None => None,
                }
            },
            None => None,
        }
    }
}

/// What [`const_field`] computes.
pub open spec fn const_field_spec(fields: Seq<(Seq<char>, ExprV)>, name: Seq<char>, i: int) -> Option<Seq<char>>
    decreases fields.len() - i,
{
    if !(0 <= i < fields.len()) { None } else {
        if (fields[i].0 == name) {
            if (match fields[i].1 { ExprV::ObjectLit(_) => true, _ => false }) { None } else { render_scalar_literal_spec(fields[i].1) }
        } else {
            let i = i + 1;
            const_field_spec(fields, name, i)
        }
    }
}

/// What [`const_fields`] computes.
pub open spec fn const_fields_spec(sfields: Seq<StructFieldV>, fields: Seq<(Seq<char>, ExprV)>, i: int, out: Seq<Seq<char>>) -> Option<Seq<Seq<char>>>
    decreases sfields.len() - i,
{
    if !(0 <= i < sfields.len()) { Some(out) } else {
        match const_field_spec(fields, sfields[i].name, 0int) {
            Some(v) => {
                let out = out.push(v);
                let i = i + 1;
                const_fields_spec(sfields, fields, i, out)
            },
            None => { None },
        }
    }
}

/// What [`render_const_aggregate`] computes.
#[verifier::opaque]
pub open spec fn render_const_aggregate_spec(prog: ProgramV, ty: TyV, fields: Seq<(Seq<char>, ExprV)>) -> Option<Seq<char>>
{
    match ty.info {
        Some(info) => {
            match struct_fields_of_spec(prog, info) {
                Some(sfields) => {
                    match const_fields_spec(sfields, fields, 0int, Seq::empty()) {
                        Some(parts) => { Some("{ "@ + join_spec(parts, ", "@) + " }"@) },
                        None => { None },
                    }
                },
                None => { None },
            }
        },
        None => { None },
    }
}

/// What [`BodyGen::render_const_vector`] computes.
#[verifier::opaque]
pub open spec fn render_const_vector_spec(p: Env, room: int, st: GenV, name: Seq<char>, vec_ty: TyV, elems: Seq<ExprV>) -> (GenV, Seq<char>)
{
    let spell = decl_spelling_spec(vec_ty);
    let elem = elem_member_ty_spec(p, st, vec_ty);
    let (st, body) = expand_array_into_local_spec(p, room, st, "v"@, vec_ty, elem, elems, "\t\t"@);
    (st, "\tstatic "@ + spell + " _init_"@ + name + "() {\n"@ + body + "\t\treturn v;\n\t}\n\tstatic const "@ + spell + " "@ + name + " = _init_"@ + name + "();\n"@)
}

/// What [`BodyGen::render_const_map`] computes.
#[verifier::opaque]
pub open spec fn render_const_map_spec(p: Env, room: int, st: GenV, name: Seq<char>, map_ty: TyV, pairs: Seq<(ExprV, ExprV)>) -> (GenV, Seq<char>)
{
    let spell = decl_spelling_spec(map_ty);
    let val = element_ty_spec(p, st, map_ty);
    let (st, body) = expand_map_into_local_spec(p, room, st, "m"@, map_ty, val, pairs, "\t\t"@);
    (st, "\tstatic "@ + spell + " _init_"@ + name + "() {\n"@ + body + "\t\treturn m;\n\t}\n\tstatic const "@ + spell + " "@ + name + " = _init_"@ + name + "();\n"@)
}

/// What [`BodyGen::const_ty`] computes.
#[verifier::opaque]
pub open spec fn const_ty_spec(p: Env, room: int, st: GenV, g: GlobalVarV, init: ExprV) -> (GenV, TyV)
{
    match g.ty {
        Some(t) => { (st, ty_of_spec(p, st, t)) },
        None => {
            let lines = st.prelude;
            let owned = st.owned;
            let (st, (_, ty)) = gen_expr_spec(p, room, st, init);
            let st = GenV { prelude: lines, owned: owned, ..st };
            (st, ty)
        },
    }
}

/// What [`BodyGen::file_scope_const`] computes.
#[verifier::opaque]
pub open spec fn file_scope_const_spec(p: Env, room: int, st: GenV, g: GlobalVarV) -> (GenV, Option<Seq<char>>)
{
    match g.init {
        Some(init) => {
            let (st, ty) = const_ty_spec(p, room, st, g, init);
            match init {
                ExprV::ArrayLit(elems) => {
                    if ("std::vector"@).is_prefix_of(ty.base) {
                        let (st, x1) = render_const_vector_spec(p, room, st, g.name, ty, elems);
                        (st, Some(x1))
                    } else {
                        match render_scalar_literal_spec(init) {
                            Some(v) => {
                                (st, Some("\tstatic const "@ + ty.base + " "@ + g.name + " = "@ + v + ";\n"@))
                            },
                            None => { (st, None) },
                        }
                    }
                },
                ExprV::MapLit(pairs) => {
                    if ("std::map"@).is_prefix_of(ty.base) {
                        let (st, x2) = render_const_map_spec(p, room, st, g.name, ty, pairs);
                        (st, Some(x2))
                    } else {
                        match render_scalar_literal_spec(init) {
                            Some(v) => {
                                (st, Some("\tstatic const "@ + ty.base + " "@ + g.name + " = "@ + v + ";\n"@))
                            },
                            None => { (st, None) },
                        }
                    }
                },
                ExprV::Ident(other) => {
                    if ((ty.base).len() == 0) || ty.is_ptr { (st, None) } else {
                        let (st, (code, _)) = gen_ident_spec(p, st, other);
                        (st, Some("\tstatic const "@ + ty.base + " "@ + g.name + " = "@ + code + ";\n"@))
                    }
                },
                ExprV::ObjectLit(fields) => {
                    match render_const_aggregate_spec(p.prog, ty, fields) {
                        Some(agg) => {
                            (st, Some("\tstatic const "@ + ty.base + " "@ + g.name + " = "@ + agg + ";\n"@))
                        },
                        None => { (st, None) },
                    }
                },
                _ => {
                    match render_scalar_literal_spec(init) {
                        Some(v) => {
                            (st, Some("\tstatic const "@ + ty.base + " "@ + g.name + " = "@ + v + ";\n"@))
                        },
                        None => { (st, None) },
                    }
                },
            }
        },
        None => { (st, None) },
    }
}

} // verus!
