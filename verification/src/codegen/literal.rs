//! Object, array and map literals.

use vstd::prelude::*;

use crate::ast::{Expr, UnOp};
use crate::codegen::expr::{gen_expr_hinted_spec, gen_expr_spec};
use crate::codegen::gen::GenV;
use crate::codegen::helpers::{int_lit, int_lit_spec, no_ty, no_ty_spec, plain_ty, plain_ty_spec};
use crate::codegen::state::{BodyGen, Env, dup_text_lists, flush_spec, fresh_spec, hoist_spec, settled};
use crate::codegen::ty::{Ty, TyV};
use crate::codegen::ty_copy::dup_opt_ty;
use crate::codegen::types::{decl_spelling, decl_spelling_spec, element_ty_spec, map_kv_ty_spec, member_field_ty_spec};
use crate::codegen::values::elem_member_ty_spec;
use crate::model::{ExprV, expr_exprs_v, exprs_v, text_exprs_v};
use crate::strings::{join, join_spec, starts_with};
use crate::text::{cat2, cat3, cat4, cat5, cat6, cat7, cat8, dec, dec_text, empty, same, texts};

verus! {

broadcast use {crate::codegen::gen::group_gen, crate::codegen::ty::group_ty, crate::model::group_model, crate::text::group_texts};

/// An integer constant's text.
pub fn int_const(e: &Expr) -> (r: Option<String>)
    ensures
        (match r { Some(y) => Some(y@), None => None }) == int_const_spec(e.v()),
{
    match e.node() {
        Expr::Int(v) => Some(int_lit(v)),
        Expr::Unary { op, expr, prefix } => {
            if *op != UnOp::Neg || !*prefix {
                return None;
            }
            match expr.node() {
                Expr::Int(v) => Some(cat2("-", &int_lit(v))),
                _ => None,
            }
        },
        _ => None,
    }
}

/// The elements from `i` on as integer constants, where all of them are.
pub fn int_consts_from(elems: &Vec<Expr>, i: usize, out: Vec<String>) -> (r: Option<Vec<String>>)
    ensures
        (match r { Some(y) => Some(texts(y@)), None => None }) == int_consts_from_spec(exprs_v(elems@), (i as int), texts(out@)),
{
    let ghost i_0 = i;
    let ghost out_0 = out;
    let mut i: usize = i;
    let mut out: Vec<String> = out;
    #[verifier::loop_isolation(false)]
    loop
        invariant
            int_consts_from_spec(exprs_v(elems@), (i_0 as int), texts(out_0@)) == int_consts_from_spec(exprs_v(elems@), (i as int), texts(out@)),
        decreases elems.len() - i,
    {
        if i >= elems.len() {
            return Some(out);
        }
        match int_const(&elems[i]) {
            Some(t) => {
                out.push(t);
            },
            None => {
                return None;
            },
        }
        i = i + 1;
    }
}

/// The elements of a table of integer constants, where a literal is one: at least eight of
/// them, and nothing else.
pub fn int_table(elem: &Ty, elems: &Vec<Expr>) -> (r: Option<Vec<String>>)
    ensures
        (match r { Some(y) => Some(texts(y@)), None => None }) == int_table_spec(elem.v(), exprs_v(elems@)),
{
    proof {
        reveal(int_table_spec);
    }
    if same(&elem.base, "int") && elems.len() >= 8 {
        int_consts_from(elems, 0, Vec::new())
    } else {
        None
    }
}

/// Rows of sixteen values.
pub fn rows_from(vals: &Vec<String>, t: &str, i: usize, out: String) -> (r: String)
    ensures
        r@ == rows_from_spec(texts(vals@), t@, (i as int), out@),
{
    let ghost i_0 = i;
    let ghost out_0 = out;
    let mut i: usize = i;
    let mut out: String = out;
    #[verifier::loop_isolation(false)]
    loop
        invariant
            rows_from_spec(texts(vals@), t@, (i_0 as int), out_0@) == rows_from_spec(texts(vals@), t@, (i as int), out@),
        decreases vals.len() - i,
    {
        if i >= vals.len() {
            return out;
        }
        out = if i % 16 == 0 {
            cat4(&out, t, "\t", &vals[i])
        } else {
            cat3(&out, ", ", &vals[i])
        };
        if i % 16 == 15 || i + 1 >= vals.len() {
            out = cat2(&out, ",\n");
        }
        i = i + 1;
    }
}

/// The type with the spelling of an element or field where one is known.
pub fn or_no_ty(t: &Option<Ty>) -> (r: Ty)
    ensures
        r.v() == or_no_ty_spec((match t { Some(y) => Some(y.v()), None => None })),
{
    match t {
        Some(t) => t.dup(),
        None => no_ty(),
    }
}

impl<'a> BodyGen<'a> {
    /// The type of an array literal, from its first element. Looking at that element leaves
    /// nothing behind.
    pub fn infer_array(&mut self, elems: &Vec<Expr>) -> (r: Ty)
        ensures
            final(self).pg() == old(self).pg(),
            final(self).room() == old(self).room(),
            (final(self).gv(), r.v()) == infer_array_spec(old(self).pg(), old(self).room(), old(self).gv(), exprs_v(elems@)),
            settled(final(self).gv()) == settled(old(self).gv()),
            final(self).gv().prelude == old(self).gv().prelude && final(self).gv().owned == old(self).gv().owned,
        decreases old(self).room(), elems@, 2int, 0int,
    {
        proof {
            reveal(infer_array_spec);
            reveal(gen_expr_spec);
        }
        let lines = self.prelude().clone();
        let owned = dup_text_lists(self.owned());
        let elem = if elems.len() > 0 {
            let (_, t) = self.gen_expr(&elems[0]);
            t
        } else {
            no_ty()
        };
        self.undo(lines, owned);
        let inner = if empty(&elem.base) { "int".to_owned() } else { decl_spelling(&elem) };
        plain_ty(&cat3("std::vector<", &inner, " >"))
    }

    /// Build an object into a temporary before the statement; its name.
    pub fn hoist_object(&mut self, fields: &Vec<(String, Expr)>, target: &Ty) -> (r: String)
        ensures
            final(self).pg() == old(self).pg(),
            final(self).room() == old(self).room(),
            (final(self).gv(), r@) == hoist_object_spec(old(self).pg(), old(self).room(), old(self).gv(), text_exprs_v(fields@), target.v()),
            settled(final(self).gv()) == settled(old(self).gv()),
        decreases old(self).room(), fields@, 4int, 0int,
    {
        proof {
            reveal(hoist_object_spec);
            reveal(expand_object_into_local_spec);
        }
        let tmp = self.fresh("anon");
        let t = self.prelude_t().clone();
        let buf = self.expand_object_into_local(&tmp, target, fields, &t);
        self.hoist(&buf);
        tmp
    }

    /// The text that declares a local and assigns each field of an object literal.
    pub fn expand_object_into_local(&mut self, name: &str, target: &Ty, fields: &Vec<(String, Expr)>, t: &str) -> (r: String)
        ensures
            final(self).pg() == old(self).pg(),
            final(self).room() == old(self).room(),
            (final(self).gv(), r@) == expand_object_into_local_spec(old(self).pg(), old(self).room(), old(self).gv(), name@, target.v(), text_exprs_v(fields@), t@),
            settled(final(self).gv()) == settled(old(self).gv()),
        decreases old(self).room(), fields@, 3int, 0int,
    {
        proof {
            reveal(expand_object_into_local_spec);
            reveal(expand_anon_struct_local_spec);
            reveal(expand_object_fields_spec);
        }
        if empty(&target.base) {
            let (text, _) = self.expand_anon_struct_local(name, fields, t);
            return text;
        }
        self.expand_object_fields(name, target, fields, t, 0, cat5(t, &target.base, " ", name, ";\n"))
    }

    fn expand_object_fields(&mut self, name: &str, target: &Ty, fields: &Vec<(String, Expr)>, t: &str, i: usize, out: String) -> (r: String)
        ensures
            final(self).pg() == old(self).pg(),
            final(self).room() == old(self).room(),
            (final(self).gv(), r@) == expand_object_fields_spec(old(self).pg(), old(self).room(), old(self).gv(), name@, target.v(), text_exprs_v(fields@), t@, (i as int), out@),
            settled(final(self).gv()) == settled(old(self).gv()),
        decreases old(self).room(), fields@, 1int, fields.len()-i,
    {
        let ghost i_0 = i;
        let ghost out_0 = out;
        let mut i: usize = i;
        let mut out: String = out;
        #[verifier::loop_isolation(false)]
        loop
            invariant
                self.pg() == old(self).pg(),
                self.room() == old(self).room(),
                expand_object_fields_spec(old(self).pg(), old(self).room(), old(self).gv(), name@, target.v(), text_exprs_v(fields@), t@, (i_0 as int), out_0@) == expand_object_fields_spec(self.pg(), self.room(), self.gv(), name@, target.v(), text_exprs_v(fields@), t@, (i as int), out@),
                settled(self.gv()) == settled(old(self).gv()),
            decreases fields.len()-i,
        {
            proof {
                reveal(expand_object_fields_spec);
                reveal(expand_object_field_spec);
            }
            if i >= fields.len() {
                return out;
            }
            let member = match &target.info {
                Some(info) => self.member_field_ty(info, &fields[i].0),
                None => None,
            };
            let text = self.expand_object_field(&cat3(name, ".", &fields[i].0), &fields[i].1, &member, t);
            out = cat2(&out, &text);
            i = i + 1;
        }
    }

    /// The text that assigns one field. A nested literal gets a temporary of the field's type.
    fn expand_object_field(&mut self, place: &str, value: &Expr, member: &Option<Ty>, t: &str) -> (r: String)
        ensures
            final(self).pg() == old(self).pg(),
            final(self).room() == old(self).room(),
            (final(self).gv(), r@) == expand_object_field_spec(old(self).pg(), old(self).room(), old(self).gv(), place@, value.v(), (match member { Some(y) => Some(y.v()), None => None }), t@),
            settled(final(self).gv()) == settled(old(self).gv()),
        decreases old(self).room(), *value, 30int, 0int,
    {
        proof {
            reveal(expand_object_field_spec);
            reveal(expand_object_into_local_spec);
            reveal(expand_array_into_local_spec);
            reveal(assign_object_field_spec);
            reveal(expand_map_into_local_spec);
        }
        match value.node() {
            Expr::ObjectLit(fs) => {
                let tmp = self.fresh("f");
                let text = self.expand_object_into_local(&tmp, &or_no_ty(member), fs, t);
                cat6(&text, t, place, " = ", &tmp, ";\n")
            },
            Expr::ArrayLit(els) => {
                let mt = or_no_ty(member);
                let elem = self.elem_member_ty(&mt);
                let tmp = self.fresh("f");
                let text = self.expand_array_into_local(&tmp, &mt, &elem, els, t);
                cat6(&text, t, place, " = ", &tmp, ";\n")
            },
            Expr::MapLit(pairs) => {
                if pairs.len() == 0 {
                    return self.assign_object_field(place, value, member, t);
                }
                let mt = or_no_ty(member);
                let (_, vty) = self.map_kv_ty(&mt);
                let tmp = self.fresh("f");
                let text = self.expand_map_into_local(&tmp, &mt, &vty, pairs, t);
                cat6(&text, t, place, " = ", &tmp, ";\n")
            },
            _ => self.assign_object_field(place, value, member, t),
        }
    }

    /// A pointer stored in a value field is dereferenced where it is not null.
    fn assign_object_field(&mut self, place: &str, value: &Expr, member: &Option<Ty>, t: &str) -> (r: String)
        ensures
            final(self).pg() == old(self).pg(),
            final(self).room() == old(self).room(),
            (final(self).gv(), r@) == assign_object_field_spec(old(self).pg(), old(self).room(), old(self).gv(), place@, value.v(), (match member { Some(y) => Some(y.v()), None => None }), t@),
            settled(final(self).gv()) == settled(old(self).gv()),
        decreases old(self).room(), *value, 29int, 0int,
    {
        proof {
            reveal(assign_object_field_spec);
            reveal(gen_expr_hinted_spec);
        }
        let field_ptr = or_no_ty(member).is_ptr;
        let (code, ty) = self.gen_expr_hinted(value, dup_opt_ty(member));
        let pre = self.flush();
        if !field_ptr && ty.is_ptr {
            cat2(&cat8(&pre, t, "if (", &code, " != NULL) { ", place, " = *", &code), "; }\n")
        } else {
            cat6(&pre, t, place, " = ", &code, ";\n")
        }
    }

    /// The text that declares a vector and fills it. A table of integer constants becomes
    /// read-only data and one construction.
    pub fn expand_array_into_local(&mut self, name: &str, vec_ty: &Ty, elem: &Ty, elems: &Vec<Expr>, t: &str) -> (r: String)
        ensures
            final(self).pg() == old(self).pg(),
            final(self).room() == old(self).room(),
            (final(self).gv(), r@) == expand_array_into_local_spec(old(self).pg(), old(self).room(), old(self).gv(), name@, vec_ty.v(), elem.v(), exprs_v(elems@), t@),
            settled(final(self).gv()) == settled(old(self).gv()),
        decreases old(self).room(), elems@, 4int, 0int,
    {
        proof {
            reveal(expand_array_into_local_spec);
            reveal(infer_array_spec);
            reveal(push_elems_spec);
        }
        let (vt, el) = if empty(&vec_ty.base) {
            let inferred = self.infer_array(elems);
            let e = self.elem_member_ty(&inferred);
            (inferred, e)
        } else {
            (vec_ty.dup(), elem.dup())
        };
        match int_table(&el, elems) {
            Some(vals) => {
                let rows = rows_from(&vals, t, 0, String::new());
                cat4(&cat8(&cat8(t, "static const int ", name, "_data[] = {\n", &rows, t, "};\n", t), &decl_spelling(&vt), " ", name, "(", name, "_data, ", name), "_data + ", &dec_text(vals.len()), ");\n")
            },
            None => self.push_elems(name, &el, elems, t, 0, cat5(t, &decl_spelling(&vt), " ", name, ";\n")),
        }
    }

    fn push_elems(&mut self, name: &str, elem: &Ty, elems: &Vec<Expr>, t: &str, i: usize, out: String) -> (r: String)
        ensures
            final(self).pg() == old(self).pg(),
            final(self).room() == old(self).room(),
            (final(self).gv(), r@) == push_elems_spec(old(self).pg(), old(self).room(), old(self).gv(), name@, elem.v(), exprs_v(elems@), t@, (i as int), out@),
            settled(final(self).gv()) == settled(old(self).gv()),
        decreases old(self).room(), elems@, 1int, elems.len()-i,
    {
        let ghost i_0 = i;
        let ghost out_0 = out;
        let mut i: usize = i;
        let mut out: String = out;
        #[verifier::loop_isolation(false)]
        loop
            invariant
                self.pg() == old(self).pg(),
                self.room() == old(self).room(),
                push_elems_spec(old(self).pg(), old(self).room(), old(self).gv(), name@, elem.v(), exprs_v(elems@), t@, (i_0 as int), out_0@) == push_elems_spec(self.pg(), self.room(), self.gv(), name@, elem.v(), exprs_v(elems@), t@, (i as int), out@),
                settled(self.gv()) == settled(old(self).gv()),
            decreases elems.len()-i,
        {
            proof {
                reveal(push_elems_spec);
                reveal(gen_elem_spec);
            }
            if i >= elems.len() {
                return out;
            }
            let (text, code) = self.gen_elem("elem", &elems[i], elem, t);
            out = cat7(&out, &text, t, name, ".push_back(", &code, ");\n");
            i = i + 1;
        }
    }

    /// The lines that make an element, and the element itself: an object literal is built
    /// into a temporary of the element type.
    fn gen_elem(&mut self, hint: &str, el: &Expr, elem: &Ty, t: &str) -> (r: (String, String))
        ensures
            final(self).pg() == old(self).pg(),
            final(self).room() == old(self).room(),
            (final(self).gv(), (r.0@, r.1@)) == gen_elem_spec(old(self).pg(), old(self).room(), old(self).gv(), hint@, el.v(), elem.v(), t@),
            settled(final(self).gv()) == settled(old(self).gv()),
        decreases old(self).room(), *el, 31int, 0int,
    {
        proof {
            reveal(gen_elem_spec);
            reveal(expand_object_into_local_spec);
            reveal(gen_expr_hinted_spec);
        }
        match el.node() {
            Expr::ObjectLit(fields) => {
                let tmp = self.fresh(hint);
                let text = self.expand_object_into_local(&tmp, elem, fields, t);
                (text, tmp)
            },
            _ => {
                let (code, _) = self.gen_expr_hinted(el, Some(elem.dup()));
                let pre = self.flush();
                (pre, code)
            },
        }
    }

    /// The text that declares a map and assigns each pair.
    pub fn expand_map_into_local(&mut self, name: &str, map_ty: &Ty, val: &Ty, pairs: &Vec<(Expr, Expr)>, t: &str) -> (r: String)
        ensures
            final(self).pg() == old(self).pg(),
            final(self).room() == old(self).room(),
            (final(self).gv(), r@) == expand_map_into_local_spec(old(self).pg(), old(self).room(), old(self).gv(), name@, map_ty.v(), val.v(), expr_exprs_v(pairs@), t@),
            settled(final(self).gv()) == settled(old(self).gv()),
        decreases old(self).room(), pairs@, 3int, 0int,
    {
        proof {
            reveal(expand_map_into_local_spec);
            reveal(set_pairs_spec);
        }
        let spell = if empty(&map_ty.base) { "std::map<std::string, void*>".to_owned() } else { decl_spelling(map_ty) };
        self.set_pairs(name, val, pairs, t, 0, cat5(t, &spell, " ", name, ";\n"))
    }

    fn set_pairs(&mut self, name: &str, val: &Ty, pairs: &Vec<(Expr, Expr)>, t: &str, i: usize, out: String) -> (r: String)
        ensures
            final(self).pg() == old(self).pg(),
            final(self).room() == old(self).room(),
            (final(self).gv(), r@) == set_pairs_spec(old(self).pg(), old(self).room(), old(self).gv(), name@, val.v(), expr_exprs_v(pairs@), t@, (i as int), out@),
            settled(final(self).gv()) == settled(old(self).gv()),
        decreases old(self).room(), pairs@, 1int, pairs.len()-i,
    {
        let ghost i_0 = i;
        let ghost out_0 = out;
        let mut i: usize = i;
        let mut out: String = out;
        #[verifier::loop_isolation(false)]
        loop
            invariant
                self.pg() == old(self).pg(),
                self.room() == old(self).room(),
                set_pairs_spec(old(self).pg(), old(self).room(), old(self).gv(), name@, val.v(), expr_exprs_v(pairs@), t@, (i_0 as int), out_0@) == set_pairs_spec(self.pg(), self.room(), self.gv(), name@, val.v(), expr_exprs_v(pairs@), t@, (i as int), out@),
                settled(self.gv()) == settled(old(self).gv()),
            decreases pairs.len()-i,
        {
            proof {
                reveal(set_pairs_spec);
                reveal(gen_expr_spec);
                reveal(gen_elem_spec);
            }
            if i >= pairs.len() {
                return out;
            }
            let (kc, _) = self.gen_expr(&pairs[i].0);
            let pre = self.flush();
            let (text, vc) = self.gen_elem("val", &pairs[i].1, val, t);
            out = cat3(&cat8(&out, &pre, &text, t, name, "[", &kc, "] = "), &vc, ";\n");
            i = i + 1;
        }
    }

    /// The text that declares a structure without a name: each field has the type of its
    /// value.
    pub fn expand_anon_struct_local(&mut self, name: &str, fields: &Vec<(String, Expr)>, t: &str) -> (r: (String, Ty))
        ensures
            final(self).pg() == old(self).pg(),
            final(self).room() == old(self).room(),
            (final(self).gv(), (r.0@, r.1.v())) == expand_anon_struct_local_spec(old(self).pg(), old(self).room(), old(self).gv(), name@, text_exprs_v(fields@), t@),
            settled(final(self).gv()) == settled(old(self).gv()),
        decreases old(self).room(), fields@, 2int, 0int,
    {
        proof {
            reveal(expand_anon_struct_local_spec);
            reveal(gen_anon_fields_spec);
        }
        let (pre, decls, assigns) = self.gen_anon_fields(name, fields, t, 0, String::new(), Vec::new(), String::new());
        (cat8(&pre, t, "struct { ", &join(&decls, " "), " } ", name, ";\n", &assigns), no_ty())
    }

    fn gen_anon_fields(&mut self, name: &str, fields: &Vec<(String, Expr)>, t: &str, i: usize, pre: String, decls: Vec<String>, assigns: String) -> (r: (String, Vec<String>, String))
        ensures
            final(self).pg() == old(self).pg(),
            final(self).room() == old(self).room(),
            (final(self).gv(), (r.0@, texts(r.1@), r.2@)) == gen_anon_fields_spec(old(self).pg(), old(self).room(), old(self).gv(), name@, text_exprs_v(fields@), t@, (i as int), pre@, texts(decls@), assigns@),
            settled(final(self).gv()) == settled(old(self).gv()),
        decreases old(self).room(), fields@, 1int, fields.len()-i,
    {
        let ghost i_0 = i;
        let ghost pre_0 = pre;
        let ghost decls_0 = decls;
        let ghost assigns_0 = assigns;
        let mut i: usize = i;
        let mut pre: String = pre;
        let mut decls: Vec<String> = decls;
        let mut assigns: String = assigns;
        #[verifier::loop_isolation(false)]
        loop
            invariant
                self.pg() == old(self).pg(),
                self.room() == old(self).room(),
                gen_anon_fields_spec(old(self).pg(), old(self).room(), old(self).gv(), name@, text_exprs_v(fields@), t@, (i_0 as int), pre_0@, texts(decls_0@), assigns_0@) == gen_anon_fields_spec(self.pg(), self.room(), self.gv(), name@, text_exprs_v(fields@), t@, (i as int), pre@, texts(decls@), assigns@),
                settled(self.gv()) == settled(old(self).gv()),
            decreases fields.len()-i,
        {
            proof {
                reveal(gen_anon_fields_spec);
                reveal(gen_expr_spec);
            }
            if i >= fields.len() {
                return (pre, decls, assigns);
            }
            let (code, ty) = self.gen_expr(&fields[i].1);
            let lines = self.flush();
            pre = cat2(&pre, &lines);
            let spell = if empty(&ty.base) { "int".to_owned() } else { decl_spelling(&ty) };
            decls.push(cat4(&spell, " ", &fields[i].0, ";"));
            assigns = cat8(&assigns, t, name, ".", &fields[i].0, " = ", &code, ";\n");
            i = i + 1;
        }
    }

    /// An array literal in an expression: a vector built before the statement, of the
    /// expected type where that is a vector.
    pub fn gen_array_lit(&mut self, elems: &Vec<Expr>) -> (r: (String, Ty))
        ensures
            final(self).pg() == old(self).pg(),
            final(self).room() == old(self).room(),
            (final(self).gv(), (r.0@, r.1.v())) == gen_array_lit_spec(old(self).pg(), old(self).room(), old(self).gv(), exprs_v(elems@)),
            settled(final(self).gv()) == settled(old(self).gv()),
        decreases old(self).room(), elems@, 6int, 0int,
    {
        proof {
            reveal(gen_array_lit_spec);
            reveal(infer_array_spec);
            reveal(expand_array_into_local_spec);
        }
        let wanted = or_no_ty(self.expected());
        let vec_ty = if starts_with(&wanted.base, "std::vector") { wanted } else { self.infer_array(elems) };
        let elem = self.element_ty(&vec_ty);
        let tmp = self.fresh("arr");
        let t = self.prelude_t().clone();
        let buf = self.expand_array_into_local(&tmp, &vec_ty, &elem, elems, &t);
        self.hoist(&buf);
        (tmp, vec_ty)
    }

    /// The temporary that a map literal of a type is filled in.
    pub fn gen_map_of(&mut self, pairs: &Vec<(Expr, Expr)>, map_ty: &Ty) -> (r: String)
        ensures
            final(self).pg() == old(self).pg(),
            final(self).room() == old(self).room(),
            (final(self).gv(), r@) == gen_map_of_spec(old(self).pg(), old(self).room(), old(self).gv(), expr_exprs_v(pairs@), map_ty.v()),
            settled(final(self).gv()) == settled(old(self).gv()),
        decreases old(self).room(), pairs@, 4int, 0int,
    {
        proof {
            reveal(gen_map_of_spec);
            reveal(expand_map_into_local_spec);
        }
        let val = self.element_ty(map_ty);
        let tmp = self.fresh("map");
        let t = self.prelude_t().clone();
        let buf = self.expand_map_into_local(&tmp, map_ty, &val, pairs, &t);
        self.hoist(&buf);
        tmp
    }

    /// A map literal of no known type, filled in a temporary.
    pub fn gen_map_lit(&mut self, pairs: &Vec<(Expr, Expr)>) -> (r: (String, Ty))
        ensures
            final(self).pg() == old(self).pg(),
            final(self).room() == old(self).room(),
            (final(self).gv(), (r.0@, r.1.v())) == gen_map_lit_spec(old(self).pg(), old(self).room(), old(self).gv(), expr_exprs_v(pairs@)),
            settled(final(self).gv()) == settled(old(self).gv()),
        decreases old(self).room(), pairs@, 5int, 0int,
    {
        proof {
            reveal(gen_map_lit_spec);
            reveal(gen_map_of_spec);
        }
        let tmp = self.gen_map_of(pairs, &no_ty());
        (tmp, no_ty())
    }

    /// An object literal, filled in a temporary.
    pub fn gen_object_lit(&mut self, fields: &Vec<(String, Expr)>) -> (r: (String, Ty))
        ensures
            final(self).pg() == old(self).pg(),
            final(self).room() == old(self).room(),
            (final(self).gv(), (r.0@, r.1.v())) == gen_object_lit_spec(old(self).pg(), old(self).room(), old(self).gv(), text_exprs_v(fields@)),
            settled(final(self).gv()) == settled(old(self).gv()),
        decreases old(self).room(), fields@, 4int, 0int,
    {
        proof {
            reveal(gen_object_lit_spec);
            reveal(expand_anon_struct_local_spec);
        }
        let tmp = self.fresh("obj");
        let t = self.prelude_t().clone();
        let (buf, ty) = self.expand_anon_struct_local(&tmp, fields, &t);
        self.hoist(&buf);
        (tmp, ty)
    }
}

/// What [`int_const`] computes.
pub open spec fn int_const_spec(e: ExprV) -> Option<Seq<char>>
{
    match e {
        ExprV::Int(v) => { Some(int_lit_spec(v)) },
        ExprV::Unary { op, expr, prefix } => {
            if (op != (UnOp::Neg)) || (!prefix) { None } else {
                match *expr {
                    ExprV::Int(v) => { Some("-"@ + int_lit_spec(v)) },
                    _ => { None },
                }
            }
        },
        _ => { None },
    }
}

/// What [`int_consts_from`] computes.
pub open spec fn int_consts_from_spec(elems: Seq<ExprV>, i: int, out: Seq<Seq<char>>) -> Option<Seq<Seq<char>>>
    decreases elems.len() - i,
{
    if !(0 <= i < elems.len()) { Some(out) } else {
        match int_const_spec(elems[i]) {
            Some(t) => {
                let out = out.push(t);
                let i = i + 1;
                int_consts_from_spec(elems, i, out)
            },
            None => { None },
        }
    }
}

/// What [`int_table`] computes.
#[verifier::opaque]
pub open spec fn int_table_spec(elem: TyV, elems: Seq<ExprV>) -> Option<Seq<Seq<char>>>
{
    if (elem.base == "int"@) && ((elems.len()) >= 8) { int_consts_from_spec(elems, 0int, Seq::empty()) } else { None }
}

/// What [`rows_from`] computes.
pub open spec fn rows_from_spec(vals: Seq<Seq<char>>, t: Seq<char>, i: int, out: Seq<char>) -> Seq<char>
    decreases vals.len() - i,
{
    if !(0 <= i < vals.len()) { out } else {
        let out = if (i % 16) == 0 { out + t + "\t"@ + (vals[i]) } else { out + ", "@ + (vals[i]) };
        let out = if ((i % 16) == 15) || ((i + 1) >= (vals.len())) {
            let out = out + ",\n"@;
            out
        } else { out };
        let i = i + 1;
        rows_from_spec(vals, t, i, out)
    }
}

/// What [`or_no_ty`] computes.
pub open spec fn or_no_ty_spec(t: Option<TyV>) -> TyV
{
    match t {
        Some(t) => { t },
        None => { no_ty_spec() },
    }
}

/// What [`BodyGen::infer_array`] computes.
#[verifier::opaque]
pub open spec fn infer_array_spec(p: Env, room: int, st: GenV, elems: Seq<ExprV>) -> (GenV, TyV)
    decreases room, elems, 2int, 0int,
{
    let lines = st.prelude;
    let owned = st.owned;
    let (st, elem) = if (elems.len()) > 0 {
        let (st, (_, t)) = gen_expr_spec(p, room, st, elems[0]);
        (st, t)
    } else { (st, no_ty_spec()) };
    let st = GenV { prelude: lines, owned: owned, ..st };
    let inner = if ((elem.base).len() == 0) { "int"@ } else { decl_spelling_spec(elem) };
    (st, plain_ty_spec("std::vector<"@ + inner + " >"@))
}

/// What [`BodyGen::hoist_object`] computes.
#[verifier::opaque]
pub open spec fn hoist_object_spec(p: Env, room: int, st: GenV, fields: Seq<(Seq<char>, ExprV)>, target: TyV) -> (GenV, Seq<char>)
    decreases room, fields, 4int, 0int,
{
    let (st, tmp) = fresh_spec(p, st, "anon"@);
    let t = st.prelude_t;
    let (st, buf) = expand_object_into_local_spec(p, room, st, tmp, target, fields, t);
    let st = hoist_spec(p, st, buf);
    (st, tmp)
}

/// What [`BodyGen::expand_object_into_local`] computes.
#[verifier::opaque]
pub open spec fn expand_object_into_local_spec(p: Env, room: int, st: GenV, name: Seq<char>, target: TyV, fields: Seq<(Seq<char>, ExprV)>, t: Seq<char>) -> (GenV, Seq<char>)
    decreases room, fields, 3int, 0int,
{
    if ((target.base).len() == 0) {
        let (st, (text, _)) = expand_anon_struct_local_spec(p, room, st, name, fields, t);
        (st, text)
    } else {
        expand_object_fields_spec(p, room, st, name, target, fields, t, 0int, t + target.base + " "@ + name + ";\n"@)
    }
}

/// What [`BodyGen::expand_object_fields`] computes.
#[verifier::opaque]
pub open spec fn expand_object_fields_spec(p: Env, room: int, st: GenV, name: Seq<char>, target: TyV, fields: Seq<(Seq<char>, ExprV)>, t: Seq<char>, i: int, out: Seq<char>) -> (GenV, Seq<char>)
    decreases room, fields, 1int, fields.len()-i,
{
    if !(0 <= i < fields.len()) { (st, out) } else {
        let member = match target.info {
            Some(info) => { member_field_ty_spec(p, st, info, fields[i].0) },
            None => { None },
        };
        let (st, text) = expand_object_field_spec(p, room, st, name + "."@ + (fields[i].0), fields[i].1, member, t);
        let out = out + text;
        let i = i + 1;
        expand_object_fields_spec(p, room, st, name, target, fields, t, i, out)
    }
}

/// What [`BodyGen::expand_object_field`] computes.
#[verifier::opaque]
pub open spec fn expand_object_field_spec(p: Env, room: int, st: GenV, place: Seq<char>, value: ExprV, member: Option<TyV>, t: Seq<char>) -> (GenV, Seq<char>)
    decreases room, value, 30int, 0int,
{
    match value {
        ExprV::ObjectLit(fs) => {
            let (st, tmp) = fresh_spec(p, st, "f"@);
            let (st, text) = expand_object_into_local_spec(p, room, st, tmp, or_no_ty_spec(member), fs, t);
            (st, text + t + place + " = "@ + tmp + ";\n"@)
        },
        ExprV::ArrayLit(els) => {
            let mt = or_no_ty_spec(member);
            let elem = elem_member_ty_spec(p, st, mt);
            let (st, tmp) = fresh_spec(p, st, "f"@);
            let (st, text) = expand_array_into_local_spec(p, room, st, tmp, mt, elem, els, t);
            (st, text + t + place + " = "@ + tmp + ";\n"@)
        },
        ExprV::MapLit(pairs) => {
            if (pairs.len()) == 0 { assign_object_field_spec(p, room, st, place, value, member, t) } else {
                let mt = or_no_ty_spec(member);
                let (_, vty) = map_kv_ty_spec(p, st, mt);
                let (st, tmp) = fresh_spec(p, st, "f"@);
                let (st, text) = expand_map_into_local_spec(p, room, st, tmp, mt, vty, pairs, t);
                (st, text + t + place + " = "@ + tmp + ";\n"@)
            }
        },
        _ => { assign_object_field_spec(p, room, st, place, value, member, t) },
    }
}

/// What [`BodyGen::assign_object_field`] computes.
#[verifier::opaque]
pub open spec fn assign_object_field_spec(p: Env, room: int, st: GenV, place: Seq<char>, value: ExprV, member: Option<TyV>, t: Seq<char>) -> (GenV, Seq<char>)
    decreases room, value, 29int, 0int,
{
    let field_ptr = or_no_ty_spec(member).is_ptr;
    let (st, (code, ty)) = gen_expr_hinted_spec(p, room, st, value, member);
    let (st, pre) = flush_spec(p, st);
    if (!field_ptr) && ty.is_ptr { (st, pre + t + "if ("@ + code + " != NULL) { "@ + place + " = *"@ + code + "; }\n"@) } else {
        (st, pre + t + place + " = "@ + code + ";\n"@)
    }
}

/// What [`BodyGen::expand_array_into_local`] computes.
#[verifier::opaque]
pub open spec fn expand_array_into_local_spec(p: Env, room: int, st: GenV, name: Seq<char>, vec_ty: TyV, elem: TyV, elems: Seq<ExprV>, t: Seq<char>) -> (GenV, Seq<char>)
    decreases room, elems, 4int, 0int,
{
    let (st, (vt, el)) = if ((vec_ty.base).len() == 0) {
        let (st, inferred) = infer_array_spec(p, room, st, elems);
        let e = elem_member_ty_spec(p, st, inferred);
        (st, (inferred, e))
    } else { (st, (vec_ty, elem)) };
    match int_table_spec(el, elems) {
        Some(vals) => {
            let rows = rows_from_spec(vals, t, 0int, Seq::empty());
            (st, t + "static const int "@ + name + "_data[] = {\n"@ + rows + t + "};\n"@ + t + decl_spelling_spec(vt) + " "@ + name + "("@ + name + "_data, "@ + name + "_data + "@ + (dec((vals.len() as int) as nat)) + ");\n"@)
        },
        None => {
            push_elems_spec(p, room, st, name, el, elems, t, 0int, t + decl_spelling_spec(vt) + " "@ + name + ";\n"@)
        },
    }
}

/// What [`BodyGen::push_elems`] computes.
#[verifier::opaque]
pub open spec fn push_elems_spec(p: Env, room: int, st: GenV, name: Seq<char>, elem: TyV, elems: Seq<ExprV>, t: Seq<char>, i: int, out: Seq<char>) -> (GenV, Seq<char>)
    decreases room, elems, 1int, elems.len()-i,
{
    if !(0 <= i < elems.len()) { (st, out) } else {
        let (st, (text, code)) = gen_elem_spec(p, room, st, "elem"@, elems[i], elem, t);
        let out = out + text + t + name + ".push_back("@ + code + ");\n"@;
        let i = i + 1;
        push_elems_spec(p, room, st, name, elem, elems, t, i, out)
    }
}

/// What [`BodyGen::gen_elem`] computes.
#[verifier::opaque]
pub open spec fn gen_elem_spec(p: Env, room: int, st: GenV, hint: Seq<char>, el: ExprV, elem: TyV, t: Seq<char>) -> (GenV, (Seq<char>, Seq<char>))
    decreases room, el, 31int, 0int,
{
    match el {
        ExprV::ObjectLit(fields) => {
            let (st, tmp) = fresh_spec(p, st, hint);
            let (st, text) = expand_object_into_local_spec(p, room, st, tmp, elem, fields, t);
            (st, (text, tmp))
        },
        _ => {
            let (st, (code, _)) = gen_expr_hinted_spec(p, room, st, el, Some(elem));
            let (st, pre) = flush_spec(p, st);
            (st, (pre, code))
        },
    }
}

/// What [`BodyGen::expand_map_into_local`] computes.
#[verifier::opaque]
pub open spec fn expand_map_into_local_spec(p: Env, room: int, st: GenV, name: Seq<char>, map_ty: TyV, val: TyV, pairs: Seq<(ExprV, ExprV)>, t: Seq<char>) -> (GenV, Seq<char>)
    decreases room, pairs, 3int, 0int,
{
    let spell = if ((map_ty.base).len() == 0) { "std::map<std::string, void*>"@ } else { decl_spelling_spec(map_ty) };
    set_pairs_spec(p, room, st, name, val, pairs, t, 0int, t + spell + " "@ + name + ";\n"@)
}

/// What [`BodyGen::set_pairs`] computes.
#[verifier::opaque]
pub open spec fn set_pairs_spec(p: Env, room: int, st: GenV, name: Seq<char>, val: TyV, pairs: Seq<(ExprV, ExprV)>, t: Seq<char>, i: int, out: Seq<char>) -> (GenV, Seq<char>)
    decreases room, pairs, 1int, pairs.len()-i,
{
    if !(0 <= i < pairs.len()) { (st, out) } else {
        let (st, (kc, _)) = gen_expr_spec(p, room, st, pairs[i].0);
        let (st, pre) = flush_spec(p, st);
        let (st, (text, vc)) = gen_elem_spec(p, room, st, "val"@, pairs[i].1, val, t);
        let out = out + pre + text + t + name + "["@ + kc + "] = "@ + vc + ";\n"@;
        let i = i + 1;
        set_pairs_spec(p, room, st, name, val, pairs, t, i, out)
    }
}

/// What [`BodyGen::expand_anon_struct_local`] computes.
#[verifier::opaque]
pub open spec fn expand_anon_struct_local_spec(p: Env, room: int, st: GenV, name: Seq<char>, fields: Seq<(Seq<char>, ExprV)>, t: Seq<char>) -> (GenV, (Seq<char>, TyV))
    decreases room, fields, 2int, 0int,
{
    let (st, (pre, decls, assigns)) = gen_anon_fields_spec(p, room, st, name, fields, t, 0int, Seq::empty(), Seq::empty(), Seq::empty());
    (st, (pre + t + "struct { "@ + join_spec(decls, " "@) + " } "@ + name + ";\n"@ + assigns, no_ty_spec()))
}

/// What [`BodyGen::gen_anon_fields`] computes.
#[verifier::opaque]
pub open spec fn gen_anon_fields_spec(p: Env, room: int, st: GenV, name: Seq<char>, fields: Seq<(Seq<char>, ExprV)>, t: Seq<char>, i: int, pre: Seq<char>, decls: Seq<Seq<char>>, assigns: Seq<char>) -> (GenV, (Seq<char>, Seq<Seq<char>>, Seq<char>))
    decreases room, fields, 1int, fields.len()-i,
{
    if !(0 <= i < fields.len()) { (st, (pre, decls, assigns)) } else {
        let (st, (code, ty)) = gen_expr_spec(p, room, st, fields[i].1);
        let (st, lines) = flush_spec(p, st);
        let pre = pre + lines;
        let spell = if ((ty.base).len() == 0) { "int"@ } else { decl_spelling_spec(ty) };
        let decls = decls.push(spell + " "@ + (fields[i].0) + ";"@);
        let assigns = assigns + t + name + "."@ + (fields[i].0) + " = "@ + code + ";\n"@;
        let i = i + 1;
        gen_anon_fields_spec(p, room, st, name, fields, t, i, pre, decls, assigns)
    }
}

/// What [`BodyGen::gen_array_lit`] computes.
#[verifier::opaque]
pub open spec fn gen_array_lit_spec(p: Env, room: int, st: GenV, elems: Seq<ExprV>) -> (GenV, (Seq<char>, TyV))
    decreases room, elems, 6int, 0int,
{
    let wanted = or_no_ty_spec(st.expected);
    let (st, vec_ty) = if ("std::vector"@).is_prefix_of(wanted.base) { (st, wanted) } else {
        let (st, x1) = infer_array_spec(p, room, st, elems);
        (st, x1)
    };
    let elem = element_ty_spec(p, st, vec_ty);
    let (st, tmp) = fresh_spec(p, st, "arr"@);
    let t = st.prelude_t;
    let (st, buf) = expand_array_into_local_spec(p, room, st, tmp, vec_ty, elem, elems, t);
    let st = hoist_spec(p, st, buf);
    (st, (tmp, vec_ty))
}

/// What [`BodyGen::gen_map_of`] computes.
#[verifier::opaque]
pub open spec fn gen_map_of_spec(p: Env, room: int, st: GenV, pairs: Seq<(ExprV, ExprV)>, map_ty: TyV) -> (GenV, Seq<char>)
    decreases room, pairs, 4int, 0int,
{
    let val = element_ty_spec(p, st, map_ty);
    let (st, tmp) = fresh_spec(p, st, "map"@);
    let t = st.prelude_t;
    let (st, buf) = expand_map_into_local_spec(p, room, st, tmp, map_ty, val, pairs, t);
    let st = hoist_spec(p, st, buf);
    (st, tmp)
}

/// What [`BodyGen::gen_map_lit`] computes.
#[verifier::opaque]
pub open spec fn gen_map_lit_spec(p: Env, room: int, st: GenV, pairs: Seq<(ExprV, ExprV)>) -> (GenV, (Seq<char>, TyV))
    decreases room, pairs, 5int, 0int,
{
    let (st, tmp) = gen_map_of_spec(p, room, st, pairs, no_ty_spec());
    (st, (tmp, no_ty_spec()))
}

/// What [`BodyGen::gen_object_lit`] computes.
#[verifier::opaque]
pub open spec fn gen_object_lit_spec(p: Env, room: int, st: GenV, fields: Seq<(Seq<char>, ExprV)>) -> (GenV, (Seq<char>, TyV))
    decreases room, fields, 4int, 0int,
{
    let (st, tmp) = fresh_spec(p, st, "obj"@);
    let t = st.prelude_t;
    let (st, (buf, ty)) = expand_anon_struct_local_spec(p, room, st, tmp, fields, t);
    let st = hoist_spec(p, st, buf);
    (st, (tmp, ty))
}

} // verus!
