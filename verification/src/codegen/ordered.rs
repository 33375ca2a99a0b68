//! Ordered maps: two parallel vectors that only ever grow at the end.

use vstd::prelude::*;

use crate::ast::{Expr, Type};
use crate::codegen::args::arg_code_spec;
use crate::codegen::expr::gen_expr_spec;
use crate::codegen::gen::GenV;
use crate::codegen::helpers::{bool_ty, bool_ty_spec, no_ty, no_ty_spec, plain_ty, plain_ty_spec};
use crate::codegen::state::{BodyGen, Env, fail_spec, fresh_spec, hoist_spec, settled};
use crate::codegen::ty::{OrderedMapRef, OrderedMapRefV, Ty, TyV};
use crate::codegen::types::{decl_spelling, decl_spelling_spec};
use crate::codegen::values::say_spec;
use crate::model::{ExprV, TypeV, expr_exprs_v, exprs_v};
use crate::resolve::{last_is, last_is_spec};
use crate::text::{cat2, cat3, cat4, cat6, cat7, cat8, same};

verus! {

broadcast use {crate::codegen::gen::group_gen, crate::codegen::ty::group_ty, crate::model::group_model, crate::text::group_texts};

/// Whether an expression makes an empty map.
pub fn is_empty_map_init(e: &Expr) -> (r: bool)
    ensures
        r == is_empty_map_init_spec(e.v()),
{
    match e.node() {
        Expr::ArrayLit(v) => v.len() == 0,
        Expr::MapLit(v) => v.len() == 0,
        Expr::New(ty, _) => match ty.node() {
            Type::Named { path, params: _, optional: _, line: _ } => last_is(path, "Map"),
            _ => false,
        },
        _ => false,
    }
}

impl<'a> BodyGen<'a> {
    /// The line that looks for a key and acts where it is found.
    fn scan_keys(&mut self, om: &OrderedMapRef, i: &str, key: &str, found: &str)
        ensures
            final(self).pg() == old(self).pg(),
            final(self).room() == old(self).room(),
            final(self).gv() == scan_keys_spec(old(self).pg(), old(self).gv(), om.v(), i@, key@, found@),
            settled(final(self).gv()) == settled(old(self).gv()),
    {
        proof {
            reveal(scan_keys_spec);
        }
        self.say(&cat3(&cat8(&cat8("for (size_t ", i, " = 0; ", i, " < ", &om.keys, ".size(); ++", i), ") { if (", &om.keys, "[", i, "] == ", key, ") { "), found, "break; } }"));
    }

    /// A method of an ordered map.
    pub fn ordered_map_call(&mut self, om: &OrderedMapRef, method: &str, args: &Vec<Expr>) -> (r: Option<(String, Ty)>)
        ensures
            final(self).pg() == old(self).pg(),
            final(self).room() == old(self).room(),
            (final(self).gv(), (match r { Some(y) => Some((y.0@, y.1.v())), None => None })) == ordered_map_call_spec(old(self).pg(), old(self).room(), old(self).gv(), om.v(), method@, exprs_v(args@)),
            settled(final(self).gv()) == settled(old(self).gv()),
        decreases old(self).room(), args@, 6int, 0int,
    {
        proof {
            reveal(ordered_map_call_spec);
            reveal(arg_code_spec);
        }
        if same(method, "get") {
            let k = self.arg_code(args, 0);
            let i = self.fresh("i");
            let got = self.fresh("get");
            let dflt = if om.val_ty.is_ptr { "NULL".to_owned() } else { cat2(&om.val_ty.base, "()") };
            self.say(&cat6(&decl_spelling(&om.val_ty), " ", &got, " = ", &dflt, ";"));
            self.scan_keys(om, &i, &k, &cat6(&got, " = ", &om.vals, "[", &i, "]; "));
            return Some((got, om.val_ty.dup()));
        }
        if same(method, "exists") {
            let k = self.arg_code(args, 0);
            let i = self.fresh("i");
            let has = self.fresh("has");
            self.say(&cat3("bool ", &has, " = false;"));
            self.scan_keys(om, &i, &k, &cat2(&has, " = true; "));
            return Some((has, bool_ty()));
        }
        if same(method, "set") {
            let k = self.arg_code(args, 0);
            let v = self.arg_code(args, 1);
            let i = self.fresh("i");
            let found = self.fresh("found");
            self.say(&cat3("bool ", &found, " = false;"));
            self.scan_keys(om, &i, &k, &cat8(&om.vals, "[", &i, "] = ", &v, "; ", &found, " = true; "));
            self.say(&cat4(&cat8("if (!", &found, ") { ", &om.keys, ".push_back(", &k, "); ", &om.vals), ".push_back(", &v, "); }"));
            return Some((String::new(), no_ty()));
        }
        if same(method, "remove") {
            let k = self.arg_code(args, 0);
            let i = self.fresh("i");
            let rem = self.fresh("rem");
            self.say(&cat3("bool ", &rem, " = false;"));
            self.scan_keys(om, &i, &k, &cat7(&cat8(&om.keys, ".erase(", &om.keys, ".begin() + ", &i, "); ", &om.vals, ".erase("), &om.vals, ".begin() + ", &i, "); ", &rem, " = true; "));
            return Some((rem, bool_ty()));
        }
        if same(method, "keys") {
            return Some((om.keys.clone(), plain_ty(&cat3("std::vector<", &decl_spelling(&om.key_ty), " >"))));
        }
        None
    }

    /// The lines that append the pairs from `i` on.
    fn append_pairs(&mut self, om: &OrderedMapRef, pairs: &Vec<(Expr, Expr)>, t: &str, i: usize, pre: String) -> (r: String)
        ensures
            final(self).pg() == old(self).pg(),
            final(self).room() == old(self).room(),
            (final(self).gv(), r@) == append_pairs_spec(old(self).pg(), old(self).room(), old(self).gv(), om.v(), expr_exprs_v(pairs@), t@, (i as int), pre@),
            settled(final(self).gv()) == settled(old(self).gv()),
        decreases old(self).room(), pairs@, 1int, pairs.len()-i,
    {
        let ghost i_0 = i;
        let ghost pre_0 = pre;
        let mut i: usize = i;
        let mut pre: String = pre;
        #[verifier::loop_isolation(false)]
        loop
            invariant
                self.pg() == old(self).pg(),
                self.room() == old(self).room(),
                append_pairs_spec(old(self).pg(), old(self).room(), old(self).gv(), om.v(), expr_exprs_v(pairs@), t@, (i_0 as int), pre_0@) == append_pairs_spec(self.pg(), self.room(), self.gv(), om.v(), expr_exprs_v(pairs@), t@, (i as int), pre@),
                settled(self.gv()) == settled(old(self).gv()),
            decreases pairs.len()-i,
        {
            proof {
                reveal(append_pairs_spec);
                reveal(gen_expr_spec);
            }
            if i >= pairs.len() {
                return pre;
            }
            let (kc, _) = self.gen_expr(&pairs[i].0);
            let (vc, _) = self.gen_expr(&pairs[i].1);
            pre = cat4(&cat8(&pre, t, &om.keys, ".push_back(", &kc, ");\n", t, &om.vals), ".push_back(", &vc, ");\n");
            i = i + 1;
        }
    }

    /// An assignment to an ordered map: an empty map or a map literal, nothing else.
    pub fn gen_ordered_map_assign(&mut self, om: &OrderedMapRef, value: &Expr) -> (r: (String, Ty))
        ensures
            final(self).pg() == old(self).pg(),
            final(self).room() == old(self).room(),
            (final(self).gv(), (r.0@, r.1.v())) == gen_ordered_map_assign_spec(old(self).pg(), old(self).room(), old(self).gv(), om.v(), value.v()),
            settled(final(self).gv()) == settled(old(self).gv()),
        decreases old(self).room(), *value, 20int, 0int,
    {
        proof {
            reveal(gen_ordered_map_assign_spec);
            reveal(append_pairs_spec);
        }
        if is_empty_map_init(value) {
            return (cat4(&om.keys, ".clear(), ", &om.vals, ".clear()"), no_ty());
        }
        match value.node() {
            Expr::MapLit(pairs) => {
                let t = self.prelude_t().clone();
                let pre = self.append_pairs(om, pairs, &t, 0, cat6(&t, &om.keys, ".clear();\n", &t, &om.vals, ".clear();\n"));
                self.hoist(&pre);
            },
            _ => {
                self.fail("an @orderedMap field can only be assigned an empty map (`new Map()` / `[]`) or a map literal; a whole map value cannot be assigned (the field is stored as two parallel vectors, not a single map)");
            },
        }
        (String::new(), no_ty())
    }
}

/// What [`is_empty_map_init`] computes.
pub open spec fn is_empty_map_init_spec(e: ExprV) -> bool
{
    match e {
        ExprV::ArrayLit(v) => { (v.len()) == 0 },
        ExprV::MapLit(v) => { (v.len()) == 0 },
        ExprV::New(ty, _) => {
            match ty {
                TypeV::Named { path, params: _, optional: _, line: _ } => { last_is_spec(path, "Map"@) },
                _ => { false },
            }
        },
        _ => { false },
    }
}

/// What [`BodyGen::scan_keys`] computes.
#[verifier::opaque]
pub open spec fn scan_keys_spec(p: Env, st: GenV, om: OrderedMapRefV, i: Seq<char>, key: Seq<char>, found: Seq<char>) -> GenV
{
    let st = say_spec(p, st, "for (size_t "@ + i + " = 0; "@ + i + " < "@ + om.keys + ".size(); ++"@ + i + ") { if ("@ + om.keys + "["@ + i + "] == "@ + key + ") { "@ + found + "break; } }"@);
    st
}

/// What [`BodyGen::ordered_map_call`] computes.
#[verifier::opaque]
pub open spec fn ordered_map_call_spec(p: Env, room: int, st: GenV, om: OrderedMapRefV, method: Seq<char>, args: Seq<ExprV>) -> (GenV, Option<(Seq<char>, TyV)>)
    decreases room, args, 6int, 0int,
{
    if (method == "get"@) {
        let (st, k) = arg_code_spec(p, room, st, args, 0int);
        let (st, i) = fresh_spec(p, st, "i"@);
        let (st, got) = fresh_spec(p, st, "get"@);
        let dflt = if om.val_ty.is_ptr { "NULL"@ } else { om.val_ty.base + "()"@ };
        let st = say_spec(p, st, decl_spelling_spec(om.val_ty) + " "@ + got + " = "@ + dflt + ";"@);
        let st = scan_keys_spec(p, st, om, i, k, got + " = "@ + om.vals + "["@ + i + "]; "@);
        (st, Some((got, om.val_ty)))
    } else {
        if (method == "exists"@) {
            let (st, k) = arg_code_spec(p, room, st, args, 0int);
            let (st, i) = fresh_spec(p, st, "i"@);
            let (st, has) = fresh_spec(p, st, "has"@);
            let st = say_spec(p, st, "bool "@ + has + " = false;"@);
            let st = scan_keys_spec(p, st, om, i, k, has + " = true; "@);
            (st, Some((has, bool_ty_spec())))
        } else {
            if (method == "set"@) {
                let (st, k) = arg_code_spec(p, room, st, args, 0int);
                let (st, v) = arg_code_spec(p, room, st, args, 1int);
                let (st, i) = fresh_spec(p, st, "i"@);
                let (st, found) = fresh_spec(p, st, "found"@);
                let st = say_spec(p, st, "bool "@ + found + " = false;"@);
                let st = scan_keys_spec(p, st, om, i, k, om.vals + "["@ + i + "] = "@ + v + "; "@ + found + " = true; "@);
                let st = say_spec(p, st, "if (!"@ + found + ") { "@ + om.keys + ".push_back("@ + k + "); "@ + om.vals + ".push_back("@ + v + "); }"@);
                (st, Some((Seq::empty(), no_ty_spec())))
            } else {
                if (method == "remove"@) {
                    let (st, k) = arg_code_spec(p, room, st, args, 0int);
                    let (st, i) = fresh_spec(p, st, "i"@);
                    let (st, rem) = fresh_spec(p, st, "rem"@);
                    let st = say_spec(p, st, "bool "@ + rem + " = false;"@);
                    let st = scan_keys_spec(p, st, om, i, k, om.keys + ".erase("@ + om.keys + ".begin() + "@ + i + "); "@ + om.vals + ".erase("@ + om.vals + ".begin() + "@ + i + "); "@ + rem + " = true; "@);
                    (st, Some((rem, bool_ty_spec())))
                } else {
                    if (method == "keys"@) {
                        (st, Some((om.keys, plain_ty_spec("std::vector<"@ + decl_spelling_spec(om.key_ty) + " >"@))))
                    } else { (st, None) }
                }
            }
        }
    }
}

/// What [`BodyGen::append_pairs`] computes.
#[verifier::opaque]
pub open spec fn append_pairs_spec(p: Env, room: int, st: GenV, om: OrderedMapRefV, pairs: Seq<(ExprV, ExprV)>, t: Seq<char>, i: int, pre: Seq<char>) -> (GenV, Seq<char>)
    decreases room, pairs, 1int, pairs.len()-i,
{
    if !(0 <= i < pairs.len()) { (st, pre) } else {
        let (st, (kc, _)) = gen_expr_spec(p, room, st, pairs[i].0);
        let (st, (vc, _)) = gen_expr_spec(p, room, st, pairs[i].1);
        let pre = pre + t + om.keys + ".push_back("@ + kc + ");\n"@ + t + om.vals + ".push_back("@ + vc + ");\n"@;
        let i = i + 1;
        append_pairs_spec(p, room, st, om, pairs, t, i, pre)
    }
}

/// What [`BodyGen::gen_ordered_map_assign`] computes.
#[verifier::opaque]
pub open spec fn gen_ordered_map_assign_spec(p: Env, room: int, st: GenV, om: OrderedMapRefV, value: ExprV) -> (GenV, (Seq<char>, TyV))
    decreases room, value, 20int, 0int,
{
    if is_empty_map_init_spec(value) { (st, (om.keys + ".clear(), "@ + om.vals + ".clear()"@, no_ty_spec())) } else {
        let st = match value {
            ExprV::MapLit(pairs) => {
                let t = st.prelude_t;
                let (st, pre) = append_pairs_spec(p, room, st, om, pairs, t, 0int, t + om.keys + ".clear();\n"@ + t + om.vals + ".clear();\n"@);
                let st = hoist_spec(p, st, pre);
                st
            },
            _ => {
                let st = fail_spec(p, st, "an @orderedMap field can only be assigned an empty map (`new Map()` / `[]`) or a map literal; a whole map value cannot be assigned (the field is stored as two parallel vectors, not a single map)"@);
                st
            },
        };
        (st, (Seq::empty(), no_ty_spec()))
    }
}

} // verus!
