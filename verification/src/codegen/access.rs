//! Fields, indices and null-safe navigation.

use vstd::prelude::*;

use crate::ast::Expr;
use crate::codegen::args::hoist_new_receiver_spec;
use crate::codegen::call::gen_plain_call_spec;
use crate::codegen::expr::gen_expr_spec;
use crate::codegen::gen::GenV;
use crate::codegen::helpers::{no_ty, no_ty_spec, with_ptr, with_ptr_spec};
use crate::codegen::member::{gen_member_spec, gen_safe_access_spec, gen_type_member_spec, ordered_map_at_spec};
use crate::codegen::state::{BodyGen, Env, dup_text_lists, is_local_spec, settled};
use crate::codegen::ty::{OrderedMapRef, OrderedMapRefV, Ty, TyV};
use crate::codegen::ty_copy::dup_opt_info;
use crate::codegen::types::{deref_alias_spec, element_ty_spec};
use crate::codegen::values::{container_access, container_access_spec, is_pointer_class, is_pointer_class_spec, member_op, member_op_spec, this_info_spec, value_new_spec};
use crate::model::ExprV;
use crate::text::{cat2, cat3, cat4, cat5, cat7, same};

verus! {

broadcast use {crate::codegen::gen::group_gen, crate::codegen::ty::group_ty, crate::model::group_model, crate::text::group_texts};

impl<'a> BodyGen<'a> {
    /// The raw pointer of `cpp.Pointer.fromStar(x).raw` or `cpp.Pointer.ofArray(a).raw`.
    fn try_pointer_raw(&mut self, recv: &Expr) -> (r: Option<(String, Ty)>)
        ensures
            final(self).pg() == old(self).pg(),
            final(self).room() == old(self).room(),
            (final(self).gv(), (match r { Some(y) => Some((y.0@, y.1.v())), None => None })) == try_pointer_raw_spec(old(self).pg(), old(self).room(), old(self).gv(), recv.v()),
            settled(final(self).gv()) == settled(old(self).gv()),
        decreases old(self).room(), *recv, 25int, 0int,
    {
        proof {
            reveal(try_pointer_raw_spec);
            reveal(gen_expr_spec);
        }
        match recv.node() {
            Expr::Call(callee, args) => {
                if args.len() != 1 {
                    return None;
                }
                match callee.node() {
                    Expr::Field(inner, method) => {
                        if !is_pointer_class(inner) {
                            return None;
                        }
                        if same(method, "fromStar") {
                            let (code, ty) = self.gen_expr(&args[0]);
                            if ty.is_ptr {
                                return Some((code, ty));
                            }
                            return Some((cat3("&(", &code, ")"), with_ptr(&ty, true)));
                        }
                        if same(method, "ofArray") {
                            let (code, ty) = self.gen_expr(&args[0]);
                            let elem = self.element_ty(&self.deref_alias(&ty));
                            return Some((cat3("&(", &code, ")[0]"), with_ptr(&elem, true)));
                        }
                        None
                    },
                    _ => None,
                }
            },
            _ => None,
        }
    }

    /// The receiver of a field access. A freshly made heap object is built first.
    fn gen_receiver(&mut self, recv: &Expr) -> (r: (String, Ty))
        ensures
            final(self).pg() == old(self).pg(),
            final(self).room() == old(self).room(),
            (final(self).gv(), (r.0@, r.1.v())) == gen_receiver_spec(old(self).pg(), old(self).room(), old(self).gv(), recv.v()),
            settled(final(self).gv()) == settled(old(self).gv()),
        decreases old(self).room(), *recv, 25int, 0int,
    {
        proof {
            reveal(gen_receiver_spec);
            reveal(gen_expr_spec);
            reveal(hoist_new_receiver_spec);
        }
        match recv.node() {
            Expr::New(ty, args) => {
                if self.value_new(ty) {
                    return self.gen_expr(recv);
                }
                self.hoist_new_receiver(ty, args)
            },
            _ => self.gen_expr(recv),
        }
    }

    /// `recv.name`.
    pub fn gen_field(&mut self, recv: &Expr, name: &str) -> (r: (String, Ty))
        ensures
            final(self).pg() == old(self).pg(),
            final(self).room() == old(self).room(),
            (final(self).gv(), (r.0@, r.1.v())) == gen_field_spec(old(self).pg(), old(self).room(), old(self).gv(), recv.v(), name@),
            settled(final(self).gv()) == settled(old(self).gv()),
        decreases old(self).room(), *recv, 26int, 0int,
    {
        proof {
            reveal(gen_field_spec);
            reveal(try_pointer_raw_spec);
            reveal(gen_receiver_spec);
        }
        if same(name, "raw") {
            match self.try_pointer_raw(recv) {
                Some(res) => {
                    return res;
                },
                None => {},
            }
        }
        match recv.node() {
            Expr::Ident(tname) => match self.gen_type_member(tname, name) {
                Some(res) => {
                    return res;
                },
                None => {},
            },
            _ => {},
        }
        let (rcode, rty) = self.gen_receiver(recv);
        self.gen_member(recv, &rcode, &rty, name)
    }

    /// `recv[idx]`: a nullable container is a pointer, and what it points to is indexed.
    pub fn gen_index(&mut self, e: &Expr) -> (r: (String, Ty))
        ensures
            final(self).pg() == old(self).pg(),
            final(self).room() == old(self).room(),
            (final(self).gv(), (r.0@, r.1.v())) == gen_index_spec(old(self).pg(), old(self).room(), old(self).gv(), e.v()),
            settled(final(self).gv()) == settled(old(self).gv()),
        decreases old(self).room(), *e, 10int, 0int,
    {
        proof {
            reveal(gen_index_spec);
            reveal(gen_expr_spec);
        }
        match e.node() {
            Expr::Index(recv, idx) => {
                let (rcode, rty) = self.gen_expr(recv);
                let (i, _) = self.gen_expr(idx);
                let cty = self.deref_alias(&rty);
                (cat4(&container_access(&rcode, &rty, &cty), "[", &i, "]"), self.element_ty(&cty))
            },
            _ => (String::new(), no_ty()),
        }
    }

    /// The receiver of `recv?.field`, whether it is a pointer, the non-null access and the
    /// field's type.
    fn gen_safe_field_parts(&mut self, recv: &Expr, field: &str) -> (r: (String, bool, String, Ty))
        ensures
            final(self).pg() == old(self).pg(),
            final(self).room() == old(self).room(),
            (final(self).gv(), (r.0@, r.1, r.2@, r.3.v())) == gen_safe_field_parts_spec(old(self).pg(), old(self).room(), old(self).gv(), recv.v(), field@),
            settled(final(self).gv()) == settled(old(self).gv()),
        decreases old(self).room(), *recv, 25int, 0int,
    {
        proof {
            reveal(gen_safe_field_parts_spec);
            reveal(gen_expr_spec);
        }
        let (rcode, rty) = self.gen_expr(recv);
        let (access, fty) = self.gen_safe_access(&rcode, &rty, field);
        (rcode, rty.is_ptr, access, fty)
    }

    /// `recv?.field`.
    pub fn gen_safe_field(&mut self, recv: &Expr, field: &str) -> (r: (String, Ty))
        ensures
            final(self).pg() == old(self).pg(),
            final(self).room() == old(self).room(),
            (final(self).gv(), (r.0@, r.1.v())) == gen_safe_field_spec(old(self).pg(), old(self).room(), old(self).gv(), recv.v(), field@),
            settled(final(self).gv()) == settled(old(self).gv()),
        decreases old(self).room(), *recv, 26int, 0int,
    {
        proof {
            reveal(gen_safe_field_spec);
            reveal(gen_safe_field_parts_spec);
        }
        let (rcode, is_ptr, access, fty) = self.gen_safe_field_parts(recv, field);
        if is_ptr {
            return (cat5("(", &rcode, " != NULL ? ", &access, " : 0)"), no_ty());
        }
        (access, fty)
    }

    /// The receiver of `recv?.method(args)`, whether it is a pointer, the non-null call and
    /// its type.
    pub fn gen_safe_call_parts(&mut self, e: &Expr) -> (r: Option<(String, bool, String, Ty)>)
        ensures
            final(self).pg() == old(self).pg(),
            final(self).room() == old(self).room(),
            (final(self).gv(), (match r { Some(y) => Some((y.0@, y.1, y.2@, y.3.v())), None => None })) == gen_safe_call_parts_spec(old(self).pg(), old(self).room(), old(self).gv(), e.v()),
            settled(final(self).gv()) == settled(old(self).gv()),
        decreases old(self).room(), *e, 7int, 0int,
    {
        proof {
            reveal(gen_safe_call_parts_spec);
            reveal(gen_expr_spec);
            reveal(gen_plain_call_spec);
        }
        match e.node() {
            Expr::Call(target, args) => match target.node() {
                Expr::SafeField(recv, method) => {
                    let (rcode, rty) = self.gen_expr(recv);
                    let (call, ret) = self.gen_plain_call(&rcode, &rty, method, args);
                    Some((rcode, rty.is_ptr, call, ret))
                },
                _ => None,
            },
            _ => None,
        }
    }

    /// The parts of a null-safe navigation, seen through parentheses.
    fn gen_safe_parts(&mut self, lhs: &Expr) -> (r: Option<(String, bool, String, Ty)>)
        ensures
            final(self).pg() == old(self).pg(),
            final(self).room() == old(self).room(),
            (final(self).gv(), (match r { Some(y) => Some((y.0@, y.1, y.2@, y.3.v())), None => None })) == gen_safe_parts_spec(old(self).pg(), old(self).room(), old(self).gv(), lhs.v()),
            settled(final(self).gv()) == settled(old(self).gv()),
        decreases old(self).room(), *lhs, 9int, 0int,
    {
        proof {
            reveal(gen_safe_parts_spec);
            reveal(gen_safe_call_parts_spec);
            reveal(gen_safe_field_parts_spec);
        }
        match lhs.node() {
            Expr::Paren(inner) => self.gen_safe_parts(inner),
            Expr::Call(_, _) => self.gen_safe_call_parts(lhs),
            Expr::SafeField(recv, field) => Some(self.gen_safe_field_parts(recv, field)),
            _ => None,
        }
    }

    /// `a ?? b`. With a null-safe navigation on the left it is one guarded selection.
    pub fn gen_null_coalesce(&mut self, e: &Expr) -> (r: (String, Ty))
        ensures
            final(self).pg() == old(self).pg(),
            final(self).room() == old(self).room(),
            (final(self).gv(), (r.0@, r.1.v())) == gen_null_coalesce_spec(old(self).pg(), old(self).room(), old(self).gv(), e.v()),
            settled(final(self).gv()) == settled(old(self).gv()),
        decreases old(self).room(), *e, 10int, 0int,
    {
        proof {
            reveal(gen_null_coalesce_spec);
            reveal(gen_safe_parts_spec);
            reveal(gen_expr_spec);
        }
        match e.node() {
            Expr::NullCoalesce(a, b) => {
                match self.gen_safe_parts(a) {
                    Some((rcode, is_ptr, access, ty)) => {
                        if !is_ptr {
                            return (access, ty);
                        }
                        let (bc, _) = self.gen_expr(b);
                        return (cat7("(", &rcode, " != NULL ? ", &access, " : ", &bc, ")"), ty);
                    },
                    None => {},
                }
                let (ac, aty) = self.gen_expr(a);
                let (bc, _) = self.gen_expr(b);
                (cat7("(", &ac, " != NULL ? ", &ac, " : ", &bc, ")"), aty)
            },
            _ => (String::new(), no_ty()),
        }
    }

    /// The ordered map an expression names: `this.f`, a bare own `f`, or `recv.f`. Where it
    /// is none, nothing is left to emit.
    pub fn ordered_map_ref(&mut self, e: &Expr) -> (r: Option<OrderedMapRef>)
        ensures
            final(self).pg() == old(self).pg(),
            final(self).room() == old(self).room(),
            (final(self).gv(), (match r { Some(y) => Some(y.v()), None => None })) == ordered_map_ref_spec(old(self).pg(), old(self).room(), old(self).gv(), e.v()),
            settled(final(self).gv()) == settled(old(self).gv()),
            r is None ==> final(self).gv().prelude == old(self).gv().prelude && final(self).gv().owned == old(self).gv().owned,
        decreases old(self).room(), *e, 30int, 0int,
    {
        proof {
            reveal(ordered_map_ref_spec);
            reveal(gen_expr_spec);
        }
        let lines = self.prelude().clone();
        let owned = dup_text_lists(self.owned());
        let (prefix, info, name) = match e.node() {
            Expr::Field(recv, name) => {
                let (rcode, rty) = self.gen_expr(recv);
                (cat2(&rcode, &member_op(&rty)), rty.info, name.clone())
            },
            Expr::Ident(name) => {
                if self.is_local(name) {
                    return None;
                }
                match self.abstract_this() {
                    Some(at) => ("this->__this->".to_owned(), dup_opt_info(&at.info), name.clone()),
                    None => ("this->".to_owned(), self.this_info(), name.clone()),
                }
            },
            _ => {
                return None;
            },
        };
        let found = self.ordered_map_at(&prefix, &info, &name);
        if found.is_none() {
            self.undo(lines, owned);
        }
        found
    }
}

/// What [`BodyGen::try_pointer_raw`] computes.
#[verifier::opaque]
pub open spec fn try_pointer_raw_spec(p: Env, room: int, st: GenV, recv: ExprV) -> (GenV, Option<(Seq<char>, TyV)>)
    decreases room, recv, 25int, 0int,
{
    match recv {
        ExprV::Call(callee, args) => {
            if (args.len()) != 1 { (st, None) } else {
                match *callee {
                    ExprV::Field(inner, method) => {
                        if !is_pointer_class_spec(*inner) { (st, None) } else {
                            if (method == "fromStar"@) {
                                let (st, (code, ty)) = gen_expr_spec(p, room, st, args[0]);
                                if ty.is_ptr { (st, Some((code, ty))) } else { (st, Some(("&("@ + code + ")"@, with_ptr_spec(ty, true)))) }
                            } else {
                                if (method == "ofArray"@) {
                                    let (st, (code, ty)) = gen_expr_spec(p, room, st, args[0]);
                                    let elem = element_ty_spec(p, st, deref_alias_spec(p, st, ty));
                                    (st, Some(("&("@ + code + ")[0]"@, with_ptr_spec(elem, true))))
                                } else { (st, None) }
                            }
                        }
                    },
                    _ => { (st, None) },
                }
            }
        },
        _ => { (st, None) },
    }
}

/// What [`BodyGen::gen_receiver`] computes.
#[verifier::opaque]
pub open spec fn gen_receiver_spec(p: Env, room: int, st: GenV, recv: ExprV) -> (GenV, (Seq<char>, TyV))
    decreases room, recv, 25int, 0int,
{
    match recv {
        ExprV::New(ty, args) => {
            if value_new_spec(p, st, ty) { gen_expr_spec(p, room, st, recv) } else { hoist_new_receiver_spec(p, room, st, ty, args) }
        },
        _ => { gen_expr_spec(p, room, st, recv) },
    }
}

/// What [`BodyGen::gen_field`] computes.
#[verifier::opaque]
pub open spec fn gen_field_spec(p: Env, room: int, st: GenV, recv: ExprV, name: Seq<char>) -> (GenV, (Seq<char>, TyV))
    decreases room, recv, 26int, 0int,
{
    if (name == "raw"@) {
        let (st, x1) = try_pointer_raw_spec(p, room, st, recv);
        match x1 {
            Some(res) => { (st, res) },
            None => {
                match recv {
                    ExprV::Ident(tname) => {
                        match gen_type_member_spec(p, st, tname, name) {
                            Some(res) => { (st, res) },
                            None => {
                                let (st, (rcode, rty)) = gen_receiver_spec(p, room, st, recv);
                                gen_member_spec(p, st, recv, rcode, rty, name)
                            },
                        }
                    },
                    _ => {
                        let (st, (rcode, rty)) = gen_receiver_spec(p, room, st, recv);
                        gen_member_spec(p, st, recv, rcode, rty, name)
                    },
                }
            },
        }
    } else {
        match recv {
            ExprV::Ident(tname) => {
                match gen_type_member_spec(p, st, tname, name) {
                    Some(res) => { (st, res) },
                    None => {
                        let (st, (rcode, rty)) = gen_receiver_spec(p, room, st, recv);
                        gen_member_spec(p, st, recv, rcode, rty, name)
                    },
                }
            },
            _ => {
                let (st, (rcode, rty)) = gen_receiver_spec(p, room, st, recv);
                gen_member_spec(p, st, recv, rcode, rty, name)
            },
        }
    }
}

/// What [`BodyGen::gen_index`] computes.
#[verifier::opaque]
pub open spec fn gen_index_spec(p: Env, room: int, st: GenV, e: ExprV) -> (GenV, (Seq<char>, TyV))
    decreases room, e, 10int, 0int,
{
    match e {
        ExprV::Index(recv, idx) => {
            let (st, (rcode, rty)) = gen_expr_spec(p, room, st, *recv);
            let (st, (i, _)) = gen_expr_spec(p, room, st, *idx);
            let cty = deref_alias_spec(p, st, rty);
            (st, (container_access_spec(rcode, rty, cty) + "["@ + i + "]"@, element_ty_spec(p, st, cty)))
        },
        _ => { (st, (Seq::empty(), no_ty_spec())) },
    }
}

/// What [`BodyGen::gen_safe_field_parts`] computes.
#[verifier::opaque]
pub open spec fn gen_safe_field_parts_spec(p: Env, room: int, st: GenV, recv: ExprV, field: Seq<char>) -> (GenV, (Seq<char>, bool, Seq<char>, TyV))
    decreases room, recv, 25int, 0int,
{
    let (st, (rcode, rty)) = gen_expr_spec(p, room, st, recv);
    let (access, fty) = gen_safe_access_spec(p, st, rcode, rty, field);
    (st, (rcode, rty.is_ptr, access, fty))
}

/// What [`BodyGen::gen_safe_field`] computes.
#[verifier::opaque]
pub open spec fn gen_safe_field_spec(p: Env, room: int, st: GenV, recv: ExprV, field: Seq<char>) -> (GenV, (Seq<char>, TyV))
    decreases room, recv, 26int, 0int,
{
    let (st, (rcode, is_ptr, access, fty)) = gen_safe_field_parts_spec(p, room, st, recv, field);
    if is_ptr { (st, ("("@ + rcode + " != NULL ? "@ + access + " : 0)"@, no_ty_spec())) } else { (st, (access, fty)) }
}

/// What [`BodyGen::gen_safe_call_parts`] computes.
#[verifier::opaque]
pub open spec fn gen_safe_call_parts_spec(p: Env, room: int, st: GenV, e: ExprV) -> (GenV, Option<(Seq<char>, bool, Seq<char>, TyV)>)
    decreases room, e, 7int, 0int,
{
    match e {
        ExprV::Call(target, args) => {
            match *target {
                ExprV::SafeField(recv, method) => {
                    let (st, (rcode, rty)) = gen_expr_spec(p, room, st, *recv);
                    let (st, (call, ret)) = gen_plain_call_spec(p, room, st, rcode, rty, method, args);
                    (st, Some((rcode, rty.is_ptr, call, ret)))
                },
                _ => { (st, None) },
            }
        },
        _ => { (st, None) },
    }
}

/// What [`BodyGen::gen_safe_parts`] computes.
#[verifier::opaque]
pub open spec fn gen_safe_parts_spec(p: Env, room: int, st: GenV, lhs: ExprV) -> (GenV, Option<(Seq<char>, bool, Seq<char>, TyV)>)
    decreases room, lhs, 9int, 0int,
{
    match lhs {
        ExprV::Paren(inner) => { gen_safe_parts_spec(p, room, st, *inner) },
        ExprV::Call(_, _) => { gen_safe_call_parts_spec(p, room, st, lhs) },
        ExprV::SafeField(recv, field) => {
            let (st, x1) = gen_safe_field_parts_spec(p, room, st, *recv, field);
            (st, Some(x1))
        },
        _ => { (st, None) },
    }
}

/// What [`BodyGen::gen_null_coalesce`] computes.
#[verifier::opaque]
pub open spec fn gen_null_coalesce_spec(p: Env, room: int, st: GenV, e: ExprV) -> (GenV, (Seq<char>, TyV))
    decreases room, e, 10int, 0int,
{
    match e {
        ExprV::NullCoalesce(a, b) => {
            let (st, x1) = gen_safe_parts_spec(p, room, st, *a);
            match x1 {
                Some((rcode, is_ptr, access, ty)) => {
                    if !is_ptr { (st, (access, ty)) } else {
                        let (st, (bc, _)) = gen_expr_spec(p, room, st, *b);
                        (st, ("("@ + rcode + " != NULL ? "@ + access + " : "@ + bc + ")"@, ty))
                    }
                },
                None => {
                    let (st, (ac, aty)) = gen_expr_spec(p, room, st, *a);
                    let (st, (bc, _)) = gen_expr_spec(p, room, st, *b);
                    (st, ("("@ + ac + " != NULL ? "@ + ac + " : "@ + bc + ")"@, aty))
                },
            }
        },
        _ => { (st, (Seq::empty(), no_ty_spec())) },
    }
}

/// What [`BodyGen::ordered_map_ref`] computes.
#[verifier::opaque]
pub open spec fn ordered_map_ref_spec(p: Env, room: int, st: GenV, e: ExprV) -> (GenV, Option<OrderedMapRefV>)
    decreases room, e, 30int, 0int,
{
    let lines = st.prelude;
    let owned = st.owned;
    match e {
        ExprV::Field(recv, name) => {
            let (st, (rcode, rty)) = gen_expr_spec(p, room, st, *recv);
            let (prefix, info, name) = (rcode + member_op_spec(rty), rty.info, name);
            let found = ordered_map_at_spec(p, st, prefix, info, name);
            let st = if found is None {
                let st = GenV { prelude: lines, owned: owned, ..st };
                st
            } else { st };
            (st, found)
        },
        ExprV::Ident(name) => {
            if is_local_spec(p, st, name) { (st, None) } else {
                match st.abstract_this {
                    Some(at) => {
                        let (prefix, info, name) = ("this->__this->"@, at.info, name);
                        let found = ordered_map_at_spec(p, st, prefix, info, name);
                        let st = if found is None {
                            let st = GenV { prelude: lines, owned: owned, ..st };
                            st
                        } else { st };
                        (st, found)
                    },
                    None => {
                        let (prefix, info, name) = ("this->"@, this_info_spec(p, st), name);
                        let found = ordered_map_at_spec(p, st, prefix, info, name);
                        let st = if found is None {
                            let st = GenV { prelude: lines, owned: owned, ..st };
                            st
                        } else { st };
                        (st, found)
                    },
                }
            }
        },
        _ => { (st, None) },
    }
}

} // verus!
