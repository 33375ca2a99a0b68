//! Assignments.

use vstd::prelude::*;

use crate::ast::{Expr, PropAccess};
use crate::codegen::access::ordered_map_ref_spec;
use crate::codegen::container::{is_empty_array, is_empty_array_spec};
use crate::codegen::expr::{gen_expr_hinted_spec, gen_expr_spec};
use crate::codegen::gen::GenV;
use crate::codegen::helpers::{no_ty, no_ty_spec};
use crate::codegen::literal::hoist_object_spec;
use crate::codegen::ordered::gen_ordered_map_assign_spec;
use crate::codegen::state::{BodyGen, Env, dup_text_lists, fresh_spec, is_local_spec, settled, warn_spec};
use crate::codegen::ty::{Ty, TyV};
use crate::codegen::types::{accessor_field_ty_spec, class_field_spec, decl_spelling, decl_spelling_spec, deref_alias_spec, element_ty_spec, field_getter_spec, field_setter_spec, field_ty_spec, own_field_setter_spec};
use crate::codegen::values::{container_access, container_access_spec, flag_const_param_write_spec, member_op, member_op_spec, say_spec, warn_if_param_container_mutated_spec};
use crate::model::ExprV;
use crate::strings::starts_with;
use crate::text::{cat2, cat3, cat4, cat5, cat6, cat8, empty};

verus! {

broadcast use {crate::codegen::gen::group_gen, crate::codegen::ty::group_ty, crate::model::group_model, crate::text::group_texts};

/// Whether a value of this type can be built from an object literal.
pub fn is_nominal(ty: &Ty) -> (r: bool)
    ensures
        r == is_nominal_spec(ty.v()),
{
    ty.info.is_some() && !empty(&ty.base)
}

impl<'a> BodyGen<'a> {
    /// The type of an own field, by name.
    pub fn own_field_ty(&self, name: &str) -> (r: Ty)
        ensures
            r.v() == own_field_ty_spec(self.pg(), self.gv(), name@),
    {
        proof {
            reveal(own_field_ty_spec);
        }
        match self.class_field(name) {
            Some(f) => self.field_ty(f),
            None => no_ty(),
        }
    }

    /// The own field an assignment target names, if it has a custom getter.
    fn own_getter_field(&self, target: &Expr) -> (r: Option<String>)
        ensures
            (match r { Some(y) => Some(y@), None => None }) == own_getter_field_spec(self.pg(), self.gv(), target.v()),
    {
        proof {
            reveal(own_getter_field_spec);
        }
        let name = match target.node() {
            Expr::Ident(n) => {
                if self.is_local(n) {
                    return None;
                }
                n.clone()
            },
            Expr::Field(recv, n) => {
                if !matches!(recv.node(), Expr::This) {
                    return None;
                }
                n.clone()
            },
            _ => {
                return None;
            },
        };
        match self.class_field(&name) {
            Some(f) => {
                if f.get == PropAccess::Get {
                    Some(name)
                } else {
                    None
                }
            },
            None => None,
        }
    }

    /// An assignment target: a place, never a read. The own field of a property is stored
    /// to directly.
    pub fn gen_lvalue(&mut self, target: &Expr) -> (r: (String, Ty))
        ensures
            final(self).pg() == old(self).pg(),
            final(self).room() == old(self).room(),
            (final(self).gv(), (r.0@, r.1.v())) == gen_lvalue_spec(old(self).pg(), old(self).room(), old(self).gv(), target.v()),
            settled(final(self).gv()) == settled(old(self).gv()),
        decreases old(self).room(), *target, 25int, 0int,
    {
        proof {
            reveal(gen_lvalue_spec);
            reveal(gen_expr_spec);
        }
        match self.own_getter_field(target) {
            Some(name) => {
                return (cat2("this->", &name), self.own_field_ty(&name));
            },
            None => {},
        }
        let saved = self.no_nullable_deref();
        self.set_no_nullable_deref(true);
        let (code, ty) = self.gen_expr(target);
        self.set_no_nullable_deref(saved);
        (code, ty)
    }

    /// A receiver that is evaluated once: anything but a name gets a temporary.
    fn pin_receiver(&mut self, recv: &Expr, rcode: String, rty: &Ty) -> (r: String)
        ensures
            final(self).pg() == old(self).pg(),
            final(self).room() == old(self).room(),
            (final(self).gv(), r@) == pin_receiver_spec(old(self).pg(), old(self).gv(), recv.v(), rcode@, rty.v()),
            settled(final(self).gv()) == settled(old(self).gv()),
    {
        proof {
            reveal(pin_receiver_spec);
        }
        if matches!(recv.node(), Expr::Ident(_)) {
            return rcode;
        }
        let tmp = self.fresh("rcv");
        self.say(&cat6(&decl_spelling(rty), " ", &tmp, " = ", &rcode, ";"));
        tmp
    }

    /// A mutation that must go through a setter: the setter, the read of the current value
    /// and the field's type. Any other target leaves nothing behind.
    pub fn routed_compound_write(&mut self, target: &Expr) -> (r: Option<(String, String, Ty)>)
        ensures
            final(self).pg() == old(self).pg(),
            final(self).room() == old(self).room(),
            (final(self).gv(), (match r { Some(y) => Some((y.0@, y.1@, y.2.v())), None => None })) == routed_compound_write_spec(old(self).pg(), old(self).room(), old(self).gv(), target.v()),
            settled(final(self).gv()) == settled(old(self).gv()),
            r is None ==> final(self).gv().prelude == old(self).gv().prelude && final(self).gv().owned == old(self).gv().owned,
        decreases old(self).room(), *target, 25int, 0int,
    {
        proof {
            reveal(routed_compound_write_spec);
            reveal(gen_expr_spec);
        }
        match self.own_field_setter(target) {
            Some(name) => {
                let (read, fty) = self.gen_expr(target);
                return Some((cat2("this->set_", &name), read, fty));
            },
            None => {},
        }
        match target.node() {
            Expr::Field(recv, name) => {
                if matches!(recv.node(), Expr::This) {
                    return None;
                }
                let lines = self.prelude().clone();
                let owned = dup_text_lists(self.owned());
                let (rc, rty) = self.gen_expr(recv);
                match &rty.info {
                    Some(info) => match self.field_setter(info, name) {
                        Some(setter) => {
                            let place = self.pin_receiver(recv, rc, &rty);
                            let op = member_op(&rty);
                            let read = match self.field_getter(info, name) {
                                Some(g) => cat4(&place, &op, &g, "()"),
                                None => cat3(&place, &op, name),
                            };
                            Some((cat3(&place, &op, &setter), read, self.accessor_field_ty(info, name)))
                        },
                        None => {
                            self.undo(lines, owned);
                            None
                        },
                    },
                    None => {
                        self.undo(lines, owned);
                        None
                    },
                }
            },
            _ => None,
        }
    }

    /// What is assigned to a place of a type: an object literal is built where it can be.
    fn gen_assigned(&mut self, value: &Expr, ty: &Ty) -> (r: String)
        ensures
            final(self).pg() == old(self).pg(),
            final(self).room() == old(self).room(),
            (final(self).gv(), r@) == gen_assigned_spec(old(self).pg(), old(self).room(), old(self).gv(), value.v(), ty.v()),
            settled(final(self).gv()) == settled(old(self).gv()),
        decreases old(self).room(), *value, 25int, 0int,
    {
        proof {
            reveal(gen_assigned_spec);
            reveal(hoist_object_spec);
            reveal(gen_expr_spec);
        }
        match value.node() {
            Expr::ObjectLit(fields) => {
                if is_nominal(ty) {
                    return self.hoist_object(fields, ty);
                }
            },
            _ => {},
        }
        self.set_expected(Some(ty.dup()));
        let (code, _) = self.gen_expr(value);
        self.set_expected(None);
        code
    }

    /// An assignment through an own setter.
    fn gen_own_setter(&mut self, name: &str, value: &Expr) -> (r: (String, Ty))
        ensures
            final(self).pg() == old(self).pg(),
            final(self).room() == old(self).room(),
            (final(self).gv(), (r.0@, r.1.v())) == gen_own_setter_spec(old(self).pg(), old(self).room(), old(self).gv(), name@, value.v()),
            settled(final(self).gv()) == settled(old(self).gv()),
        decreases old(self).room(), *value, 26int, 0int,
    {
        proof {
            reveal(gen_own_setter_spec);
            reveal(hoist_object_spec);
            reveal(gen_expr_spec);
            reveal(gen_assigned_spec);
        }
        let fty = self.own_field_ty(name);
        let code = match value.node() {
            Expr::ObjectLit(fields) => {
                if is_nominal(&fty) {
                    self.hoist_object(fields, &fty)
                } else {
                    let (c, _) = self.gen_expr(value);
                    c
                }
            },
            _ => self.gen_assigned(value, &fty),
        };
        (cat5("this->set_", name, "(", &code, ")"), fty)
    }

    /// `arr[i] = v` where `arr` is a vector: it grows first where the index is past its end.
    /// Any other receiver leaves nothing behind.
    fn try_array_index_assign(&mut self, e: &Expr) -> (r: Option<(String, Ty)>)
        ensures
            final(self).pg() == old(self).pg(),
            final(self).room() == old(self).room(),
            (final(self).gv(), (match r { Some(y) => Some((y.0@, y.1.v())), None => None })) == try_array_index_assign_spec(old(self).pg(), old(self).room(), old(self).gv(), e.v()),
            settled(final(self).gv()) == settled(old(self).gv()),
            r is None ==> final(self).gv().prelude == old(self).gv().prelude && final(self).gv().owned == old(self).gv().owned,
        decreases old(self).room(), *e, 9int, 0int,
    {
        proof {
            reveal(try_array_index_assign_spec);
            reveal(gen_expr_spec);
            reveal(gen_assigned_spec);
        }
        match e.node() {
            Expr::Assign { op: _, target, value } => match target.node() {
                Expr::Index(recv, idx) => {
                    let lines = self.prelude().clone();
                    let owned = dup_text_lists(self.owned());
                    let (rcode, rty) = self.gen_expr(recv);
                    let cty = self.deref_alias(&rty);
                    if !starts_with(&cty.base, "std::vector") {
                        self.undo(lines, owned);
                        return None;
                    }
                    self.warn_if_param_container_mutated(recv, "[i] = …");
                    let access = container_access(&rcode, &rty, &cty);
                    let (icode, _) = self.gen_expr(idx);
                    let ix = self.fresh("ix");
                    self.say(&cat5("size_t ", &ix, " = (size_t)(", &icode, ");"));
                    self.say(&cat2(&cat8("if (", &ix, " >= ", &access, ".size()) ", &access, ".resize(", &ix), " + 1);"));
                    let ety = self.element_ty(&cty);
                    let place = cat4(&access, "[", &ix, "]");
                    if is_empty_array(value) {
                        return Some((cat2(&place, ".clear()"), no_ty()));
                    }
                    let code = self.gen_assigned(value, &ety);
                    Some((cat3(&place, " = ", &code), ety))
                },
                _ => None,
            },
            _ => None,
        }
    }

    /// `recv.field = value` through the setter of another object's property. Where there is
    /// none, nothing is left behind.
    fn accessor_set(&mut self, e: &Expr) -> (r: Option<String>)
        ensures
            final(self).pg() == old(self).pg(),
            final(self).room() == old(self).room(),
            (final(self).gv(), (match r { Some(y) => Some(y@), None => None })) == accessor_set_spec(old(self).pg(), old(self).room(), old(self).gv(), e.v()),
            settled(final(self).gv()) == settled(old(self).gv()),
            r is None ==> final(self).gv().prelude == old(self).gv().prelude && final(self).gv().owned == old(self).gv().owned,
        decreases old(self).room(), *e, 9int, 0int,
    {
        proof {
            reveal(accessor_set_spec);
            reveal(gen_expr_spec);
        }
        match e.node() {
            Expr::Assign { op: _, target, value } => match target.node() {
                Expr::Field(recv, field) => {
                    if matches!(recv.node(), Expr::This) {
                        return None;
                    }
                    let lines = self.prelude().clone();
                    let owned = dup_text_lists(self.owned());
                    let (rcode, rty) = self.gen_expr(recv);
                    match &rty.info {
                        Some(info) => match self.field_setter(info, field) {
                            Some(setter) => {
                                let (v, _) = self.gen_expr(value);
                                Some(cat6(&rcode, &member_op(&rty), &setter, "(", &v, ")"))
                            },
                            None => {
                                self.undo(lines, owned);
                                None
                            },
                        },
                        None => {
                            self.undo(lines, owned);
                            None
                        },
                    }
                },
                _ => None,
            },
            _ => None,
        }
    }

    /// A plain assignment. A value put into a nullable is allocated.
    fn gen_plain_store(&mut self, e: &Expr) -> (r: (String, Ty))
        ensures
            final(self).pg() == old(self).pg(),
            final(self).room() == old(self).room(),
            (final(self).gv(), (r.0@, r.1.v())) == gen_plain_store_spec(old(self).pg(), old(self).room(), old(self).gv(), e.v()),
            settled(final(self).gv()) == settled(old(self).gv()),
        decreases old(self).room(), *e, 9int, 0int,
    {
        proof {
            reveal(gen_plain_store_spec);
            reveal(gen_lvalue_spec);
            reveal(hoist_object_spec);
            reveal(gen_expr_hinted_spec);
        }
        match e.node() {
            Expr::Assign { op: _, target, value } => {
                match value.node() {
                    Expr::ObjectLit(fields) => {
                        let (tcode, tty) = self.gen_lvalue(target);
                        if is_nominal(&tty) {
                            let tmp = self.hoist_object(fields, &tty);
                            return (cat3(&tcode, " = ", &tmp), no_ty());
                        }
                    },
                    _ => {},
                }
                let (tcode, tty) = self.gen_lvalue(target);
                let (vcode, vty) = self.gen_expr_hinted(value, Some(tty.dup()));
                if vty.nullable && !tty.nullable {
                    self.warn(&cat3("'", &tcode, "' is assigned a Null<T> value but is not a `Null<T>`; nullable values should be held in a `Null<T>`"));
                }
                if tty.is_ptr && tty.nullable && !vty.is_ptr && !matches!(value.node(), Expr::Null) {
                    (cat6(&tcode, " = new ", &tty.base, "(", &vcode, ")"), tty)
                } else {
                    (cat3(&tcode, " = ", &vcode), tty)
                }
            },
            _ => (String::new(), no_ty()),
        }
    }

    /// An assignment statement.
    fn gen_store(&mut self, e: &Expr) -> (r: (String, Ty))
        ensures
            final(self).pg() == old(self).pg(),
            final(self).room() == old(self).room(),
            (final(self).gv(), (r.0@, r.1.v())) == gen_store_spec(old(self).pg(), old(self).room(), old(self).gv(), e.v()),
            settled(final(self).gv()) == settled(old(self).gv()),
        decreases old(self).room(), *e, 12int, 0int,
    {
        proof {
            reveal(gen_store_spec);
            reveal(ordered_map_ref_spec);
            reveal(gen_ordered_map_assign_spec);
            reveal(try_array_index_assign_spec);
            reveal(gen_own_setter_spec);
            reveal(gen_lvalue_spec);
            reveal(accessor_set_spec);
            reveal(gen_plain_store_spec);
        }
        match e.node() {
            Expr::Assign { op: _, target, value } => {
                match self.ordered_map_ref(target) {
                    Some(om) => {
                        return self.gen_ordered_map_assign(&om, value);
                    },
                    None => {},
                }
                match self.try_array_index_assign(e) {
                    Some(res) => {
                        return res;
                    },
                    None => {},
                }
                match target.node() {
                    Expr::Index(recv, _) => {
                        self.warn_if_param_container_mutated(recv, "[k] = …");
                    },
                    _ => {},
                }
                match self.own_field_setter(target) {
                    Some(name) => {
                        return self.gen_own_setter(&name, value);
                    },
                    None => {},
                }
                if is_empty_array(value) {
                    let (t, _) = self.gen_lvalue(target);
                    return (cat2(&t, ".clear()"), no_ty());
                }
                match self.accessor_set(e) {
                    Some(code) => {
                        return (code, no_ty());
                    },
                    None => {},
                }
                self.gen_plain_store(e)
            },
            _ => (String::new(), no_ty()),
        }
    }

    /// The expression of a statement.
    pub fn gen_assign_or_expr(&mut self, e: &Expr) -> (r: (String, Ty))
        ensures
            final(self).pg() == old(self).pg(),
            final(self).room() == old(self).room(),
            (final(self).gv(), (r.0@, r.1.v())) == gen_assign_or_expr_spec(old(self).pg(), old(self).room(), old(self).gv(), e.v()),
            settled(final(self).gv()) == settled(old(self).gv()),
        decreases old(self).room(), *e, 25int, 0int,
    {
        proof {
            reveal(gen_assign_or_expr_spec);
            reveal(gen_store_spec);
            reveal(gen_expr_spec);
        }
        match e.node() {
            Expr::Assign { op, target, value: _ } => {
                self.flag_const_param_write(target);
                if op.is_none() {
                    return self.gen_store(e);
                }
            },
            _ => {},
        }
        self.gen_expr(e)
    }
}

/// What [`is_nominal`] computes.
pub open spec fn is_nominal_spec(ty: TyV) -> bool
{
    (ty.info is Some) && (!((ty.base).len() == 0))
}

/// What [`BodyGen::own_field_ty`] computes.
#[verifier::opaque]
pub open spec fn own_field_ty_spec(p: Env, st: GenV, name: Seq<char>) -> TyV
{
    match class_field_spec(p, st, name) {
        Some(f) => { field_ty_spec(p, st, f) },
        None => { no_ty_spec() },
    }
}

/// What [`BodyGen::own_getter_field`] computes.
#[verifier::opaque]
pub open spec fn own_getter_field_spec(p: Env, st: GenV, target: ExprV) -> Option<Seq<char>>
{
    match target {
        ExprV::Ident(n) => {
            if is_local_spec(p, st, n) { None } else {
                let name = n;
                match class_field_spec(p, st, name) {
                    Some(f) => {
                        if f.get == (PropAccess::Get) { Some(name) } else { None }
                    },
                    None => { None },
                }
            }
        },
        ExprV::Field(recv, n) => {
            if !(match *recv { ExprV::This => true, _ => false }) { None } else {
                let name = n;
                match class_field_spec(p, st, name) {
                    Some(f) => {
                        if f.get == (PropAccess::Get) { Some(name) } else { None }
                    },
                    None => { None },
                }
            }
        },
        _ => { None },
    }
}

/// What [`BodyGen::gen_lvalue`] computes.
#[verifier::opaque]
pub open spec fn gen_lvalue_spec(p: Env, room: int, st: GenV, target: ExprV) -> (GenV, (Seq<char>, TyV))
    decreases room, target, 25int, 0int,
{
    match own_getter_field_spec(p, st, target) {
        Some(name) => { (st, ("this->"@ + name, own_field_ty_spec(p, st, name))) },
        None => {
            let saved = st.no_nullable_deref;
            let st = GenV { no_nullable_deref: true, ..st };
            let (st, (code, ty)) = gen_expr_spec(p, room, st, target);
            let st = GenV { no_nullable_deref: saved, ..st };
            (st, (code, ty))
        },
    }
}

/// What [`BodyGen::pin_receiver`] computes.
#[verifier::opaque]
pub open spec fn pin_receiver_spec(p: Env, st: GenV, recv: ExprV, rcode: Seq<char>, rty: TyV) -> (GenV, Seq<char>)
{
    if (match recv { ExprV::Ident(_) => true, _ => false }) { (st, rcode) } else {
        let (st, tmp) = fresh_spec(p, st, "rcv"@);
        let st = say_spec(p, st, decl_spelling_spec(rty) + " "@ + tmp + " = "@ + rcode + ";"@);
        (st, tmp)
    }
}

/// What [`BodyGen::routed_compound_write`] computes.
#[verifier::opaque]
pub open spec fn routed_compound_write_spec(p: Env, room: int, st: GenV, target: ExprV) -> (GenV, Option<(Seq<char>, Seq<char>, TyV)>)
    decreases room, target, 25int, 0int,
{
    match own_field_setter_spec(p, st, target) {
        Some(name) => {
            let (st, (read, fty)) = gen_expr_spec(p, room, st, target);
            (st, Some(("this->set_"@ + name, read, fty)))
        },
        None => {
            match target {
                ExprV::Field(recv, name) => {
                    if (match *recv { ExprV::This => true, _ => false }) { (st, None) } else {
                        let lines = st.prelude;
                        let owned = st.owned;
                        let (st, (rc, rty)) = gen_expr_spec(p, room, st, *recv);
                        match rty.info {
                            Some(info) => {
                                match field_setter_spec(p, st, info, name) {
                                    Some(setter) => {
                                        let (st, place) = pin_receiver_spec(p, st, *recv, rc, rty);
                                        let op = member_op_spec(rty);
                                        let read = match field_getter_spec(p, st, info, name) {
                                            Some(g) => { place + op + g + "()"@ },
                                            None => { place + op + name },
                                        };
                                        (st, Some((place + op + setter, read, accessor_field_ty_spec(p, st, info, name))))
                                    },
                                    None => {
                                        let st = GenV { prelude: lines, owned: owned, ..st };
                                        (st, None)
                                    },
                                }
                            },
                            None => {
                                let st = GenV { prelude: lines, owned: owned, ..st };
                                (st, None)
                            },
                        }
                    }
                },
                _ => { (st, None) },
            }
        },
    }
}

/// What [`BodyGen::gen_assigned`] computes.
#[verifier::opaque]
pub open spec fn gen_assigned_spec(p: Env, room: int, st: GenV, value: ExprV, ty: TyV) -> (GenV, Seq<char>)
    decreases room, value, 25int, 0int,
{
    match value {
        ExprV::ObjectLit(fields) => {
            if is_nominal_spec(ty) { hoist_object_spec(p, room, st, fields, ty) } else {
                let st = GenV { expected: Some(ty), ..st };
                let (st, (code, _)) = gen_expr_spec(p, room, st, value);
                let st = GenV { expected: None, ..st };
                (st, code)
            }
        },
        _ => {
            let st = GenV { expected: Some(ty), ..st };
            let (st, (code, _)) = gen_expr_spec(p, room, st, value);
            let st = GenV { expected: None, ..st };
            (st, code)
        },
    }
}

/// What [`BodyGen::gen_own_setter`] computes.
#[verifier::opaque]
pub open spec fn gen_own_setter_spec(p: Env, room: int, st: GenV, name: Seq<char>, value: ExprV) -> (GenV, (Seq<char>, TyV))
    decreases room, value, 26int, 0int,
{
    let fty = own_field_ty_spec(p, st, name);
    let (st, code) = match value {
        ExprV::ObjectLit(fields) => {
            if is_nominal_spec(fty) {
                let (st, x1) = hoist_object_spec(p, room, st, fields, fty);
                (st, x1)
            } else {
                let (st, (c, _)) = gen_expr_spec(p, room, st, value);
                (st, c)
            }
        },
        _ => {
            let (st, x2) = gen_assigned_spec(p, room, st, value, fty);
            (st, x2)
        },
    };
    (st, ("this->set_"@ + name + "("@ + code + ")"@, fty))
}

/// What [`BodyGen::try_array_index_assign`] computes.
#[verifier::opaque]
pub open spec fn try_array_index_assign_spec(p: Env, room: int, st: GenV, e: ExprV) -> (GenV, Option<(Seq<char>, TyV)>)
    decreases room, e, 9int, 0int,
{
    match e {
        ExprV::Assign { op: _, target, value } => {
            match *target {
                ExprV::Index(recv, idx) => {
                    let lines = st.prelude;
                    let owned = st.owned;
                    let (st, (rcode, rty)) = gen_expr_spec(p, room, st, *recv);
                    let cty = deref_alias_spec(p, st, rty);
                    if !(("std::vector"@).is_prefix_of(cty.base)) {
                        let st = GenV { prelude: lines, owned: owned, ..st };
                        (st, None)
                    } else {
                        let st = warn_if_param_container_mutated_spec(p, st, *recv, "[i] = …"@);
                        let access = container_access_spec(rcode, rty, cty);
                        let (st, (icode, _)) = gen_expr_spec(p, room, st, *idx);
                        let (st, ix) = fresh_spec(p, st, "ix"@);
                        let st = say_spec(p, st, "size_t "@ + ix + " = (size_t)("@ + icode + ");"@);
                        let st = say_spec(p, st, "if ("@ + ix + " >= "@ + access + ".size()) "@ + access + ".resize("@ + ix + " + 1);"@);
                        let ety = element_ty_spec(p, st, cty);
                        let place = access + "["@ + ix + "]"@;
                        if is_empty_array_spec(*value) { (st, Some((place + ".clear()"@, no_ty_spec()))) } else {
                            let (st, code) = gen_assigned_spec(p, room, st, *value, ety);
                            (st, Some((place + " = "@ + code, ety)))
                        }
                    }
                },
                _ => { (st, None) },
            }
        },
        _ => { (st, None) },
    }
}

/// What [`BodyGen::accessor_set`] computes.
#[verifier::opaque]
pub open spec fn accessor_set_spec(p: Env, room: int, st: GenV, e: ExprV) -> (GenV, Option<Seq<char>>)
    decreases room, e, 9int, 0int,
{
    match e {
        ExprV::Assign { op: _, target, value } => {
            match *target {
                ExprV::Field(recv, field) => {
                    if (match *recv { ExprV::This => true, _ => false }) { (st, None) } else {
                        let lines = st.prelude;
                        let owned = st.owned;
                        let (st, (rcode, rty)) = gen_expr_spec(p, room, st, *recv);
                        match rty.info {
                            Some(info) => {
                                match field_setter_spec(p, st, info, field) {
                                    Some(setter) => {
                                        let (st, (v, _)) = gen_expr_spec(p, room, st, *value);
                                        (st, Some(rcode + member_op_spec(rty) + setter + "("@ + v + ")"@))
                                    },
                                    None => {
                                        let st = GenV { prelude: lines, owned: owned, ..st };
                                        (st, None)
                                    },
                                }
                            },
                            None => {
                                let st = GenV { prelude: lines, owned: owned, ..st };
                                (st, None)
                            },
                        }
                    }
                },
                _ => { (st, None) },
            }
        },
        _ => { (st, None) },
    }
}

/// What [`BodyGen::gen_plain_store`] computes.
#[verifier::opaque]
pub open spec fn gen_plain_store_spec(p: Env, room: int, st: GenV, e: ExprV) -> (GenV, (Seq<char>, TyV))
    decreases room, e, 9int, 0int,
{
    match e {
        ExprV::Assign { op: _, target, value } => {
            match *value {
                ExprV::ObjectLit(fields) => {
                    let (st, (tcode, tty)) = gen_lvalue_spec(p, room, st, *target);
                    if is_nominal_spec(tty) {
                        let (st, tmp) = hoist_object_spec(p, room, st, fields, tty);
                        (st, (tcode + " = "@ + tmp, no_ty_spec()))
                    } else {
                        let (st, (tcode, tty)) = gen_lvalue_spec(p, room, st, *target);
                        let (st, (vcode, vty)) = gen_expr_hinted_spec(p, room, st, *value, Some(tty));
                        let st = if vty.nullable && (!tty.nullable) {
                            let st = warn_spec(p, st, "'"@ + tcode + "' is assigned a Null<T> value but is not a `Null<T>`; nullable values should be held in a `Null<T>`"@);
                            st
                        } else { st };
                        if tty.is_ptr && tty.nullable && (!vty.is_ptr) && !(match *value { ExprV::Null => true, _ => false }) { (st, (tcode + " = new "@ + tty.base + "("@ + vcode + ")"@, tty)) } else { (st, (tcode + " = "@ + vcode, tty)) }
                    }
                },
                _ => {
                    let (st, (tcode, tty)) = gen_lvalue_spec(p, room, st, *target);
                    let (st, (vcode, vty)) = gen_expr_hinted_spec(p, room, st, *value, Some(tty));
                    let st = if vty.nullable && (!tty.nullable) {
                        let st = warn_spec(p, st, "'"@ + tcode + "' is assigned a Null<T> value but is not a `Null<T>`; nullable values should be held in a `Null<T>`"@);
                        st
                    } else { st };
                    if tty.is_ptr && tty.nullable && (!vty.is_ptr) && !(match *value { ExprV::Null => true, _ => false }) { (st, (tcode + " = new "@ + tty.base + "("@ + vcode + ")"@, tty)) } else { (st, (tcode + " = "@ + vcode, tty)) }
                },
            }
        },
        _ => { (st, (Seq::empty(), no_ty_spec())) },
    }
}

/// What [`BodyGen::gen_store`] computes.
#[verifier::opaque]
pub open spec fn gen_store_spec(p: Env, room: int, st: GenV, e: ExprV) -> (GenV, (Seq<char>, TyV))
    decreases room, e, 12int, 0int,
{
    match e {
        ExprV::Assign { op: _, target, value } => {
            let (st, x1) = ordered_map_ref_spec(p, room, st, *target);
            match x1 {
                Some(om) => { gen_ordered_map_assign_spec(p, room, st, om, *value) },
                None => {
                    let (st, x2) = try_array_index_assign_spec(p, room, st, e);
                    match x2 {
                        Some(res) => { (st, res) },
                        None => {
                            let st = match *target {
                                ExprV::Index(recv, _) => {
                                    let st = warn_if_param_container_mutated_spec(p, st, *recv, "[k] = …"@);
                                    st
                                },
                                _ => { st },
                            };
                            match own_field_setter_spec(p, st, *target) {
                                Some(name) => { gen_own_setter_spec(p, room, st, name, *value) },
                                None => {
                                    if is_empty_array_spec(*value) {
                                        let (st, (t, _)) = gen_lvalue_spec(p, room, st, *target);
                                        (st, (t + ".clear()"@, no_ty_spec()))
                                    } else {
                                        let (st, x3) = accessor_set_spec(p, room, st, e);
                                        match x3 {
                                            Some(code) => { (st, (code, no_ty_spec())) },
                                            None => { gen_plain_store_spec(p, room, st, e) },
                                        }
                                    }
                                },
                            }
                        },
                    }
                },
            }
        },
        _ => { (st, (Seq::empty(), no_ty_spec())) },
    }
}

/// What [`BodyGen::gen_assign_or_expr`] computes.
#[verifier::opaque]
pub open spec fn gen_assign_or_expr_spec(p: Env, room: int, st: GenV, e: ExprV) -> (GenV, (Seq<char>, TyV))
    decreases room, e, 25int, 0int,
{
    match e {
        ExprV::Assign { op, target, value: _ } => {
            let st = flag_const_param_write_spec(p, st, *target);
            if op is None { gen_store_spec(p, room, st, e) } else { gen_expr_spec(p, room, st, e) }
        },
        _ => { gen_expr_spec(p, room, st, e) },
    }
}

} // verus!
