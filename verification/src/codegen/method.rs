//! Method calls.

use vstd::prelude::*;

use crate::ast::Expr;
use crate::codegen::access::ordered_map_ref_spec;
use crate::codegen::args::gen_args_spec;
use crate::codegen::call::{gen_plain_call_spec, gen_static_call_spec};
use crate::codegen::callee::{free_type_spec, is_free_name_spec};
use crate::codegen::container::container_call_spec;
use crate::codegen::ctypes::{map_type_base, map_type_base_spec};
use crate::codegen::expr::gen_expr_spec;
use crate::codegen::gen::GenV;
use crate::codegen::helpers::{is_container_ty, is_container_ty_spec, is_mutating_container_method, is_mutating_container_method_spec, no_ty, no_ty_spec};
use crate::codegen::intrinsic::intrinsic_call_spec;
use crate::codegen::ordered::ordered_map_call_spec;
use crate::codegen::state::{BodyGen, Env, settled};
use crate::codegen::strcall::string_call_spec;
use crate::codegen::ty::{Ty, TyV};
use crate::codegen::types::deref_alias_spec;
use crate::codegen::values::{as_string_value, as_string_value_spec, warn_if_param_container_mutated_spec};
use crate::model::ExprV;
use crate::program::TypeKind;
use crate::text::{cat6, same};

verus! {

broadcast use {crate::codegen::gen::group_gen, crate::codegen::ty::group_ty, crate::model::group_model, crate::program::group_program, crate::text::group_texts};

impl<'a> BodyGen<'a> {
    /// The name of the base class.
    pub fn base_name(&self) -> (r: String)
        ensures
            r@ == base_name_spec(self.pg(), self.gv()),
    {
        proof {
            reveal(base_name_spec);
        }
        match &self.class().extends {
            Some(b) => map_type_base(self.prog(), b, self.mi(), self.ns()),
            None => String::new(),
        }
    }

    /// A call of a method of a value: of a container, of a string, or as it stands.
    fn gen_value_call(&mut self, e: &Expr) -> (r: (String, Ty))
        ensures
            final(self).pg() == old(self).pg(),
            final(self).room() == old(self).room(),
            (final(self).gv(), (r.0@, r.1.v())) == gen_value_call_spec(old(self).pg(), old(self).room(), old(self).gv(), e.v()),
            settled(final(self).gv()) == settled(old(self).gv()),
        decreases old(self).room(), *e, 5int, 0int,
    {
        proof {
            reveal(gen_value_call_spec);
            reveal(gen_expr_spec);
            reveal(container_call_spec);
            reveal(string_call_spec);
            reveal(gen_plain_call_spec);
        }
        match e.node() {
            Expr::Call(target, args) => match target.node() {
                Expr::Field(recv, method) => {
                    let (rcode, rty) = self.gen_expr(recv);
                    let cty = self.deref_alias(&rty);
                    if is_container_ty(&cty) {
                        if is_mutating_container_method(method) {
                            self.warn_if_param_container_mutated(recv, method);
                        }
                        match self.container_call(&rcode, &cty, method, args) {
                            Some(res) => {
                                return res;
                            },
                            None => {},
                        }
                    }
                    if same(&cty.base, "std::string") {
                        match self.string_call(&as_string_value(recv, &rcode), method, args) {
                            Some(res) => {
                                return res;
                            },
                            None => {},
                        }
                    }
                    self.gen_plain_call(&rcode, &rty, method, args)
                },
                _ => (String::new(), no_ty()),
            },
            _ => (String::new(), no_ty()),
        }
    }

    /// `recv.method(args)`: a library function, a method of the base class, a static method,
    /// a call on an ordered map, or a call on a value.
    pub fn gen_method_call(&mut self, e: &Expr) -> (r: (String, Ty))
        ensures
            final(self).pg() == old(self).pg(),
            final(self).room() == old(self).room(),
            (final(self).gv(), (r.0@, r.1.v())) == gen_method_call_spec(old(self).pg(), old(self).room(), old(self).gv(), e.v()),
            settled(final(self).gv()) == settled(old(self).gv()),
        decreases old(self).room(), *e, 8int, 0int,
    {
        proof {
            reveal(gen_method_call_spec);
            reveal(intrinsic_call_spec);
            reveal(gen_args_spec);
            reveal(gen_static_call_spec);
            reveal(ordered_map_ref_spec);
            reveal(ordered_map_call_spec);
            reveal(gen_value_call_spec);
        }
        match e.node() {
            Expr::Call(target, args) => match target.node() {
                Expr::Field(recv, method) => {
                    match recv.node() {
                        Expr::Ident(obj) => {
                            if self.is_free_name(obj) {
                                match self.intrinsic_call(obj, method, args) {
                                    Some(res) => {
                                        return res;
                                    },
                                    None => {},
                                }
                            }
                        },
                        _ => {},
                    }
                    if matches!(recv.node(), Expr::Super) {
                        let a = self.gen_args(args);
                        return (cat6(&self.base_name(), "::", method, "(", &a, ")"), no_ty());
                    }
                    match self.free_type(recv) {
                        Some(info) => {
                            if info.kind == TypeKind::Class {
                                return self.gen_static_call(&info, method, args);
                            }
                        },
                        None => {},
                    }
                    match self.ordered_map_ref(recv) {
                        Some(om) => match self.ordered_map_call(&om, method, args) {
                            Some(res) => {
                                return res;
                            },
                            None => {},
                        },
                        None => {},
                    }
                    self.gen_value_call(e)
                },
                _ => (String::new(), no_ty()),
            },
            _ => (String::new(), no_ty()),
        }
    }
}

/// What [`BodyGen::base_name`] computes.
#[verifier::opaque]
pub open spec fn base_name_spec(p: Env, st: GenV) -> Seq<char>
{
    match p.class.extends {
        Some(b) => { map_type_base_spec(p.prog, b, st.mi, st.ns) },
        None => { Seq::empty() },
    }
}

/// What [`BodyGen::gen_value_call`] computes.
#[verifier::opaque]
pub open spec fn gen_value_call_spec(p: Env, room: int, st: GenV, e: ExprV) -> (GenV, (Seq<char>, TyV))
    decreases room, e, 5int, 0int,
{
    match e {
        ExprV::Call(target, args) => {
            match *target {
                ExprV::Field(recv, method) => {
                    let (st, (rcode, rty)) = gen_expr_spec(p, room, st, *recv);
                    let cty = deref_alias_spec(p, st, rty);
                    if is_container_ty_spec(cty) {
                        let st = if is_mutating_container_method_spec(method) {
                            let st = warn_if_param_container_mutated_spec(p, st, *recv, method);
                            st
                        } else { st };
                        let (st, x1) = container_call_spec(p, room, st, rcode, cty, method, args);
                        match x1 {
                            Some(res) => { (st, res) },
                            None => {
                                if (cty.base == "std::string"@) {
                                    let (st, x2) = string_call_spec(p, room, st, as_string_value_spec(*recv, rcode), method, args);
                                    match x2 {
                                        Some(res) => { (st, res) },
                                        None => { gen_plain_call_spec(p, room, st, rcode, rty, method, args) },
                                    }
                                } else { gen_plain_call_spec(p, room, st, rcode, rty, method, args) }
                            },
                        }
                    } else {
                        if (cty.base == "std::string"@) {
                            let (st, x3) = string_call_spec(p, room, st, as_string_value_spec(*recv, rcode), method, args);
                            match x3 {
                                Some(res) => { (st, res) },
                                None => { gen_plain_call_spec(p, room, st, rcode, rty, method, args) },
                            }
                        } else { gen_plain_call_spec(p, room, st, rcode, rty, method, args) }
                    }
                },
                _ => { (st, (Seq::empty(), no_ty_spec())) },
            }
        },
        _ => { (st, (Seq::empty(), no_ty_spec())) },
    }
}

/// What [`BodyGen::gen_method_call`] computes.
#[verifier::opaque]
pub open spec fn gen_method_call_spec(p: Env, room: int, st: GenV, e: ExprV) -> (GenV, (Seq<char>, TyV))
    decreases room, e, 8int, 0int,
{
    match e {
        ExprV::Call(target, args) => {
            match *target {
                ExprV::Field(recv, method) => {
                    match *recv {
                        ExprV::Ident(obj) => {
                            if is_free_name_spec(p, st, obj) {
                                let (st, x1) = intrinsic_call_spec(p, room, st, obj, method, args);
                                match x1 {
                                    Some(res) => { (st, res) },
                                    None => {
                                        if (match *recv { ExprV::Super => true, _ => false }) {
                                            let (st, a) = gen_args_spec(p, room, st, args);
                                            (st, (base_name_spec(p, st) + "::"@ + method + "("@ + a + ")"@, no_ty_spec()))
                                        } else {
                                            match free_type_spec(p, st, *recv) {
                                                Some(info) => {
                                                    if info.kind == (TypeKind::Class) { gen_static_call_spec(p, room, st, info, method, args) } else {
                                                        let (st, x2) = ordered_map_ref_spec(p, room, st, *recv);
                                                        match x2 {
                                                            Some(om) => {
                                                                let (st, x3) = ordered_map_call_spec(p, room, st, om, method, args);
                                                                match x3 {
                                                                    Some(res) => { (st, res) },
                                                                    None => { gen_value_call_spec(p, room, st, e) },
                                                                }
                                                            },
                                                            None => { gen_value_call_spec(p, room, st, e) },
                                                        }
                                                    }
                                                },
                                                None => {
                                                    let (st, x4) = ordered_map_ref_spec(p, room, st, *recv);
                                                    match x4 {
                                                        Some(om) => {
                                                            let (st, x5) = ordered_map_call_spec(p, room, st, om, method, args);
                                                            match x5 {
                                                                Some(res) => { (st, res) },
                                                                None => { gen_value_call_spec(p, room, st, e) },
                                                            }
                                                        },
                                                        None => { gen_value_call_spec(p, room, st, e) },
                                                    }
                                                },
                                            }
                                        }
                                    },
                                }
                            } else {
                                if (match *recv { ExprV::Super => true, _ => false }) {
                                    let (st, a) = gen_args_spec(p, room, st, args);
                                    (st, (base_name_spec(p, st) + "::"@ + method + "("@ + a + ")"@, no_ty_spec()))
                                } else {
                                    match free_type_spec(p, st, *recv) {
                                        Some(info) => {
                                            if info.kind == (TypeKind::Class) { gen_static_call_spec(p, room, st, info, method, args) } else {
                                                let (st, x6) = ordered_map_ref_spec(p, room, st, *recv);
                                                match x6 {
                                                    Some(om) => {
                                                        let (st, x7) = ordered_map_call_spec(p, room, st, om, method, args);
                                                        match x7 {
                                                            Some(res) => { (st, res) },
                                                            None => { gen_value_call_spec(p, room, st, e) },
                                                        }
                                                    },
                                                    None => { gen_value_call_spec(p, room, st, e) },
                                                }
                                            }
                                        },
                                        None => {
                                            let (st, x8) = ordered_map_ref_spec(p, room, st, *recv);
                                            match x8 {
                                                Some(om) => {
                                                    let (st, x9) = ordered_map_call_spec(p, room, st, om, method, args);
                                                    match x9 {
                                                        Some(res) => { (st, res) },
                                                        None => { gen_value_call_spec(p, room, st, e) },
                                                    }
                                                },
                                                None => { gen_value_call_spec(p, room, st, e) },
                                            }
                                        },
                                    }
                                }
                            }
                        },
                        _ => {
                            if (match *recv { ExprV::Super => true, _ => false }) {
                                let (st, a) = gen_args_spec(p, room, st, args);
                                (st, (base_name_spec(p, st) + "::"@ + method + "("@ + a + ")"@, no_ty_spec()))
                            } else {
                                match free_type_spec(p, st, *recv) {
                                    Some(info) => {
                                        if info.kind == (TypeKind::Class) { gen_static_call_spec(p, room, st, info, method, args) } else {
                                            let (st, x10) = ordered_map_ref_spec(p, room, st, *recv);
                                            match x10 {
                                                Some(om) => {
                                                    let (st, x11) = ordered_map_call_spec(p, room, st, om, method, args);
                                                    match x11 {
                                                        Some(res) => { (st, res) },
                                                        None => { gen_value_call_spec(p, room, st, e) },
                                                    }
                                                },
                                                None => { gen_value_call_spec(p, room, st, e) },
                                            }
                                        }
                                    },
                                    None => {
                                        let (st, x12) = ordered_map_ref_spec(p, room, st, *recv);
                                        match x12 {
                                            Some(om) => {
                                                let (st, x13) = ordered_map_call_spec(p, room, st, om, method, args);
                                                match x13 {
                                                    Some(res) => { (st, res) },
                                                    None => { gen_value_call_spec(p, room, st, e) },
                                                }
                                            },
                                            None => { gen_value_call_spec(p, room, st, e) },
                                        }
                                    },
                                }
                            }
                        },
                    }
                },
                _ => { (st, (Seq::empty(), no_ty_spec())) },
            }
        },
        _ => { (st, (Seq::empty(), no_ty_spec())) },
    }
}

} // verus!
