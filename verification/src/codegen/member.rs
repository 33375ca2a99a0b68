//! Members of a value or of a type.

use vstd::prelude::*;

use crate::ast::{Expr, Function, Param, PropAccess, Type};
use crate::codegen::callee::is_free_name_spec;
use crate::codegen::common::{is_named, is_named_spec, ordered_map_kv, ordered_map_kv_spec};
use crate::codegen::ctypes::{map_type_use, map_type_use_spec, qualified, qualified_spec};
use crate::codegen::gen::GenV;
use crate::codegen::helpers::{int_ty, int_ty_spec, intrinsic_field, intrinsic_field_spec, is_container_ty, is_container_ty_spec, no_ty, no_ty_spec, plain_ty, plain_ty_spec, size_ty, size_ty_spec, type_from_name, type_from_name_spec};
use crate::codegen::literal::{or_no_ty, or_no_ty_spec};
use crate::codegen::lookup::{is_enumish, is_enumish_spec};
use crate::codegen::state::{BodyGen, Env, settled};
use crate::codegen::ty::{OrderedMapRef, OrderedMapRefV, Ty, TyV};
use crate::codegen::types::{accessor_field_ty_spec, class_field_spec, class_static_field_spec, deref_alias_spec, field_getter_spec, field_ty_spec, lookup_field_spec, member_field_ty_spec, qualified_static_ref_spec, ty_of_spec, variant_of_spec};
use crate::codegen::values::{as_string_value, as_string_value_spec, container_access, container_access_spec, fail_ordered_map_spec, member_op, member_op_spec, read_nullable_string_spec};
use crate::model::{ExprV, FunctionV, ParamV, TypeV, functions_v, params_v, types_v};
use crate::program::{TypeInfo, TypeInfoV};
use crate::resolve::{class_decl, class_decl_spec, resolve_name, resolve_name_spec};
use crate::text::{cat2, cat3, cat4, same};

verus! {

broadcast use {crate::codegen::gen::group_gen, crate::codegen::ty::group_ty, crate::model::group_model, crate::program::group_program, crate::text::group_texts};

/// The declared types of the parameters from `i` on.
pub fn declared_types(params: &Vec<Param>, i: usize, out: Vec<Type>) -> (r: Vec<Type>)
    ensures
        types_v(r@) == declared_types_spec(params_v(params@), (i as int), types_v(out@)),
{
    let ghost i_0 = i;
    let ghost out_0 = out;
    let mut i: usize = i;
    let mut out: Vec<Type> = out;
    #[verifier::loop_isolation(false)]
    loop
        invariant
            declared_types_spec(params_v(params@), (i_0 as int), types_v(out_0@)) == declared_types_spec(params_v(params@), (i as int), types_v(out@)),
        decreases params.len() - i,
    {
        if i >= params.len() {
            return out;
        }
        match &params[i].ty {
            Some(t) => {
                out.push(t.dup());
            },
            None => {},
        }
        i = i + 1;
    }
}

/// The function type of a method.
pub fn method_type(m: &Function) -> (r: Type)
    ensures
        r.v() == method_type_spec(m.v()),
{
    proof {
        reveal(method_type_spec);
    }
    let ret = match &m.ret {
        Some(t) => t.dup(),
        None => type_from_name("Void"),
    };
    Type::Func { params: declared_types(&m.params, 0, Vec::new()), ret: Box::new(ret) }
}

/// The first static method of a name from `i` on.
pub fn static_method<'a>(methods: &'a Vec<Function>, name: &str, i: usize) -> (r: Option<&'a Function>)
    ensures
        (match r { Some(y) => Some(y.v()), None => None }) == static_method_spec(functions_v(methods@), name@, (i as int)),
{
    let ghost i_0 = i;
    let mut i: usize = i;
    #[verifier::loop_isolation(false)]
    loop
        invariant
            static_method_spec(functions_v(methods@), name@, (i_0 as int)) == static_method_spec(functions_v(methods@), name@, (i as int)),
        decreases methods.len() - i,
    {
        if i >= methods.len() {
            return None;
        }
        if methods[i].modifiers.is_static && is_named(&methods[i], name) {
            return Some(&methods[i]);
        }
        i = i + 1;
    }
}

impl<'a> BodyGen<'a> {
    /// A static field of a class, or the address of a static method.
    fn gen_static_member(&self, info: &TypeInfo, name: &str) -> (r: Option<(String, Ty)>)
        ensures
            (match r { Some(y) => Some((y.0@, y.1.v())), None => None }) == gen_static_member_spec(self.pg(), self.gv(), info.v(), name@),
    {
        proof {
            reveal(gen_static_member_spec);
        }
        match self.class_static_field(info, name) {
            Some(f) => {
                let ty = or_no_ty(&self.member_field_ty(info, name));
                return Some((self.qualified_static_ref(info, f), ty));
            },
            None => {},
        }
        match class_decl(self.prog(), info) {
            Some(c) => match static_method(&c.methods, name, 0) {
                Some(m) => {
                    let base = map_type_use(self.prog(), &method_type(m), self.mi(), self.ns());
                    Some((cat4("&", &qualified(info, self.ns()), "::", name), plain_ty(&base)))
                },
                None => None,
            },
            None => None,
        }
    }

    /// What `Name.name` is where `Name` is neither a local nor a field.
    pub fn gen_type_member(&self, tname: &str, name: &str) -> (r: Option<(String, Ty)>)
        ensures
            (match r { Some(y) => Some((y.0@, y.1.v())), None => None }) == gen_type_member_spec(self.pg(), self.gv(), tname@, name@),
    {
        proof {
            reveal(gen_type_member_spec);
        }
        if !self.is_free_name(tname) {
            return None;
        }
        let info = resolve_name(self.prog(), tname, self.mi());
        match &info {
            Some(i) => {
                if is_enumish(i.kind) {
                    return Some(self.variant_of(i, name));
                }
            },
            None => {},
        }
        match intrinsic_field(tname, name) {
            Some(res) => {
                return Some(res);
            },
            None => {},
        }
        match &info {
            Some(i) => self.gen_static_member(i, name),
            None => None,
        }
    }

    /// Whether a member is an ordered map, which is no single value.
    fn is_ordered_map(&self, rty: &Ty, name: &str) -> (r: bool)
        ensures
            r == is_ordered_map_spec(self.pg(), self.gv(), rty.v(), name@),
    {
        proof {
            reveal(is_ordered_map_spec);
        }
        match &rty.info {
            Some(info) => match self.lookup_field(info, name) {
                Some(f) => ordered_map_kv(f).is_some(),
                None => false,
            },
            None => false,
        }
    }

    /// `.length` and `.code` of containers and strings.
    fn gen_measure(&self, recv: &Expr, rcode: &str, rty: &Ty, name: &str) -> (r: Option<(String, Ty)>)
        ensures
            (match r { Some(y) => Some((y.0@, y.1.v())), None => None }) == gen_measure_spec(self.pg(), self.gv(), recv.v(), rcode@, rty.v(), name@),
    {
        proof {
            reveal(gen_measure_spec);
        }
        if same(name, "length") {
            let cty = self.deref_alias(rty);
            if is_container_ty(&cty) {
                return Some((cat2(&container_access(rcode, rty, &cty), ".size()"), size_ty()));
            }
            if same(&cty.base, "std::string") {
                return Some((cat2(&as_string_value(recv, rcode), ".length()"), size_ty()));
            }
        }
        if same(name, "code") && same(&rty.base, "std::string") {
            return Some((cat3("((int)(unsigned char)(", rcode, ")[0])"), int_ty()));
        }
        None
    }

    /// The accessor a read goes through: that of another object's property, or an own custom
    /// getter outside itself.
    fn gen_accessor_read(&self, recv: &Expr, rcode: &str, rty: &Ty, name: &str) -> (r: Option<(String, Ty)>)
        ensures
            (match r { Some(y) => Some((y.0@, y.1.v())), None => None }) == gen_accessor_read_spec(self.pg(), self.gv(), recv.v(), rcode@, rty.v(), name@),
    {
        proof {
            reveal(gen_accessor_read_spec);
        }
        if matches!(recv.node(), Expr::This) {
            match self.class_field(name) {
                Some(f) => {
                    if f.get == PropAccess::Get && !same(self.current_fn(), &cat2("get_", name)) {
                        return Some((cat3("this->get_", name, "()"), self.field_ty(f)));
                    }
                },
                None => {},
            }
            return None;
        }
        match &rty.info {
            Some(info) => match self.field_getter(info, name) {
                Some(g) => Some((cat4(rcode, &member_op(rty), &g, "()"), self.accessor_field_ty(info, name))),
                None => None,
            },
            None => None,
        }
    }

    /// The type of a member of a receiver.
    pub fn member_ty(&self, rty: &Ty, name: &str) -> (r: Ty)
        ensures
            r.v() == member_ty_spec(self.pg(), self.gv(), rty.v(), name@),
    {
        proof {
            reveal(member_ty_spec);
        }
        match &rty.info {
            Some(info) => or_no_ty(&self.member_field_ty(info, name)),
            None => no_ty(),
        }
    }

    /// A member of a receiver.
    pub fn gen_member(&mut self, recv: &Expr, rcode: &str, rty: &Ty, name: &str) -> (r: (String, Ty))
        ensures
            final(self).pg() == old(self).pg(),
            final(self).room() == old(self).room(),
            (final(self).gv(), (r.0@, r.1.v())) == gen_member_spec(old(self).pg(), old(self).gv(), recv.v(), rcode@, rty.v(), name@),
            settled(final(self).gv()) == settled(old(self).gv()),
    {
        proof {
            reveal(gen_member_spec);
        }
        if self.is_ordered_map(rty, name) {
            self.fail_ordered_map(name);
            return (cat3(rcode, "->", name), no_ty());
        }
        match self.gen_measure(recv, rcode, rty, name) {
            Some(res) => {
                return res;
            },
            None => {},
        }
        match self.gen_accessor_read(recv, rcode, rty, name) {
            Some(res) => {
                return res;
            },
            None => {},
        }
        self.read_nullable_string(cat3(rcode, &member_op(rty), name), self.member_ty(rty, name))
    }

    /// The non-null access of `recv?.field`.
    pub fn gen_safe_access(&self, rcode: &str, rty: &Ty, field: &str) -> (r: (String, Ty))
        ensures
            (r.0@, r.1.v()) == gen_safe_access_spec(self.pg(), self.gv(), rcode@, rty.v(), field@),
    {
        proof {
            reveal(gen_safe_access_spec);
        }
        match &rty.info {
            Some(info) => match self.field_getter(info, field) {
                Some(g) => {
                    return (cat4(rcode, &member_op(rty), &g, "()"), self.accessor_field_ty(info, field));
                },
                None => {},
            },
            None => {},
        }
        (cat3(rcode, &member_op(rty), field), self.member_ty(rty, field))
    }

    /// An ordered map by the code in front of its name.
    pub fn ordered_map_at(&self, prefix: &str, info: &Option<TypeInfo>, name: &str) -> (r: Option<OrderedMapRef>)
        ensures
            (match r { Some(y) => Some(y.v()), None => None }) == ordered_map_at_spec(self.pg(), self.gv(), prefix@, (match info { Some(y) => Some(y.v()), None => None }), name@),
    {
        proof {
            reveal(ordered_map_at_spec);
        }
        match info {
            Some(i) => match self.lookup_field(i, name) {
                Some(f) => match ordered_map_kv(f) {
                    Some((k, v)) => Some(OrderedMapRef {
                        keys: cat3(prefix, name, "_keys"),
                        vals: cat3(prefix, name, "_vals"),
                        key_ty: self.ty_of(&k),
                        val_ty: self.ty_of(&v),
                    }),
                    None => None,
                },
                None => None,
            },
            None => None,
        }
    }
}

/// What [`declared_types`] computes.
pub open spec fn declared_types_spec(params: Seq<ParamV>, i: int, out: Seq<TypeV>) -> Seq<TypeV>
    decreases params.len() - i,
{
    if !(0 <= i < params.len()) { out } else {
        let out = match params[i].ty {
            Some(t) => {
                let out = out.push(t);
                out
            },
            None => { out },
        };
        let i = i + 1;
        declared_types_spec(params, i, out)
    }
}

/// What [`method_type`] computes.
#[verifier::opaque]
pub open spec fn method_type_spec(m: FunctionV) -> TypeV
{
    let ret = match m.ret {
        Some(t) => { t },
        None => { type_from_name_spec("Void"@) },
    };
    TypeV::Func { params: declared_types_spec(m.params, 0int, Seq::empty()), ret: Box::new(ret) }
}

/// What [`static_method`] computes.
pub open spec fn static_method_spec(methods: Seq<FunctionV>, name: Seq<char>, i: int) -> Option<FunctionV>
    decreases methods.len() - i,
{
    if !(0 <= i < methods.len()) { None } else {
        if (methods[i].modifiers.is_static) && is_named_spec(methods[i], name) { Some(methods[i]) } else {
            let i = i + 1;
            static_method_spec(methods, name, i)
        }
    }
}

/// What [`BodyGen::gen_static_member`] computes.
#[verifier::opaque]
pub open spec fn gen_static_member_spec(p: Env, st: GenV, info: TypeInfoV, name: Seq<char>) -> Option<(Seq<char>, TyV)>
{
    match class_static_field_spec(p, st, info, name) {
        Some(f) => {
            let ty = or_no_ty_spec(member_field_ty_spec(p, st, info, name));
            Some((qualified_static_ref_spec(p, st, info, f), ty))
        },
        None => {
            match class_decl_spec(p.prog, info) {
                Some(c) => {
                    match static_method_spec(c.methods, name, 0int) {
                        Some(m) => {
                            let base = map_type_use_spec(p.prog, method_type_spec(m), st.mi, st.ns);
                            Some(("&"@ + qualified_spec(info, st.ns) + "::"@ + name, plain_ty_spec(base)))
                        },
                        None => { None },
                    }
                },
                None => { None },
            }
        },
    }
}

/// What [`BodyGen::gen_type_member`] computes.
#[verifier::opaque]
pub open spec fn gen_type_member_spec(p: Env, st: GenV, tname: Seq<char>, name: Seq<char>) -> Option<(Seq<char>, TyV)>
{
    if !is_free_name_spec(p, st, tname) { None } else {
        let info = resolve_name_spec(p.prog, tname, st.mi);
        match info {
            Some(i) => {
                if is_enumish_spec(i.kind) { Some(variant_of_spec(p, st, i, name)) } else {
                    match intrinsic_field_spec(tname, name) {
                        Some(res) => { Some(res) },
                        None => {
                            match info {
                                Some(i) => { gen_static_member_spec(p, st, i, name) },
                                None => { None },
                            }
                        },
                    }
                }
            },
            None => {
                match intrinsic_field_spec(tname, name) {
                    Some(res) => { Some(res) },
                    None => {
                        match info {
                            Some(i) => { gen_static_member_spec(p, st, i, name) },
                            None => { None },
                        }
                    },
                }
            },
        }
    }
}

/// What [`BodyGen::is_ordered_map`] computes.
#[verifier::opaque]
pub open spec fn is_ordered_map_spec(p: Env, st: GenV, rty: TyV, name: Seq<char>) -> bool
{
    match rty.info {
        Some(info) => {
            match lookup_field_spec(p, st, info, name) {
                Some(f) => { ordered_map_kv_spec(f) is Some },
                None => { false },
            }
        },
        None => { false },
    }
}

/// What [`BodyGen::gen_measure`] computes.
#[verifier::opaque]
pub open spec fn gen_measure_spec(p: Env, st: GenV, recv: ExprV, rcode: Seq<char>, rty: TyV, name: Seq<char>) -> Option<(Seq<char>, TyV)>
{
    if (name == "length"@) {
        let cty = deref_alias_spec(p, st, rty);
        if is_container_ty_spec(cty) { Some((container_access_spec(rcode, rty, cty) + ".size()"@, size_ty_spec())) } else {
            if (cty.base == "std::string"@) { Some((as_string_value_spec(recv, rcode) + ".length()"@, size_ty_spec())) } else {
                if (name == "code"@) && (rty.base == "std::string"@) { Some(("((int)(unsigned char)("@ + rcode + ")[0])"@, int_ty_spec())) } else { None }
            }
        }
    } else {
        if (name == "code"@) && (rty.base == "std::string"@) { Some(("((int)(unsigned char)("@ + rcode + ")[0])"@, int_ty_spec())) } else { None }
    }
}

/// What [`BodyGen::gen_accessor_read`] computes.
#[verifier::opaque]
pub open spec fn gen_accessor_read_spec(p: Env, st: GenV, recv: ExprV, rcode: Seq<char>, rty: TyV, name: Seq<char>) -> Option<(Seq<char>, TyV)>
{
    if (match recv { ExprV::This => true, _ => false }) {
        match class_field_spec(p, st, name) {
            Some(f) => {
                if (f.get == (PropAccess::Get)) && !(st.current_fn == "get_"@ + name) { Some(("this->get_"@ + name + "()"@, field_ty_spec(p, st, f))) } else { None }
            },
            None => { None },
        }
    } else {
        match rty.info {
            Some(info) => {
                match field_getter_spec(p, st, info, name) {
                    Some(g) => {
                        Some((rcode + member_op_spec(rty) + g + "()"@, accessor_field_ty_spec(p, st, info, name)))
                    },
                    None => { None },
                }
            },
            None => { None },
        }
    }
}

/// What [`BodyGen::member_ty`] computes.
#[verifier::opaque]
pub open spec fn member_ty_spec(p: Env, st: GenV, rty: TyV, name: Seq<char>) -> TyV
{
    match rty.info {
        Some(info) => { or_no_ty_spec(member_field_ty_spec(p, st, info, name)) },
        None => { no_ty_spec() },
    }
}

/// What [`BodyGen::gen_member`] computes.
#[verifier::opaque]
pub open spec fn gen_member_spec(p: Env, st: GenV, recv: ExprV, rcode: Seq<char>, rty: TyV, name: Seq<char>) -> (GenV, (Seq<char>, TyV))
{
    if is_ordered_map_spec(p, st, rty, name) {
        let st = fail_ordered_map_spec(p, st, name);
        (st, (rcode + "->"@ + name, no_ty_spec()))
    } else {
        match gen_measure_spec(p, st, recv, rcode, rty, name) {
            Some(res) => { (st, res) },
            None => {
                match gen_accessor_read_spec(p, st, recv, rcode, rty, name) {
                    Some(res) => { (st, res) },
                    None => {
                        (st, read_nullable_string_spec(p, st, rcode + member_op_spec(rty) + name, member_ty_spec(p, st, rty, name)))
                    },
                }
            },
        }
    }
}

/// What [`BodyGen::gen_safe_access`] computes.
#[verifier::opaque]
pub open spec fn gen_safe_access_spec(p: Env, st: GenV, rcode: Seq<char>, rty: TyV, field: Seq<char>) -> (Seq<char>, TyV)
{
    match rty.info {
        Some(info) => {
            match field_getter_spec(p, st, info, field) {
                Some(g) => {
                    (rcode + member_op_spec(rty) + g + "()"@, accessor_field_ty_spec(p, st, info, field))
                },
                None => { (rcode + member_op_spec(rty) + field, member_ty_spec(p, st, rty, field)) },
            }
        },
        None => { (rcode + member_op_spec(rty) + field, member_ty_spec(p, st, rty, field)) },
    }
}

/// What [`BodyGen::ordered_map_at`] computes.
#[verifier::opaque]
pub open spec fn ordered_map_at_spec(p: Env, st: GenV, prefix: Seq<char>, info: Option<TypeInfoV>, name: Seq<char>) -> Option<OrderedMapRefV>
{
    match info {
        Some(i) => {
            match lookup_field_spec(p, st, i, name) {
                Some(f) => {
                    match ordered_map_kv_spec(f) {
                        Some((k, v)) => { Some(OrderedMapRefV { keys: prefix + name + "_keys"@, vals: prefix + name + "_vals"@, key_ty: ty_of_spec(p, st, k), val_ty: ty_of_spec(p, st, v) }) },
                        None => { None },
                    }
                },
                None => { None },
            }
        },
        None => { None },
    }
}

} // verus!
