//! The types of things inside a body.

use vstd::prelude::*;

use crate::ast::{Expr, Field, Function, Meta, Param, PropAccess, Type};
use crate::codegen::common::{find_method, find_method_spec, is_meyers_static, is_meyers_static_spec, scalar_narrows, scalar_narrows_spec};
use crate::codegen::ctypes::{alias_target, alias_target_spec, enum_abstract_underlying, enum_abstract_underlying_spec, is_raw_pointer, is_raw_pointer_spec, is_value_struct, is_value_struct_spec, map_type_base, map_type_base_spec, map_type_use, map_type_use_spec, qualified, qualified_spec, resolve_alias_type_ctx, resolve_alias_type_ctx_spec, resolve_type_by_cpp_spelling, resolve_type_by_cpp_spelling_spec, ty_named_info, ty_named_info_spec};
use crate::codegen::gen::GenV;
use crate::codegen::helpers::{bool_ty, bool_ty_spec, float_ty, float_ty_spec, getter_method, getter_method_spec, info_ty, info_ty_spec, int_ty, int_ty_spec, is_container_ty, is_container_ty_spec, no_ty, no_ty_spec, parse_overload_sig, parse_overload_sig_spec, plain_ty, plain_ty_spec, split_top_comma, split_top_comma_spec, str_ty, str_ty_spec, type_from_name, type_from_name_spec, with_ptr, with_ptr_spec};
use crate::codegen::lookup::{adt_enum, adt_enum_spec, class_defines_method, class_defines_method_spec, enum_constant, enum_constant_spec, enum_has_variant, enum_has_variant_spec, enum_value_ctor, enum_value_ctor_spec, enum_with_variant, enum_with_variant_spec, field_module, field_module_spec, inherited_field, inherited_field_spec, is_enumish, is_enumish_spec, is_nullable_field, is_nullable_field_spec, method_of, method_of_spec, struct_field_named, struct_field_named_spec, struct_fields_of, struct_fields_of_spec, variant_named, variant_named_spec};
use crate::codegen::state::{BodyGen, Env, is_local_spec, lookup_local_spec};
use crate::codegen::ty::{Ty, TyV, opt_tys_v};
use crate::model::{ExprV, FieldV, FunctionV, MetaV, ParamV, TypeV, exprs_v, metas_v, params_v};
use crate::parser::pp::{trim, trim_spec};
use crate::parser::types::{meta_has, meta_has_spec};
use crate::program::{Program, ProgramV, TypeInfo, TypeInfoV, TypeKind, usizes_v};
use crate::resolve::{class_decl, class_decl_spec, facts_of, facts_of_spec, last_is, last_is_spec, resolve_name, resolve_name_spec, resolve_type, resolve_type_spec, resolved, resolved_spec};
use crate::strings::{between, between_spec, cap, cap_spec, ends_with, join, join_spec, no_stars, no_stars_spec};
use crate::text::{cat2, cat4, cat5, empty, same, texts};

verus! {

broadcast use {crate::codegen::gen::group_gen, crate::codegen::ty::group_ty, crate::model::group_model, crate::program::group_program, crate::text::group_texts};

/// A type read back from its C++ spelling.
pub fn spelled_ty(prog: &Program, spelling: &str, ns: &Vec<String>) -> (r: Ty)
    ensures
        r.v() == spelled_ty_spec(prog.v(), spelling@, texts(ns@)),
{
    proof {
        reveal(spelled_ty_spec);
    }
    let text = trim(spelling);
    let base = trim(&no_stars(&text));
    let info = resolve_type_by_cpp_spelling(prog, &base, ns);
    info_ty(&base, ends_with(&text, "*"), info)
}

/// A type read back from its C++ spelling, without what it resolves to.
pub fn bare_ty(spelling: &str) -> (r: Ty)
    ensures
        r.v() == bare_ty_spec(spelling@),
{
    proof {
        reveal(bare_ty_spec);
    }
    let text = trim(spelling);
    info_ty(&trim(&no_stars(&text)), ends_with(&text, "*"), None)
}

/// The key and value spellings of a `std::map`.
pub fn map_args(map: &Ty) -> (r: Option<(String, String)>)
    ensures
        (match r { Some(y) => Some((y.0@, y.1@)), None => None }) == map_args_spec(map.v()),
{
    proof {
        reveal(map_args_spec);
    }
    match between(&map.base, "std::map<", ">") {
        Some(inner) => split_top_comma(&trim(&inner)),
        None => None,
    }
}

/// A type found in module `ctx`, spelled for the namespace `ns`.
pub fn named_ty(prog: &Program, t: &Type, ctx: usize, ns: &Vec<String>) -> (r: Ty)
    ensures
        r.v() == named_ty_spec(prog.v(), t.v(), (ctx as int), texts(ns@)),
{
    proof {
        reveal(named_ty_spec);
    }
    let use_ = map_type_use(prog, t, ctx, ns);
    let info = match t.node() {
        Type::Named { path, params, optional: _, line: _ } => {
            if params.len() > 0 {
                None
            } else {
                dispatch_info(prog, t, path, ctx)
            }
        },
        _ => None,
    };
    info_ty(&no_stars(&use_), ends_with(&use_, "*"), info)
}

/// What a plain name resolves to for member lookup. An alias of a class, an interface or a
/// structure is transparent; an alias of a container keeps its own.
pub fn dispatch_info(prog: &Program, t: &Type, path: &Vec<String>, ctx: usize) -> (r: Option<TypeInfo>)
    ensures
        (match r { Some(y) => Some(y.v()), None => None }) == dispatch_info_spec(prog.v(), t.v(), texts(path@), (ctx as int)),
{
    proof {
        reveal(dispatch_info_spec);
    }
    match resolve_type(prog, path, ctx) {
        None => None,
        Some(direct) => match direct.kind {
            TypeKind::AliasTypedef => {
                let (target, at) = resolve_alias_type_ctx(prog, t, ctx);
                match target.node() {
                    Type::Named { path: tp, params: tpar, optional: _, line: _ } => {
                        if tpar.len() > 0 {
                            Some(direct.dup())
                        } else {
                            match resolved(prog, tp, at) {
                                Some(i) => Some(i),
                                None => Some(direct.dup()),
                            }
                        }
                    },
                    _ => Some(direct.dup()),
                }
            },
            _ => Some(direct.dup()),
        },
    }
}

/// The type a Haxe type means in module `ctx`, spelled for the namespace `ns`. A nullable
/// value becomes a pointer; raw pointers are pointers that keep what they point to.
pub fn ty_in(prog: &Program, t: &Type, ctx: usize, ns: &Vec<String>) -> (r: Ty)
    ensures
        r.v() == ty_in_spec(prog.v(), t.v(), (ctx as int), texts(ns@)),
    decreases *t,
{
    match t.node() {
        Type::Named { path, params, optional: _, line: _ } => {
            if params.len() == 1 && last_is(path, "Null") {
                let mut inner = ty_in(prog, &params[0], ctx, ns);
                inner.nullable = !inner.is_ptr;
                inner.is_ptr = true;
                return inner;
            }
            if params.len() == 1 && is_raw_pointer(path) {
                let mut inner = ty_in(prog, &params[0], ctx, ns);
                inner.is_ptr = true;
                return inner;
            }
            named_ty(prog, t, ctx, ns)
        },
        _ => named_ty(prog, t, ctx, ns),
    }
}

/// One step through an alias typedef, where there is one.
pub fn alias_step(prog: &Program, cur: &Ty, ns: &Vec<String>) -> (r: Option<Ty>)
    ensures
        (match r { Some(y) => Some(y.v()), None => None }) == alias_step_spec(prog.v(), cur.v(), texts(ns@)),
{
    proof {
        reveal(alias_step_spec);
    }
    match &cur.info {
        Some(info) => match info.kind {
            TypeKind::AliasTypedef => match alias_target(prog, info) {
                Some(target) => {
                    let mut next = ty_in(prog, target, info.module_index, ns);
                    if same(&next.base, &cur.base) {
                        return None;
                    }
                    // which container is named changes, not whether this use is a pointer
                    next.is_ptr = next.is_ptr || cur.is_ptr;
                    next.nullable = next.nullable || cur.nullable;
                    Some(next)
                },
                None => None,
            },
            _ => None,
        },
        None => None,
    }
}

/// A type with up to `fuel` aliases of its base followed.
pub fn deref_from(prog: &Program, ns: &Vec<String>, cur: Ty, fuel: usize) -> (r: Ty)
    ensures
        r.v() == deref_from_spec(prog.v(), texts(ns@), cur.v(), (fuel as int)),
{
    let ghost cur_0 = cur;
    let ghost fuel_0 = fuel;
    let mut cur: Ty = cur;
    let mut fuel: usize = fuel;
    #[verifier::loop_isolation(false)]
    loop
        invariant
            deref_from_spec(prog.v(), texts(ns@), cur_0.v(), (fuel_0 as int)) == deref_from_spec(prog.v(), texts(ns@), cur.v(), (fuel as int)),
        decreases fuel,
    {
        if fuel < 1 {
            return cur;
        }
        match alias_step(prog, &cur, ns) {
            Some(next) => {
                cur = next;
                fuel = fuel - 1;
            },
            None => {
                return cur;
            },
        }
    }
}

/// The types of the parameters from `i` on, resolved in module `ctx`. An optional value
/// structure is a nullable pointer.
pub fn param_ty(prog: &Program, p: &Param, ctx: usize, ns: &Vec<String>) -> (r: Option<Ty>)
    ensures
        (match r { Some(y) => Some(y.v()), None => None }) == param_ty_spec(prog.v(), p.v(), (ctx as int), texts(ns@)),
{
    proof {
        reveal(param_ty_spec);
    }
    match &p.ty {
        None => None,
        Some(t) => {
            let mut ty = ty_in(prog, t, ctx, ns);
            if p.optional && !ty.is_ptr && is_value_struct(prog, ctx, t) {
                ty.is_ptr = true;
                ty.nullable = true;
            }
            Some(ty)
        },
    }
}

/// The types of the parameters from `i` on.
pub fn param_tys_from(prog: &Program, params: &Vec<Param>, ctx: usize, ns: &Vec<String>, i: usize, out: Vec<Option<Ty>>) -> (r: Vec<Option<Ty>>)
    ensures
        opt_tys_v(r@) == param_tys_from_spec(prog.v(), params_v(params@), (ctx as int), texts(ns@), (i as int), opt_tys_v(out@)),
{
    let ghost i_0 = i;
    let ghost out_0 = out;
    let mut i: usize = i;
    let mut out: Vec<Option<Ty>> = out;
    #[verifier::loop_isolation(false)]
    loop
        invariant
            param_tys_from_spec(prog.v(), params_v(params@), (ctx as int), texts(ns@), (i_0 as int), opt_tys_v(out_0@)) == param_tys_from_spec(prog.v(), params_v(params@), (ctx as int), texts(ns@), (i as int), opt_tys_v(out@)),
        decreases params.len() - i,
    {
        if i >= params.len() {
            return out;
        }
        out.push(param_ty(prog, &params[i], ctx, ns));
        i = i + 1;
    }
}

/// The types of a parameter list.
pub fn param_tys(prog: &Program, params: &Vec<Param>, ctx: usize, ns: &Vec<String>) -> (r: Vec<Option<Ty>>)
    ensures
        opt_tys_v(r@) == param_tys_spec(prog.v(), params_v(params@), (ctx as int), texts(ns@)),
{
    proof {
        reveal(param_tys_spec);
    }
    param_tys_from(prog, params, ctx, ns, 0, Vec::new())
}

/// The constructor of the class a type names, and the module that declares it.
pub fn ctor_of<'a>(prog: &'a Program, t: &Type, mi: usize) -> (r: Option<(&'a Function, usize)>)
    ensures
        (match r { Some(y) => Some((y.0.v(), (y.1 as int))), None => None }) == ctor_of_spec(prog.v(), t.v(), (mi as int)),
{
    proof {
        reveal(ctor_of_spec);
    }
    match ty_named_info(prog, mi, t) {
        Some(info) => match class_decl(prog, &info) {
            Some(c) => match &c.ctor {
                Some(f) => Some((f, info.module_index)),
                None => None,
            },
            None => None,
        },
        None => None,
    }
}

/// Whether a position is among those from `i` on.
pub fn has_position(owned: &Vec<usize>, k: usize, i: usize) -> (r: bool)
    ensures
        r == has_position_spec(usizes_v(owned@), (k as int), (i as int)),
{
    let ghost i_0 = i;
    let mut i: usize = i;
    #[verifier::loop_isolation(false)]
    loop
        invariant
            has_position_spec(usizes_v(owned@), (k as int), (i_0 as int)) == has_position_spec(usizes_v(owned@), (k as int), (i as int)),
        decreases owned.len() - i,
    {
        if i >= owned.len() {
            return false;
        }
        if owned[i] == k {
            return true;
        }
        i = i + 1;
    }
}

/// For each position from `i` on whether it is among the owned ones.
pub fn position_flags(owned: &Vec<usize>, n: usize, i: usize, out: Vec<bool>) -> (r: Vec<bool>)
    ensures
        r@ == position_flags_spec(usizes_v(owned@), (n as int), (i as int), out@),
{
    let ghost i_0 = i;
    let ghost out_0 = out;
    let mut i: usize = i;
    let mut out: Vec<bool> = out;
    #[verifier::loop_isolation(false)]
    loop
        invariant
            position_flags_spec(usizes_v(owned@), (n as int), (i_0 as int), out_0@) == position_flags_spec(usizes_v(owned@), (n as int), (i as int), out@),
        decreases n - i,
    {
        if i >= n {
            return out;
        }
        out.push(has_position(owned, i, 0));
        i = i + 1;
    }
}

/// Which constructor parameters of a type's class take ownership of their argument.
pub fn ctor_owned_params(prog: &Program, t: &Type, mi: usize) -> (r: Vec<bool>)
    ensures
        r@ == ctor_owned_params_spec(prog.v(), t.v(), (mi as int)),
{
    proof {
        reveal(ctor_owned_params_spec);
    }
    match ty_named_info(prog, mi, t) {
        Some(info) => match ctor_of(prog, t, mi) {
            Some((f, cmi)) => match facts_of(prog, &info.name, cmi) {
                Some(facts) => position_flags(&facts.owned_params, f.params.len(), 0, Vec::new()),
                None => position_flags(&Vec::new(), f.params.len(), 0, Vec::new()),
            },
            None => Vec::new(),
        },
        None => Vec::new(),
    }
}

impl<'a> BodyGen<'a> {
    /// The C++ type of a type of this module.
    pub fn ty_of(&self, t: &Type) -> (r: Ty)
        ensures
            r.v() == ty_of_spec(self.pg(), self.gv(), t.v()),
    {
        proof {
            reveal(ty_of_spec);
        }
        ty_in(self.prog(), t, self.mi(), self.ns())
    }

    /// The C++ type of a type that is seen from another module.
    pub fn ty_of_in(&self, t: &Type, ctx: usize) -> (r: Ty)
        ensures
            r.v() == ty_of_in_spec(self.pg(), self.gv(), t.v(), (ctx as int)),
    {
        proof {
            reveal(ty_of_in_spec);
        }
        ty_in(self.prog(), t, ctx, self.ns())
    }

    /// The type a declaration gives, or one of which nothing is known.
    pub fn opt_ty(&self, t: &Option<Type>) -> (r: Ty)
        ensures
            r.v() == opt_ty_spec(self.pg(), self.gv(), (match t { Some(y) => Some(y.v()), None => None })),
    {
        proof {
            reveal(opt_ty_spec);
        }
        match t {
            Some(t) => self.ty_of(t),
            None => no_ty(),
        }
    }

    /// The types of the parameters of the constructor of a type.
    pub fn ctor_param_types(&self, t: &Type) -> (r: Vec<Option<Ty>>)
        ensures
            opt_tys_v(r@) == ctor_param_types_spec(self.pg(), self.gv(), t.v()),
    {
        proof {
            reveal(ctor_param_types_spec);
        }
        match ctor_of(self.prog(), t, self.mi()) {
            Some((f, cmi)) => param_tys(self.prog(), &f.params, cmi, self.ns()),
            None => Vec::new(),
        }
    }

    /// Element type from a declared `Array<T>`.
    pub fn elem_ast_ty(&self, t: &Option<Type>) -> (r: Option<Ty>)
        ensures
            (match r { Some(y) => Some(y.v()), None => None }) == elem_ast_ty_spec(self.pg(), self.gv(), (match t { Some(y) => Some(y.v()), None => None })),
    {
        proof {
            reveal(elem_ast_ty_spec);
        }
        match t {
            Some(t) => match t.node() {
                Type::Named { path, params, optional: _, line: _ } => {
                    if last_is(path, "Array") && params.len() == 1 {
                        Some(self.ty_of(&params[0]))
                    } else {
                        None
                    }
                },
                _ => None,
            },
            None => None,
        }
    }

    /// Key and value types from a declared `Map<K, V>`.
    pub fn map_kv_ast_ty(&self, t: &Option<Type>) -> (r: (Ty, Ty))
        ensures
            (r.0.v(), r.1.v()) == map_kv_ast_ty_spec(self.pg(), self.gv(), (match t { Some(y) => Some(y.v()), None => None })),
    {
        proof {
            reveal(map_kv_ast_ty_spec);
        }
        match t {
            Some(t) => match t.node() {
                Type::Named { path, params, optional: _, line: _ } => {
                    if last_is(path, "Map") && params.len() == 2 {
                        (self.ty_of(&params[0]), self.ty_of(&params[1]))
                    } else {
                        (no_ty(), no_ty())
                    }
                },
                _ => (no_ty(), no_ty()),
            },
            None => (no_ty(), no_ty()),
        }
    }

    /// Key and value types of a `std::map` from its spelling.
    pub fn map_kv_ty(&self, map: &Ty) -> (r: (Ty, Ty))
        ensures
            (r.0.v(), r.1.v()) == map_kv_ty_spec(self.pg(), self.gv(), map.v()),
    {
        proof {
            reveal(map_kv_ty_spec);
        }
        match map_args(map) {
            Some((k, v)) => (plain_ty(&trim(&k)), spelled_ty(self.prog(), &v, self.ns())),
            None => (no_ty(), no_ty()),
        }
    }

    /// The type of the values of a map.
    pub fn map_value_ty(&self, map: &Ty) -> (r: Ty)
        ensures
            r.v() == map_value_ty_spec(self.pg(), self.gv(), map.v()),
    {
        proof {
            reveal(map_value_ty_spec);
        }
        match map_args(map) {
            Some((_, v)) => bare_ty(&v),
            None => no_ty(),
        }
    }

    /// The type of the keys of a map.
    pub fn map_key_ty(&self, map: &Ty) -> (r: Ty)
        ensures
            r.v() == map_key_ty_spec(self.pg(), self.gv(), map.v()),
    {
        proof {
            reveal(map_key_ty_spec);
        }
        match map_args(map) {
            Some((k, _)) => bare_ty(&k),
            None => no_ty(),
        }
    }

    /// The type of what a container holds, from its spelling: the elements of a
    /// `std::vector`, the values of a `std::map`.
    pub fn element_ty(&self, container: &Ty) -> (r: Ty)
        ensures
            r.v() == element_ty_spec(self.pg(), self.gv(), container.v()),
    {
        proof {
            reveal(element_ty_spec);
        }
        match between(&container.base, "std::vector<", ">") {
            Some(inner) => spelled_ty(self.prog(), &inner, self.ns()),
            None => {
                let (_, v) = self.map_kv_ty(container);
                v
            },
        }
    }

    /// The type with its aliases followed, so that a container shows as one.
    pub fn deref_alias(&self, ty: &Ty) -> (r: Ty)
        ensures
            r.v() == deref_alias_spec(self.pg(), self.gv(), ty.v()),
    {
        proof {
            reveal(deref_alias_spec);
        }
        deref_from(self.prog(), self.ns(), ty.dup(), 16)
    }

    /// Whether the value being generated lands in a 32-bit `float`.
    pub fn expects_float(&self) -> (r: bool)
        ensures
            r == expects_float_spec(self.pg(), self.gv()),
    {
        proof {
            reveal(expects_float_spec);
        }
        match self.expected() {
            Some(t) => !t.is_ptr && same(&t.base, "float"),
            None => false,
        }
    }

    /// A narrowing conversion made explicit with a cast when the value lands in a smaller
    /// scalar.
    pub fn narrow_to_target(&self, target: &Option<Ty>, code: &str, ty: &Ty) -> (r: String)
        ensures
            r@ == narrow_to_target_spec(self.pg(), self.gv(), (match target { Some(y) => Some(y.v()), None => None }), code@, ty.v()),
    {
        proof {
            reveal(narrow_to_target_spec);
        }
        match target {
            Some(t) => {
                if !t.is_ptr && !ty.is_ptr && scalar_narrows(&ty.base, &t.base) {
                    cat5("(", &t.base, ")(", code, ")")
                } else {
                    code.to_owned()
                }
            },
            None => code.to_owned(),
        }
    }

    /// The return type as a value.
    pub fn return_value_ty(&self) -> (r: Ty)
        ensures
            r.v() == return_value_ty_spec(self.pg(), self.gv()),
    {
        proof {
            reveal(return_value_ty_spec);
        }
        with_ptr(self.current_ret(), false)
    }

    /// A value put on the heap where the function returns a pointer.
    pub fn wrap_ret(&self, code: &str) -> (r: String)
        ensures
            r@ == wrap_ret_spec(self.pg(), self.gv(), code@),
    {
        proof {
            reveal(wrap_ret_spec);
        }
        if self.current_ret().is_ptr {
            cat5("new ", &self.current_ret().base, "(", code, ")")
        } else {
            code.to_owned()
        }
    }

    /// `return null`: `NULL` for a pointer or a number, a default value for a structure, a
    /// string or a container.
    pub fn return_null_value(&self) -> (r: String)
        ensures
            r@ == return_null_value_spec(self.pg(), self.gv()),
    {
        proof {
            reveal(return_null_value_spec);
        }
        if !self.current_ret().is_ptr && !empty(&self.current_ret().base)
            && (self.current_ret().info.is_some() || same(&self.current_ret().base, "std::string")
                || is_container_ty(self.current_ret())) {
            cat2(&self.current_ret().base, "()")
        } else {
            "NULL".to_owned()
        }
    }

    /// `return []`: `NULL` for a pointer, an empty container otherwise.
    pub fn return_empty_container(&self) -> (r: String)
        ensures
            r@ == return_empty_container_spec(self.pg(), self.gv()),
    {
        proof {
            reveal(return_empty_container_spec);
        }
        if !self.current_ret().is_ptr && !empty(&self.current_ret().base) {
            cat2(&self.current_ret().base, "()")
        } else {
            "NULL".to_owned()
        }
    }

    /// A field of the class or of one of its bases.
    pub fn class_field(&self, name: &str) -> (r: Option<&'a Field>)
        ensures
            (match r { Some(y) => Some(y.v()), None => None }) == class_field_spec(self.pg(), self.gv(), name@),
    {
        proof {
            reveal(class_field_spec);
        }
        inherited_field(self.prog(), self.mi(), self.class(), name)
    }

    /// The module that declares a field of the class.
    pub fn own_field_module(&self, name: &str) -> (r: usize)
        ensures
            (r as int) == own_field_module_spec(self.pg(), self.gv(), name@),
    {
        proof {
            reveal(own_field_module_spec);
        }
        field_module(self.prog(), self.mi(), self.class(), name)
    }

    /// The module that declares a field of the class a type is.
    pub fn member_module(&self, info: &TypeInfo, name: &str) -> (r: usize)
        ensures
            (r as int) == member_module_spec(self.pg(), self.gv(), info.v(), name@),
    {
        proof {
            reveal(member_module_spec);
        }
        match class_decl(self.prog(), info) {
            Some(c) => field_module(self.prog(), info.module_index, c, name),
            None => info.module_index,
        }
    }

    /// The field an assignment target stores into when it is one of this object: `this.f`,
    /// or a bare name that is a field and no local.
    pub fn assigned_own_field(&self, target: &Expr) -> (r: Option<String>)
        ensures
            (match r { Some(y) => Some(y@), None => None }) == assigned_own_field_spec(self.pg(), self.gv(), target.v()),
    {
        proof {
            reveal(assigned_own_field_spec);
        }
        match target.node() {
            Expr::Field(recv, field) => {
                if matches!(recv.node(), Expr::This) {
                    Some(field.clone())
                } else {
                    None
                }
            },
            Expr::Ident(name) => {
                if !self.is_local(name) && self.class_field(name).is_some() {
                    Some(name.clone())
                } else {
                    None
                }
            },
            _ => None,
        }
    }

    /// The C++ name of the current class.
    pub fn self_class_cpp_name(&self) -> (r: String)
        ensures
            r@ == self_class_cpp_name_spec(self.pg(), self.gv()),
    {
        proof {
            reveal(self_class_cpp_name_spec);
        }
        match resolve_name(self.prog(), &self.class().name, self.mi()) {
            Some(t) => t.cpp,
            None => self.class().name.clone(),
        }
    }

    /// A field of the class a type is, searching its base classes.
    pub fn lookup_field(&self, info: &TypeInfo, name: &str) -> (r: Option<&'a Field>)
        ensures
            (match r { Some(y) => Some(y.v()), None => None }) == lookup_field_spec(self.pg(), self.gv(), info.v(), name@),
    {
        proof {
            reveal(lookup_field_spec);
        }
        match class_decl(self.prog(), info) {
            Some(c) => inherited_field(self.prog(), info.module_index, c, name),
            None => None,
        }
    }

    /// A static field of the class a type is.
    pub fn class_static_field(&self, info: &TypeInfo, name: &str) -> (r: Option<&'a Field>)
        ensures
            (match r { Some(y) => Some(y.v()), None => None }) == class_static_field_spec(self.pg(), self.gv(), info.v(), name@),
    {
        proof {
            reveal(class_static_field_spec);
        }
        match self.lookup_field(info, name) {
            Some(f) => {
                if f.is_static {
                    Some(f)
                } else {
                    None
                }
            },
            None => None,
        }
    }

    /// The read of a static field: qualified by its class, through the accessor where it has
    /// one.
    pub fn qualified_static_ref(&self, info: &TypeInfo, f: &Field) -> (r: String)
        ensures
            r@ == qualified_static_ref_spec(self.pg(), self.gv(), info.v(), f.v()),
    {
        proof {
            reveal(qualified_static_ref_spec);
        }
        let call = if is_meyers_static(self.prog(), self.member_module(info, &f.name), f) { "()" } else { "" };
        cat4(&qualified(info, self.ns()), "::", &f.name, call)
    }

    /// The type of a field of the class or of one of its bases, found in the module that
    /// declares it.
    pub fn field_ty(&self, f: &Field) -> (r: Ty)
        ensures
            r.v() == field_ty_spec(self.pg(), self.gv(), f.v()),
    {
        proof {
            reveal(field_ty_spec);
        }
        self.field_ty_in(f, self.own_field_module(&f.name))
    }

    /// The type of a field that module `fm` declares.
    pub fn field_ty_in(&self, f: &Field, fm: usize) -> (r: Ty)
        ensures
            r.v() == field_ty_in_spec(self.pg(), self.gv(), f.v(), (fm as int)),
    {
        proof {
            reveal(field_ty_in_spec);
        }
        match &f.ty {
            Some(t) => {
                let mut ty = self.ty_of_in(t, fm);
                // a nullable value-struct field is stored as a pointer
                if !ty.is_ptr && is_nullable_field(self.class(), &f.name)
                    && is_value_struct(self.prog(), fm, t) {
                    ty.is_ptr = true;
                }
                ty
            },
            None => no_ty(),
        }
    }

    /// The type that a method of the class returns.
    pub fn class_method_return(&self, name: &str) -> (r: Option<Ty>)
        ensures
            (match r { Some(y) => Some(y.v()), None => None }) == class_method_return_spec(self.pg(), self.gv(), name@),
    {
        proof {
            reveal(class_method_return_spec);
        }
        match find_method(&self.class().methods, name, 0) {
            Some(m) => match &m.ret {
                Some(t) => Some(self.ty_of(t)),
                None => None,
            },
            None => None,
        }
    }

    /// The method an external read of a field routes through; `None` for direct access.
    pub fn field_getter(&self, info: &TypeInfo, name: &str) -> (r: Option<String>)
        ensures
            (match r { Some(y) => Some(y@), None => None }) == field_getter_spec(self.pg(), self.gv(), info.v(), name@),
    {
        proof {
            reveal(field_getter_spec);
        }
        match self.lookup_field(info, name) {
            Some(f) => getter_method(f),
            None => None,
        }
    }

    /// The method a write to a field routes through: the user's `set_x` where one is defined,
    /// else the generated `SetX`; `None` where the write access is not `set`.
    pub fn field_setter(&self, info: &TypeInfo, name: &str) -> (r: Option<String>)
        ensures
            (match r { Some(y) => Some(y@), None => None }) == field_setter_spec(self.pg(), self.gv(), info.v(), name@),
    {
        proof {
            reveal(field_setter_spec);
        }
        match class_decl(self.prog(), info) {
            None => None,
            Some(c) => match inherited_field(self.prog(), info.module_index, c, name) {
                None => None,
                Some(f) => {
                    if f.set != PropAccess::Setter {
                        return None;
                    }
                    let custom = cat2("set_", name);
                    if class_defines_method(self.prog(), info.module_index, c, &custom) {
                        Some(custom)
                    } else {
                        Some(cat2("Set", &cap(name)))
                    }
                },
            },
        }
    }

    /// The own field an assignment target names, where the write must route through a
    /// user-written setter: the field declares `set`, a custom `set_x` exists, and this is
    /// not one of the property's accessors.
    pub fn own_field_setter(&self, target: &Expr) -> (r: Option<String>)
        ensures
            (match r { Some(y) => Some(y@), None => None }) == own_field_setter_spec(self.pg(), self.gv(), target.v()),
    {
        proof {
            reveal(own_field_setter_spec);
        }
        let name = match target.node() {
            Expr::Ident(n) => {
                if self.is_local(n) {
                    return None;
                }
                n.clone()
            },
            Expr::Field(recv, n) => {
                if !matches!(recv.node(), Expr::This) {
                    return None;
                }
                n.clone()
            },
            _ => {
                return None;
            },
        };
        match self.class_field(&name) {
            None => None,
            Some(f) => {
                let setter = cat2("set_", &name);
                if f.set != PropAccess::Setter
                    || !class_defines_method(self.prog(), self.mi(), self.class(), &setter)
                    || same(self.current_fn(), &setter) || same(self.current_fn(), &cat2("get_", &name)) {
                    None
                } else {
                    Some(name)
                }
            },
        }
    }

    /// The type of a property of another class.
    pub fn accessor_field_ty(&self, info: &TypeInfo, name: &str) -> (r: Ty)
        ensures
            r.v() == accessor_field_ty_spec(self.pg(), self.gv(), info.v(), name@),
    {
        proof {
            reveal(accessor_field_ty_spec);
        }
        match self.lookup_field(info, name) {
            Some(f) => match &f.ty {
                Some(t) => self.ty_of_in(t, self.member_module(info, name)),
                None => no_ty(),
            },
            None => no_ty(),
        }
    }

    /// The type of a member, found in the module that declares it.
    pub fn member_field_ty(&self, info: &TypeInfo, name: &str) -> (r: Option<Ty>)
        ensures
            (match r { Some(y) => Some(y.v()), None => None }) == member_field_ty_spec(self.pg(), self.gv(), info.v(), name@),
    {
        proof {
            reveal(member_field_ty_spec);
        }
        match struct_fields_of(self.prog(), info) {
            Some(fields) => match struct_field_named(fields, name, 0) {
                Some(f) => Some(self.ty_of_in(&f.ty, info.module_index)),
                None => None,
            },
            None => match self.lookup_field(info, name) {
                Some(f) => {
                    if info.module_index == self.mi() {
                        Some(self.field_ty_in(f, self.member_module(info, name)))
                    } else {
                        match &f.ty {
                            Some(t) => Some(self.ty_of_in(t, self.member_module(info, name))),
                            None => Some(no_ty()),
                        }
                    }
                },
                None => None,
            },
        }
    }

    /// Whether the class or interface of a receiver declares a method of this name itself.
    pub fn has_method(&self, recv: &Ty, name: &str) -> (r: bool)
        ensures
            r == has_method_spec(self.pg(), self.gv(), recv.v(), name@),
    {
        proof {
            reveal(has_method_spec);
        }
        match &recv.info {
            Some(info) => method_of(self.prog(), info, name).is_some(),
            None => false,
        }
    }

    /// Whether a method of the type of a receiver is marked as overloaded.
    pub fn method_is_overloaded(&self, recv: &Ty, method: &str) -> (r: bool)
        ensures
            r == method_is_overloaded_spec(self.pg(), self.gv(), recv.v(), method@),
    {
        proof {
            reveal(method_is_overloaded_spec);
        }
        match &recv.info {
            Some(info) => match method_of(self.prog(), info, method) {
                Some(m) => meta_has(&m.meta, "overload"),
                None => false,
            },
            None => false,
        }
    }

    /// The type of an argument as far as it tells overloads apart.
    pub fn arg_ty(&self, e: &Expr) -> (r: Ty)
        ensures
            r.v() == arg_ty_spec(self.pg(), self.gv(), e.v()),
    {
        proof {
            reveal(arg_ty_spec);
        }
        match e.node() {
            Expr::Int(_) => int_ty(),
            Expr::Float(_) => float_ty(),
            Expr::Bool(_) => bool_ty(),
            Expr::Str { raw: _, interpolated: _ } => str_ty(),
            Expr::Ident(n) => match self.lookup_local(n) {
                Some(t) => t,
                None => no_ty(),
            },
            Expr::Cast { expr: _, ty: Some(t) } => self.ty_of(t),
            _ => no_ty(),
        }
    }

    /// Whether the arguments from `i` on agree with the parameter types of an overload. An
    /// argument of unknown type agrees with anything.
    fn overload_matches(&self, params: &Vec<String>, args: &Vec<Expr>, i: usize) -> (r: bool)
        ensures
            r == overload_matches_spec(self.pg(), self.gv(), texts(params@), exprs_v(args@), (i as int)),
    {
        let ghost i_0 = i;
        let mut i: usize = i;
        #[verifier::loop_isolation(false)]
        loop
            invariant
                overload_matches_spec(self.pg(), self.gv(), texts(params@), exprs_v(args@), (i_0 as int)) == overload_matches_spec(self.pg(), self.gv(), texts(params@), exprs_v(args@), (i as int)),
            decreases args.len() - i,
        {
            proof {
                reveal(overload_matches_spec);
            }
            if i >= args.len() || i >= params.len() {
                return true;
            }
            let a = self.arg_ty(&args[i]);
            if !empty(&a.base) && !same(&a.base, &self.ty_of(&type_from_name(&params[i])).base) {
                return false;
            }
            i = i + 1;
        }
    }

    /// The return type of the overload among the metadata from `i` on that the arguments
    /// match.
    fn overload_from(&self, metas: &Vec<Meta>, args: &Vec<Expr>, i: usize) -> (r: Option<Ty>)
        ensures
            (match r { Some(y) => Some(y.v()), None => None }) == overload_from_spec(self.pg(), self.gv(), metas_v(metas@), exprs_v(args@), (i as int)),
    {
        let ghost i_0 = i;
        let mut i: usize = i;
        #[verifier::loop_isolation(false)]
        loop
            invariant
                overload_from_spec(self.pg(), self.gv(), metas_v(metas@), exprs_v(args@), (i_0 as int)) == overload_from_spec(self.pg(), self.gv(), metas_v(metas@), exprs_v(args@), (i as int)),
            decreases metas.len() - i,
        {
            proof {
                reveal(overload_from_spec);
            }
            if i >= metas.len() {
                return None;
            }
            if same(&metas[i].name, "overload") && metas[i].args.len() > 0 {
                match parse_overload_sig(&metas[i].args[0]) {
                    Some((params, ret)) => {
                        if params.len() == args.len() && self.overload_matches(&params, args, 0) {
                            return Some(self.ty_of(&type_from_name(&ret)));
                        }
                    },
                    None => {},
                }
            }
            i = i + 1;
        }
    }

    /// The return type of a call to a method with `@:overload` signatures; `None` where it
    /// has none or none matches.
    pub fn resolve_overload_ret(&self, m: &Function, args: &Vec<Expr>) -> (r: Option<Ty>)
        ensures
            (match r { Some(y) => Some(y.v()), None => None }) == resolve_overload_ret_spec(self.pg(), self.gv(), m.v(), exprs_v(args@)),
    {
        proof {
            reveal(resolve_overload_ret_spec);
        }
        self.overload_from(&m.meta, args, 0)
    }

    /// The type that a method of the type of a receiver returns.
    pub fn method_return_ty(&self, recv: &Ty, method: &str, args: &Vec<Expr>) -> (r: Ty)
        ensures
            r.v() == method_return_ty_spec(self.pg(), self.gv(), recv.v(), method@, exprs_v(args@)),
    {
        proof {
            reveal(method_return_ty_spec);
        }
        match &recv.info {
            None => no_ty(),
            Some(info) => match method_of(self.prog(), info, method) {
                None => no_ty(),
                Some(m) => match self.resolve_overload_ret(m, args) {
                    Some(t) => t,
                    None => match &m.ret {
                        Some(t) => self.ty_of_in(t, info.module_index),
                        None => no_ty(),
                    },
                },
            },
        }
    }

    fn arg_names_from(&self, args: &Vec<Expr>, i: usize, out: Vec<String>) -> (r: Vec<String>)
        ensures
            texts(r@) == arg_names_from_spec(self.pg(), self.gv(), exprs_v(args@), (i as int), texts(out@)),
    {
        let ghost i_0 = i;
        let ghost out_0 = out;
        let mut i: usize = i;
        let mut out: Vec<String> = out;
        #[verifier::loop_isolation(false)]
        loop
            invariant
                arg_names_from_spec(self.pg(), self.gv(), exprs_v(args@), (i_0 as int), texts(out_0@)) == arg_names_from_spec(self.pg(), self.gv(), exprs_v(args@), (i as int), texts(out@)),
            decreases args.len() - i,
        {
            proof {
                reveal(arg_names_from_spec);
            }
            if i >= args.len() {
                return out;
            }
            let t = self.arg_ty(&args[i]);
            out.push(if empty(&t.base) { "?".to_owned() } else { t.base });
            i = i + 1;
        }
    }

    /// What is wrong with a call to an overloaded method that matches no signature; `None`
    /// where nothing is.
    pub fn overload_mismatch(&self, recv: &Ty, method: &str, args: &Vec<Expr>) -> (r: Option<String>)
        ensures
            (match r { Some(y) => Some(y@), None => None }) == overload_mismatch_spec(self.pg(), self.gv(), recv.v(), method@, exprs_v(args@)),
    {
        proof {
            reveal(overload_mismatch_spec);
        }
        match &recv.info {
            None => None,
            Some(info) => match method_of(self.prog(), info, method) {
                None => None,
                Some(m) => {
                    if !meta_has(&m.meta, "overload") || self.resolve_overload_ret(m, args).is_some() {
                        None
                    } else {
                        Some(cat5("call to overloaded method `", method, "` with argument type(s) (", &join(&self.arg_names_from(args, 0, Vec::new()), ", "), ") matches no @:overload signature; Hatchet will not guess the intended C++ overload (add a matching @:overload or correct the call arguments)"))
                    }
                },
            },
        }
    }

    /// The constant an enum member of this name is, with its type.
    pub fn variant_of(&self, info: &TypeInfo, name: &str) -> (r: (String, Ty))
        ensures
            (r.0@, r.1.v()) == variant_of_spec(self.pg(), self.gv(), info.v(), name@),
    {
        proof {
            reveal(variant_of_spec);
        }
        match adt_enum(self.prog(), info) {
            // a variant without parameters is made by its factory
            Some(e) => {
                let ctor = enum_value_ctor(info, name, self.ns());
                let paramless = match variant_named(&e.variants, name, 0) {
                    Some(v) => v.params.len() == 0,
                    None => false,
                };
                (if paramless { cat2(&ctor, "()") } else { ctor }, info_ty(&qualified(info, self.ns()), false, Some(info.dup())))
            },
            // a member of an `enum abstract` has the underlying type
            None => {
                let base = match info.kind {
                    TypeKind::EnumAbstract => match enum_abstract_underlying(self.prog(), info) {
                        Some(u) => map_type_base(self.prog(), &u, self.mi(), self.ns()),
                        None => qualified(info, self.ns()),
                    },
                    _ => qualified(info, self.ns()),
                };
                (enum_constant(info, name, self.ns()), info_ty(&base, false, Some(info.dup())))
            },
        }
    }

    /// A bare enum-variant name as its qualified constant. The expected type is preferred
    /// where it is an enum with that variant.
    pub fn enum_variant_ref(&self, name: &str) -> (r: Option<(String, Ty)>)
        ensures
            (match r { Some(y) => Some((y.0@, y.1.v())), None => None }) == enum_variant_ref_spec(self.pg(), self.gv(), name@),
    {
        proof {
            reveal(enum_variant_ref_spec);
        }
        match self.expected() {
            Some(t) => match &t.info {
                Some(info) => {
                    if is_enumish(info.kind) && enum_has_variant(self.prog(), info, name) {
                        return Some(self.variant_of(info, name));
                    }
                },
                None => {},
            },
            None => {},
        }
        match enum_with_variant(self.prog(), name, 0) {
            Some(info) => Some(self.variant_of(info, name)),
            None => None,
        }
    }
}

/// The spelling a variable of a type is declared with.
pub fn decl_spelling(ty: &Ty) -> (r: String)
    ensures
        r@ == decl_spelling_spec(ty.v()),
{
    if ty.is_ptr {
        cat2(&ty.base, "*")
    } else {
        ty.base.clone()
    }
}

/// What [`spelled_ty`] computes.
#[verifier::opaque]
pub open spec fn spelled_ty_spec(prog: ProgramV, spelling: Seq<char>, ns: Seq<Seq<char>>) -> TyV
{
    let text = trim_spec(spelling);
    let base = trim_spec(no_stars_spec(text));
    let info = resolve_type_by_cpp_spelling_spec(prog, base, ns);
    info_ty_spec(base, ("*"@).is_suffix_of(text), info)
}

/// What [`bare_ty`] computes.
#[verifier::opaque]
pub open spec fn bare_ty_spec(spelling: Seq<char>) -> TyV
{
    let text = trim_spec(spelling);
    info_ty_spec(trim_spec(no_stars_spec(text)), ("*"@).is_suffix_of(text), None)
}

/// What [`map_args`] computes.
#[verifier::opaque]
pub open spec fn map_args_spec(map: TyV) -> Option<(Seq<char>, Seq<char>)>
{
    match between_spec(map.base, "std::map<"@, ">"@) {
        Some(inner) => { split_top_comma_spec(trim_spec(inner)) },
        None => { None },
    }
}

/// What [`named_ty`] computes.
#[verifier::opaque]
pub open spec fn named_ty_spec(prog: ProgramV, t: TypeV, ctx: int, ns: Seq<Seq<char>>) -> TyV
{
    let use_ = map_type_use_spec(prog, t, ctx, ns);
    let info = match t {
        TypeV::Named { path, params, optional: _, line: _ } => {
            if (params.len()) > 0 { None } else { dispatch_info_spec(prog, t, path, ctx) }
        },
        _ => { None },
    };
    info_ty_spec(no_stars_spec(use_), ("*"@).is_suffix_of(use_), info)
}

/// What [`dispatch_info`] computes.
#[verifier::opaque]
pub open spec fn dispatch_info_spec(prog: ProgramV, t: TypeV, path: Seq<Seq<char>>, ctx: int) -> Option<TypeInfoV>
{
    match resolve_type_spec(prog, path, ctx) {
        None => { None },
        Some(direct) => {
            match direct.kind {
                TypeKind::AliasTypedef => {
                    let (target, at) = resolve_alias_type_ctx_spec(prog, t, ctx);
                    match target {
                        TypeV::Named { path: tp, params: tpar, optional: _, line: _ } => {
                            if (tpar.len()) > 0 { Some(direct) } else {
                                match resolved_spec(prog, tp, at) {
                                    Some(i) => { Some(i) },
                                    None => { Some(direct) },
                                }
                            }
                        },
                        _ => { Some(direct) },
                    }
                },
                _ => { Some(direct) },
            }
        },
    }
}

/// What [`ty_in`] computes.
pub open spec fn ty_in_spec(prog: ProgramV, t: TypeV, ctx: int, ns: Seq<Seq<char>>) -> TyV
    decreases t,
{
    match t {
        TypeV::Named { path, params, optional: _, line: _ } => {
            if ((params.len()) == 1) && last_is_spec(path, "Null"@) {
                let inner = ty_in_spec(prog, params[0], ctx, ns);
                let inner = TyV { nullable: !inner.is_ptr, ..inner };
                let inner = TyV { is_ptr: true, ..inner };
                inner
            } else {
                if ((params.len()) == 1) && is_raw_pointer_spec(path) {
                    let inner = ty_in_spec(prog, params[0], ctx, ns);
                    let inner = TyV { is_ptr: true, ..inner };
                    inner
                } else { named_ty_spec(prog, t, ctx, ns) }
            }
        },
        _ => { named_ty_spec(prog, t, ctx, ns) },
    }
}

/// What [`alias_step`] computes.
#[verifier::opaque]
pub open spec fn alias_step_spec(prog: ProgramV, cur: TyV, ns: Seq<Seq<char>>) -> Option<TyV>
{
    match cur.info {
        Some(info) => {
            match info.kind {
                TypeKind::AliasTypedef => {
                    match alias_target_spec(prog, info) {
                        Some(target) => {
                            let next = ty_in_spec(prog, target, info.module_index, ns);
                            if (next.base == cur.base) { None } else {
                                let next = TyV { is_ptr: next.is_ptr || cur.is_ptr, ..next };
                                let next = TyV { nullable: next.nullable || cur.nullable, ..next };
                                Some(next)
                            }
                        },
                        None => { None },
                    }
                },
                _ => { None },
            }
        },
        None => { None },
    }
}

/// What [`deref_from`] computes.
pub open spec fn deref_from_spec(prog: ProgramV, ns: Seq<Seq<char>>, cur: TyV, fuel: int) -> TyV
    decreases fuel,
{
    if fuel < 1 { cur } else {
        match alias_step_spec(prog, cur, ns) {
            Some(next) => {
                let cur = next;
                let fuel = fuel - 1;
                deref_from_spec(prog, ns, cur, fuel)
            },
            None => { cur },
        }
    }
}

/// What [`param_ty`] computes.
#[verifier::opaque]
pub open spec fn param_ty_spec(prog: ProgramV, p: ParamV, ctx: int, ns: Seq<Seq<char>>) -> Option<TyV>
{
    match p.ty {
        None => { None },
        Some(t) => {
            let ty = ty_in_spec(prog, t, ctx, ns);
            let ty = if p.optional && (!ty.is_ptr) && is_value_struct_spec(prog, ctx, t) {
                let ty = TyV { is_ptr: true, ..ty };
                let ty = TyV { nullable: true, ..ty };
                ty
            } else { ty };
            Some(ty)
        },
    }
}

/// What [`param_tys_from`] computes.
pub open spec fn param_tys_from_spec(prog: ProgramV, params: Seq<ParamV>, ctx: int, ns: Seq<Seq<char>>, i: int, out: Seq<Option<TyV>>) -> Seq<Option<TyV>>
    decreases params.len() - i,
{
    if !(0 <= i < params.len()) { out } else {
        let out = out.push(param_ty_spec(prog, params[i], ctx, ns));
        let i = i + 1;
        param_tys_from_spec(prog, params, ctx, ns, i, out)
    }
}

/// What [`param_tys`] computes.
#[verifier::opaque]
pub open spec fn param_tys_spec(prog: ProgramV, params: Seq<ParamV>, ctx: int, ns: Seq<Seq<char>>) -> Seq<Option<TyV>>
{
    param_tys_from_spec(prog, params, ctx, ns, 0int, Seq::empty())
}

/// What [`ctor_of`] computes.
#[verifier::opaque]
pub open spec fn ctor_of_spec(prog: ProgramV, t: TypeV, mi: int) -> Option<(FunctionV, int)>
{
    match ty_named_info_spec(prog, mi, t) {
        Some(info) => {
            match class_decl_spec(prog, info) {
                Some(c) => {
                    match c.ctor {
                        Some(f) => { Some((f, info.module_index)) },
                        None => { None },
                    }
                },
                None => { None },
            }
        },
        None => { None },
    }
}

/// What [`has_position`] computes.
pub open spec fn has_position_spec(owned: Seq<int>, k: int, i: int) -> bool
    decreases owned.len() - i,
{
    if !(0 <= i < owned.len()) { false } else {
        if (owned[i]) == k { true } else {
            let i = i + 1;
            has_position_spec(owned, k, i)
        }
    }
}

/// What [`position_flags`] computes.
pub open spec fn position_flags_spec(owned: Seq<int>, n: int, i: int, out: Seq<bool>) -> Seq<bool>
    decreases n - i,
{
    if i >= n { out } else {
        let out = out.push(has_position_spec(owned, i, 0int));
        let i = i + 1;
        position_flags_spec(owned, n, i, out)
    }
}

/// What [`ctor_owned_params`] computes.
#[verifier::opaque]
pub open spec fn ctor_owned_params_spec(prog: ProgramV, t: TypeV, mi: int) -> Seq<bool>
{
    match ty_named_info_spec(prog, mi, t) {
        Some(info) => {
            match ctor_of_spec(prog, t, mi) {
                Some((f, cmi)) => {
                    match facts_of_spec(prog, info.name, cmi) {
                        Some(facts) => {
                            position_flags_spec(facts.owned_params, f.params.len() as int, 0int, Seq::empty())
                        },
                        None => { position_flags_spec(Seq::empty(), f.params.len() as int, 0int, Seq::empty()) },
                    }
                },
                None => { Seq::empty() },
            }
        },
        None => { Seq::empty() },
    }
}

/// What [`BodyGen::ty_of`] computes.
#[verifier::opaque]
pub open spec fn ty_of_spec(p: Env, st: GenV, t: TypeV) -> TyV
{
    ty_in_spec(p.prog, t, st.mi, st.ns)
}

/// What [`BodyGen::ty_of_in`] computes.
#[verifier::opaque]
pub open spec fn ty_of_in_spec(p: Env, st: GenV, t: TypeV, ctx: int) -> TyV
{
    ty_in_spec(p.prog, t, ctx, st.ns)
}

/// What [`BodyGen::opt_ty`] computes.
#[verifier::opaque]
pub open spec fn opt_ty_spec(p: Env, st: GenV, t: Option<TypeV>) -> TyV
{
    match t {
        Some(t) => { ty_of_spec(p, st, t) },
        None => { no_ty_spec() },
    }
}

/// What [`BodyGen::ctor_param_types`] computes.
#[verifier::opaque]
pub open spec fn ctor_param_types_spec(p: Env, st: GenV, t: TypeV) -> Seq<Option<TyV>>
{
    match ctor_of_spec(p.prog, t, st.mi) {
        Some((f, cmi)) => { param_tys_spec(p.prog, f.params, cmi, st.ns) },
        None => { Seq::empty() },
    }
}

/// What [`BodyGen::elem_ast_ty`] computes.
#[verifier::opaque]
pub open spec fn elem_ast_ty_spec(p: Env, st: GenV, t: Option<TypeV>) -> Option<TyV>
{
    match t {
        Some(t) => {
            match t {
                TypeV::Named { path, params, optional: _, line: _ } => {
                    if last_is_spec(path, "Array"@) && ((params.len()) == 1) { Some(ty_of_spec(p, st, params[0])) } else { None }
                },
                _ => { None },
            }
        },
        None => { None },
    }
}

/// What [`BodyGen::map_kv_ast_ty`] computes.
#[verifier::opaque]
pub open spec fn map_kv_ast_ty_spec(p: Env, st: GenV, t: Option<TypeV>) -> (TyV, TyV)
{
    match t {
        Some(t) => {
            match t {
                TypeV::Named { path, params, optional: _, line: _ } => {
                    if last_is_spec(path, "Map"@) && ((params.len()) == 2) { (ty_of_spec(p, st, params[0]), ty_of_spec(p, st, params[1])) } else { (no_ty_spec(), no_ty_spec()) }
                },
                _ => { (no_ty_spec(), no_ty_spec()) },
            }
        },
        None => { (no_ty_spec(), no_ty_spec()) },
    }
}

/// What [`BodyGen::map_kv_ty`] computes.
#[verifier::opaque]
pub open spec fn map_kv_ty_spec(p: Env, st: GenV, map: TyV) -> (TyV, TyV)
{
    match map_args_spec(map) {
        Some((k, v)) => { (plain_ty_spec(trim_spec(k)), spelled_ty_spec(p.prog, v, st.ns)) },
        None => { (no_ty_spec(), no_ty_spec()) },
    }
}

/// What [`BodyGen::map_value_ty`] computes.
#[verifier::opaque]
pub open spec fn map_value_ty_spec(p: Env, st: GenV, map: TyV) -> TyV
{
    match map_args_spec(map) {
        Some((_, v)) => { bare_ty_spec(v) },
        None => { no_ty_spec() },
    }
}

/// What [`BodyGen::map_key_ty`] computes.
#[verifier::opaque]
pub open spec fn map_key_ty_spec(p: Env, st: GenV, map: TyV) -> TyV
{
    match map_args_spec(map) {
        Some((k, _)) => { bare_ty_spec(k) },
        None => { no_ty_spec() },
    }
}

/// What [`BodyGen::element_ty`] computes.
#[verifier::opaque]
pub open spec fn element_ty_spec(p: Env, st: GenV, container: TyV) -> TyV
{
    match between_spec(container.base, "std::vector<"@, ">"@) {
        Some(inner) => { spelled_ty_spec(p.prog, inner, st.ns) },
        None => {
            let (_, v) = map_kv_ty_spec(p, st, container);
            v
        },
    }
}

/// What [`BodyGen::deref_alias`] computes.
#[verifier::opaque]
pub open spec fn deref_alias_spec(p: Env, st: GenV, ty: TyV) -> TyV
{
    deref_from_spec(p.prog, st.ns, ty, 16int)
}

/// What [`BodyGen::expects_float`] computes.
#[verifier::opaque]
pub open spec fn expects_float_spec(p: Env, st: GenV) -> bool
{
    match st.expected {
        Some(t) => { (!t.is_ptr) && (t.base == "float"@) },
        None => { false },
    }
}

/// What [`BodyGen::narrow_to_target`] computes.
#[verifier::opaque]
pub open spec fn narrow_to_target_spec(p: Env, st: GenV, target: Option<TyV>, code: Seq<char>, ty: TyV) -> Seq<char>
{
    match target {
        Some(t) => {
            if (!t.is_ptr) && (!ty.is_ptr) && scalar_narrows_spec(ty.base, t.base) { "("@ + t.base + ")("@ + code + ")"@ } else { code }
        },
        None => { code },
    }
}

/// What [`BodyGen::return_value_ty`] computes.
#[verifier::opaque]
pub open spec fn return_value_ty_spec(p: Env, st: GenV) -> TyV
{
    with_ptr_spec(st.current_ret, false)
}

/// What [`BodyGen::wrap_ret`] computes.
#[verifier::opaque]
pub open spec fn wrap_ret_spec(p: Env, st: GenV, code: Seq<char>) -> Seq<char>
{
    if st.current_ret.is_ptr { "new "@ + st.current_ret.base + "("@ + code + ")"@ } else { code }
}

/// What [`BodyGen::return_null_value`] computes.
#[verifier::opaque]
pub open spec fn return_null_value_spec(p: Env, st: GenV) -> Seq<char>
{
    if (!st.current_ret.is_ptr) && (!((st.current_ret.base).len() == 0)) && ((st.current_ret.info is Some) || (st.current_ret.base == "std::string"@) || is_container_ty_spec(st.current_ret)) { st.current_ret.base + "()"@ } else { "NULL"@ }
}

/// What [`BodyGen::return_empty_container`] computes.
#[verifier::opaque]
pub open spec fn return_empty_container_spec(p: Env, st: GenV) -> Seq<char>
{
    if (!st.current_ret.is_ptr) && (!((st.current_ret.base).len() == 0)) { st.current_ret.base + "()"@ } else { "NULL"@ }
}

/// What [`BodyGen::class_field`] computes.
#[verifier::opaque]
pub open spec fn class_field_spec(p: Env, st: GenV, name: Seq<char>) -> Option<FieldV>
{
    inherited_field_spec(p.prog, st.mi, p.class, name)
}

/// What [`BodyGen::own_field_module`] computes.
#[verifier::opaque]
pub open spec fn own_field_module_spec(p: Env, st: GenV, name: Seq<char>) -> int
{
    field_module_spec(p.prog, st.mi, p.class, name)
}

/// What [`BodyGen::member_module`] computes.
#[verifier::opaque]
pub open spec fn member_module_spec(p: Env, st: GenV, info: TypeInfoV, name: Seq<char>) -> int
{
    match class_decl_spec(p.prog, info) {
        Some(c) => { field_module_spec(p.prog, info.module_index, c, name) },
        None => { info.module_index },
    }
}

/// What [`BodyGen::assigned_own_field`] computes.
#[verifier::opaque]
pub open spec fn assigned_own_field_spec(p: Env, st: GenV, target: ExprV) -> Option<Seq<char>>
{
    match target {
        ExprV::Field(recv, field) => {
            if (match *recv { ExprV::This => true, _ => false }) { Some(field) } else { None }
        },
        ExprV::Ident(name) => {
            if (!is_local_spec(p, st, name)) && (class_field_spec(p, st, name) is Some) { Some(name) } else { None }
        },
        _ => { None },
    }
}

/// What [`BodyGen::self_class_cpp_name`] computes.
#[verifier::opaque]
pub open spec fn self_class_cpp_name_spec(p: Env, st: GenV) -> Seq<char>
{
    match resolve_name_spec(p.prog, p.class.name, st.mi) {
        Some(t) => { t.cpp },
        None => { p.class.name },
    }
}

/// What [`BodyGen::lookup_field`] computes.
#[verifier::opaque]
pub open spec fn lookup_field_spec(p: Env, st: GenV, info: TypeInfoV, name: Seq<char>) -> Option<FieldV>
{
    match class_decl_spec(p.prog, info) {
        Some(c) => { inherited_field_spec(p.prog, info.module_index, c, name) },
        None => { None },
    }
}

/// What [`BodyGen::class_static_field`] computes.
#[verifier::opaque]
pub open spec fn class_static_field_spec(p: Env, st: GenV, info: TypeInfoV, name: Seq<char>) -> Option<FieldV>
{
    match lookup_field_spec(p, st, info, name) {
        Some(f) => {
            if f.is_static { Some(f) } else { None }
        },
        None => { None },
    }
}

/// What [`BodyGen::qualified_static_ref`] computes.
#[verifier::opaque]
pub open spec fn qualified_static_ref_spec(p: Env, st: GenV, info: TypeInfoV, f: FieldV) -> Seq<char>
{
    let call = if is_meyers_static_spec(p.prog, member_module_spec(p, st, info, f.name), f) { "()"@ } else { ""@ };
    qualified_spec(info, st.ns) + "::"@ + f.name + call
}

/// What [`BodyGen::field_ty`] computes.
#[verifier::opaque]
pub open spec fn field_ty_spec(p: Env, st: GenV, f: FieldV) -> TyV
{
    field_ty_in_spec(p, st, f, own_field_module_spec(p, st, f.name))
}

/// What [`BodyGen::field_ty_in`] computes.
#[verifier::opaque]
pub open spec fn field_ty_in_spec(p: Env, st: GenV, f: FieldV, fm: int) -> TyV
{
    match f.ty {
        Some(t) => {
            let ty = ty_of_in_spec(p, st, t, fm);
            let ty = if (!ty.is_ptr) && is_nullable_field_spec(p.class, f.name) && is_value_struct_spec(p.prog, fm, t) {
                let ty = TyV { is_ptr: true, ..ty };
                ty
            } else { ty };
            ty
        },
        None => { no_ty_spec() },
    }
}

/// What [`BodyGen::class_method_return`] computes.
#[verifier::opaque]
pub open spec fn class_method_return_spec(p: Env, st: GenV, name: Seq<char>) -> Option<TyV>
{
    match find_method_spec(p.class.methods, name, 0int) {
        Some(m) => {
            match m.ret {
                Some(t) => { Some(ty_of_spec(p, st, t)) },
                None => { None },
            }
        },
        None => { None },
    }
}

/// What [`BodyGen::field_getter`] computes.
#[verifier::opaque]
pub open spec fn field_getter_spec(p: Env, st: GenV, info: TypeInfoV, name: Seq<char>) -> Option<Seq<char>>
{
    match lookup_field_spec(p, st, info, name) {
        Some(f) => { getter_method_spec(f) },
        None => { None },
    }
}

/// What [`BodyGen::field_setter`] computes.
#[verifier::opaque]
pub open spec fn field_setter_spec(p: Env, st: GenV, info: TypeInfoV, name: Seq<char>) -> Option<Seq<char>>
{
    match class_decl_spec(p.prog, info) {
        None => { None },
        Some(c) => {
            match inherited_field_spec(p.prog, info.module_index, c, name) {
                None => { None },
                Some(f) => {
                    if f.set != (PropAccess::Setter) { None } else {
                        let custom = "set_"@ + name;
                        if class_defines_method_spec(p.prog, info.module_index, c, custom) { Some(custom) } else { Some("Set"@ + cap_spec(name)) }
                    }
                },
            }
        },
    }
}

/// What [`BodyGen::own_field_setter`] computes.
#[verifier::opaque]
pub open spec fn own_field_setter_spec(p: Env, st: GenV, target: ExprV) -> Option<Seq<char>>
{
    match target {
        ExprV::Ident(n) => {
            if is_local_spec(p, st, n) { None } else {
                let name = n;
                match class_field_spec(p, st, name) {
                    None => { None },
                    Some(f) => {
                        let setter = "set_"@ + name;
                        if (f.set != (PropAccess::Setter)) || (!class_defines_method_spec(p.prog, st.mi, p.class, setter)) || (st.current_fn == setter) || (st.current_fn == "get_"@ + name) { None } else { Some(name) }
                    },
                }
            }
        },
        ExprV::Field(recv, n) => {
            if !(match *recv { ExprV::This => true, _ => false }) { None } else {
                let name = n;
                match class_field_spec(p, st, name) {
                    None => { None },
                    Some(f) => {
                        let setter = "set_"@ + name;
                        if (f.set != (PropAccess::Setter)) || (!class_defines_method_spec(p.prog, st.mi, p.class, setter)) || (st.current_fn == setter) || (st.current_fn == "get_"@ + name) { None } else { Some(name) }
                    },
                }
            }
        },
        _ => { None },
    }
}

/// What [`BodyGen::accessor_field_ty`] computes.
#[verifier::opaque]
pub open spec fn accessor_field_ty_spec(p: Env, st: GenV, info: TypeInfoV, name: Seq<char>) -> TyV
{
    match lookup_field_spec(p, st, info, name) {
        Some(f) => {
            match f.ty {
                Some(t) => { ty_of_in_spec(p, st, t, member_module_spec(p, st, info, name)) },
                None => { no_ty_spec() },
            }
        },
        None => { no_ty_spec() },
    }
}

/// What [`BodyGen::member_field_ty`] computes.
#[verifier::opaque]
pub open spec fn member_field_ty_spec(p: Env, st: GenV, info: TypeInfoV, name: Seq<char>) -> Option<TyV>
{
    match struct_fields_of_spec(p.prog, info) {
        Some(fields) => {
            match struct_field_named_spec(fields, name, 0int) {
                Some(f) => { Some(ty_of_in_spec(p, st, f.ty, info.module_index)) },
                None => { None },
            }
        },
        None => {
            match lookup_field_spec(p, st, info, name) {
                Some(f) => {
                    if info.module_index == st.mi { Some(field_ty_in_spec(p, st, f, member_module_spec(p, st, info, name))) } else {
                        match f.ty {
                            Some(t) => { Some(ty_of_in_spec(p, st, t, member_module_spec(p, st, info, name))) },
                            None => { Some(no_ty_spec()) },
                        }
                    }
                },
                None => { None },
            }
        },
    }
}

/// What [`BodyGen::has_method`] computes.
#[verifier::opaque]
pub open spec fn has_method_spec(p: Env, st: GenV, recv: TyV, name: Seq<char>) -> bool
{
    match recv.info {
        Some(info) => { method_of_spec(p.prog, info, name) is Some },
        None => { false },
    }
}

/// What [`BodyGen::method_is_overloaded`] computes.
#[verifier::opaque]
pub open spec fn method_is_overloaded_spec(p: Env, st: GenV, recv: TyV, method: Seq<char>) -> bool
{
    match recv.info {
        Some(info) => {
            match method_of_spec(p.prog, info, method) {
                Some(m) => { meta_has_spec(m.meta, "overload"@) },
                None => { false },
            }
        },
        None => { false },
    }
}

/// What [`BodyGen::arg_ty`] computes.
#[verifier::opaque]
pub open spec fn arg_ty_spec(p: Env, st: GenV, e: ExprV) -> TyV
{
    match e {
        ExprV::Int(_) => { int_ty_spec() },
        ExprV::Float(_) => { float_ty_spec() },
        ExprV::Bool(_) => { bool_ty_spec() },
        ExprV::Str { raw: _, interpolated: _ } => { str_ty_spec() },
        ExprV::Ident(n) => {
            match lookup_local_spec(p, st, n) {
                Some(t) => { t },
                None => { no_ty_spec() },
            }
        },
        ExprV::Cast { expr: _, ty: Some(t) } => { ty_of_spec(p, st, t) },
        _ => { no_ty_spec() },
    }
}

/// What [`BodyGen::overload_matches`] computes.
#[verifier::opaque]
pub open spec fn overload_matches_spec(p: Env, st: GenV, params: Seq<Seq<char>>, args: Seq<ExprV>, i: int) -> bool
    decreases args.len() - i,
{
    if !(0 <= i < args.len()) || !(0 <= i < params.len()) { true } else {
        let a = arg_ty_spec(p, st, args[i]);
        if (!((a.base).len() == 0)) && (!(a.base == ty_of_spec(p, st, type_from_name_spec(params[i])).base)) { false } else {
            let i = i + 1;
            overload_matches_spec(p, st, params, args, i)
        }
    }
}

/// What [`BodyGen::overload_from`] computes.
#[verifier::opaque]
pub open spec fn overload_from_spec(p: Env, st: GenV, metas: Seq<MetaV>, args: Seq<ExprV>, i: int) -> Option<TyV>
    decreases metas.len() - i,
{
    if !(0 <= i < metas.len()) { None } else {
        if (metas[i].name == "overload"@) && ((metas[i].args.len()) > 0) {
            match parse_overload_sig_spec(metas[i].args[0]) {
                Some((params, ret)) => {
                    if ((params.len()) == (args.len())) && overload_matches_spec(p, st, params, args, 0int) { Some(ty_of_spec(p, st, type_from_name_spec(ret))) } else {
                        let i = i + 1;
                        overload_from_spec(p, st, metas, args, i)
                    }
                },
                None => {
                    let i = i + 1;
                    overload_from_spec(p, st, metas, args, i)
                },
            }
        } else {
            let i = i + 1;
            overload_from_spec(p, st, metas, args, i)
        }
    }
}

/// What [`BodyGen::resolve_overload_ret`] computes.
#[verifier::opaque]
pub open spec fn resolve_overload_ret_spec(p: Env, st: GenV, m: FunctionV, args: Seq<ExprV>) -> Option<TyV>
{
    overload_from_spec(p, st, m.meta, args, 0int)
}

/// What [`BodyGen::method_return_ty`] computes.
#[verifier::opaque]
pub open spec fn method_return_ty_spec(p: Env, st: GenV, recv: TyV, method: Seq<char>, args: Seq<ExprV>) -> TyV
{
    match recv.info {
        None => { no_ty_spec() },
        Some(info) => {
            match method_of_spec(p.prog, info, method) {
                None => { no_ty_spec() },
                Some(m) => {
                    match resolve_overload_ret_spec(p, st, m, args) {
                        Some(t) => { t },
                        None => {
                            match m.ret {
                                Some(t) => { ty_of_in_spec(p, st, t, info.module_index) },
                                None => { no_ty_spec() },
                            }
                        },
                    }
                },
            }
        },
    }
}

/// What [`BodyGen::arg_names_from`] computes.
#[verifier::opaque]
pub open spec fn arg_names_from_spec(p: Env, st: GenV, args: Seq<ExprV>, i: int, out: Seq<Seq<char>>) -> Seq<Seq<char>>
    decreases args.len() - i,
{
    if !(0 <= i < args.len()) { out } else {
        let t = arg_ty_spec(p, st, args[i]);
        let out = out.push(if ((t.base).len() == 0) { "?"@ } else { t.base });
        let i = i + 1;
        arg_names_from_spec(p, st, args, i, out)
    }
}

/// What [`BodyGen::overload_mismatch`] computes.
#[verifier::opaque]
pub open spec fn overload_mismatch_spec(p: Env, st: GenV, recv: TyV, method: Seq<char>, args: Seq<ExprV>) -> Option<Seq<char>>
{
    match recv.info {
        None => { None },
        Some(info) => {
            match method_of_spec(p.prog, info, method) {
                None => { None },
                Some(m) => {
                    if (!meta_has_spec(m.meta, "overload"@)) || (resolve_overload_ret_spec(p, st, m, args) is Some) { None } else {
                        Some("call to overloaded method `"@ + method + "` with argument type(s) ("@ + (join_spec(arg_names_from_spec(p, st, args, 0int, Seq::empty()), ", "@)) + ") matches no @:overload signature; Hatchet will not guess the intended C++ overload (add a matching @:overload or correct the call arguments)"@)
                    }
                },
            }
        },
    }
}

/// What [`BodyGen::variant_of`] computes.
#[verifier::opaque]
pub open spec fn variant_of_spec(p: Env, st: GenV, info: TypeInfoV, name: Seq<char>) -> (Seq<char>, TyV)
{
    match adt_enum_spec(p.prog, info) {
        Some(e) => {
            let ctor = enum_value_ctor_spec(info, name, st.ns);
            let paramless = match variant_named_spec(e.variants, name, 0int) {
                Some(v) => { (v.params.len()) == 0 },
                None => { false },
            };
            (if paramless { ctor + "()"@ } else { ctor }, info_ty_spec(qualified_spec(info, st.ns), false, Some(info)))
        },
        None => {
            let base = match info.kind {
                TypeKind::EnumAbstract => {
                    match enum_abstract_underlying_spec(p.prog, info) {
                        Some(u) => { map_type_base_spec(p.prog, u, st.mi, st.ns) },
                        None => { qualified_spec(info, st.ns) },
                    }
                },
                _ => { qualified_spec(info, st.ns) },
            };
            (enum_constant_spec(info, name, st.ns), info_ty_spec(base, false, Some(info)))
        },
    }
}

/// What [`BodyGen::enum_variant_ref`] computes.
#[verifier::opaque]
pub open spec fn enum_variant_ref_spec(p: Env, st: GenV, name: Seq<char>) -> Option<(Seq<char>, TyV)>
{
    match st.expected {
        Some(t) => {
            match t.info {
                Some(info) => {
                    if is_enumish_spec(info.kind) && enum_has_variant_spec(p.prog, info, name) { Some(variant_of_spec(p, st, info, name)) } else {
                        match enum_with_variant_spec(p.prog, name, 0int) {
                            Some(info) => { Some(variant_of_spec(p, st, info, name)) },
                            None => { None },
                        }
                    }
                },
                None => {
                    match enum_with_variant_spec(p.prog, name, 0int) {
                        Some(info) => { Some(variant_of_spec(p, st, info, name)) },
                        None => { None },
                    }
                },
            }
        },
        None => {
            match enum_with_variant_spec(p.prog, name, 0int) {
                Some(info) => { Some(variant_of_spec(p, st, info, name)) },
                None => { None },
            }
        },
    }
}

/// What [`decl_spelling`] computes.
pub open spec fn decl_spelling_spec(ty: TyV) -> Seq<char>
{
    if ty.is_ptr { ty.base + "*"@ } else { ty.base }
}

} // verus!
