//! What a call needs to know of the function it calls.

use vstd::prelude::*;

use crate::ast::{Decl, Expr, Function, Import, LambdaBody, PropAccess, Type};
use crate::codegen::common::{find_method, find_method_spec, is_named, is_named_spec};
use crate::codegen::ctypes::{alias_target, alias_target_spec, resolve_type_by_cpp_spelling, resolve_type_by_cpp_spelling_spec};
use crate::codegen::gen::GenV;
use crate::codegen::helpers::{float_ty, float_ty_spec, param_sink_flags, param_sink_flags_spec, plain_ty, plain_ty_spec};
use crate::codegen::lookup::{adt_enum, adt_enum_spec, enum_has_variant, enum_has_variant_spec, method_of, method_of_spec, variant_named, variant_named_spec};
use crate::codegen::state::{BodyGen, Env, fail_spec, fresh_spec, is_local_spec, lookup_local_spec, settled};
use crate::codegen::ty::{Ty, TyV, opt_tys_v};
use crate::codegen::types::{class_field_spec, decl_spelling, decl_spelling_spec, field_ty_spec, method_is_overloaded_spec, overload_mismatch_spec, param_tys, param_tys_spec, ty_of_in_spec, ty_of_spec};
use crate::codegen::values::say_spec;
use crate::model::{DeclV, ExprV, FunctionV, ImportV, LambdaBodyV, TypeV, decls_v, exprs_v, imports_v};
use crate::program::{Module, ModuleV, Program, ProgramV, TypeInfo, TypeInfoV, TypeKind, modules_v};
use crate::resolve::{last_of, last_of_spec, module_at, module_at_spec, resolve_name, resolve_name_spec};
use crate::text::{cat2, cat6, empty, same};

verus! {

broadcast use {crate::codegen::gen::group_gen, crate::codegen::ty::group_ty, crate::model::group_model, crate::program::group_program, crate::text::group_texts};

/// A module-level function with a body among the declarations from `i` on.
pub fn free_fn_in<'a>(decls: &'a Vec<Decl>, name: &str, i: usize) -> (r: Option<&'a Function>)
    ensures
        (match r { Some(y) => Some(y.v()), None => None }) == free_fn_in_spec(decls_v(decls@), name@, (i as int)),
{
    let ghost i_0 = i;
    let mut i: usize = i;
    #[verifier::loop_isolation(false)]
    loop
        invariant
            free_fn_in_spec(decls_v(decls@), name@, (i_0 as int)) == free_fn_in_spec(decls_v(decls@), name@, (i as int)),
        decreases decls.len() - i,
    {
        if i >= decls.len() {
            return None;
        }
        match &decls[i] {
            Decl::Function(f) => {
                if is_named(f, name) && f.body.is_some() {
                    return Some(f);
                }
            },
            _ => {},
        }
        i = i + 1;
    }
}

/// A module-level function, with or without a body, among the declarations from `i` on.
pub fn any_fn_in<'a>(decls: &'a Vec<Decl>, name: &str, i: usize) -> (r: Option<&'a Function>)
    ensures
        (match r { Some(y) => Some(y.v()), None => None }) == any_fn_in_spec(decls_v(decls@), name@, (i as int)),
{
    let ghost i_0 = i;
    let mut i: usize = i;
    #[verifier::loop_isolation(false)]
    loop
        invariant
            any_fn_in_spec(decls_v(decls@), name@, (i_0 as int)) == any_fn_in_spec(decls_v(decls@), name@, (i as int)),
        decreases decls.len() - i,
    {
        if i >= decls.len() {
            return None;
        }
        match &decls[i] {
            Decl::Function(f) => {
                if is_named(f, name) {
                    return Some(f);
                }
            },
            _ => {},
        }
        i = i + 1;
    }
}

/// The module-level function a call `Module.name()` names.
pub fn module_free_fn<'a>(prog: &'a Program, mj: usize, name: &str) -> (r: Option<&'a Function>)
    ensures
        (match r { Some(y) => Some(y.v()), None => None }) == module_free_fn_spec(prog.v(), (mj as int), name@),
{
    proof {
        reveal(module_free_fn_spec);
    }
    match module_at(prog, mj) {
        Some(m) => free_fn_in(&m.file.decls, name, 0),
        None => None,
    }
}

/// The real name an import alias from `i` on stands for.
pub fn alias_from(imports: &Vec<Import>, name: &str, i: usize) -> (r: Option<String>)
    ensures
        (match r { Some(y) => Some(y@), None => None }) == alias_from_spec(imports_v(imports@), name@, (i as int)),
{
    let ghost i_0 = i;
    let mut i: usize = i;
    #[verifier::loop_isolation(false)]
    loop
        invariant
            alias_from_spec(imports_v(imports@), name@, (i_0 as int)) == alias_from_spec(imports_v(imports@), name@, (i as int)),
        decreases imports.len() - i,
    {
        if i >= imports.len() {
            return None;
        }
        match &imports[i].alias {
            Some(a) => {
                if same(a, name) {
                    match last_of(&imports[i].path) {
                        Some(actual) => {
                            return Some(actual.clone());
                        },
                        None => {},
                    }
                }
            },
            None => {},
        }
        i = i + 1;
    }
}

/// The type an arrow body is cast to.
pub fn cast_type(body: &LambdaBody) -> (r: Option<Type>)
    ensures
        (match r { Some(y) => Some(y.v()), None => None }) == cast_type_spec(body.v()),
{
    proof {
        reveal(cast_type_spec);
    }
    match body.node() {
        LambdaBody::Expr(e) => match e.node() {
            Expr::Cast { expr: _, ty: Some(t) } => Some(t.dup()),
            _ => None,
        },
        _ => None,
    }
}

/// The return type a function type gives.
pub fn func_ret(t: &Option<Type>) -> (r: Option<Type>)
    ensures
        (match r { Some(y) => Some(y.v()), None => None }) == func_ret_spec((match t { Some(y) => Some(y.v()), None => None })),
{
    proof {
        reveal(func_ret_spec);
    }
    match t {
        Some(t) => match t.node() {
            Type::Func { params: _, ret } => Some(ret.dup()),
            _ => None,
        },
        None => None,
    }
}

impl<'a> BodyGen<'a> {
    /// The types of the parameters of a method of a receiver, found where it is declared.
    pub fn callee_param_types(&self, recv: &Ty, method: &str) -> (r: Vec<Option<Ty>>)
        ensures
            opt_tys_v(r@) == callee_param_types_spec(self.pg(), self.gv(), recv.v(), method@),
    {
        proof {
            reveal(callee_param_types_spec);
        }
        match &recv.info {
            Some(info) => match method_of(self.prog(), info, method) {
                Some(m) => param_tys(self.prog(), &m.params, info.module_index, self.ns()),
                None => Vec::new(),
            },
            None => Vec::new(),
        }
    }

    /// The types of the parameters of a method of the class itself.
    pub fn own_method_param_types(&self, name: &str) -> (r: Vec<Option<Ty>>)
        ensures
            opt_tys_v(r@) == own_method_param_types_spec(self.pg(), self.gv(), name@),
    {
        proof {
            reveal(own_method_param_types_spec);
        }
        match find_method(&self.class().methods, name, 0) {
            Some(m) => param_tys(self.prog(), &m.params, self.mi(), self.ns()),
            None => Vec::new(),
        }
    }

    /// Which arguments a method of a receiver consumes.
    pub fn callee_sink_params(&self, recv: &Ty, method: &str) -> (r: Vec<bool>)
        ensures
            r@ == callee_sink_params_spec(self.pg(), self.gv(), recv.v(), method@),
    {
        proof {
            reveal(callee_sink_params_spec);
        }
        match &recv.info {
            Some(info) => match method_of(self.prog(), info, method) {
                Some(m) => param_sink_flags(&m.params),
                None => Vec::new(),
            },
            None => Vec::new(),
        }
    }

    /// Which arguments a bare call consumes: those of an own method, else of a module-level
    /// function.
    pub fn bare_sink_params(&self, name: &str) -> (r: Vec<bool>)
        ensures
            r@ == bare_sink_params_spec(self.pg(), self.gv(), name@),
    {
        proof {
            reveal(bare_sink_params_spec);
        }
        match find_method(&self.class().methods, name, 0) {
            Some(m) => param_sink_flags(&m.params),
            None => match module_at(self.prog(), self.mi()) {
                Some(m) => match any_fn_in(&m.file.decls, name, 0) {
                    Some(f) => param_sink_flags(&f.params),
                    None => Vec::new(),
                },
                None => Vec::new(),
            },
        }
    }

    /// The real name behind an import alias; any other name is itself.
    pub fn resolve_alias(&self, name: &str) -> (r: String)
        ensures
            r@ == resolve_alias_spec(self.pg(), self.gv(), name@),
    {
        proof {
            reveal(resolve_alias_spec);
        }
        match module_at(self.prog(), self.mi()) {
            Some(m) => match alias_from(&m.file.imports, name, 0) {
                Some(actual) => actual,
                None => name.to_owned(),
            },
            None => name.to_owned(),
        }
    }

    /// What a lambda returns: its own annotation, the function type of its binding, the type
    /// its body is cast to, or a number.
    pub fn resolve_lambda_ret(&self, ret: &Option<Type>, body: &LambdaBody, decl_ty: &Option<Type>) -> (r: Ty)
        ensures
            r.v() == resolve_lambda_ret_spec(self.pg(), self.gv(), (match ret { Some(y) => Some(y.v()), None => None }), body.v(), (match decl_ty { Some(y) => Some(y.v()), None => None })),
    {
        proof {
            reveal(resolve_lambda_ret_spec);
        }
        match ret {
            Some(t) => {
                return self.ty_of(t);
            },
            None => {},
        }
        match func_ret(decl_ty) {
            Some(t) => {
                return self.ty_of(&t);
            },
            None => {},
        }
        match cast_type(body) {
            Some(t) => self.ty_of(&t),
            None => float_ty(),
        }
    }

    /// What a declared return type means; none is `void`.
    pub fn ret_ty(&self, ret: &Option<Type>, ctx: usize) -> (r: Ty)
        ensures
            r.v() == ret_ty_spec(self.pg(), self.gv(), (match ret { Some(y) => Some(y.v()), None => None }), (ctx as int)),
    {
        proof {
            reveal(ret_ty_spec);
        }
        match ret {
            Some(t) => self.ty_of_in(t, ctx),
            None => plain_ty("void"),
        }
    }

    /// The return type of a declaration that is a function of this name.
    pub fn decl_return(&self, d: &Decl, name: &str) -> (r: Option<Ty>)
        ensures
            (match r { Some(y) => Some(y.v()), None => None }) == decl_return_spec(self.pg(), self.gv(), d.v(), name@),
    {
        proof {
            reveal(decl_return_spec);
        }
        match d {
            Decl::Global(g) => {
                if !g.is_final || !same(&g.name, name) {
                    return None;
                }
                match &g.init {
                    Some(e) => match e.node() {
                        Expr::Lambda { params: _, ret, body } => Some(self.resolve_lambda_ret(ret, body, &g.ty)),
                        _ => None,
                    },
                    None => None,
                }
            },
            Decl::Function(f) => {
                if is_named(f, name) && f.body.is_some() {
                    Some(self.ret_ty(&f.ret, self.mi()))
                } else {
                    None
                }
            },
            _ => None,
        }
    }

    /// The type that the function of a name returns, among the declarations from `i` on.
    pub fn decls_return(&self, decls: &Vec<Decl>, name: &str, i: usize) -> (r: Option<Ty>)
        ensures
            (match r { Some(y) => Some(y.v()), None => None }) == decls_return_spec(self.pg(), self.gv(), decls_v(decls@), name@, (i as int)),
    {
        let ghost i_0 = i;
        let mut i: usize = i;
        #[verifier::loop_isolation(false)]
        loop
            invariant
                decls_return_spec(self.pg(), self.gv(), decls_v(decls@), name@, (i_0 as int)) == decls_return_spec(self.pg(), self.gv(), decls_v(decls@), name@, (i as int)),
            decreases decls.len() - i,
        {
            proof {
                reveal(decls_return_spec);
            }
            if i >= decls.len() {
                return None;
            }
            match self.decl_return(&decls[i], name) {
                Some(t) => {
                    return Some(t);
                },
                None => {},
            }
            i = i + 1;
        }
    }

    /// The type that the function of a name returns, among the modules from `i` on.
    pub fn modules_return(&self, modules: &Vec<Module>, name: &str, i: usize) -> (r: Option<Ty>)
        ensures
            (match r { Some(y) => Some(y.v()), None => None }) == modules_return_spec(self.pg(), self.gv(), modules_v(modules@), name@, (i as int)),
    {
        let ghost i_0 = i;
        let mut i: usize = i;
        #[verifier::loop_isolation(false)]
        loop
            invariant
                modules_return_spec(self.pg(), self.gv(), modules_v(modules@), name@, (i_0 as int)) == modules_return_spec(self.pg(), self.gv(), modules_v(modules@), name@, (i as int)),
            decreases modules.len() - i,
        {
            proof {
                reveal(modules_return_spec);
            }
            if i >= modules.len() {
                return None;
            }
            match self.decls_return(&modules[i].file.decls, name, 0) {
                Some(t) => {
                    return Some(t);
                },
                None => {},
            }
            i = i + 1;
        }
    }

    /// The return type of a free function of any module.
    pub fn free_fn_return(&self, name: &str) -> (r: Option<Ty>)
        ensures
            (match r { Some(y) => Some(y.v()), None => None }) == free_fn_return_spec(self.pg(), self.gv(), name@),
    {
        proof {
            reveal(free_fn_return_spec);
        }
        self.modules_return(&self.prog().modules, name, 0)
    }

    /// Report a call that matches no overload.
    pub fn check_overload(&mut self, recv: &Ty, method: &str, args: &Vec<Expr>)
        ensures
            final(self).pg() == old(self).pg(),
            final(self).room() == old(self).room(),
            final(self).gv() == check_overload_spec(old(self).pg(), old(self).gv(), recv.v(), method@, exprs_v(args@)),
            settled(final(self).gv()) == settled(old(self).gv()),
    {
        proof {
            reveal(check_overload_spec);
        }
        if self.method_is_overloaded(recv, method) {
            match self.overload_mismatch(recv, method, args) {
                Some(msg) => {
                    self.fail(&msg);
                },
                None => {},
            }
        }
    }

    /// The name that stands for a type through its aliases, so that two spellings of one
    /// type agree.
    fn canonical_from(&self, base: String, fuel: usize) -> (r: String)
        ensures
            r@ == canonical_from_spec(self.pg(), self.gv(), base@, (fuel as int)),
    {
        let ghost base_0 = base;
        let ghost fuel_0 = fuel;
        let mut base: String = base;
        let mut fuel: usize = fuel;
        #[verifier::loop_isolation(false)]
        loop
            invariant
                canonical_from_spec(self.pg(), self.gv(), base_0@, (fuel_0 as int)) == canonical_from_spec(self.pg(), self.gv(), base@, (fuel as int)),
            decreases fuel,
        {
            proof {
                reveal(canonical_from_spec);
            }
            if fuel < 1 {
                return base;
            }
            match resolve_type_by_cpp_spelling(self.prog(), &base, self.ns()) {
                Some(info) => match info.kind {
                    TypeKind::AliasTypedef => match alias_target(self.prog(), &info) {
                        Some(target) => {
                            let next = self.ty_of_in(target, info.module_index);
                            if same(&next.base, &base) || empty(&next.base) {
                                return base;
                            }
                            base = next.base;
                            fuel = fuel - 1;
                        },
                        None => {
                            return base;
                        },
                    },
                    _ => {
                        return base;
                    },
                },
                None => {
                    return base;
                },
            }
        }
    }

    /// A base with the aliases in front of it followed.
    pub fn canonical_base(&self, base: &str) -> (r: String)
        ensures
            r@ == canonical_base_spec(self.pg(), self.gv(), base@),
    {
        proof {
            reveal(canonical_base_spec);
        }
        self.canonical_from(base.to_owned(), 16)
    }

    /// Whether two types are the same C++ type, whatever their spelling.
    pub fn same_shape(&self, a: &Ty, b: &Ty) -> (r: bool)
        ensures
            r == same_shape_spec(self.pg(), self.gv(), a.v(), b.v()),
    {
        proof {
            reveal(same_shape_spec);
        }
        a.is_ptr == b.is_ptr && same(&self.canonical_base(&a.base), &self.canonical_base(&b.base))
    }

    /// The type of an own field; none where it is read through its getter, which is no
    /// variable.
    pub fn own_variable_ty(&self, name: &str) -> (r: Option<Ty>)
        ensures
            (match r { Some(y) => Some(y.v()), None => None }) == own_variable_ty_spec(self.pg(), self.gv(), name@),
    {
        proof {
            reveal(own_variable_ty_spec);
        }
        match self.class_field(name) {
            Some(f) => {
                if f.get == PropAccess::Get && !same(self.current_fn(), &cat2("get_", name)) {
                    None
                } else {
                    Some(self.field_ty(f))
                }
            },
            None => None,
        }
    }

    /// The type of a variable or an own field.
    pub fn variable_ty(&self, name: &str) -> (r: Option<Ty>)
        ensures
            (match r { Some(y) => Some(y.v()), None => None }) == variable_ty_spec(self.pg(), self.gv(), name@),
    {
        proof {
            reveal(variable_ty_spec);
        }
        match self.lookup_local(name) {
            Some(t) => Some(t),
            None => self.own_variable_ty(name),
        }
    }

    /// Whether an element argument must be bound to a local of the element type first: it
    /// is neither a literal nor a variable of exactly that type.
    pub fn elem_arg_needs_temp(&self, arg: &Expr, elem: &Ty) -> (r: bool)
        ensures
            r == elem_arg_needs_temp_spec(self.pg(), self.gv(), arg.v(), elem.v()),
        decreases *arg,
    {
        match arg.node() {
            Expr::Paren(inner) => self.elem_arg_needs_temp(inner, elem),
            Expr::Meta(_, inner) => self.elem_arg_needs_temp(inner, elem),
            Expr::Int(_) => false,
            Expr::Float(_) => false,
            Expr::Bool(_) => false,
            Expr::Str { raw: _, interpolated: _ } => false,
            Expr::Null => false,
            Expr::ObjectLit(_) => false,
            Expr::ArrayLit(_) => false,
            Expr::MapLit(_) => false,
            Expr::Ident(n) => match self.variable_ty(n) {
                Some(ty) => !self.same_shape(&ty, elem),
                None => true,
            },
            Expr::Field(recv, name) => {
                if !matches!(recv.node(), Expr::This) {
                    return true;
                }
                match self.own_variable_ty(name) {
                    Some(ty) => !self.same_shape(&ty, elem),
                    None => true,
                }
            },
            _ => true,
        }
    }

    /// Bind an element argument to a named local of the element type unless it already is
    /// one: a reference bound to a temporary is not reliable on every compiler.
    pub fn bind_elem_arg(&mut self, arg: &Expr, code: String, elem: &Ty) -> (r: String)
        ensures
            final(self).pg() == old(self).pg(),
            final(self).room() == old(self).room(),
            (final(self).gv(), r@) == bind_elem_arg_spec(old(self).pg(), old(self).gv(), arg.v(), code@, elem.v()),
            settled(final(self).gv()) == settled(old(self).gv()),
    {
        proof {
            reveal(bind_elem_arg_spec);
        }
        if empty(&elem.base) || elem.is_ptr || !self.elem_arg_needs_temp(arg, elem) {
            return code;
        }
        let tmp = self.fresh("elem");
        self.say(&cat6(&decl_spelling(elem), " ", &tmp, " = ", &code, ";"));
        tmp
    }

    /// The algebraic enum a bare constructor name belongs to; the expected type is
    /// preferred.
    pub fn adt_of_variant(&self, name: &str) -> (r: Option<TypeInfo>)
        ensures
            (match r { Some(y) => Some(y.v()), None => None }) == adt_of_variant_spec(self.pg(), self.gv(), name@),
    {
        proof {
            reveal(adt_of_variant_spec);
        }
        match self.expected() {
            Some(t) => match &t.info {
                Some(i) => {
                    if adt_enum(self.prog(), i).is_some() && enum_has_variant(self.prog(), i, name) {
                        return Some(i.dup());
                    }
                },
                None => {},
            },
            None => {},
        }
        adt_with_variant(self.prog(), name, 0)
    }

    /// Whether a name is neither a local nor a field of this object.
    pub fn is_free_name(&self, name: &str) -> (r: bool)
        ensures
            r == is_free_name_spec(self.pg(), self.gv(), name@),
    {
        proof {
            reveal(is_free_name_spec);
        }
        !self.is_local(name) && self.class_field(name).is_none()
    }

    /// The type a free name resolves to.
    pub fn free_type(&self, e: &Expr) -> (r: Option<TypeInfo>)
        ensures
            (match r { Some(y) => Some(y.v()), None => None }) == free_type_spec(self.pg(), self.gv(), e.v()),
    {
        proof {
            reveal(free_type_spec);
        }
        match e.node() {
            Expr::Ident(n) => {
                if self.is_free_name(n) {
                    resolve_name(self.prog(), n, self.mi())
                } else {
                    None
                }
            },
            _ => None,
        }
    }

    /// The parameterized enum variant a call constructs: the enum and the variant's name.
    pub fn enum_ctor_of(&self, target: &Expr) -> (r: Option<(TypeInfo, String)>)
        ensures
            (match r { Some(y) => Some((y.0.v(), y.1@)), None => None }) == enum_ctor_of_spec(self.pg(), self.gv(), target.v()),
    {
        proof {
            reveal(enum_ctor_of_spec);
        }
        let found = match target.node() {
            Expr::Ident(n) => {
                if !self.is_free_name(n) {
                    return None;
                }
                match self.adt_of_variant(n) {
                    Some(i) => (i, n.clone()),
                    None => {
                        return None;
                    },
                }
            },
            Expr::Field(recv, n) => match self.free_type(recv) {
                Some(i) => (i, n.clone()),
                None => {
                    return None;
                },
            },
            _ => {
                return None;
            },
        };
        let (info, name) = found;
        match adt_enum(self.prog(), &info) {
            Some(e) => match variant_named(&e.variants, &name, 0) {
                Some(v) => {
                    // a variant without parameters is named, never called
                    if v.params.len() > 0 {
                        Some((info, name))
                    } else {
                        None
                    }
                },
                None => None,
            },
            None => None,
        }
    }
}

/// The first algebraic enum from `i` on that declares a variant of this name.
pub fn adt_with_variant(prog: &Program, name: &str, i: usize) -> (r: Option<TypeInfo>)
    ensures
        (match r { Some(y) => Some(y.v()), None => None }) == adt_with_variant_spec(prog.v(), name@, (i as int)),
{
    let ghost i_0 = i;
    let mut i: usize = i;
    #[verifier::loop_isolation(false)]
    loop
        invariant
            adt_with_variant_spec(prog.v(), name@, (i_0 as int)) == adt_with_variant_spec(prog.v(), name@, (i as int)),
        decreases prog.types.len() - i,
    {
        if i >= prog.types.len() {
            return None;
        }
        if adt_enum(prog, &prog.types[i]).is_some() && enum_has_variant(prog, &prog.types[i], name) {
            return Some(prog.types[i].dup());
        }
        i = i + 1;
    }
}

/// What [`free_fn_in`] computes.
pub open spec fn free_fn_in_spec(decls: Seq<DeclV>, name: Seq<char>, i: int) -> Option<FunctionV>
    decreases decls.len() - i,
{
    if !(0 <= i < decls.len()) { None } else {
        match decls[i] {
            DeclV::Function(f) => {
                if is_named_spec(f, name) && (f.body is Some) { Some(f) } else {
                    let i = i + 1;
                    free_fn_in_spec(decls, name, i)
                }
            },
            _ => {
                let i = i + 1;
                free_fn_in_spec(decls, name, i)
            },
        }
    }
}

/// What [`any_fn_in`] computes.
pub open spec fn any_fn_in_spec(decls: Seq<DeclV>, name: Seq<char>, i: int) -> Option<FunctionV>
    decreases decls.len() - i,
{
    if !(0 <= i < decls.len()) { None } else {
        match decls[i] {
            DeclV::Function(f) => {
                if is_named_spec(f, name) { Some(f) } else {
                    let i = i + 1;
                    any_fn_in_spec(decls, name, i)
                }
            },
            _ => {
                let i = i + 1;
                any_fn_in_spec(decls, name, i)
            },
        }
    }
}

/// What [`module_free_fn`] computes.
#[verifier::opaque]
pub open spec fn module_free_fn_spec(prog: ProgramV, mj: int, name: Seq<char>) -> Option<FunctionV>
{
    match module_at_spec(prog, mj) {
        Some(m) => { free_fn_in_spec(m.file.decls, name, 0int) },
        None => { None },
    }
}

/// What [`alias_from`] computes.
pub open spec fn alias_from_spec(imports: Seq<ImportV>, name: Seq<char>, i: int) -> Option<Seq<char>>
    decreases imports.len() - i,
{
    if !(0 <= i < imports.len()) { None } else {
        match imports[i].alias {
            Some(a) => {
                if (a == name) {
                    match last_of_spec(imports[i].path) {
                        Some(actual) => { Some(actual) },
                        None => {
                            let i = i + 1;
                            alias_from_spec(imports, name, i)
                        },
                    }
                } else {
                    let i = i + 1;
                    alias_from_spec(imports, name, i)
                }
            },
            None => {
                let i = i + 1;
                alias_from_spec(imports, name, i)
            },
        }
    }
}

/// What [`cast_type`] computes.
#[verifier::opaque]
pub open spec fn cast_type_spec(body: LambdaBodyV) -> Option<TypeV>
{
    match body {
        LambdaBodyV::Expr(e) => {
            match e {
                ExprV::Cast { expr: _, ty: Some(t) } => { Some(t) },
                _ => { None },
            }
        },
        _ => { None },
    }
}

/// What [`func_ret`] computes.
#[verifier::opaque]
pub open spec fn func_ret_spec(t: Option<TypeV>) -> Option<TypeV>
{
    match t {
        Some(t) => {
            match t {
                TypeV::Func { params: _, ret } => { Some(*ret) },
                _ => { None },
            }
        },
        None => { None },
    }
}

/// What [`BodyGen::callee_param_types`] computes.
#[verifier::opaque]
pub open spec fn callee_param_types_spec(p: Env, st: GenV, recv: TyV, method: Seq<char>) -> Seq<Option<TyV>>
{
    match recv.info {
        Some(info) => {
            match method_of_spec(p.prog, info, method) {
                Some(m) => { param_tys_spec(p.prog, m.params, info.module_index, st.ns) },
                None => { Seq::empty() },
            }
        },
        None => { Seq::empty() },
    }
}

/// What [`BodyGen::own_method_param_types`] computes.
#[verifier::opaque]
pub open spec fn own_method_param_types_spec(p: Env, st: GenV, name: Seq<char>) -> Seq<Option<TyV>>
{
    match find_method_spec(p.class.methods, name, 0int) {
        Some(m) => { param_tys_spec(p.prog, m.params, st.mi, st.ns) },
        None => { Seq::empty() },
    }
}

/// What [`BodyGen::callee_sink_params`] computes.
#[verifier::opaque]
pub open spec fn callee_sink_params_spec(p: Env, st: GenV, recv: TyV, method: Seq<char>) -> Seq<bool>
{
    match recv.info {
        Some(info) => {
            match method_of_spec(p.prog, info, method) {
                Some(m) => { param_sink_flags_spec(m.params) },
                None => { Seq::empty() },
            }
        },
        None => { Seq::empty() },
    }
}

/// What [`BodyGen::bare_sink_params`] computes.
#[verifier::opaque]
pub open spec fn bare_sink_params_spec(p: Env, st: GenV, name: Seq<char>) -> Seq<bool>
{
    match find_method_spec(p.class.methods, name, 0int) {
        Some(m) => { param_sink_flags_spec(m.params) },
        None => {
            match module_at_spec(p.prog, st.mi) {
                Some(m) => {
                    match any_fn_in_spec(m.file.decls, name, 0int) {
                        Some(f) => { param_sink_flags_spec(f.params) },
                        None => { Seq::empty() },
                    }
                },
                None => { Seq::empty() },
            }
        },
    }
}

/// What [`BodyGen::resolve_alias`] computes.
#[verifier::opaque]
pub open spec fn resolve_alias_spec(p: Env, st: GenV, name: Seq<char>) -> Seq<char>
{
    match module_at_spec(p.prog, st.mi) {
        Some(m) => {
            match alias_from_spec(m.file.imports, name, 0int) {
                Some(actual) => { actual },
                None => { name },
            }
        },
        None => { name },
    }
}

/// What [`BodyGen::resolve_lambda_ret`] computes.
#[verifier::opaque]
pub open spec fn resolve_lambda_ret_spec(p: Env, st: GenV, ret: Option<TypeV>, body: LambdaBodyV, decl_ty: Option<TypeV>) -> TyV
{
    match ret {
        Some(t) => { ty_of_spec(p, st, t) },
        None => {
            match func_ret_spec(decl_ty) {
                Some(t) => { ty_of_spec(p, st, t) },
                None => {
                    match cast_type_spec(body) {
                        Some(t) => { ty_of_spec(p, st, t) },
                        None => { float_ty_spec() },
                    }
                },
            }
        },
    }
}

/// What [`BodyGen::ret_ty`] computes.
#[verifier::opaque]
pub open spec fn ret_ty_spec(p: Env, st: GenV, ret: Option<TypeV>, ctx: int) -> TyV
{
    match ret {
        Some(t) => { ty_of_in_spec(p, st, t, ctx) },
        None => { plain_ty_spec("void"@) },
    }
}

/// What [`BodyGen::decl_return`] computes.
#[verifier::opaque]
pub open spec fn decl_return_spec(p: Env, st: GenV, d: DeclV, name: Seq<char>) -> Option<TyV>
{
    match d {
        DeclV::Global(g) => {
            if (!g.is_final) || !(g.name == name) { None } else {
                match g.init {
                    Some(e) => {
                        match e {
                            ExprV::Lambda { params: _, ret, body } => { Some(resolve_lambda_ret_spec(p, st, ret, *body, g.ty)) },
                            _ => { None },
                        }
                    },
                    None => { None },
                }
            }
        },
        DeclV::Function(f) => {
            if is_named_spec(f, name) && (f.body is Some) { Some(ret_ty_spec(p, st, f.ret, st.mi)) } else { None }
        },
        _ => { None },
    }
}

/// What [`BodyGen::decls_return`] computes.
#[verifier::opaque]
pub open spec fn decls_return_spec(p: Env, st: GenV, decls: Seq<DeclV>, name: Seq<char>, i: int) -> Option<TyV>
    decreases decls.len() - i,
{
    if !(0 <= i < decls.len()) { None } else {
        match decl_return_spec(p, st, decls[i], name) {
            Some(t) => { Some(t) },
            None => {
                let i = i + 1;
                decls_return_spec(p, st, decls, name, i)
            },
        }
    }
}

/// What [`BodyGen::modules_return`] computes.
#[verifier::opaque]
pub open spec fn modules_return_spec(p: Env, st: GenV, modules: Seq<ModuleV>, name: Seq<char>, i: int) -> Option<TyV>
    decreases modules.len() - i,
{
    if !(0 <= i < modules.len()) { None } else {
        match decls_return_spec(p, st, modules[i].file.decls, name, 0int) {
            Some(t) => { Some(t) },
            None => {
                let i = i + 1;
                modules_return_spec(p, st, modules, name, i)
            },
        }
    }
}

/// What [`BodyGen::free_fn_return`] computes.
#[verifier::opaque]
pub open spec fn free_fn_return_spec(p: Env, st: GenV, name: Seq<char>) -> Option<TyV>
{
    modules_return_spec(p, st, p.prog.modules, name, 0int)
}

/// What [`BodyGen::check_overload`] computes.
#[verifier::opaque]
pub open spec fn check_overload_spec(p: Env, st: GenV, recv: TyV, method: Seq<char>, args: Seq<ExprV>) -> GenV
{
    if method_is_overloaded_spec(p, st, recv, method) {
        match overload_mismatch_spec(p, st, recv, method, args) {
            Some(msg) => {
                let st = fail_spec(p, st, msg);
                st
            },
            None => { st },
        }
    } else { st }
}

/// What [`BodyGen::canonical_from`] computes.
#[verifier::opaque]
pub open spec fn canonical_from_spec(p: Env, st: GenV, base: Seq<char>, fuel: int) -> Seq<char>
    decreases fuel,
{
    if fuel < 1 { base } else {
        match resolve_type_by_cpp_spelling_spec(p.prog, base, st.ns) {
            Some(info) => {
                match info.kind {
                    TypeKind::AliasTypedef => {
                        match alias_target_spec(p.prog, info) {
                            Some(target) => {
                                let next = ty_of_in_spec(p, st, target, info.module_index);
                                if (next.base == base) || ((next.base).len() == 0) { base } else {
                                    let base = next.base;
                                    let fuel = fuel - 1;
                                    canonical_from_spec(p, st, base, fuel)
                                }
                            },
                            None => { base },
                        }
                    },
                    _ => { base },
                }
            },
            None => { base },
        }
    }
}

/// What [`BodyGen::canonical_base`] computes.
#[verifier::opaque]
pub open spec fn canonical_base_spec(p: Env, st: GenV, base: Seq<char>) -> Seq<char>
{
    canonical_from_spec(p, st, base, 16int)
}

/// What [`BodyGen::same_shape`] computes.
#[verifier::opaque]
pub open spec fn same_shape_spec(p: Env, st: GenV, a: TyV, b: TyV) -> bool
{
    (a.is_ptr == b.is_ptr) && (canonical_base_spec(p, st, a.base) == canonical_base_spec(p, st, b.base))
}

/// What [`BodyGen::own_variable_ty`] computes.
#[verifier::opaque]
pub open spec fn own_variable_ty_spec(p: Env, st: GenV, name: Seq<char>) -> Option<TyV>
{
    match class_field_spec(p, st, name) {
        Some(f) => {
            if (f.get == (PropAccess::Get)) && !(st.current_fn == "get_"@ + name) { None } else { Some(field_ty_spec(p, st, f)) }
        },
        None => { None },
    }
}

/// What [`BodyGen::variable_ty`] computes.
#[verifier::opaque]
pub open spec fn variable_ty_spec(p: Env, st: GenV, name: Seq<char>) -> Option<TyV>
{
    match lookup_local_spec(p, st, name) {
        Some(t) => { Some(t) },
        None => { own_variable_ty_spec(p, st, name) },
    }
}

/// What [`BodyGen::elem_arg_needs_temp`] computes.
pub open spec fn elem_arg_needs_temp_spec(p: Env, st: GenV, arg: ExprV, elem: TyV) -> bool
    decreases arg,
{
    match arg {
        ExprV::Paren(inner) => { elem_arg_needs_temp_spec(p, st, *inner, elem) },
        ExprV::Meta(_, inner) => { elem_arg_needs_temp_spec(p, st, *inner, elem) },
        ExprV::Int(_) => { false },
        ExprV::Float(_) => { false },
        ExprV::Bool(_) => { false },
        ExprV::Str { raw: _, interpolated: _ } => { false },
        ExprV::Null => { false },
        ExprV::ObjectLit(_) => { false },
        ExprV::ArrayLit(_) => { false },
        ExprV::MapLit(_) => { false },
        ExprV::Ident(n) => {
            match variable_ty_spec(p, st, n) {
                Some(ty) => { !same_shape_spec(p, st, ty, elem) },
                None => { true },
            }
        },
        ExprV::Field(recv, name) => {
            if !(match *recv { ExprV::This => true, _ => false }) { true } else {
                match own_variable_ty_spec(p, st, name) {
                    Some(ty) => { !same_shape_spec(p, st, ty, elem) },
                    None => { true },
                }
            }
        },
        _ => { true },
    }
}

/// What [`BodyGen::bind_elem_arg`] computes.
#[verifier::opaque]
pub open spec fn bind_elem_arg_spec(p: Env, st: GenV, arg: ExprV, code: Seq<char>, elem: TyV) -> (GenV, Seq<char>)
{
    if ((elem.base).len() == 0) || elem.is_ptr || (!elem_arg_needs_temp_spec(p, st, arg, elem)) { (st, code) } else {
        let (st, tmp) = fresh_spec(p, st, "elem"@);
        let st = say_spec(p, st, decl_spelling_spec(elem) + " "@ + tmp + " = "@ + code + ";"@);
        (st, tmp)
    }
}

/// What [`BodyGen::adt_of_variant`] computes.
#[verifier::opaque]
pub open spec fn adt_of_variant_spec(p: Env, st: GenV, name: Seq<char>) -> Option<TypeInfoV>
{
    match st.expected {
        Some(t) => {
            match t.info {
                Some(i) => {
                    if (adt_enum_spec(p.prog, i) is Some) && enum_has_variant_spec(p.prog, i, name) { Some(i) } else { adt_with_variant_spec(p.prog, name, 0int) }
                },
                None => { adt_with_variant_spec(p.prog, name, 0int) },
            }
        },
        None => { adt_with_variant_spec(p.prog, name, 0int) },
    }
}

/// What [`BodyGen::is_free_name`] computes.
#[verifier::opaque]
pub open spec fn is_free_name_spec(p: Env, st: GenV, name: Seq<char>) -> bool
{
    (!is_local_spec(p, st, name)) && (class_field_spec(p, st, name) is None)
}

/// What [`BodyGen::free_type`] computes.
#[verifier::opaque]
pub open spec fn free_type_spec(p: Env, st: GenV, e: ExprV) -> Option<TypeInfoV>
{
    match e {
        ExprV::Ident(n) => {
            if is_free_name_spec(p, st, n) { resolve_name_spec(p.prog, n, st.mi) } else { None }
        },
        _ => { None },
    }
}

/// What [`BodyGen::enum_ctor_of`] computes.
#[verifier::opaque]
pub open spec fn enum_ctor_of_spec(p: Env, st: GenV, target: ExprV) -> Option<(TypeInfoV, Seq<char>)>
{
    match target {
        ExprV::Ident(n) => {
            if !is_free_name_spec(p, st, n) { None } else {
                match adt_of_variant_spec(p, st, n) {
                    Some(i) => {
                        let found = (i, n);
                        let (info, name) = found;
                        match adt_enum_spec(p.prog, info) {
                            Some(e) => {
                                match variant_named_spec(e.variants, name, 0int) {
                                    Some(v) => {
                                        if (v.params.len()) > 0 { Some((info, name)) } else { None }
                                    },
                                    None => { None },
                                }
                            },
                            None => { None },
                        }
                    },
                    None => { None },
                }
            }
        },
        ExprV::Field(recv, n) => {
            match free_type_spec(p, st, *recv) {
                Some(i) => {
                    let found = (i, n);
                    let (info, name) = found;
                    match adt_enum_spec(p.prog, info) {
                        Some(e) => {
                            match variant_named_spec(e.variants, name, 0int) {
                                Some(v) => {
                                    if (v.params.len()) > 0 { Some((info, name)) } else { None }
                                },
                                None => { None },
                            }
                        },
                        None => { None },
                    }
                },
                None => { None },
            }
        },
        _ => { None },
    }
}

/// What [`adt_with_variant`] computes.
pub open spec fn adt_with_variant_spec(prog: ProgramV, name: Seq<char>, i: int) -> Option<TypeInfoV>
    decreases prog.types.len() - i,
{
    if !(0 <= i < prog.types.len()) { None } else {
        if (adt_enum_spec(prog, prog.types[i]) is Some) && enum_has_variant_spec(prog, prog.types[i], name) { Some(prog.types[i]) } else {
            let i = i + 1;
            adt_with_variant_spec(prog, name, i)
        }
    }
}

} // verus!
