//! Call arguments.

use vstd::prelude::*;

use crate::ast::{Expr, Type};
use crate::codegen::ctypes::{is_value_class, is_value_class_spec, map_type_base, map_type_base_spec, ty_named_info, ty_named_info_spec};
use crate::codegen::expr::{gen_expr_hinted_spec, gen_expr_spec};
use crate::codegen::gen::GenV;
use crate::codegen::helpers::{info_ty, info_ty_spec, is_container_ty, is_container_ty_spec, no_ty, no_ty_spec, str_ty, str_ty_spec, with_ptr, with_ptr_spec};
use crate::codegen::literal::{expand_array_into_local_spec, hoist_object_spec, infer_array_spec};
use crate::codegen::state::{BodyGen, Env, fresh_spec, hoist_spec, is_local_spec, settled, transfer_owned_spec};
use crate::codegen::ty::{Ty, TyV, opt_tys_v};
use crate::codegen::ty_copy::dup_opt_ty;
use crate::codegen::types::{ctor_owned_params, ctor_owned_params_spec, ctor_param_types_spec, deref_alias_spec, element_ty_spec, ty_of_spec};
use crate::codegen::values::{emits_c_string_literal, emits_c_string_literal_spec, place_new_arg_spec, say_spec, value_new_spec};
use crate::model::{ExprV, TypeV, exprs_v, text_exprs_v};
use crate::parser::types::{meta_has, meta_has_spec};
use crate::text::{cat2, cat3, cat4, cat5, cat8, empty, same};

verus! {

broadcast use {crate::codegen::gen::group_gen, crate::codegen::ty::group_ty, crate::model::group_model, crate::text::group_texts};

/// The type at a position, where one is given.
pub fn ty_at(tys: &Vec<Option<Ty>>, i: usize) -> (r: Option<Ty>)
    ensures
        (match r { Some(y) => Some(y.v()), None => None }) == ty_at_spec(opt_tys_v(tys@), (i as int)),
{
    if i < tys.len() {
        dup_opt_ty(&tys[i])
    } else {
        None
    }
}

/// The flag at a position, where one is given.
pub fn flag_at(flags: &Vec<bool>, i: usize) -> (r: bool)
    ensures
        r == flag_at_spec(flags@, (i as int)),
{
    i < flags.len() && flags[i]
}

/// A list of one type.
pub fn one_ty(t: &Ty) -> (r: Vec<Option<Ty>>)
    ensures
        opt_tys_v(r@) == one_ty_spec(t.v()),
{
    let mut v: Vec<Option<Ty>> = Vec::new();
    v.push(Some(t.dup()));
    v
}

/// Whether a parameter is passed as a pointer that a value must be allocated for.
pub fn takes_heap(target: &Option<Ty>) -> (r: bool)
    ensures
        r == takes_heap_spec((match target { Some(y) => Some(y.v()), None => None })),
{
    match target {
        Some(t) => t.nullable || same(&t.base, "void*"),
        None => false,
    }
}

/// What to allocate for a value argument of a pointer parameter.
pub fn alloc_base(target: &Option<Ty>, vty: &Ty) -> (r: String)
    ensures
        r@ == alloc_base_spec((match target { Some(y) => Some(y.v()), None => None }), vty.v()),
{
    match target {
        Some(t) => {
            if t.nullable {
                t.base.clone()
            } else {
                vty.base.clone()
            }
        },
        None => vty.base.clone(),
    }
}

impl<'a> BodyGen<'a> {
    /// The argument at a position; nothing where it is missing.
    pub fn arg_at(&mut self, args: &Vec<Expr>, i: usize) -> (r: (String, Ty))
        ensures
            final(self).pg() == old(self).pg(),
            final(self).room() == old(self).room(),
            (final(self).gv(), (r.0@, r.1.v())) == arg_at_spec(old(self).pg(), old(self).room(), old(self).gv(), exprs_v(args@), (i as int)),
            settled(final(self).gv()) == settled(old(self).gv()),
        decreases old(self).room(), args@, 1int, 0int,
    {
        proof {
            reveal(arg_at_spec);
            reveal(gen_expr_spec);
        }
        if i >= args.len() {
            (String::new(), no_ty())
        } else {
            self.gen_expr(&args[i])
        }
    }

    /// The code of the argument at a position.
    pub fn arg_code(&mut self, args: &Vec<Expr>, i: usize) -> (r: String)
        ensures
            final(self).pg() == old(self).pg(),
            final(self).room() == old(self).room(),
            (final(self).gv(), r@) == arg_code_spec(old(self).pg(), old(self).room(), old(self).gv(), exprs_v(args@), (i as int)),
            settled(final(self).gv()) == settled(old(self).gv()),
        decreases old(self).room(), args@, 2int, 0int,
    {
        proof {
            reveal(arg_code_spec);
            reveal(arg_at_spec);
        }
        let (code, _) = self.arg_at(args, i);
        code
    }

    fn gen_args_from(&mut self, args: &Vec<Expr>, i: usize, out: String) -> (r: String)
        ensures
            final(self).pg() == old(self).pg(),
            final(self).room() == old(self).room(),
            (final(self).gv(), r@) == gen_args_from_spec(old(self).pg(), old(self).room(), old(self).gv(), exprs_v(args@), (i as int), out@),
            settled(final(self).gv()) == settled(old(self).gv()),
        decreases old(self).room(), args@, 1int, args.len()-i,
    {
        let ghost i_0 = i;
        let ghost out_0 = out;
        let mut i: usize = i;
        let mut out: String = out;
        #[verifier::loop_isolation(false)]
        loop
            invariant
                self.pg() == old(self).pg(),
                self.room() == old(self).room(),
                gen_args_from_spec(old(self).pg(), old(self).room(), old(self).gv(), exprs_v(args@), (i_0 as int), out_0@) == gen_args_from_spec(self.pg(), self.room(), self.gv(), exprs_v(args@), (i as int), out@),
                settled(self.gv()) == settled(old(self).gv()),
            decreases args.len()-i,
        {
            proof {
                reveal(gen_args_from_spec);
                reveal(gen_expr_spec);
            }
            if i >= args.len() {
                return out;
            }
            let (code, _) = self.gen_expr(&args[i]);
            out = if i > 0 { cat3(&out, ", ", &code) } else { code };
            i = i + 1;
        }
    }

    /// Arguments of which nothing is known.
    pub fn gen_args(&mut self, args: &Vec<Expr>) -> (r: String)
        ensures
            final(self).pg() == old(self).pg(),
            final(self).room() == old(self).room(),
            (final(self).gv(), r@) == gen_args_spec(old(self).pg(), old(self).room(), old(self).gv(), exprs_v(args@)),
            settled(final(self).gv()) == settled(old(self).gv()),
        decreases old(self).room(), args@, 2int, 0int,
    {
        proof {
            reveal(gen_args_spec);
            reveal(gen_args_from_spec);
        }
        self.gen_args_from(args, 0, String::new())
    }

    fn gen_args_owned_from(&mut self, args: &Vec<Expr>, param_tys: &Vec<Option<Ty>>, owned: &Vec<bool>, coerce: bool, i: usize, out: String) -> (r: String)
        ensures
            final(self).pg() == old(self).pg(),
            final(self).room() == old(self).room(),
            (final(self).gv(), r@) == gen_args_owned_from_spec(old(self).pg(), old(self).room(), old(self).gv(), exprs_v(args@), opt_tys_v(param_tys@), owned@, coerce, (i as int), out@),
            settled(final(self).gv()) == settled(old(self).gv()),
        decreases old(self).room(), args@, 1int, args.len()-i,
    {
        let ghost i_0 = i;
        let ghost out_0 = out;
        let mut i: usize = i;
        let mut out: String = out;
        #[verifier::loop_isolation(false)]
        loop
            invariant
                self.pg() == old(self).pg(),
                self.room() == old(self).room(),
                gen_args_owned_from_spec(old(self).pg(), old(self).room(), old(self).gv(), exprs_v(args@), opt_tys_v(param_tys@), owned@, coerce, (i_0 as int), out_0@) == gen_args_owned_from_spec(self.pg(), self.room(), self.gv(), exprs_v(args@), opt_tys_v(param_tys@), owned@, coerce, (i as int), out@),
                settled(self.gv()) == settled(old(self).gv()),
            decreases args.len()-i,
        {
            proof {
                reveal(gen_args_owned_from_spec);
                reveal(gen_arg_spec);
            }
            if i >= args.len() {
                return out;
            }
            let code = self.gen_arg(&args[i], &ty_at(param_tys, i), flag_at(owned, i), coerce);
            out = if i > 0 { cat3(&out, ", ", &code) } else { code };
            i = i + 1;
        }
    }

    /// Arguments of parameters of the given types. `owned` marks those the callee takes
    /// ownership of; `coerce` makes string literals strings, so that the right overload is
    /// chosen.
    pub fn gen_args_owned(&mut self, args: &Vec<Expr>, param_tys: &Vec<Option<Ty>>, owned: &Vec<bool>, coerce: bool) -> (r: String)
        ensures
            final(self).pg() == old(self).pg(),
            final(self).room() == old(self).room(),
            (final(self).gv(), r@) == gen_args_owned_spec(old(self).pg(), old(self).room(), old(self).gv(), exprs_v(args@), opt_tys_v(param_tys@), owned@, coerce),
            settled(final(self).gv()) == settled(old(self).gv()),
        decreases old(self).room(), args@, 2int, 0int,
    {
        proof {
            reveal(gen_args_owned_spec);
            reveal(gen_args_owned_from_spec);
        }
        self.gen_args_owned_from(args, param_tys, owned, coerce, 0, String::new())
    }

    /// Arguments of parameters of the given types, none of them owned by the callee.
    pub fn gen_args_typed(&mut self, args: &Vec<Expr>, param_tys: &Vec<Option<Ty>>, coerce: bool) -> (r: String)
        ensures
            final(self).pg() == old(self).pg(),
            final(self).room() == old(self).room(),
            (final(self).gv(), r@) == gen_args_typed_spec(old(self).pg(), old(self).room(), old(self).gv(), exprs_v(args@), opt_tys_v(param_tys@), coerce),
            settled(final(self).gv()) == settled(old(self).gv()),
        decreases old(self).room(), args@, 3int, 0int,
    {
        proof {
            reveal(gen_args_typed_spec);
            reveal(gen_args_owned_spec);
        }
        self.gen_args_owned(args, param_tys, &Vec::new(), coerce)
    }

    /// One argument. `@sink` at the call site hands it over.
    pub fn gen_arg(&mut self, a: &Expr, target: &Option<Ty>, owned: bool, coerce: bool) -> (r: String)
        ensures
            final(self).pg() == old(self).pg(),
            final(self).room() == old(self).room(),
            (final(self).gv(), r@) == gen_arg_spec(old(self).pg(), old(self).room(), old(self).gv(), a.v(), (match target { Some(y) => Some(y.v()), None => None }), owned, coerce),
            settled(final(self).gv()) == settled(old(self).gv()),
        decreases old(self).room(), *a, 40int, 0int,
    {
        proof {
            reveal(gen_arg_spec);
            reveal(place_arg_spec);
        }
        match a.node() {
            Expr::Meta(metas, inner) => self.place_arg(inner, target, owned || meta_has(metas, "sink"), coerce),
            _ => self.place_arg(a, target, owned, coerce),
        }
    }

    /// An object is built, an array filled, a `new` put in an owned local unless the callee
    /// owns it, and an owned local that is handed over is no longer owned here.
    fn place_arg(&mut self, a: &Expr, target: &Option<Ty>, owned: bool, coerce: bool) -> (r: String)
        ensures
            final(self).pg() == old(self).pg(),
            final(self).room() == old(self).room(),
            (final(self).gv(), r@) == place_arg_spec(old(self).pg(), old(self).room(), old(self).gv(), a.v(), (match target { Some(y) => Some(y.v()), None => None }), owned, coerce),
            settled(final(self).gv()) == settled(old(self).gv()),
        decreases old(self).room(), *a, 39int, 0int,
    {
        proof {
            reveal(place_arg_spec);
            reveal(object_arg_spec);
            reveal(value_arg_spec);
            reveal(array_arg_spec);
            reveal(gen_expr_spec);
        }
        match a.node() {
            Expr::ObjectLit(fields) => self.object_arg(fields, target),
            Expr::ArrayLit(elems) => {
                if elems.len() == 0 {
                    return self.value_arg(a, target, coerce);
                }
                self.array_arg(elems, target)
            },
            Expr::New(ty, _) => {
                if self.value_new(ty) {
                    return self.value_arg(a, target, coerce);
                }
                let (code, vty) = self.gen_expr(a);
                if owned {
                    code
                } else {
                    self.place_new_arg(code, &vty)
                }
            },
            Expr::Ident(name) => {
                if !owned || !self.is_local(name) {
                    return self.value_arg(a, target, coerce);
                }
                let (code, _) = self.gen_expr(a);
                self.transfer_owned(name);
                code
            },
            _ => self.value_arg(a, target, coerce),
        }
    }

    fn object_arg(&mut self, fields: &Vec<(String, Expr)>, target: &Option<Ty>) -> (r: String)
        ensures
            final(self).pg() == old(self).pg(),
            final(self).room() == old(self).room(),
            (final(self).gv(), r@) == object_arg_spec(old(self).pg(), old(self).room(), old(self).gv(), text_exprs_v(fields@), (match target { Some(y) => Some(y.v()), None => None })),
            settled(final(self).gv()) == settled(old(self).gv()),
        decreases old(self).room(), fields@, 6int, 0int,
    {
        proof {
            reveal(object_arg_spec);
            reveal(hoist_object_spec);
        }
        let tgt = match target {
            Some(t) => t.dup(),
            None => self.current_ret().dup(),
        };
        if !takes_heap(target) {
            return self.hoist_object(fields, &tgt);
        }
        let mut value_ty = tgt.dup();
        value_ty.is_ptr = false;
        value_ty.nullable = false;
        let tmp = self.hoist_object(fields, &value_ty);
        self.place_new_arg(cat5("new ", &tgt.base, "(", &tmp, ")"), &with_ptr(&tgt, true))
    }

    /// The type a container argument is built in: the value that the parameter takes, or one
    /// that its elements give.
    fn array_arg_ty(&mut self, elems: &Vec<Expr>, target: &Option<Ty>) -> (r: Ty)
        ensures
            final(self).pg() == old(self).pg(),
            final(self).room() == old(self).room(),
            (final(self).gv(), r.v()) == array_arg_ty_spec(old(self).pg(), old(self).room(), old(self).gv(), exprs_v(elems@), (match target { Some(y) => Some(y.v()), None => None })),
            settled(final(self).gv()) == settled(old(self).gv()),
        decreases old(self).room(), elems@, 5int, 0int,
    {
        proof {
            reveal(array_arg_ty_spec);
            reveal(infer_array_spec);
        }
        match target {
            Some(t) => {
                if same(&t.base, "void*") {
                    return self.infer_array(elems);
                }
                let mut ty = t.dup();
                if ty.nullable {
                    ty.is_ptr = false;
                    ty.nullable = false;
                }
                ty
            },
            None => self.infer_array(elems),
        }
    }

    /// An array literal as an argument: a vector built before the call, allocated where the
    /// parameter is a pointer to one.
    fn array_arg(&mut self, elems: &Vec<Expr>, target: &Option<Ty>) -> (r: String)
        ensures
            final(self).pg() == old(self).pg(),
            final(self).room() == old(self).room(),
            (final(self).gv(), r@) == array_arg_spec(old(self).pg(), old(self).room(), old(self).gv(), exprs_v(elems@), (match target { Some(y) => Some(y.v()), None => None })),
            settled(final(self).gv()) == settled(old(self).gv()),
        decreases old(self).room(), elems@, 6int, 0int,
    {
        proof {
            reveal(array_arg_spec);
            reveal(array_arg_ty_spec);
            reveal(expand_array_into_local_spec);
        }
        let vec_ty = self.array_arg_ty(elems, target);
        let elem = self.element_ty(&vec_ty);
        let tmp = self.fresh("arr");
        let t = self.prelude_t().clone();
        let buf = self.expand_array_into_local(&tmp, &vec_ty, &elem, elems, &t);
        self.hoist(&buf);
        if takes_heap(target) {
            return self.place_new_arg(cat5("new ", &vec_ty.base, "(", &tmp, ")"), &with_ptr(&vec_ty, true));
        }
        tmp
    }

    /// A value is allocated where the parameter is a pointer to one.
    fn value_arg(&mut self, a: &Expr, target: &Option<Ty>, coerce: bool) -> (r: String)
        ensures
            final(self).pg() == old(self).pg(),
            final(self).room() == old(self).room(),
            (final(self).gv(), r@) == value_arg_spec(old(self).pg(), old(self).room(), old(self).gv(), a.v(), (match target { Some(y) => Some(y.v()), None => None }), coerce),
            settled(final(self).gv()) == settled(old(self).gv()),
        decreases old(self).room(), *a, 38int, 0int,
    {
        proof {
            reveal(value_arg_spec);
            reveal(gen_expr_hinted_spec);
        }
        let (code, vty) = self.gen_expr_hinted(a, dup_opt_ty(target));
        if takes_heap(target) && !vty.is_ptr {
            let base = alloc_base(target, &vty);
            if !empty(&base) {
                return self.place_new_arg(cat5("new ", &base, "(", &code, ")"), &info_ty(&base, true, None));
            }
        }
        if coerce && emits_c_string_literal(a) {
            return cat3("std::string(", &code, ")");
        }
        code
    }

    /// A freshly made object whose field is read: built before the statement and not owned,
    /// since the field's value lives on.
    pub fn hoist_new_receiver(&mut self, ty: &Type, args: &Vec<Expr>) -> (r: (String, Ty))
        ensures
            final(self).pg() == old(self).pg(),
            final(self).room() == old(self).room(),
            (final(self).gv(), (r.0@, r.1.v())) == hoist_new_receiver_spec(old(self).pg(), old(self).room(), old(self).gv(), ty.v(), exprs_v(args@)),
            settled(final(self).gv()) == settled(old(self).gv()),
        decreases old(self).room(), args@, 4int, 0int,
    {
        proof {
            reveal(hoist_new_receiver_spec);
            reveal(gen_args_owned_spec);
        }
        let base = map_type_base(self.prog(), ty, self.mi(), self.ns());
        let param_tys = self.ctor_param_types(ty);
        let owned = ctor_owned_params(self.prog(), ty, self.mi());
        let a = self.gen_args_owned(args, &param_tys, &owned, false);
        let tmp = self.fresh("tmp");
        self.say(&cat8(&base, "* ", &tmp, " = new ", &base, "(", &a, ");"));
        (tmp, info_ty(&base, true, ty_named_info(self.prog(), self.mi(), ty)))
    }

    /// `new T(...)`: an empty container, a string or a value where T is one, a heap object
    /// otherwise.
    pub fn gen_new(&mut self, ty: &Type, args: &Vec<Expr>) -> (r: (String, Ty))
        ensures
            final(self).pg() == old(self).pg(),
            final(self).room() == old(self).room(),
            (final(self).gv(), (r.0@, r.1.v())) == gen_new_spec(old(self).pg(), old(self).room(), old(self).gv(), ty.v(), exprs_v(args@)),
            settled(final(self).gv()) == settled(old(self).gv()),
        decreases old(self).room(), args@, 4int, 0int,
    {
        proof {
            reveal(gen_new_spec);
            reveal(gen_args_spec);
            reveal(gen_args_typed_spec);
            reveal(gen_args_owned_spec);
        }
        let base = map_type_base(self.prog(), ty, self.mi(), self.ns());
        let nty = self.ty_of(ty);
        if is_container_ty(&self.deref_alias(&nty)) {
            return (cat2(&base, "()"), nty);
        }
        if same(&base, "std::string") {
            let a = self.gen_args(args);
            return (cat3("std::string(", &a, ")"), str_ty());
        }
        let param_tys = self.ctor_param_types(ty);
        let info = ty_named_info(self.prog(), self.mi(), ty);
        let is_value = match ty.node() {
            Type::Named { path, params: _, optional: _, line: _ } => is_value_class(self.prog(), path, self.mi()),
            _ => false,
        };
        if is_value {
            let a = self.gen_args_typed(args, &param_tys, false);
            return (cat4(&base, "(", &a, ")"), info_ty(&base, false, info));
        }
        let owned = ctor_owned_params(self.prog(), ty, self.mi());
        let a = self.gen_args_owned(args, &param_tys, &owned, false);
        (cat5("new ", &base, "(", &a, ")"), info_ty(&base, true, info))
    }
}

/// What [`ty_at`] computes.
pub open spec fn ty_at_spec(tys: Seq<Option<TyV>>, i: int) -> Option<TyV>
{
    if i < (tys.len()) { tys[i] } else { None }
}

/// What [`flag_at`] computes.
pub open spec fn flag_at_spec(flags: Seq<bool>, i: int) -> bool
{
    (i < (flags.len())) && (flags[i])
}

/// What [`one_ty`] computes.
pub open spec fn one_ty_spec(t: TyV) -> Seq<Option<TyV>>
{
    let v: Seq<Option<TyV>> = Seq::empty();
    let v = v.push(Some(t));
    v
}

/// What [`takes_heap`] computes.
pub open spec fn takes_heap_spec(target: Option<TyV>) -> bool
{
    match target {
        Some(t) => { t.nullable || (t.base == "void*"@) },
        None => { false },
    }
}

/// What [`alloc_base`] computes.
pub open spec fn alloc_base_spec(target: Option<TyV>, vty: TyV) -> Seq<char>
{
    match target {
        Some(t) => {
            if t.nullable { t.base } else { vty.base }
        },
        None => { vty.base },
    }
}

/// What [`BodyGen::arg_at`] computes.
#[verifier::opaque]
pub open spec fn arg_at_spec(p: Env, room: int, st: GenV, args: Seq<ExprV>, i: int) -> (GenV, (Seq<char>, TyV))
    decreases room, args, 1int, 0int,
{
    if !(0 <= i < args.len()) { (st, (Seq::empty(), no_ty_spec())) } else { gen_expr_spec(p, room, st, args[i]) }
}

/// What [`BodyGen::arg_code`] computes.
#[verifier::opaque]
pub open spec fn arg_code_spec(p: Env, room: int, st: GenV, args: Seq<ExprV>, i: int) -> (GenV, Seq<char>)
    decreases room, args, 2int, 0int,
{
    let (st, (code, _)) = arg_at_spec(p, room, st, args, i);
    (st, code)
}

/// What [`BodyGen::gen_args_from`] computes.
#[verifier::opaque]
pub open spec fn gen_args_from_spec(p: Env, room: int, st: GenV, args: Seq<ExprV>, i: int, out: Seq<char>) -> (GenV, Seq<char>)
    decreases room, args, 1int, args.len()-i,
{
    if !(0 <= i < args.len()) { (st, out) } else {
        let (st, (code, _)) = gen_expr_spec(p, room, st, args[i]);
        let out = if i > 0 { out + ", "@ + code } else { code };
        let i = i + 1;
        gen_args_from_spec(p, room, st, args, i, out)
    }
}

/// What [`BodyGen::gen_args`] computes.
#[verifier::opaque]
pub open spec fn gen_args_spec(p: Env, room: int, st: GenV, args: Seq<ExprV>) -> (GenV, Seq<char>)
    decreases room, args, 2int, 0int,
{
    gen_args_from_spec(p, room, st, args, 0int, Seq::empty())
}

/// What [`BodyGen::gen_args_owned_from`] computes.
#[verifier::opaque]
pub open spec fn gen_args_owned_from_spec(p: Env, room: int, st: GenV, args: Seq<ExprV>, param_tys: Seq<Option<TyV>>, owned: Seq<bool>, coerce: bool, i: int, out: Seq<char>) -> (GenV, Seq<char>)
    decreases room, args, 1int, args.len()-i,
{
    if !(0 <= i < args.len()) { (st, out) } else {
        let (st, code) = gen_arg_spec(p, room, st, args[i], ty_at_spec(param_tys, i), flag_at_spec(owned, i), coerce);
        let out = if i > 0 { out + ", "@ + code } else { code };
        let i = i + 1;
        gen_args_owned_from_spec(p, room, st, args, param_tys, owned, coerce, i, out)
    }
}

/// What [`BodyGen::gen_args_owned`] computes.
#[verifier::opaque]
pub open spec fn gen_args_owned_spec(p: Env, room: int, st: GenV, args: Seq<ExprV>, param_tys: Seq<Option<TyV>>, owned: Seq<bool>, coerce: bool) -> (GenV, Seq<char>)
    decreases room, args, 2int, 0int,
{
    gen_args_owned_from_spec(p, room, st, args, param_tys, owned, coerce, 0int, Seq::empty())
}

/// What [`BodyGen::gen_args_typed`] computes.
#[verifier::opaque]
pub open spec fn gen_args_typed_spec(p: Env, room: int, st: GenV, args: Seq<ExprV>, param_tys: Seq<Option<TyV>>, coerce: bool) -> (GenV, Seq<char>)
    decreases room, args, 3int, 0int,
{
    gen_args_owned_spec(p, room, st, args, param_tys, Seq::empty(), coerce)
}

/// What [`BodyGen::gen_arg`] computes.
#[verifier::opaque]
pub open spec fn gen_arg_spec(p: Env, room: int, st: GenV, a: ExprV, target: Option<TyV>, owned: bool, coerce: bool) -> (GenV, Seq<char>)
    decreases room, a, 40int, 0int,
{
    match a {
        ExprV::Meta(metas, inner) => {
            place_arg_spec(p, room, st, *inner, target, owned || meta_has_spec(metas, "sink"@), coerce)
        },
        _ => { place_arg_spec(p, room, st, a, target, owned, coerce) },
    }
}

/// What [`BodyGen::place_arg`] computes.
#[verifier::opaque]
pub open spec fn place_arg_spec(p: Env, room: int, st: GenV, a: ExprV, target: Option<TyV>, owned: bool, coerce: bool) -> (GenV, Seq<char>)
    decreases room, a, 39int, 0int,
{
    match a {
        ExprV::ObjectLit(fields) => { object_arg_spec(p, room, st, fields, target) },
        ExprV::ArrayLit(elems) => {
            if (elems.len()) == 0 { value_arg_spec(p, room, st, a, target, coerce) } else { array_arg_spec(p, room, st, elems, target) }
        },
        ExprV::New(ty, _) => {
            if value_new_spec(p, st, ty) { value_arg_spec(p, room, st, a, target, coerce) } else {
                let (st, (code, vty)) = gen_expr_spec(p, room, st, a);
                if owned { (st, code) } else { place_new_arg_spec(p, st, code, vty) }
            }
        },
        ExprV::Ident(name) => {
            if (!owned) || (!is_local_spec(p, st, name)) { value_arg_spec(p, room, st, a, target, coerce) } else {
                let (st, (code, _)) = gen_expr_spec(p, room, st, a);
                let st = transfer_owned_spec(p, st, name);
                (st, code)
            }
        },
        _ => { value_arg_spec(p, room, st, a, target, coerce) },
    }
}

/// What [`BodyGen::object_arg`] computes.
#[verifier::opaque]
pub open spec fn object_arg_spec(p: Env, room: int, st: GenV, fields: Seq<(Seq<char>, ExprV)>, target: Option<TyV>) -> (GenV, Seq<char>)
    decreases room, fields, 6int, 0int,
{
    let tgt = match target {
        Some(t) => { t },
        None => { st.current_ret },
    };
    if !takes_heap_spec(target) { hoist_object_spec(p, room, st, fields, tgt) } else {
        let value_ty = tgt;
        let value_ty = TyV { is_ptr: false, ..value_ty };
        let value_ty = TyV { nullable: false, ..value_ty };
        let (st, tmp) = hoist_object_spec(p, room, st, fields, value_ty);
        place_new_arg_spec(p, st, "new "@ + tgt.base + "("@ + tmp + ")"@, with_ptr_spec(tgt, true))
    }
}

/// What [`BodyGen::array_arg_ty`] computes.
#[verifier::opaque]
pub open spec fn array_arg_ty_spec(p: Env, room: int, st: GenV, elems: Seq<ExprV>, target: Option<TyV>) -> (GenV, TyV)
    decreases room, elems, 5int, 0int,
{
    match target {
        Some(t) => {
            if (t.base == "void*"@) { infer_array_spec(p, room, st, elems) } else {
                let ty = t;
                let ty = if ty.nullable {
                    let ty = TyV { is_ptr: false, ..ty };
                    let ty = TyV { nullable: false, ..ty };
                    ty
                } else { ty };
                (st, ty)
            }
        },
        None => { infer_array_spec(p, room, st, elems) },
    }
}

/// What [`BodyGen::array_arg`] computes.
#[verifier::opaque]
pub open spec fn array_arg_spec(p: Env, room: int, st: GenV, elems: Seq<ExprV>, target: Option<TyV>) -> (GenV, Seq<char>)
    decreases room, elems, 6int, 0int,
{
    let (st, vec_ty) = array_arg_ty_spec(p, room, st, elems, target);
    let elem = element_ty_spec(p, st, vec_ty);
    let (st, tmp) = fresh_spec(p, st, "arr"@);
    let t = st.prelude_t;
    let (st, buf) = expand_array_into_local_spec(p, room, st, tmp, vec_ty, elem, elems, t);
    let st = hoist_spec(p, st, buf);
    if takes_heap_spec(target) {
        place_new_arg_spec(p, st, "new "@ + vec_ty.base + "("@ + tmp + ")"@, with_ptr_spec(vec_ty, true))
    } else { (st, tmp) }
}

/// What [`BodyGen::value_arg`] computes.
#[verifier::opaque]
pub open spec fn value_arg_spec(p: Env, room: int, st: GenV, a: ExprV, target: Option<TyV>, coerce: bool) -> (GenV, Seq<char>)
    decreases room, a, 38int, 0int,
{
    let (st, (code, vty)) = gen_expr_hinted_spec(p, room, st, a, target);
    if takes_heap_spec(target) && (!vty.is_ptr) {
        let base = alloc_base_spec(target, vty);
        if !((base).len() == 0) {
            place_new_arg_spec(p, st, "new "@ + base + "("@ + code + ")"@, info_ty_spec(base, true, None))
        } else {
            if coerce && emits_c_string_literal_spec(a) { (st, "std::string("@ + code + ")"@) } else { (st, code) }
        }
    } else {
        if coerce && emits_c_string_literal_spec(a) { (st, "std::string("@ + code + ")"@) } else { (st, code) }
    }
}

/// What [`BodyGen::hoist_new_receiver`] computes.
#[verifier::opaque]
pub open spec fn hoist_new_receiver_spec(p: Env, room: int, st: GenV, ty: TypeV, args: Seq<ExprV>) -> (GenV, (Seq<char>, TyV))
    decreases room, args, 4int, 0int,
{
    let base = map_type_base_spec(p.prog, ty, st.mi, st.ns);
    let param_tys = ctor_param_types_spec(p, st, ty);
    let owned = ctor_owned_params_spec(p.prog, ty, st.mi);
    let (st, a) = gen_args_owned_spec(p, room, st, args, param_tys, owned, false);
    let (st, tmp) = fresh_spec(p, st, "tmp"@);
    let st = say_spec(p, st, base + "* "@ + tmp + " = new "@ + base + "("@ + a + ");"@);
    (st, (tmp, info_ty_spec(base, true, ty_named_info_spec(p.prog, st.mi, ty))))
}

/// What [`BodyGen::gen_new`] computes.
#[verifier::opaque]
pub open spec fn gen_new_spec(p: Env, room: int, st: GenV, ty: TypeV, args: Seq<ExprV>) -> (GenV, (Seq<char>, TyV))
    decreases room, args, 4int, 0int,
{
    let base = map_type_base_spec(p.prog, ty, st.mi, st.ns);
    let nty = ty_of_spec(p, st, ty);
    if is_container_ty_spec(deref_alias_spec(p, st, nty)) { (st, (base + "()"@, nty)) } else {
        if (base == "std::string"@) {
            let (st, a) = gen_args_spec(p, room, st, args);
            (st, ("std::string("@ + a + ")"@, str_ty_spec()))
        } else {
            let param_tys = ctor_param_types_spec(p, st, ty);
            let info = ty_named_info_spec(p.prog, st.mi, ty);
            let is_value = match ty {
                TypeV::Named { path, params: _, optional: _, line: _ } => { is_value_class_spec(p.prog, path, st.mi) },
                _ => { false },
            };
            if is_value {
                let (st, a) = gen_args_typed_spec(p, room, st, args, param_tys, false);
                (st, (base + "("@ + a + ")"@, info_ty_spec(base, false, info)))
            } else {
                let owned = ctor_owned_params_spec(p.prog, ty, st.mi);
                let (st, a) = gen_args_owned_spec(p, room, st, args, param_tys, owned, false);
                (st, ("new "@ + base + "("@ + a + ")"@, info_ty_spec(base, true, info)))
            }
        }
    }
}

} // verus!
