//! Functions.

use vstd::prelude::*;

use crate::ast::{Access, Expr, Function, GlobalVar, LambdaBody, Param, Stmt, Type};
use crate::codegen::callee::{resolve_lambda_ret_spec, ret_ty_spec};
use crate::codegen::common::{param_list, param_list_spec};
use crate::codegen::ctypes::{is_value_struct, is_value_struct_spec, map_type_use, map_type_use_spec};
use crate::codegen::expr::gen_expr_spec;
use crate::codegen::gen::GenV;
use crate::codegen::helpers::{is_container_ty, is_container_ty_spec, is_value_string, is_value_string_spec, no_ty, no_ty_spec};
use crate::codegen::scan::{effective_lambda_params, effective_lambda_params_spec};
use crate::codegen::state::{BodyGen, Env, add_container_param_spec, add_optional_string_param_spec, add_value_struct_param_spec, begin_fn_body_spec, body_close_deletes_spec, clear_params_spec, define_local_spec, flush_spec, pop_scope_spec, push_scope_spec, warn_spec};
use crate::codegen::stmt::gen_stmts_spec;
use crate::codegen::ty::{Ty, TyV};
use crate::codegen::types::{decl_spelling, decl_spelling_spec, deref_alias_spec, opt_ty_spec, ty_of_spec};
use crate::codegen::values::finish_return_spec;
use crate::model::{ExprV, FunctionV, GlobalVarV, LambdaBodyV, ParamV, StmtV, TypeV, params_v, stmts_v};
use crate::parser::types::{meta_has, meta_has_spec};
use crate::text::{cat2, cat3, cat5, cat6, cat8};

verus! {

broadcast use {crate::codegen::gen::group_gen, crate::codegen::ty::group_ty, crate::model::group_model, crate::text::group_texts};

impl<'a> BodyGen<'a> {
    /// `inline` where definitions go in a header.
    pub fn inline_kw(&self) -> (r: String)
        ensures
            r@ == inline_kw_spec(self.pg(), self.gv()),
    {
        proof {
            reveal(inline_kw_spec);
        }
        if self.inline_defs() {
            "inline ".to_owned()
        } else {
            String::new()
        }
    }

    /// The parameters of a definition.
    pub fn header_params(&self, params: &Vec<Param>) -> (r: String)
        ensures
            r@ == header_params_spec(self.pg(), self.gv(), params_v(params@)),
    {
        proof {
            reveal(header_params_spec);
        }
        param_list(self.prog(), self.mi(), self.ns(), params, false)
    }

    /// The return type of a method, as it is written.
    pub fn return_type(&self, ret: &Option<Type>) -> (r: String)
        ensures
            r@ == return_type_spec(self.pg(), self.gv(), (match ret { Some(y) => Some(y.v()), None => None })),
    {
        proof {
            reveal(return_type_spec);
        }
        match ret {
            Some(t) => map_type_use(self.prog(), t, self.mi(), self.ns()),
            None => "void".to_owned(),
        }
    }

    /// In a method of an abstract, `this` is the underlying value.
    pub fn note_abstract_this(&mut self)
        ensures
            final(self).pg() == old(self).pg(),
            final(self).room() == old(self).room(),
            final(self).gv() == note_abstract_this_spec(old(self).pg(), old(self).gv()),
    {
        proof {
            reveal(note_abstract_this_spec);
        }
        let at = match &self.class().abstract_underlying {
            Some(u) => Some(self.ty_of(u)),
            None => None,
        };
        self.set_abstract_this(at);
    }

    /// The type a parameter has in the body: an optional value structure is a pointer.
    fn bound_ty(&self, q: &Param) -> (r: Ty)
        ensures
            r.v() == bound_ty_spec(self.pg(), self.gv(), q.v()),
    {
        proof {
            reveal(bound_ty_spec);
        }
        match &q.ty {
            Some(t) => {
                let mut ty = self.ty_of(t);
                if q.optional && !ty.is_ptr && is_value_struct(self.prog(), self.mi(), t) {
                    ty.is_ptr = true;
                }
                ty
            },
            None => no_ty(),
        }
    }

    /// Make a parameter known, and what may not be done to it.
    fn bind_param(&mut self, q: &Param)
        ensures
            final(self).pg() == old(self).pg(),
            final(self).room() == old(self).room(),
            final(self).gv() == bind_param_spec(old(self).pg(), old(self).gv(), q.v()),
    {
        proof {
            reveal(bind_param_spec);
        }
        let ty = self.bound_ty(q);
        let is_container = !ty.is_ptr && is_container_ty(&self.deref_alias(&ty));
        if meta_has(&q.meta, "sink") && !ty.is_ptr {
            self.warn(&cat3("`@sink` on parameter `", &q.name, "` has no effect — it is passed by value, not as an owned pointer"));
        }
        let is_optional_string = q.optional && is_value_string(&ty);
        let is_struct = match &q.ty {
            Some(t) => !q.optional && is_value_struct(self.prog(), self.mi(), t),
            None => false,
        };
        self.define_local(&q.name, ty);
        if is_container {
            self.add_container_param(&q.name);
        }
        if is_struct {
            self.add_value_struct_param(&q.name);
        }
        if is_optional_string {
            self.add_optional_string_param(&q.name);
        }
    }

    fn bind_params_from(&mut self, params: &Vec<Param>, i: usize)
        ensures
            final(self).pg() == old(self).pg(),
            final(self).room() == old(self).room(),
            final(self).gv() == bind_params_from_spec(old(self).pg(), old(self).gv(), params_v(params@), (i as int)),
    {
        let ghost i_0 = i;
        let mut i: usize = i;
        #[verifier::loop_isolation(false)]
        loop
            invariant
                self.pg() == old(self).pg(),
                self.room() == old(self).room(),
                bind_params_from_spec(old(self).pg(), old(self).gv(), params_v(params@), (i_0 as int)) == bind_params_from_spec(self.pg(), self.gv(), params_v(params@), (i as int)),
            decreases params.len() - i,
        {
            proof {
                reveal(bind_params_from_spec);
            }
            if i >= params.len() {
                return;
            }
            self.bind_param(&params[i]);
            i = i + 1;
        }
    }

    /// Make the parameters of a function known.
    pub fn bind_params(&mut self, params: &Vec<Param>)
        ensures
            final(self).pg() == old(self).pg(),
            final(self).room() == old(self).room(),
            final(self).gv() == bind_params_spec(old(self).pg(), old(self).gv(), params_v(params@)),
    {
        proof {
            reveal(bind_params_spec);
        }
        self.clear_params();
        self.bind_params_from(params, 0);
    }

    /// The text of a function body.
    pub fn fn_body(&mut self, stmts: &Vec<Stmt>) -> (r: String)
        ensures
            final(self).pg() == old(self).pg(),
            final(self).room() == old(self).room(),
            (final(self).gv(), r@) == fn_body_spec(old(self).pg(), old(self).room(), old(self).gv(), stmts_v(stmts@)),
    {
        proof {
            reveal(fn_body_spec);
        }
        self.begin_fn_body(stmts);
        let text = self.gen_stmts(stmts, "\t", 0, String::new());
        let deletes = self.body_close_deletes(stmts, "\t");
        cat2(&text, &deletes)
    }

    /// The text of a body that may be missing.
    pub fn opt_body(&mut self, body: &Option<Vec<Stmt>>) -> (r: String)
        ensures
            final(self).pg() == old(self).pg(),
            final(self).room() == old(self).room(),
            (final(self).gv(), r@) == opt_body_spec(old(self).pg(), old(self).room(), old(self).gv(), (match body { Some(y) => Some(stmts_v(y@)), None => None })),
    {
        proof {
            reveal(opt_body_spec);
        }
        match body {
            Some(stmts) => self.fn_body(stmts),
            None => String::new(),
        }
    }

    /// A method. An accessor without a declared return type returns that of its property.
    pub fn method_impl(&mut self, class_name: &str, name: &str, m: &Function, ret: &Option<Type>) -> (r: String)
        ensures
            final(self).pg() == old(self).pg(),
            final(self).room() == old(self).room(),
            (final(self).gv(), r@) == method_impl_spec(old(self).pg(), old(self).room(), old(self).gv(), class_name@, name@, m.v(), (match ret { Some(y) => Some(y.v()), None => None })),
    {
        proof {
            reveal(method_impl_spec);
        }
        self.push_scope();
        self.note_abstract_this();
        self.bind_params(&m.params);
        let ret_ty = self.opt_ty(ret);
        self.set_current_ret(ret_ty);
        self.set_current_fn(name.to_owned());
        let params = self.header_params(&m.params);
        let body = self.opt_body(&m.body);
        self.pop_scope();
        cat5(&cat8("\t", &self.inline_kw(), &self.return_type(ret), " ", class_name, "::", name, "("), &params, ") {\n", &body, "\t}\n")
    }

    /// What a free function's definition starts with.
    fn linkage(&self, access: Access) -> (r: String)
        ensures
            r@ == linkage_spec(self.pg(), self.gv(), access),
    {
        proof {
            reveal(linkage_spec);
        }
        if self.inline_defs() {
            "inline ".to_owned()
        } else if access == Access::Private {
            "static ".to_owned()
        } else {
            String::new()
        }
    }

    /// The signature of a free function bound to a name; `None` where it is no function.
    pub fn free_fn_signature(&mut self, g: &GlobalVar, with_defaults: bool) -> (r: Option<String>)
        ensures
            final(self).pg() == old(self).pg(),
            final(self).room() == old(self).room(),
            (final(self).gv(), (match r { Some(y) => Some(y@), None => None })) == free_fn_signature_spec(old(self).pg(), old(self).gv(), g.v(), with_defaults),
    {
        proof {
            reveal(free_fn_signature_spec);
        }
        if !g.is_final {
            return None;
        }
        match &g.init {
            Some(e) => match e.node() {
                Expr::Lambda { params, ret, body } => {
                    let ps = effective_lambda_params(params, &g.ty);
                    self.push_scope();
                    self.bind_params(&ps);
                    let ret_ty = self.resolve_lambda_ret(ret, body, &g.ty);
                    let list = param_list(self.prog(), self.mi(), self.ns(), &ps, with_defaults);
                    self.pop_scope();
                    Some(cat6(&decl_spelling(&ret_ty), " ", &g.name, "(", &list, ")"))
                },
                _ => None,
            },
            None => None,
        }
    }

    /// The body of a lambda as that of a function.
    fn lambda_body_text(&mut self, body: &LambdaBody, ret_ty: &Ty) -> (r: String)
        ensures
            final(self).pg() == old(self).pg(),
            final(self).room() == old(self).room(),
            (final(self).gv(), r@) == lambda_body_text_spec(old(self).pg(), old(self).room(), old(self).gv(), body.v(), ret_ty.v()),
    {
        proof {
            reveal(lambda_body_text_spec);
        }
        match body.node() {
            LambdaBody::Expr(e) => {
                self.set_prelude_t("\t".to_owned());
                let (code, ty) = self.gen_expr(e);
                let pre = self.flush();
                let v = if ret_ty.is_ptr && !ty.is_ptr { cat5("new ", &ret_ty.base, "(", &code, ")") } else { code };
                let last = self.finish_return("\t", &v);
                cat2(&pre, &last)
            },
            LambdaBody::Block(stmts) => self.fn_body(stmts),
        }
    }

    /// The definition of a free function bound to a name.
    pub fn free_fn_def(&mut self, g: &GlobalVar) -> (r: String)
        ensures
            final(self).pg() == old(self).pg(),
            final(self).room() == old(self).room(),
            (final(self).gv(), r@) == free_fn_def_spec(old(self).pg(), old(self).room(), old(self).gv(), g.v()),
    {
        proof {
            reveal(free_fn_def_spec);
        }
        if !g.is_final {
            return String::new();
        }
        match &g.init {
            Some(e) => match e.node() {
                Expr::Lambda { params, ret, body } => {
                    let ps = effective_lambda_params(params, &g.ty);
                    self.set_current_fn(g.name.clone());
                    self.push_scope();
                    self.bind_params(&ps);
                    let ret_ty = self.resolve_lambda_ret(ret, body, &g.ty);
                    self.set_current_ret(ret_ty.dup());
                    let list = self.header_params(&ps);
                    let text = self.lambda_body_text(body, &ret_ty);
                    self.pop_scope();
                    cat3(&cat8("\t", &self.linkage(g.access), &decl_spelling(&ret_ty), " ", &g.name, "(", &list, ") {\n"), &text, "\t}\n")
                },
                _ => String::new(),
            },
            None => String::new(),
        }
    }

    /// An exported function, at global scope.
    pub fn extern_fn_def(&mut self, f: &Function) -> (r: String)
        ensures
            final(self).pg() == old(self).pg(),
            final(self).room() == old(self).room(),
            (final(self).gv(), r@) == extern_fn_def_spec(old(self).pg(), old(self).room(), old(self).gv(), f.v()),
    {
        proof {
            reveal(extern_fn_def_spec);
        }
        match &f.name {
            Some(name) => {
                let prefix = self.prog().export_macro.clone();
                self.set_current_fn(name.clone());
                self.push_scope();
                self.bind_params(&f.params);
                let ret_ty = self.ret_ty(&f.ret, self.mi());
                self.set_current_ret(ret_ty.dup());
                let list = self.header_params(&f.params);
                let body = self.opt_body(&f.body);
                self.pop_scope();
                cat5(&cat8(&prefix, "_EXPORT ", &decl_spelling(&ret_ty), " ", &prefix, "_CALL ", name, "("), &list, ") {\n", &body, "}\n")
            },
            None => String::new(),
        }
    }

    /// The signature of a module-level function; `None` where it has no name.
    pub fn plain_fn_signature(&mut self, f: &Function, with_defaults: bool) -> (r: Option<String>)
        ensures
            final(self).pg() == old(self).pg(),
            final(self).room() == old(self).room(),
            (final(self).gv(), (match r { Some(y) => Some(y@), None => None })) == plain_fn_signature_spec(old(self).pg(), old(self).gv(), f.v(), with_defaults),
    {
        proof {
            reveal(plain_fn_signature_spec);
        }
        match &f.name {
            Some(name) => {
                self.push_scope();
                self.bind_params(&f.params);
                let ret_ty = self.ret_ty(&f.ret, self.mi());
                let list = param_list(self.prog(), self.mi(), self.ns(), &f.params, with_defaults);
                self.pop_scope();
                Some(cat6(&decl_spelling(&ret_ty), " ", name, "(", &list, ")"))
            },
            None => None,
        }
    }

    /// The definition of a module-level function.
    pub fn plain_fn_def(&mut self, f: &Function) -> (r: String)
        ensures
            final(self).pg() == old(self).pg(),
            final(self).room() == old(self).room(),
            (final(self).gv(), r@) == plain_fn_def_spec(old(self).pg(), old(self).room(), old(self).gv(), f.v()),
    {
        proof {
            reveal(plain_fn_def_spec);
        }
        match &f.name {
            Some(name) => {
                self.set_current_fn(name.clone());
                self.push_scope();
                self.bind_params(&f.params);
                let ret_ty = self.ret_ty(&f.ret, self.mi());
                self.set_current_ret(ret_ty.dup());
                let list = self.header_params(&f.params);
                let body = self.opt_body(&f.body);
                self.pop_scope();
                cat3(&cat8("\t", &self.linkage(f.access), &decl_spelling(&ret_ty), " ", name, "(", &list, ") {\n"), &body, "\t}\n")
            },
            None => String::new(),
        }
    }
}

/// What [`BodyGen::inline_kw`] computes.
#[verifier::opaque]
pub open spec fn inline_kw_spec(p: Env, st: GenV) -> Seq<char>
{
    if st.inline_defs { "inline "@ } else { Seq::empty() }
}

/// What [`BodyGen::header_params`] computes.
#[verifier::opaque]
pub open spec fn header_params_spec(p: Env, st: GenV, params: Seq<ParamV>) -> Seq<char>
{
    param_list_spec(p.prog, st.mi, st.ns, params, false)
}

/// What [`BodyGen::return_type`] computes.
#[verifier::opaque]
pub open spec fn return_type_spec(p: Env, st: GenV, ret: Option<TypeV>) -> Seq<char>
{
    match ret {
        Some(t) => { map_type_use_spec(p.prog, t, st.mi, st.ns) },
        None => { "void"@ },
    }
}

/// What [`BodyGen::note_abstract_this`] computes.
#[verifier::opaque]
pub open spec fn note_abstract_this_spec(p: Env, st: GenV) -> GenV
{
    let at = match p.class.abstract_underlying {
        Some(u) => { Some(ty_of_spec(p, st, u)) },
        None => { None },
    };
    let st = GenV { abstract_this: at, ..st };
    st
}

/// What [`BodyGen::bound_ty`] computes.
#[verifier::opaque]
pub open spec fn bound_ty_spec(p: Env, st: GenV, q: ParamV) -> TyV
{
    match q.ty {
        Some(t) => {
            let ty = ty_of_spec(p, st, t);
            let ty = if q.optional && (!ty.is_ptr) && is_value_struct_spec(p.prog, st.mi, t) {
                let ty = TyV { is_ptr: true, ..ty };
                ty
            } else { ty };
            ty
        },
        None => { no_ty_spec() },
    }
}

/// What [`BodyGen::bind_param`] computes.
#[verifier::opaque]
pub open spec fn bind_param_spec(p: Env, st: GenV, q: ParamV) -> GenV
{
    let ty = bound_ty_spec(p, st, q);
    let is_container = (!ty.is_ptr) && (is_container_ty_spec(deref_alias_spec(p, st, ty)));
    let st = if meta_has_spec(q.meta, "sink"@) && (!ty.is_ptr) {
        let st = warn_spec(p, st, "`@sink` on parameter `"@ + q.name + "` has no effect — it is passed by value, not as an owned pointer"@);
        st
    } else { st };
    let is_optional_string = q.optional && is_value_string_spec(ty);
    let is_struct = match q.ty {
        Some(t) => { (!q.optional) && is_value_struct_spec(p.prog, st.mi, t) },
        None => { false },
    };
    let st = define_local_spec(p, st, q.name, ty);
    let st = if is_container {
        let st = add_container_param_spec(p, st, q.name);
        st
    } else { st };
    let st = if is_struct {
        let st = add_value_struct_param_spec(p, st, q.name);
        st
    } else { st };
    if is_optional_string {
        let st = add_optional_string_param_spec(p, st, q.name);
        st
    } else { st }
}

/// What [`BodyGen::bind_params_from`] computes.
#[verifier::opaque]
pub open spec fn bind_params_from_spec(p: Env, st: GenV, params: Seq<ParamV>, i: int) -> GenV
    decreases params.len() - i,
{
    if !(0 <= i < params.len()) { st } else {
        let st = bind_param_spec(p, st, params[i]);
        let i = i + 1;
        bind_params_from_spec(p, st, params, i)
    }
}

/// What [`BodyGen::bind_params`] computes.
#[verifier::opaque]
pub open spec fn bind_params_spec(p: Env, st: GenV, params: Seq<ParamV>) -> GenV
{
    let st = clear_params_spec(p, st);
    let st = bind_params_from_spec(p, st, params, 0int);
    st
}

/// What [`BodyGen::fn_body`] computes.
#[verifier::opaque]
pub open spec fn fn_body_spec(p: Env, room: int, st: GenV, stmts: Seq<StmtV>) -> (GenV, Seq<char>)
{
    let st = begin_fn_body_spec(p, st, stmts);
    let (st, text) = gen_stmts_spec(p, room, st, stmts, "\t"@, 0int, Seq::empty());
    let deletes = body_close_deletes_spec(p, st, stmts, "\t"@);
    (st, text + deletes)
}

/// What [`BodyGen::opt_body`] computes.
#[verifier::opaque]
pub open spec fn opt_body_spec(p: Env, room: int, st: GenV, body: Option<Seq<StmtV>>) -> (GenV, Seq<char>)
{
    match body {
        Some(stmts) => { fn_body_spec(p, room, st, stmts) },
        None => { (st, Seq::empty()) },
    }
}

/// What [`BodyGen::method_impl`] computes.
#[verifier::opaque]
pub open spec fn method_impl_spec(p: Env, room: int, st: GenV, class_name: Seq<char>, name: Seq<char>, m: FunctionV, ret: Option<TypeV>) -> (GenV, Seq<char>)
{
    let st = push_scope_spec(p, st);
    let st = note_abstract_this_spec(p, st);
    let st = bind_params_spec(p, st, m.params);
    let ret_ty = opt_ty_spec(p, st, ret);
    let st = GenV { current_ret: ret_ty, ..st };
    let st = GenV { current_fn: name, ..st };
    let params = header_params_spec(p, st, m.params);
    let (st, body) = opt_body_spec(p, room, st, m.body);
    let st = pop_scope_spec(p, st);
    (st, "\t"@ + inline_kw_spec(p, st) + return_type_spec(p, st, ret) + " "@ + class_name + "::"@ + name + "("@ + params + ") {\n"@ + body + "\t}\n"@)
}

/// What [`BodyGen::linkage`] computes.
#[verifier::opaque]
pub open spec fn linkage_spec(p: Env, st: GenV, access: Access) -> Seq<char>
{
    if st.inline_defs { "inline "@ } else if access == (Access::Private) { "static "@ } else { Seq::empty() }
}

/// What [`BodyGen::free_fn_signature`] computes.
#[verifier::opaque]
pub open spec fn free_fn_signature_spec(p: Env, st: GenV, g: GlobalVarV, with_defaults: bool) -> (GenV, Option<Seq<char>>)
{
    if !g.is_final { (st, None) } else {
        match g.init {
            Some(e) => {
                match e {
                    ExprV::Lambda { params, ret, body } => {
                        let ps = effective_lambda_params_spec(params, g.ty);
                        let st = push_scope_spec(p, st);
                        let st = bind_params_spec(p, st, ps);
                        let ret_ty = resolve_lambda_ret_spec(p, st, ret, *body, g.ty);
                        let list = param_list_spec(p.prog, st.mi, st.ns, ps, with_defaults);
                        let st = pop_scope_spec(p, st);
                        (st, Some(decl_spelling_spec(ret_ty) + " "@ + g.name + "("@ + list + ")"@))
                    },
                    _ => { (st, None) },
                }
            },
            None => { (st, None) },
        }
    }
}

/// What [`BodyGen::lambda_body_text`] computes.
#[verifier::opaque]
pub open spec fn lambda_body_text_spec(p: Env, room: int, st: GenV, body: LambdaBodyV, ret_ty: TyV) -> (GenV, Seq<char>)
{
    match body {
        LambdaBodyV::Expr(e) => {
            let st = GenV { prelude_t: "\t"@, ..st };
            let (st, (code, ty)) = gen_expr_spec(p, room, st, e);
            let (st, pre) = flush_spec(p, st);
            let v = if ret_ty.is_ptr && (!ty.is_ptr) { "new "@ + ret_ty.base + "("@ + code + ")"@ } else { code };
            let (st, last) = finish_return_spec(p, st, "\t"@, v);
            (st, pre + last)
        },
        LambdaBodyV::Block(stmts) => { fn_body_spec(p, room, st, stmts) },
    }
}

/// What [`BodyGen::free_fn_def`] computes.
#[verifier::opaque]
pub open spec fn free_fn_def_spec(p: Env, room: int, st: GenV, g: GlobalVarV) -> (GenV, Seq<char>)
{
    if !g.is_final { (st, Seq::empty()) } else {
        match g.init {
            Some(e) => {
                match e {
                    ExprV::Lambda { params, ret, body } => {
                        let ps = effective_lambda_params_spec(params, g.ty);
                        let st = GenV { current_fn: g.name, ..st };
                        let st = push_scope_spec(p, st);
                        let st = bind_params_spec(p, st, ps);
                        let ret_ty = resolve_lambda_ret_spec(p, st, ret, *body, g.ty);
                        let st = GenV { current_ret: ret_ty, ..st };
                        let list = header_params_spec(p, st, ps);
                        let (st, text) = lambda_body_text_spec(p, room, st, *body, ret_ty);
                        let st = pop_scope_spec(p, st);
                        (st, "\t"@ + linkage_spec(p, st, g.access) + decl_spelling_spec(ret_ty) + " "@ + g.name + "("@ + list + ") {\n"@ + text + "\t}\n"@)
                    },
                    _ => { (st, Seq::empty()) },
                }
            },
            None => { (st, Seq::empty()) },
        }
    }
}

/// What [`BodyGen::extern_fn_def`] computes.
#[verifier::opaque]
pub open spec fn extern_fn_def_spec(p: Env, room: int, st: GenV, f: FunctionV) -> (GenV, Seq<char>)
{
    match f.name {
        Some(name) => {
            let prefix = p.prog.export_macro;
            let st = GenV { current_fn: name, ..st };
            let st = push_scope_spec(p, st);
            let st = bind_params_spec(p, st, f.params);
            let ret_ty = ret_ty_spec(p, st, f.ret, st.mi);
            let st = GenV { current_ret: ret_ty, ..st };
            let list = header_params_spec(p, st, f.params);
            let (st, body) = opt_body_spec(p, room, st, f.body);
            let st = pop_scope_spec(p, st);
            (st, prefix + "_EXPORT "@ + decl_spelling_spec(ret_ty) + " "@ + prefix + "_CALL "@ + name + "("@ + list + ") {\n"@ + body + "}\n"@)
        },
        None => { (st, Seq::empty()) },
    }
}

/// What [`BodyGen::plain_fn_signature`] computes.
#[verifier::opaque]
pub open spec fn plain_fn_signature_spec(p: Env, st: GenV, f: FunctionV, with_defaults: bool) -> (GenV, Option<Seq<char>>)
{
    match f.name {
        Some(name) => {
            let st = push_scope_spec(p, st);
            let st = bind_params_spec(p, st, f.params);
            let ret_ty = ret_ty_spec(p, st, f.ret, st.mi);
            let list = param_list_spec(p.prog, st.mi, st.ns, f.params, with_defaults);
            let st = pop_scope_spec(p, st);
            (st, Some(decl_spelling_spec(ret_ty) + " "@ + name + "("@ + list + ")"@))
        },
        None => { (st, None) },
    }
}

/// What [`BodyGen::plain_fn_def`] computes.
#[verifier::opaque]
pub open spec fn plain_fn_def_spec(p: Env, room: int, st: GenV, f: FunctionV) -> (GenV, Seq<char>)
{
    match f.name {
        Some(name) => {
            let st = GenV { current_fn: name, ..st };
            let st = push_scope_spec(p, st);
            let st = bind_params_spec(p, st, f.params);
            let ret_ty = ret_ty_spec(p, st, f.ret, st.mi);
            let st = GenV { current_ret: ret_ty, ..st };
            let list = header_params_spec(p, st, f.params);
            let (st, body) = opt_body_spec(p, room, st, f.body);
            let st = pop_scope_spec(p, st);
            (st, "\t"@ + linkage_spec(p, st, f.access) + decl_spelling_spec(ret_ty) + " "@ + name + "("@ + list + ") {\n"@ + body + "\t}\n"@)
        },
        None => { (st, Seq::empty()) },
    }
}

} // verus!
