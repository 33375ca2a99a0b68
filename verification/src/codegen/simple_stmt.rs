//! Declarations, expression statements and returns.

use vstd::prelude::*;

use crate::ast::{Expr, Stmt, Type};
use crate::codegen::access::ordered_map_ref_spec;
use crate::codegen::expr::{gen_expr_hinted_spec, gen_expr_spec};
use crate::codegen::gen::GenV;
use crate::codegen::helpers::{is_null_type, is_null_type_spec, map_get_init, map_get_init_spec, no_ty, no_ty_spec, rcode_is_map, rcode_is_map_spec};
use crate::codegen::literal::{expand_anon_struct_local_spec, expand_array_into_local_spec, expand_map_into_local_spec, expand_object_into_local_spec, infer_array_spec, or_no_ty, or_no_ty_spec};
use crate::codegen::state::{BodyGen, Env, bind_local_name_spec, define_local_spec, dup_text_lists, flush_spec, fresh_spec, is_local_spec, name_local_spec, register_owned_spec, reserve_local_name_spec, settled, transfer_owned_spec, warn_spec};
use crate::codegen::ty::{IterAlias, IterAliasV, Ty, TyV};
use crate::codegen::ty_copy::dup_opt_ty;
use crate::codegen::types::{assigned_own_field_spec, decl_spelling, decl_spelling_spec, elem_ast_ty_spec, element_ty_spec, map_kv_ast_ty_spec, map_value_ty_spec, own_field_setter_spec, return_empty_container_spec, return_null_value_spec, return_value_ty_spec, ty_of_spec, wrap_ret_spec};
use crate::codegen::values::{finish_return_spec, heap_new_spec, push_into_retaining_container_spec};
use crate::codegen::write::gen_assign_or_expr_spec;
use crate::model::{ExprV, StmtV, TypeV};
use crate::parser::pp::{trim, trim_spec};
use crate::text::{cat2, cat3, cat4, cat5, cat6, cat8, empty, has_text, same};

verus! {

broadcast use {crate::codegen::gen::group_gen, crate::codegen::ty::group_ty, crate::model::group_model, crate::text::group_texts};

/// Whether an initialiser is a literal that makes a value: an object, or a container that is
/// not empty.
pub fn is_value_literal(init: &Option<Expr>) -> (r: bool)
    ensures
        r == is_value_literal_spec((match init { Some(y) => Some(y.v()), None => None })),
{
    match init {
        Some(e) => match e.node() {
            Expr::ObjectLit(_) => true,
            Expr::ArrayLit(v) => v.len() > 0,
            Expr::MapLit(v) => v.len() > 0,
            _ => false,
        },
        None => false,
    }
}

/// Whether an expression is an empty container literal.
pub fn is_empty_literal(e: &Expr) -> (r: bool)
    ensures
        r == is_empty_literal_spec(e.v()),
{
    match e.node() {
        Expr::ArrayLit(v) => v.len() == 0,
        Expr::MapLit(v) => v.len() == 0,
        _ => false,
    }
}

/// Whether a target is a field of some object.
pub fn is_field(e: &Expr) -> (r: bool)
    ensures
        r == is_field_spec(e.v()),
{
    matches!(e.node(), Expr::Field(_, _))
}

impl<'a> BodyGen<'a> {
    /// Warn that `@delete` or `@sink` on a value does nothing.
    fn warn_value_local(&mut self, delete: bool, sink: bool, name: &str)
        ensures
            final(self).pg() == old(self).pg(),
            final(self).room() == old(self).room(),
            final(self).gv() == warn_value_local_spec(old(self).pg(), old(self).gv(), delete, sink, name@),
            settled(final(self).gv()) == settled(old(self).gv()),
    {
        proof {
            reveal(warn_value_local_spec);
        }
        if delete {
            self.warn(&cat3("`@delete` on `", name, "` has no effect — it is a value local (freed automatically at scope close), not an owned pointer"));
        }
        if sink {
            self.warn(&cat3("`@sink` on `", name, "` has no effect — it is a value local (freed automatically at scope close), not an owned pointer to hand off"));
        }
    }

    /// `var x = map.get(k)` binds an iterator. `None` where the receiver is no map.
    fn try_bind_map_iter(&mut self, name: &str, declared: &Option<Ty>, init: &Expr, t: &str) -> (r: Option<String>)
        ensures
            final(self).pg() == old(self).pg(),
            final(self).room() == old(self).room(),
            (final(self).gv(), (match r { Some(y) => Some(y@), None => None })) == try_bind_map_iter_spec(old(self).pg(), old(self).room(), old(self).gv(), name@, (match declared { Some(y) => Some(y.v()), None => None }), init.v(), t@),
            settled(final(self).gv()) == settled(old(self).gv()),
            r is None ==> final(self).gv().prelude == old(self).gv().prelude && final(self).gv().owned == old(self).gv().owned,
        decreases old(self).room(), *init, 29int, 0int,
    {
        proof {
            reveal(try_bind_map_iter_spec);
            reveal(ordered_map_ref_spec);
            reveal(gen_expr_spec);
        }
        match init.node() {
            Expr::Call(target, args) => {
                if args.len() != 1 {
                    return None;
                }
                match target.node() {
                    Expr::Field(map_expr, method) => {
                        if !same(method, "get") {
                            return None;
                        }
                        let lines = self.prelude().clone();
                        let owned = dup_text_lists(self.owned());
                        // an ordered map has no iterator to bind
                        if self.ordered_map_ref(map_expr).is_some() {
                            self.undo(lines, owned);
                            return None;
                        }
                        let (map_code, map_ty) = self.gen_expr(map_expr);
                        if !rcode_is_map(&map_ty) {
                            self.undo(lines, owned);
                            return None;
                        }
                        let (key, _) = self.gen_expr(&args[0]);
                        let known = or_no_ty(declared);
                        let value_ty = if known.info.is_some() { known } else { self.map_value_ty(&map_ty) };
                        let it = self.fresh("it");
                        let pre = self.flush();
                        let text = cat3(&cat8(&pre, t, &map_ty.base, "::iterator ", &it, " = ", &map_code, ".find("), &key, ");\n");
                        let mut local_ty = value_ty.dup();
                        local_ty.iter = Some(Box::new(IterAlias { it_name: it, map_code, value_ty }));
                        self.define_local(name, local_ty);
                        Some(text)
                    },
                    _ => None,
                }
            },
            _ => None,
        }
    }

    /// A declaration whose initialiser is a literal that is built in place. `None` for any
    /// other.
    fn gen_literal_var(&mut self, name: &str, ty: &Option<Type>, declared: &Option<Ty>, init: &Expr, t: &str) -> (r: Option<String>)
        ensures
            final(self).pg() == old(self).pg(),
            final(self).room() == old(self).room(),
            (final(self).gv(), (match r { Some(y) => Some(y@), None => None })) == gen_literal_var_spec(old(self).pg(), old(self).room(), old(self).gv(), name@, (match ty { Some(y) => Some(y.v()), None => None }), (match declared { Some(y) => Some(y.v()), None => None }), init.v(), t@),
            settled(final(self).gv()) == settled(old(self).gv()),
        decreases old(self).room(), *init, 29int, 0int,
    {
        proof {
            reveal(gen_literal_var_spec);
            reveal(expand_object_into_local_spec);
            reveal(expand_anon_struct_local_spec);
            reveal(infer_array_spec);
            reveal(expand_array_into_local_spec);
            reveal(expand_map_into_local_spec);
        }
        match init.node() {
            Expr::ObjectLit(fields) => {
                let known = or_no_ty(declared);
                if known.info.is_some() {
                    let cpp = self.reserve_local_name(name);
                    let text = self.expand_object_into_local(&cpp, &known, fields, t);
                    self.name_local(name, &cpp);
                    self.define_local(name, known);
                    return Some(text);
                }
                let cpp = self.reserve_local_name(name);
                let (text, anon) = self.expand_anon_struct_local(&cpp, fields, t);
                self.name_local(name, &cpp);
                self.define_local(name, anon);
                Some(text)
            },
            Expr::ArrayLit(elems) => {
                if elems.len() == 0 {
                    return None;
                }
                let vec_ty = match declared {
                    Some(d) => d.dup(),
                    None => self.infer_array(elems),
                };
                let elem = match self.elem_ast_ty(ty) {
                    Some(el) => el,
                    None => self.element_ty(&vec_ty),
                };
                let cpp = self.reserve_local_name(name);
                let text = self.expand_array_into_local(&cpp, &vec_ty, &elem, elems, t);
                self.name_local(name, &cpp);
                self.define_local(name, vec_ty);
                Some(text)
            },
            Expr::MapLit(pairs) => {
                if pairs.len() == 0 {
                    return None;
                }
                let map_ty = or_no_ty(declared);
                let (_, vty) = self.map_kv_ast_ty(ty);
                let cpp = self.reserve_local_name(name);
                let text = self.expand_map_into_local(&cpp, &map_ty, &vty, pairs, t);
                self.name_local(name, &cpp);
                self.define_local(name, map_ty);
                Some(text)
            },
            _ => None,
        }
    }

    /// The code and the type of an initialiser; nothing where it is left out or an empty
    /// container.
    fn gen_init(&mut self, init: &Expr, declared: &Option<Ty>) -> (r: Option<(String, Ty)>)
        ensures
            final(self).pg() == old(self).pg(),
            final(self).room() == old(self).room(),
            (final(self).gv(), (match r { Some(y) => Some((y.0@, y.1.v())), None => None })) == gen_init_spec(old(self).pg(), old(self).room(), old(self).gv(), init.v(), (match declared { Some(y) => Some(y.v()), None => None })),
            settled(final(self).gv()) == settled(old(self).gv()),
        decreases old(self).room(), *init, 29int, 0int,
    {
        proof {
            reveal(gen_init_spec);
            reveal(gen_expr_hinted_spec);
        }
        if is_empty_literal(init) {
            return None;
        }
        Some(self.gen_expr_hinted(init, dup_opt_ty(declared)))
    }

    /// The declaration of a local with a generated initialiser. A heap object that does not
    /// escape is owned by the scope; `@delete` and `@sink` override that.
    fn finish_var(&mut self, name: &str, ty: &Option<Type>, declared: &Option<Ty>, val: Option<(String, Ty)>, heap: bool, delete: bool, sink: bool, t: &str) -> (r: String)
        ensures
            final(self).pg() == old(self).pg(),
            final(self).room() == old(self).room(),
            (final(self).gv(), r@) == finish_var_spec(old(self).pg(), old(self).gv(), name@, (match ty { Some(y) => Some(y.v()), None => None }), (match declared { Some(y) => Some(y.v()), None => None }), (match val { Some(y) => Some((y.0@, y.1.v())), None => None }), heap, delete, sink, t@),
            settled(final(self).gv()) == settled(old(self).gv()),
    {
        proof {
            reveal(finish_var_spec);
        }
        let given = val.is_some();
        let (code, val_ty) = match val {
            Some((c, vt)) => (c, vt),
            None => (String::new(), no_ty()),
        };
        let nullable = val_ty.nullable;
        if nullable && !is_null_type(ty) {
            self.warn(&cat3("local '", name, "' is assigned a Null<T> value but is not declared `Null<T>`; declare it `Null<T>` so the nullable result is tracked"));
        }
        let var_ty = match declared {
            Some(d) => d.dup(),
            None => val_ty,
        };
        let emit = self.bind_local_name(name);
        let pre = self.flush();
        let line = if given {
            cat8(&pre, t, &decl_spelling(&var_ty), " ", &emit, " = ", &code, ";\n")
        } else {
            cat6(&pre, t, &decl_spelling(&var_ty), " ", &emit, ";\n")
        };
        let is_ptr = var_ty.is_ptr;
        self.define_local(name, var_ty);
        if !is_ptr {
            self.warn_value_local(delete, sink, name);
        }
        if !sink && ((delete && is_ptr) || ((heap || nullable) && !has_text(self.escaping(), name))) {
            self.register_owned(&emit);
        }
        line
    }

    /// A local declaration.
    #[verifier::rlimit(40)]
    pub fn gen_var(&mut self, s: &Stmt, t: &str) -> (r: String)
        ensures
            final(self).pg() == old(self).pg(),
            final(self).room() == old(self).room(),
            (final(self).gv(), r@) == gen_var_spec(old(self).pg(), old(self).room(), old(self).gv(), s.v(), t@),
            settled(final(self).gv()) == settled(old(self).gv()),
        decreases old(self).room(), *s, 9int, 0int,
    {
        proof {
            reveal(gen_var_spec);
            reveal(try_bind_map_iter_spec);
            reveal(gen_literal_var_spec);
            reveal(gen_init_spec);
        }
        match s.node() {
            Stmt::Var { name, ty, init, is_final: _, delete, sink, line } => {
                self.set_current_line(*line);
                self.set_new_args_escape(has_text(self.escaping(), name));
                let declared = match ty {
                    Some(ht) => Some(self.ty_of(ht)),
                    None => None,
                };
                if is_value_literal(init) {
                    self.warn_value_local(*delete, *sink, name);
                }
                match init {
                    Some(e) => {
                        if map_get_init(init).is_some() {
                            match self.try_bind_map_iter(name, &declared, e, t) {
                                Some(text) => {
                                    return text;
                                },
                                None => {},
                            }
                        }
                        match self.gen_literal_var(name, ty, &declared, e, t) {
                            Some(text) => {
                                return text;
                            },
                            None => {},
                        }
                        let val = self.gen_init(e, &declared);
                        self.finish_var(name, ty, &declared, val, self.heap_new(e), *delete, *sink, t)
                    },
                    None => self.finish_var(name, ty, &declared, None, false, *delete, *sink, t),
                }
            },
            _ => String::new(),
        }
    }

    /// What storing a value in a container that outlives the scope changes: a `new` is not
    /// owned here, nor is a local any longer.
    fn note_retained(&mut self, e: &Expr)
        ensures
            final(self).pg() == old(self).pg(),
            final(self).room() == old(self).room(),
            final(self).gv() == note_retained_spec(old(self).pg(), old(self).gv(), e.v()),
            settled(final(self).gv()) == settled(old(self).gv()),
    {
        proof {
            reveal(note_retained_spec);
        }
        match self.push_into_retaining_container(e) {
            Some(value) => {
                if self.heap_new(value) {
                    self.set_new_args_escape(true);
                }
                match value.node() {
                    Expr::Ident(name) => {
                        if self.is_local(name) {
                            self.transfer_owned(name);
                        }
                    },
                    _ => {},
                }
            },
            None => {},
        }
    }

    /// What an assignment statement needs first: the old value of an owned field is deleted,
    /// outside the constructor and where no setter does it.
    fn note_assigned(&mut self, e: &Expr, t: &str) -> (r: String)
        ensures
            final(self).pg() == old(self).pg(),
            final(self).room() == old(self).room(),
            (final(self).gv(), r@) == note_assigned_spec(old(self).pg(), old(self).gv(), e.v(), t@),
            settled(final(self).gv()) == settled(old(self).gv()),
    {
        proof {
            reveal(note_assigned_spec);
        }
        match e.node() {
            Expr::Assign { op, target, value: _ } => {
                if op.is_some() {
                    return String::new();
                }
                let own = self.assigned_own_field(target);
                if is_field(target) || own.is_some() {
                    self.set_new_args_escape(true);
                }
                match own {
                    Some(field) => {
                        if !same(self.current_fn(), "new") && has_text(self.owned_fields(), &field)
                            && self.own_field_setter(target).is_none() {
                            cat4(t, "delete this->", &field, ";\n")
                        } else {
                            String::new()
                        }
                    },
                    None => String::new(),
                }
            },
            _ => String::new(),
        }
    }

    /// An expression statement. A discarded nullable result is kept in an owned local.
    pub fn gen_expr_stmt(&mut self, e: &Expr, t: &str) -> (r: String)
        ensures
            final(self).pg() == old(self).pg(),
            final(self).room() == old(self).room(),
            (final(self).gv(), r@) == gen_expr_stmt_spec(old(self).pg(), old(self).room(), old(self).gv(), e.v(), t@),
            settled(final(self).gv()) == settled(old(self).gv()),
        decreases old(self).room(), *e, 30int, 0int,
    {
        proof {
            reveal(gen_expr_stmt_spec);
            reveal(gen_assign_or_expr_spec);
        }
        self.note_retained(e);
        let first = self.note_assigned(e, t);
        let (code, ty) = self.gen_assign_or_expr(e);
        let pre = self.flush();
        if matches!(e.node(), Expr::Call(_, _)) && ty.nullable {
            let tmp = self.fresh("null");
            self.register_owned(&tmp);
            return cat2(&cat8(&first, &pre, t, &decl_spelling(&ty), " ", &tmp, " = ", &code), ";\n");
        }
        if empty(&trim(&code)) {
            return cat2(&first, &pre);
        }
        cat5(&first, &pre, t, &code, ";\n")
    }

    /// `return e;`.
    pub fn gen_return(&mut self, e: &Expr, t: &str) -> (r: String)
        ensures
            final(self).pg() == old(self).pg(),
            final(self).room() == old(self).room(),
            (final(self).gv(), r@) == gen_return_spec(old(self).pg(), old(self).room(), old(self).gv(), e.v(), t@),
            settled(final(self).gv()) == settled(old(self).gv()),
        decreases old(self).room(), *e, 30int, 0int,
    {
        proof {
            reveal(gen_return_spec);
            reveal(expand_object_into_local_spec);
            reveal(expand_array_into_local_spec);
            reveal(gen_value_return_spec);
        }
        self.set_new_args_escape(true);
        match e.node() {
            Expr::Null => {
                let v = self.return_null_value();
                self.finish_return(t, &v)
            },
            Expr::ObjectLit(fields) => {
                let val_ty = self.return_value_ty();
                let tmp = self.fresh("ret");
                let text = self.expand_object_into_local(&tmp, &val_ty, fields, t);
                let v = self.wrap_ret(&tmp);
                let last = self.finish_return(t, &v);
                cat2(&text, &last)
            },
            Expr::ArrayLit(elems) => {
                if elems.len() == 0 {
                    let v = self.return_empty_container();
                    return self.finish_return(t, &v);
                }
                let val_ty = self.return_value_ty();
                let elem = self.element_ty(&val_ty);
                let tmp = self.fresh("ret");
                let text = self.expand_array_into_local(&tmp, &val_ty, &elem, elems, t);
                let v = self.wrap_ret(&tmp);
                let last = self.finish_return(t, &v);
                cat2(&text, &last)
            },
            Expr::MapLit(pairs) => {
                if pairs.len() == 0 {
                    let v = self.return_empty_container();
                    return self.finish_return(t, &v);
                }
                self.gen_value_return(e, t)
            },
            _ => self.gen_value_return(e, t),
        }
    }

    /// The return of a value that has the return type as its context.
    fn gen_value_return(&mut self, e: &Expr, t: &str) -> (r: String)
        ensures
            final(self).pg() == old(self).pg(),
            final(self).room() == old(self).room(),
            (final(self).gv(), r@) == gen_value_return_spec(old(self).pg(), old(self).room(), old(self).gv(), e.v(), t@),
            settled(final(self).gv()) == settled(old(self).gv()),
        decreases old(self).room(), *e, 29int, 0int,
    {
        proof {
            reveal(gen_value_return_spec);
            reveal(gen_expr_hinted_spec);
        }
        let want = self.current_ret().dup();
        let (code, ty) = self.gen_expr_hinted(e, Some(want));
        let pre = self.flush();
        let v = if self.current_ret().is_ptr && !ty.is_ptr { cat5("new ", &self.current_ret().base, "(", &code, ")") } else { code };
        let last = self.finish_return(t, &v);
        cat2(&pre, &last)
    }
}

/// What [`is_value_literal`] computes.
pub open spec fn is_value_literal_spec(init: Option<ExprV>) -> bool
{
    match init {
        Some(e) => {
            match e {
                ExprV::ObjectLit(_) => { true },
                ExprV::ArrayLit(v) => { (v.len()) > 0 },
                ExprV::MapLit(v) => { (v.len()) > 0 },
                _ => { false },
            }
        },
        None => { false },
    }
}

/// What [`is_empty_literal`] computes.
pub open spec fn is_empty_literal_spec(e: ExprV) -> bool
{
    match e {
        ExprV::ArrayLit(v) => { (v.len()) == 0 },
        ExprV::MapLit(v) => { (v.len()) == 0 },
        _ => { false },
    }
}

/// What [`is_field`] computes.
pub open spec fn is_field_spec(e: ExprV) -> bool
{
    (match e { ExprV::Field(_, _) => true, _ => false })
}

/// What [`BodyGen::warn_value_local`] computes.
#[verifier::opaque]
pub open spec fn warn_value_local_spec(p: Env, st: GenV, delete: bool, sink: bool, name: Seq<char>) -> GenV
{
    let st = if delete {
        let st = warn_spec(p, st, "`@delete` on `"@ + name + "` has no effect — it is a value local (freed automatically at scope close), not an owned pointer"@);
        st
    } else { st };
    if sink {
        let st = warn_spec(p, st, "`@sink` on `"@ + name + "` has no effect — it is a value local (freed automatically at scope close), not an owned pointer to hand off"@);
        st
    } else { st }
}

/// What [`BodyGen::try_bind_map_iter`] computes.
#[verifier::opaque]
pub open spec fn try_bind_map_iter_spec(p: Env, room: int, st: GenV, name: Seq<char>, declared: Option<TyV>, init: ExprV, t: Seq<char>) -> (GenV, Option<Seq<char>>)
    decreases room, init, 29int, 0int,
{
    match init {
        ExprV::Call(target, args) => {
            if (args.len()) != 1 { (st, None) } else {
                match *target {
                    ExprV::Field(map_expr, method) => {
                        if !(method == "get"@) { (st, None) } else {
                            let lines = st.prelude;
                            let owned = st.owned;
                            let (st, x1) = ordered_map_ref_spec(p, room, st, *map_expr);
                            if x1 is Some {
                                let st = GenV { prelude: lines, owned: owned, ..st };
                                (st, None)
                            } else {
                                let (st, (map_code, map_ty)) = gen_expr_spec(p, room, st, *map_expr);
                                if !rcode_is_map_spec(map_ty) {
                                    let st = GenV { prelude: lines, owned: owned, ..st };
                                    (st, None)
                                } else {
                                    let (st, (key, _)) = gen_expr_spec(p, room, st, args[0]);
                                    let known = or_no_ty_spec(declared);
                                    let value_ty = if known.info is Some { known } else { map_value_ty_spec(p, st, map_ty) };
                                    let (st, it) = fresh_spec(p, st, "it"@);
                                    let (st, pre) = flush_spec(p, st);
                                    let text = pre + t + map_ty.base + "::iterator "@ + it + " = "@ + map_code + ".find("@ + key + ");\n"@;
                                    let local_ty = value_ty;
                                    let local_ty = TyV { iter: Some(Box::new(IterAliasV { it_name: it, map_code, value_ty })), ..local_ty };
                                    let st = define_local_spec(p, st, name, local_ty);
                                    (st, Some(text))
                                }
                            }
                        }
                    },
                    _ => { (st, None) },
                }
            }
        },
        _ => { (st, None) },
    }
}

/// What [`BodyGen::gen_literal_var`] computes.
#[verifier::opaque]
pub open spec fn gen_literal_var_spec(p: Env, room: int, st: GenV, name: Seq<char>, ty: Option<TypeV>, declared: Option<TyV>, init: ExprV, t: Seq<char>) -> (GenV, Option<Seq<char>>)
    decreases room, init, 29int, 0int,
{
    match init {
        ExprV::ObjectLit(fields) => {
            let known = or_no_ty_spec(declared);
            if known.info is Some {
                let (st, cpp) = reserve_local_name_spec(p, st, name);
                let (st, text) = expand_object_into_local_spec(p, room, st, cpp, known, fields, t);
                let st = name_local_spec(p, st, name, cpp);
                let st = define_local_spec(p, st, name, known);
                (st, Some(text))
            } else {
                let (st, cpp) = reserve_local_name_spec(p, st, name);
                let (st, (text, anon)) = expand_anon_struct_local_spec(p, room, st, cpp, fields, t);
                let st = name_local_spec(p, st, name, cpp);
                let st = define_local_spec(p, st, name, anon);
                (st, Some(text))
            }
        },
        ExprV::ArrayLit(elems) => {
            if (elems.len()) == 0 { (st, None) } else {
                let (st, vec_ty) = match declared {
                    Some(d) => { (st, d) },
                    None => {
                        let (st, x1) = infer_array_spec(p, room, st, elems);
                        (st, x1)
                    },
                };
                let elem = match elem_ast_ty_spec(p, st, ty) {
                    Some(el) => { el },
                    None => { element_ty_spec(p, st, vec_ty) },
                };
                let (st, cpp) = reserve_local_name_spec(p, st, name);
                let (st, text) = expand_array_into_local_spec(p, room, st, cpp, vec_ty, elem, elems, t);
                let st = name_local_spec(p, st, name, cpp);
                let st = define_local_spec(p, st, name, vec_ty);
                (st, Some(text))
            }
        },
        ExprV::MapLit(pairs) => {
            if (pairs.len()) == 0 { (st, None) } else {
                let map_ty = or_no_ty_spec(declared);
                let (_, vty) = map_kv_ast_ty_spec(p, st, ty);
                let (st, cpp) = reserve_local_name_spec(p, st, name);
                let (st, text) = expand_map_into_local_spec(p, room, st, cpp, map_ty, vty, pairs, t);
                let st = name_local_spec(p, st, name, cpp);
                let st = define_local_spec(p, st, name, map_ty);
                (st, Some(text))
            }
        },
        _ => { (st, None) },
    }
}

/// What [`BodyGen::gen_init`] computes.
#[verifier::opaque]
pub open spec fn gen_init_spec(p: Env, room: int, st: GenV, init: ExprV, declared: Option<TyV>) -> (GenV, Option<(Seq<char>, TyV)>)
    decreases room, init, 29int, 0int,
{
    if is_empty_literal_spec(init) { (st, None) } else {
        let (st, x1) = gen_expr_hinted_spec(p, room, st, init, declared);
        (st, Some(x1))
    }
}

/// What [`BodyGen::finish_var`] computes.
#[verifier::opaque]
pub open spec fn finish_var_spec(p: Env, st: GenV, name: Seq<char>, ty: Option<TypeV>, declared: Option<TyV>, val: Option<(Seq<char>, TyV)>, heap: bool, delete: bool, sink: bool, t: Seq<char>) -> (GenV, Seq<char>)
{
    let given = val is Some;
    let (code, val_ty) = match val {
        Some((c, vt)) => { (c, vt) },
        None => { (Seq::empty(), no_ty_spec()) },
    };
    let nullable = val_ty.nullable;
    let st = if nullable && (!is_null_type_spec(ty)) {
        let st = warn_spec(p, st, "local '"@ + name + "' is assigned a Null<T> value but is not declared `Null<T>`; declare it `Null<T>` so the nullable result is tracked"@);
        st
    } else { st };
    let var_ty = match declared {
        Some(d) => { d },
        None => { val_ty },
    };
    let (st, emit) = bind_local_name_spec(p, st, name);
    let (st, pre) = flush_spec(p, st);
    let line = if given {
        pre + t + decl_spelling_spec(var_ty) + " "@ + emit + " = "@ + code + ";\n"@
    } else {
        pre + t + decl_spelling_spec(var_ty) + " "@ + emit + ";\n"@
    };
    let is_ptr = var_ty.is_ptr;
    let st = define_local_spec(p, st, name, var_ty);
    let st = if !is_ptr {
        let st = warn_value_local_spec(p, st, delete, sink, name);
        st
    } else { st };
    let st = if (!sink) && ((delete && is_ptr) || ((heap || nullable) && !(st.escaping.contains(name)))) {
        let st = register_owned_spec(p, st, emit);
        st
    } else { st };
    (st, line)
}

/// What [`BodyGen::gen_var`] computes.
#[verifier::opaque]
pub open spec fn gen_var_spec(p: Env, room: int, st: GenV, s: StmtV, t: Seq<char>) -> (GenV, Seq<char>)
    decreases room, s, 9int, 0int,
{
    match s {
        StmtV::Var { name, ty, init, is_final: _, delete, sink, line } => {
            let st = GenV { current_line: line, ..st };
            let st = GenV { new_args_escape: st.escaping.contains(name), ..st };
            let declared = match ty {
                Some(ht) => { Some(ty_of_spec(p, st, ht)) },
                None => { None },
            };
            let st = if is_value_literal_spec(init) {
                let st = warn_value_local_spec(p, st, delete, sink, name);
                st
            } else { st };
            match init {
                Some(e) => {
                    if map_get_init_spec(init) is Some {
                        let (st, x1) = try_bind_map_iter_spec(p, room, st, name, declared, e, t);
                        match x1 {
                            Some(text) => { (st, text) },
                            None => {
                                let (st, x2) = gen_literal_var_spec(p, room, st, name, ty, declared, e, t);
                                match x2 {
                                    Some(text) => { (st, text) },
                                    None => {
                                        let (st, val) = gen_init_spec(p, room, st, e, declared);
                                        finish_var_spec(p, st, name, ty, declared, val, heap_new_spec(p, st, e), delete, sink, t)
                                    },
                                }
                            },
                        }
                    } else {
                        let (st, x3) = gen_literal_var_spec(p, room, st, name, ty, declared, e, t);
                        match x3 {
                            Some(text) => { (st, text) },
                            None => {
                                let (st, val) = gen_init_spec(p, room, st, e, declared);
                                finish_var_spec(p, st, name, ty, declared, val, heap_new_spec(p, st, e), delete, sink, t)
                            },
                        }
                    }
                },
                None => { finish_var_spec(p, st, name, ty, declared, None, false, delete, sink, t) },
            }
        },
        _ => { (st, Seq::empty()) },
    }
}

/// What [`BodyGen::note_retained`] computes.
#[verifier::opaque]
pub open spec fn note_retained_spec(p: Env, st: GenV, e: ExprV) -> GenV
{
    match push_into_retaining_container_spec(p, st, e) {
        Some(value) => {
            let st = if heap_new_spec(p, st, value) {
                let st = GenV { new_args_escape: true, ..st };
                st
            } else { st };
            match value {
                ExprV::Ident(name) => {
                    if is_local_spec(p, st, name) {
                        let st = transfer_owned_spec(p, st, name);
                        st
                    } else { st }
                },
                _ => { st },
            }
        },
        None => { st },
    }
}

/// What [`BodyGen::note_assigned`] computes.
#[verifier::opaque]
pub open spec fn note_assigned_spec(p: Env, st: GenV, e: ExprV, t: Seq<char>) -> (GenV, Seq<char>)
{
    match e {
        ExprV::Assign { op, target, value: _ } => {
            if op is Some { (st, Seq::empty()) } else {
                let own = assigned_own_field_spec(p, st, *target);
                let st = if is_field_spec(*target) || (own is Some) {
                    let st = GenV { new_args_escape: true, ..st };
                    st
                } else { st };
                match own {
                    Some(field) => {
                        if !(st.current_fn == "new"@) && (st.owned_fields.contains(field)) && (own_field_setter_spec(p, st, *target) is None) {
                            (st, t + "delete this->"@ + field + ";\n"@)
                        } else { (st, Seq::empty()) }
                    },
                    None => { (st, Seq::empty()) },
                }
            }
        },
        _ => { (st, Seq::empty()) },
    }
}

/// What [`BodyGen::gen_expr_stmt`] computes.
#[verifier::opaque]
pub open spec fn gen_expr_stmt_spec(p: Env, room: int, st: GenV, e: ExprV, t: Seq<char>) -> (GenV, Seq<char>)
    decreases room, e, 30int, 0int,
{
    let st = note_retained_spec(p, st, e);
    let (st, first) = note_assigned_spec(p, st, e, t);
    let (st, (code, ty)) = gen_assign_or_expr_spec(p, room, st, e);
    let (st, pre) = flush_spec(p, st);
    if (match e { ExprV::Call(_, _) => true, _ => false }) && ty.nullable {
        let (st, tmp) = fresh_spec(p, st, "null"@);
        let st = register_owned_spec(p, st, tmp);
        (st, first + pre + t + decl_spelling_spec(ty) + " "@ + tmp + " = "@ + code + ";\n"@)
    } else {
        if ((trim_spec(code)).len() == 0) { (st, first + pre) } else {
            (st, first + pre + t + code + ";\n"@)
        }
    }
}

/// What [`BodyGen::gen_return`] computes.
#[verifier::opaque]
pub open spec fn gen_return_spec(p: Env, room: int, st: GenV, e: ExprV, t: Seq<char>) -> (GenV, Seq<char>)
    decreases room, e, 30int, 0int,
{
    let st = GenV { new_args_escape: true, ..st };
    match e {
        ExprV::Null => {
            let v = return_null_value_spec(p, st);
            finish_return_spec(p, st, t, v)
        },
        ExprV::ObjectLit(fields) => {
            let val_ty = return_value_ty_spec(p, st);
            let (st, tmp) = fresh_spec(p, st, "ret"@);
            let (st, text) = expand_object_into_local_spec(p, room, st, tmp, val_ty, fields, t);
            let v = wrap_ret_spec(p, st, tmp);
            let (st, last) = finish_return_spec(p, st, t, v);
            (st, text + last)
        },
        ExprV::ArrayLit(elems) => {
            if (elems.len()) == 0 {
                let v = return_empty_container_spec(p, st);
                finish_return_spec(p, st, t, v)
            } else {
                let val_ty = return_value_ty_spec(p, st);
                let elem = element_ty_spec(p, st, val_ty);
                let (st, tmp) = fresh_spec(p, st, "ret"@);
                let (st, text) = expand_array_into_local_spec(p, room, st, tmp, val_ty, elem, elems, t);
                let v = wrap_ret_spec(p, st, tmp);
                let (st, last) = finish_return_spec(p, st, t, v);
                (st, text + last)
            }
        },
        ExprV::MapLit(pairs) => {
            if (pairs.len()) == 0 {
                let v = return_empty_container_spec(p, st);
                finish_return_spec(p, st, t, v)
            } else { gen_value_return_spec(p, room, st, e, t) }
        },
        _ => { gen_value_return_spec(p, room, st, e, t) },
    }
}

/// What [`BodyGen::gen_value_return`] computes.
#[verifier::opaque]
pub open spec fn gen_value_return_spec(p: Env, room: int, st: GenV, e: ExprV, t: Seq<char>) -> (GenV, Seq<char>)
    decreases room, e, 29int, 0int,
{
    let want = st.current_ret;
    let (st, (code, ty)) = gen_expr_hinted_spec(p, room, st, e, Some(want));
    let (st, pre) = flush_spec(p, st);
    let v = if st.current_ret.is_ptr && (!ty.is_ptr) { "new "@ + st.current_ret.base + "("@ + code + ")"@ } else { code };
    let (st, last) = finish_return_spec(p, st, t, v);
    (st, pre + last)
}

} // verus!
