//! Loops and what is built by loops.

use vstd::prelude::*;

use crate::ast::{Expr, Iterable, Stmt};
use crate::codegen::access::ordered_map_ref_spec;
use crate::codegen::branch::{enter_loop_spec, exit_loop_spec, is_simple, is_simple_spec};
use crate::codegen::expr::gen_expr_spec;
use crate::codegen::gen::GenV;
use crate::codegen::helpers::{int_ty, int_ty_spec, rcode_is_map, rcode_is_map_spec};
use crate::codegen::parts::{LoopSource, LoopSourceV, SourceKind};
use crate::codegen::state::{BodyGen, Env, above, bind_local_name_spec, define_local_spec, fail_spec, flush_spec, fresh_spec, loop_var_spec, owned_deletes_spec, pop_scope_spec, push_scope_spec, settled};
use crate::codegen::stmt::gen_block_inner_spec;
use crate::codegen::ty::{Ty, TyV};
use crate::codegen::types::{decl_spelling, decl_spelling_spec, deref_alias_spec, element_ty_spec, has_method_spec, map_kv_ty_spec, method_return_ty_spec};
use crate::codegen::values::{container_access, container_access_spec, member_op, member_op_spec};
use crate::model::{ExprV, IterableV, StmtV};
use crate::text::{cat2, cat3, cat4, cat5, cat6, cat7, cat8, empty};

verus! {

broadcast use {crate::codegen::gen::group_gen, crate::codegen::ty::group_ty, crate::model::group_model, crate::text::group_texts};

/// The type a variable is declared with; an unknown one is an `int`.
pub fn spelled_or_int(ty: &Ty) -> (r: String)
    ensures
        r@ == spelled_or_int_spec(ty.v()),
{
    if empty(&ty.base) {
        "int".to_owned()
    } else {
        decl_spelling(ty)
    }
}

impl<'a> BodyGen<'a> {
    /// The head of a counting loop over a container.
    fn count_head(&self, i: &str, code: &str, t: &str) -> (r: String)
        ensures
            r@ == count_head_spec(self.pg(), self.gv(), i@, code@, t@),
    {
        proof {
            reveal(count_head_spec);
        }
        cat3(&cat8(t, "for (size_t ", i, " = 0; ", i, " < ", code, ".size(); ++"), i, ") {\n")
    }

    /// The line that binds a loop variable, which is visible from then on.
    fn bind_var(&mut self, var: &str, ty: &Ty, code: &str, t: &str) -> (r: String)
        ensures
            final(self).pg() == old(self).pg(),
            final(self).room() == old(self).room(),
            (final(self).gv(), r@) == bind_var_spec(old(self).pg(), old(self).gv(), var@, ty.v(), code@, t@),
            settled(final(self).gv()) == settled(old(self).gv()),
    {
        proof {
            reveal(bind_var_spec);
        }
        let name = self.bind_local_name(var);
        self.define_local(var, ty.dup());
        cat8(t, "\t", &spelled_or_int(ty), " ", &name, " = ", code, ";\n")
    }

    /// Open a loop over a source: its head and the lines that bind its variables, in a new
    /// scope.
    pub fn open_loop(&mut self, src: &LoopSource, var: &str, value_var: &Option<String>, t: &str) -> (r: String)
        ensures
            final(self).pg() == old(self).pg(),
            final(self).room() == old(self).room(),
            (final(self).gv(), r@) == open_loop_spec(old(self).pg(), old(self).gv(), src.v(), var@, (match value_var { Some(y) => Some(y@), None => None }), t@),
            settled(final(self).gv()) == above(settled(old(self).gv())),
    {
        proof {
            reveal(open_loop_spec);
        }
        self.push_scope();
        match src.kind {
            SourceKind::Range => {
                let name = self.loop_var(var);
                self.define_local(var, int_ty());
                cat5(&cat8(t, "for (int ", &name, " = ", &src.code, "; ", &name, " < "), &src.aux, "; ++", &name, ") {\n")
            },
            SourceKind::Vector => {
                let i = self.fresh("i");
                let head = self.count_head(&i, &src.code, t);
                let elem = cat4(&src.code, "[", &i, "]");
                match value_var {
                    Some(v) => {
                        let a = self.bind_var(var, &int_ty(), &cat2("(int)", &i), t);
                        let b = self.bind_var(v, &src.val_ty, &elem, t);
                        cat3(&head, &a, &b)
                    },
                    None => {
                        let a = self.bind_var(var, &src.val_ty, &elem, t);
                        cat2(&head, &a)
                    },
                }
            },
            SourceKind::Entries => {
                let it = self.fresh("it");
                let head = cat7(&cat8(t, "for (", &src.aux, "::iterator ", &it, " = ", &src.code, ".begin(); "), &it, " != ", &src.code, ".end(); ++", &it, ") {\n");
                match value_var {
                    Some(v) => {
                        let a = self.bind_var(var, &src.key_ty, &cat2(&it, "->first"), t);
                        let b = self.bind_var(v, &src.val_ty, &cat2(&it, "->second"), t);
                        cat3(&head, &a, &b)
                    },
                    None => {
                        let a = self.bind_var(var, &src.val_ty, &cat2(&it, "->second"), t);
                        cat2(&head, &a)
                    },
                }
            },
            SourceKind::Ordered => {
                let i = self.fresh("i");
                let head = self.count_head(&i, &src.code, t);
                let val = cat4(&src.aux, "[", &i, "]");
                match value_var {
                    Some(v) => {
                        let a = self.bind_var(var, &src.key_ty, &cat4(&src.code, "[", &i, "]"), t);
                        let b = self.bind_var(v, &src.val_ty, &val, t);
                        cat3(&head, &a, &b)
                    },
                    None => {
                        let a = self.bind_var(var, &src.val_ty, &val, t);
                        cat2(&head, &a)
                    },
                }
            },
            SourceKind::Custom => {
                if value_var.is_some() {
                    self.fail("`for (k => v in ...)` over a custom iterator is not supported");
                }
                let bound = self.bind_var(var, &src.val_ty, &cat2(&src.code, "next()"), t);
                cat5(t, "while (", &src.code, "hasNext()) {\n", &bound)
            },
        }
    }

    /// Whether a value is an iterator: it has `hasNext` and `next`.
    fn is_iterator(&self, ty: &Ty) -> (r: bool)
        ensures
            r == is_iterator_spec(self.pg(), self.gv(), ty.v()),
    {
        proof {
            reveal(is_iterator_spec);
        }
        self.has_method(ty, "hasNext") && self.has_method(ty, "next")
    }

    /// A loop over an iterator, which is kept in a variable unless it is one.
    fn iterator_source(&mut self, code: &str, ty: &Ty, kept: bool, t: &str) -> (r: (String, LoopSource))
        ensures
            final(self).pg() == old(self).pg(),
            final(self).room() == old(self).room(),
            (final(self).gv(), (r.0@, r.1.v())) == iterator_source_spec(old(self).pg(), old(self).gv(), code@, ty.v(), kept, t@),
            settled(final(self).gv()) == settled(old(self).gv()),
    {
        proof {
            reveal(iterator_source_spec);
        }
        let val_ty = self.method_return_ty(ty, "next", &Vec::new());
        if kept {
            return (String::new(), LoopSource { kind: SourceKind::Custom, code: cat2(code, &member_op(ty)), aux: String::new(), key_ty: int_ty(), val_ty });
        }
        let tmp = self.fresh("iter");
        let text = cat7(t, &decl_spelling(ty), " ", &tmp, " = ", code, ";\n");
        (text, LoopSource { kind: SourceKind::Custom, code: cat2(&tmp, &member_op(ty)), aux: String::new(), key_ty: int_ty(), val_ty })
    }

    /// A loop over a value that is an iterator or gives one. `None` for any other value.
    fn custom_source(&mut self, code: &str, ty: &Ty, kept: bool, t: &str) -> (r: Option<(String, LoopSource)>)
        ensures
            final(self).pg() == old(self).pg(),
            final(self).room() == old(self).room(),
            (final(self).gv(), (match r { Some(y) => Some((y.0@, y.1.v())), None => None })) == custom_source_spec(old(self).pg(), old(self).gv(), code@, ty.v(), kept, t@),
            settled(final(self).gv()) == settled(old(self).gv()),
    {
        proof {
            reveal(custom_source_spec);
        }
        if self.is_iterator(ty) {
            return Some(self.iterator_source(code, ty, kept, t));
        }
        if !self.has_method(ty, "iterator") {
            return None;
        }
        let given = self.method_return_ty(ty, "iterator", &Vec::new());
        Some(self.iterator_source(&cat3(code, &member_op(ty), "iterator()"), &given, false, t))
    }

    /// The container or the iterator a loop runs over, evaluated once.
    fn gen_container_source(&mut self, coll: &Expr, t: &str) -> (r: (String, LoopSource))
        ensures
            final(self).pg() == old(self).pg(),
            final(self).room() == old(self).room(),
            (final(self).gv(), (r.0@, r.1.v())) == gen_container_source_spec(old(self).pg(), old(self).room(), old(self).gv(), coll.v(), t@),
            settled(final(self).gv()) == settled(old(self).gv()),
        decreases old(self).room(), *coll, 29int, 0int,
    {
        proof {
            reveal(gen_container_source_spec);
            reveal(gen_expr_spec);
        }
        let (code, ty) = self.gen_expr(coll);
        let pre = self.flush();
        match self.custom_source(&code, &ty, is_simple(coll), t) {
            Some((text, src)) => {
                return (cat2(&pre, &text), src);
            },
            None => {},
        }
        let cty = self.deref_alias(&ty);
        let mut access = container_access(&code, &ty, &cty);
        let mut text = pre;
        if !is_simple(coll) && !empty(&cty.base) && !ty.is_ptr {
            let tmp = self.fresh("coll");
            text = cat8(&text, t, &cty.base, " ", &tmp, " = ", &code, ";\n");
            access = tmp;
        }
        if rcode_is_map(&cty) {
            let (k, v) = self.map_kv_ty(&cty);
            return (text, LoopSource { kind: SourceKind::Entries, code: access, aux: cty.base, key_ty: k, val_ty: v });
        }
        let elem = self.element_ty(&cty);
        (text, LoopSource { kind: SourceKind::Vector, code: access, aux: String::new(), key_ty: int_ty(), val_ty: elem })
    }

    /// What a loop runs over, and the lines that come before it.
    pub fn gen_source(&mut self, iter: &Iterable, t: &str) -> (r: (String, LoopSource))
        ensures
            final(self).pg() == old(self).pg(),
            final(self).room() == old(self).room(),
            (final(self).gv(), (r.0@, r.1.v())) == gen_source_spec(old(self).pg(), old(self).room(), old(self).gv(), iter.v(), t@),
            settled(final(self).gv()) == settled(old(self).gv()),
        decreases old(self).room(), *iter, 5int, 0int,
    {
        proof {
            reveal(gen_source_spec);
            reveal(gen_expr_spec);
            reveal(ordered_map_ref_spec);
            reveal(gen_container_source_spec);
        }
        self.set_prelude_t(t.to_owned());
        match iter.node() {
            Iterable::Range(a, b) => {
                let (from, _) = self.gen_expr(a);
                let (to, tty) = self.gen_expr(b);
                let pre = self.flush();
                let end = if tty.unsigned { cat3("(int)(", &to, ")") } else { to };
                if matches!(b.node(), Expr::Int(_)) {
                    return (pre, LoopSource { kind: SourceKind::Range, code: from, aux: end, key_ty: int_ty(), val_ty: int_ty() });
                }
                let tmp = self.fresh("end");
                (cat7(&pre, t, "int ", &tmp, " = ", &end, ";\n"), LoopSource { kind: SourceKind::Range, code: from, aux: tmp, key_ty: int_ty(), val_ty: int_ty() })
            },
            Iterable::Coll(coll) => {
                match self.ordered_map_ref(coll) {
                    Some(om) => {
                        let pre = self.flush();
                        return (pre, LoopSource { kind: SourceKind::Ordered, code: om.keys, aux: om.vals, key_ty: om.key_ty, val_ty: om.val_ty });
                    },
                    None => {},
                }
                self.gen_container_source(coll, t)
            },
        }
    }

    /// A `for` statement.
    pub fn gen_for(&mut self, s: &Stmt, t: &str) -> (r: String)
        ensures
            final(self).pg() == old(self).pg(),
            final(self).room() == old(self).room(),
            (final(self).gv(), r@) == gen_for_spec(old(self).pg(), old(self).room(), old(self).gv(), s.v(), t@),
            settled(final(self).gv()) == settled(old(self).gv()),
        decreases old(self).room(), *s, 9int, 0int,
    {
        proof {
            reveal(gen_for_spec);
            reveal(gen_source_spec);
            reveal(gen_block_inner_spec);
        }
        match s.node() {
            Stmt::For { var, value_var, iter, body, line } => {
                self.set_current_line(*line);
                let depth: usize = self.loop_depth();
                let saved = self.enter_loop();
                let (pre, src) = self.gen_source(iter, t);
                let head = self.open_loop(&src, var, value_var, t);
                let inner = cat2(t, "\t");
                let text = self.gen_block_inner(body, &inner);
                let deletes = self.owned_deletes(&inner);
                self.pop_scope();
                self.exit_loop(saved, depth);
                cat6(&pre, &head, &text, &deletes, t, "}\n")
            },
            _ => String::new(),
        }
    }
}

/// What [`spelled_or_int`] computes.
pub open spec fn spelled_or_int_spec(ty: TyV) -> Seq<char>
{
    if ((ty.base).len() == 0) { "int"@ } else { decl_spelling_spec(ty) }
}

/// What [`BodyGen::count_head`] computes.
#[verifier::opaque]
pub open spec fn count_head_spec(p: Env, st: GenV, i: Seq<char>, code: Seq<char>, t: Seq<char>) -> Seq<char>
{
    t + "for (size_t "@ + i + " = 0; "@ + i + " < "@ + code + ".size(); ++"@ + i + ") {\n"@
}

/// What [`BodyGen::bind_var`] computes.
#[verifier::opaque]
pub open spec fn bind_var_spec(p: Env, st: GenV, var: Seq<char>, ty: TyV, code: Seq<char>, t: Seq<char>) -> (GenV, Seq<char>)
{
    let (st, name) = bind_local_name_spec(p, st, var);
    let st = define_local_spec(p, st, var, ty);
    (st, t + "\t"@ + spelled_or_int_spec(ty) + " "@ + name + " = "@ + code + ";\n"@)
}

/// What [`BodyGen::open_loop`] computes.
#[verifier::opaque]
pub open spec fn open_loop_spec(p: Env, st: GenV, src: LoopSourceV, var: Seq<char>, value_var: Option<Seq<char>>, t: Seq<char>) -> (GenV, Seq<char>)
{
    let st = push_scope_spec(p, st);
    match src.kind {
        SourceKind::Range => {
            let (st, name) = loop_var_spec(p, st, var);
            let st = define_local_spec(p, st, var, int_ty_spec());
            (st, t + "for (int "@ + name + " = "@ + src.code + "; "@ + name + " < "@ + src.aux + "; ++"@ + name + ") {\n"@)
        },
        SourceKind::Vector => {
            let (st, i) = fresh_spec(p, st, "i"@);
            let head = count_head_spec(p, st, i, src.code, t);
            let elem = src.code + "["@ + i + "]"@;
            match value_var {
                Some(v) => {
                    let (st, a) = bind_var_spec(p, st, var, int_ty_spec(), "(int)"@ + i, t);
                    let (st, b) = bind_var_spec(p, st, v, src.val_ty, elem, t);
                    (st, head + a + b)
                },
                None => {
                    let (st, a) = bind_var_spec(p, st, var, src.val_ty, elem, t);
                    (st, head + a)
                },
            }
        },
        SourceKind::Entries => {
            let (st, it) = fresh_spec(p, st, "it"@);
            let head = t + "for ("@ + src.aux + "::iterator "@ + it + " = "@ + src.code + ".begin(); "@ + it + " != "@ + src.code + ".end(); ++"@ + it + ") {\n"@;
            match value_var {
                Some(v) => {
                    let (st, a) = bind_var_spec(p, st, var, src.key_ty, it + "->first"@, t);
                    let (st, b) = bind_var_spec(p, st, v, src.val_ty, it + "->second"@, t);
                    (st, head + a + b)
                },
                None => {
                    let (st, a) = bind_var_spec(p, st, var, src.val_ty, it + "->second"@, t);
                    (st, head + a)
                },
            }
        },
        SourceKind::Ordered => {
            let (st, i) = fresh_spec(p, st, "i"@);
            let head = count_head_spec(p, st, i, src.code, t);
            let val = src.aux + "["@ + i + "]"@;
            match value_var {
                Some(v) => {
                    let (st, a) = bind_var_spec(p, st, var, src.key_ty, src.code + "["@ + i + "]"@, t);
                    let (st, b) = bind_var_spec(p, st, v, src.val_ty, val, t);
                    (st, head + a + b)
                },
                None => {
                    let (st, a) = bind_var_spec(p, st, var, src.val_ty, val, t);
                    (st, head + a)
                },
            }
        },
        SourceKind::Custom => {
            let st = if value_var is Some {
                let st = fail_spec(p, st, "`for (k => v in ...)` over a custom iterator is not supported"@);
                st
            } else { st };
            let (st, bound) = bind_var_spec(p, st, var, src.val_ty, src.code + "next()"@, t);
            (st, t + "while ("@ + src.code + "hasNext()) {\n"@ + bound)
        },
    }
}

/// What [`BodyGen::is_iterator`] computes.
#[verifier::opaque]
pub open spec fn is_iterator_spec(p: Env, st: GenV, ty: TyV) -> bool
{
    has_method_spec(p, st, ty, "hasNext"@) && has_method_spec(p, st, ty, "next"@)
}

/// What [`BodyGen::iterator_source`] computes.
#[verifier::opaque]
pub open spec fn iterator_source_spec(p: Env, st: GenV, code: Seq<char>, ty: TyV, kept: bool, t: Seq<char>) -> (GenV, (Seq<char>, LoopSourceV))
{
    let val_ty = method_return_ty_spec(p, st, ty, "next"@, Seq::empty());
    if kept { (st, (Seq::empty(), LoopSourceV { kind: SourceKind::Custom, code: code + member_op_spec(ty), aux: Seq::empty(), key_ty: int_ty_spec(), val_ty })) } else {
        let (st, tmp) = fresh_spec(p, st, "iter"@);
        let text = t + decl_spelling_spec(ty) + " "@ + tmp + " = "@ + code + ";\n"@;
        (st, (text, LoopSourceV { kind: SourceKind::Custom, code: tmp + member_op_spec(ty), aux: Seq::empty(), key_ty: int_ty_spec(), val_ty }))
    }
}

/// What [`BodyGen::custom_source`] computes.
#[verifier::opaque]
pub open spec fn custom_source_spec(p: Env, st: GenV, code: Seq<char>, ty: TyV, kept: bool, t: Seq<char>) -> (GenV, Option<(Seq<char>, LoopSourceV)>)
{
    if is_iterator_spec(p, st, ty) {
        let (st, x1) = iterator_source_spec(p, st, code, ty, kept, t);
        (st, Some(x1))
    } else {
        if !has_method_spec(p, st, ty, "iterator"@) { (st, None) } else {
            let given = method_return_ty_spec(p, st, ty, "iterator"@, Seq::empty());
            let (st, x2) = iterator_source_spec(p, st, code + member_op_spec(ty) + "iterator()"@, given, false, t);
            (st, Some(x2))
        }
    }
}

/// What [`BodyGen::gen_container_source`] computes.
#[verifier::opaque]
pub open spec fn gen_container_source_spec(p: Env, room: int, st: GenV, coll: ExprV, t: Seq<char>) -> (GenV, (Seq<char>, LoopSourceV))
    decreases room, coll, 29int, 0int,
{
    let (st, (code, ty)) = gen_expr_spec(p, room, st, coll);
    let (st, pre) = flush_spec(p, st);
    let (st, x1) = custom_source_spec(p, st, code, ty, is_simple_spec(coll), t);
    match x1 {
        Some((text, src)) => { (st, (pre + text, src)) },
        None => {
            let cty = deref_alias_spec(p, st, ty);
            let access = container_access_spec(code, ty, cty);
            let text = pre;
            let (st, access, text) = if (!is_simple_spec(coll)) && (!((cty.base).len() == 0)) && (!ty.is_ptr) {
                let (st, tmp) = fresh_spec(p, st, "coll"@);
                let text = text + t + cty.base + " "@ + tmp + " = "@ + code + ";\n"@;
                let access = tmp;
                (st, access, text)
            } else { (st, access, text) };
            if rcode_is_map_spec(cty) {
                let (k, v) = map_kv_ty_spec(p, st, cty);
                (st, (text, LoopSourceV { kind: SourceKind::Entries, code: access, aux: cty.base, key_ty: k, val_ty: v }))
            } else {
                let elem = element_ty_spec(p, st, cty);
                (st, (text, LoopSourceV { kind: SourceKind::Vector, code: access, aux: Seq::empty(), key_ty: int_ty_spec(), val_ty: elem }))
            }
        },
    }
}

/// What [`BodyGen::gen_source`] computes.
#[verifier::opaque]
pub open spec fn gen_source_spec(p: Env, room: int, st: GenV, iter: IterableV, t: Seq<char>) -> (GenV, (Seq<char>, LoopSourceV))
    decreases room, iter, 5int, 0int,
{
    let st = GenV { prelude_t: t, ..st };
    match iter {
        IterableV::Range(a, b) => {
            let (st, (from, _)) = gen_expr_spec(p, room, st, a);
            let (st, (to, tty)) = gen_expr_spec(p, room, st, b);
            let (st, pre) = flush_spec(p, st);
            let end = if tty.unsigned { "(int)("@ + to + ")"@ } else { to };
            if (match b { ExprV::Int(_) => true, _ => false }) { (st, (pre, LoopSourceV { kind: SourceKind::Range, code: from, aux: end, key_ty: int_ty_spec(), val_ty: int_ty_spec() })) } else {
                let (st, tmp) = fresh_spec(p, st, "end"@);
                (st, (pre + t + "int "@ + tmp + " = "@ + end + ";\n"@, LoopSourceV { kind: SourceKind::Range, code: from, aux: tmp, key_ty: int_ty_spec(), val_ty: int_ty_spec() }))
            }
        },
        IterableV::Coll(coll) => {
            let (st, x1) = ordered_map_ref_spec(p, room, st, coll);
            match x1 {
                Some(om) => {
                    let (st, pre) = flush_spec(p, st);
                    (st, (pre, LoopSourceV { kind: SourceKind::Ordered, code: om.keys, aux: om.vals, key_ty: om.key_ty, val_ty: om.val_ty }))
                },
                None => { gen_container_source_spec(p, room, st, coll, t) },
            }
        },
    }
}

/// What [`BodyGen::gen_for`] computes.
#[verifier::opaque]
pub open spec fn gen_for_spec(p: Env, room: int, st: GenV, s: StmtV, t: Seq<char>) -> (GenV, Seq<char>)
    decreases room, s, 9int, 0int,
{
    match s {
        StmtV::For { var, value_var, iter, body, line } => {
            let st = GenV { current_line: line, ..st };
            let depth: int = st.loop_depth;
            let (st, saved) = enter_loop_spec(p, st);
            let (st, (pre, src)) = gen_source_spec(p, room, st, iter, t);
            let (st, head) = open_loop_spec(p, st, src, var, value_var, t);
            let inner = t + "\t"@;
            let (st, text) = gen_block_inner_spec(p, room, st, *body, inner);
            let deletes = owned_deletes_spec(p, st, inner);
            let st = pop_scope_spec(p, st);
            let st = exit_loop_spec(p, st, saved, depth);
            (st, pre + head + text + deletes + t + "}\n"@)
        },
        _ => { (st, Seq::empty()) },
    }
}

} // verus!
