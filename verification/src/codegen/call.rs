//! Calls.

use vstd::prelude::*;

use crate::ast::Expr;
use crate::codegen::access::gen_safe_call_parts_spec;
use crate::codegen::args::{gen_args_owned_spec, gen_args_spec};
use crate::codegen::callee::{bare_sink_params_spec, callee_param_types_spec, callee_sink_params_spec, check_overload_spec, enum_ctor_of_spec, free_fn_return_spec, is_free_name_spec, module_free_fn, module_free_fn_spec, own_method_param_types_spec, resolve_alias_spec, ret_ty_spec};
use crate::codegen::ctypes::{namespace_prefix, namespace_prefix_spec, qualified, qualified_spec};
use crate::codegen::expr::gen_expr_spec;
use crate::codegen::gen::GenV;
use crate::codegen::helpers::{info_ty, info_ty_spec, no_ty, no_ty_spec, param_sink_flags, param_sink_flags_spec};
use crate::codegen::literal::{or_no_ty, or_no_ty_spec};
use crate::codegen::lookup::{class_defines_method, class_defines_method_spec, enum_value_ctor, enum_value_ctor_spec};
use crate::codegen::method::gen_method_call_spec;
use crate::codegen::state::{BodyGen, Env, fail_spec, fresh_spec, register_owned_spec, settled, warn_spec};
use crate::codegen::textual::gen_trace_spec;
use crate::codegen::ty::{Ty, TyV};
use crate::codegen::types::{class_method_return_spec, decl_spelling, decl_spelling_spec, method_is_overloaded_spec, method_return_ty_spec, param_tys, param_tys_spec};
use crate::codegen::values::{member_op, member_op_spec, say_spec, unescape_cpp_code, unescape_cpp_code_spec};
use crate::lexer::{at, at_spec, cut, cut_spec, word_end, word_end_spec};
use crate::model::{ExprV, exprs_v};
use crate::program::{TypeInfo, TypeInfoV};
use crate::resolve::{class_decl, class_decl_spec};
use crate::text::{cat3, cat4, cat5, cat6, chars_of, dec, dec_text, same, texts};

verus! {

broadcast use {crate::codegen::gen::group_gen, crate::codegen::ty::group_ty, crate::model::group_model, crate::program::group_program, crate::text::group_texts};

/// Whether a call's target is the raw-injection intrinsic.
pub fn is_cpp_injection(target: &Expr) -> (r: bool)
    ensures
        r == is_cpp_injection_spec(target.v()),
{
    match target.node() {
        Expr::Ident(n) => same(n, "__cpp__"),
        _ => false,
    }
}

/// The code that a number stands for, among the codes from `k` on.
pub fn code_of(codes: &Vec<String>, number: &str, k: usize) -> (r: Option<String>)
    ensures
        (match r { Some(y) => Some(y@), None => None }) == code_of_spec(texts(codes@), number@, (k as int)),
{
    let ghost k_0 = k;
    let mut k: usize = k;
    #[verifier::loop_isolation(false)]
    loop
        invariant
            code_of_spec(texts(codes@), number@, (k_0 as int)) == code_of_spec(texts(codes@), number@, (k as int)),
        decreases codes.len() - k,
    {
        if k >= codes.len() {
            return None;
        }
        if same(&dec_text(k), number) {
            return Some(codes[k].clone());
        }
        k = k + 1;
    }
}

/// The code that stands for the placeholder at `i`, and the end of the placeholder.
pub fn placeholder(cs: &Vec<char>, codes: &Vec<String>, i: usize) -> (r: Option<(String, usize)>)
    ensures
        (match r { Some(y) => Some((y.0@, (y.1 as int))), None => None }) == placeholder_spec(cs@, texts(codes@), (i as int)),
        r matches Some(x) ==> i < x.1 <= cs.len(),
{
    if i >= cs.len() || at(cs, i, 0) != '{' {
        return None;
    }
    let j: usize = word_end(cs, i + 1);
    if j >= cs.len() || j <= i || at(cs, j, 0) != '}' {
        return None;
    }
    match code_of(codes, &cut(cs, i + 1, j), 0) {
        Some(code) => Some((code, j + 1)),
        None => None,
    }
}

/// The text from `i` on with the code of each placeholder put in.
pub fn splice_from(cs: &Vec<char>, codes: &Vec<String>, i: usize, out: String) -> (r: String)
    ensures
        r@ == splice_from_spec(cs@, texts(codes@), (i as int), out@),
{
    let ghost i_0 = i;
    let ghost out_0 = out;
    let mut i: usize = i;
    let mut out: String = out;
    #[verifier::loop_isolation(false)]
    loop
        invariant
            splice_from_spec(cs@, texts(codes@), (i_0 as int), out_0@) == splice_from_spec(cs@, texts(codes@), (i as int), out@),
        decreases cs.len() - i,
    {
        if i >= cs.len() {
            return out;
        }
        match placeholder(cs, codes, i) {
            Some((code, end)) => {
                out.append(&code);
                i = end;
            },
            None => {
                out.push(at(cs, i, 0));
                i = i + 1;
            },
        }
    }
}

/// A text with the code of each placeholder `{0}`, `{1}`, … put in. What is put in is not looked
/// at again.
pub fn splice(text: &str, codes: &Vec<String>) -> (r: String)
    ensures
        r@ == splice_spec(text@, texts(codes@)),
{
    proof {
        reveal(splice_spec);
    }
    splice_from(&chars_of(text), codes, 0, String::new())
}

impl<'a> BodyGen<'a> {
    /// A call of a method as it stands.
    pub fn gen_plain_call(&mut self, rcode: &str, rty: &Ty, method: &str, args: &Vec<Expr>) -> (r: (String, Ty))
        ensures
            final(self).pg() == old(self).pg(),
            final(self).room() == old(self).room(),
            (final(self).gv(), (r.0@, r.1.v())) == gen_plain_call_spec(old(self).pg(), old(self).room(), old(self).gv(), rcode@, rty.v(), method@, exprs_v(args@)),
            settled(final(self).gv()) == settled(old(self).gv()),
        decreases old(self).room(), args@, 4int, 0int,
    {
        proof {
            reveal(gen_plain_call_spec);
            reveal(gen_args_owned_spec);
        }
        let param_tys = self.callee_param_types(rty, method);
        self.check_overload(rty, method, args);
        let sink = self.callee_sink_params(rty, method);
        let overloaded = self.method_is_overloaded(rty, method);
        let a = self.gen_args_owned(args, &param_tys, &sink, overloaded);
        let ret = self.method_return_ty(rty, method, args);
        (cat6(rcode, &member_op(rty), method, "(", &a, ")"), ret)
    }

    /// `Type.method(args)`: a module-level function where the class has no such method, a
    /// static method otherwise.
    pub fn gen_static_call(&mut self, info: &TypeInfo, method: &str, args: &Vec<Expr>) -> (r: (String, Ty))
        ensures
            final(self).pg() == old(self).pg(),
            final(self).room() == old(self).room(),
            (final(self).gv(), (r.0@, r.1.v())) == gen_static_call_spec(old(self).pg(), old(self).room(), old(self).gv(), info.v(), method@, exprs_v(args@)),
            settled(final(self).gv()) == settled(old(self).gv()),
        decreases old(self).room(), args@, 4int, 0int,
    {
        proof {
            reveal(gen_static_call_spec);
            reveal(gen_args_owned_spec);
        }
        let is_member = match class_decl(self.prog(), info) {
            Some(c) => class_defines_method(self.prog(), info.module_index, c, method),
            None => false,
        };
        if !is_member {
            match module_free_fn(self.prog(), info.module_index, method) {
                Some(f) => {
                    let param_tys = param_tys(self.prog(), &f.params, info.module_index, self.ns());
                    let sink = param_sink_flags(&f.params);
                    let a = self.gen_args_owned(args, &param_tys, &sink, false);
                    let ret = self.ret_ty(&f.ret, info.module_index);
                    return (cat5(&namespace_prefix(&info.namespace, self.ns()), method, "(", &a, ")"), ret);
                },
                None => {},
            }
        }
        let rty = info_ty(&info.name, false, Some(info.dup()));
        let param_tys = self.callee_param_types(&rty, method);
        self.check_overload(&rty, method, args);
        let sink = self.callee_sink_params(&rty, method);
        let overloaded = self.method_is_overloaded(&rty, method);
        let a = self.gen_args_owned(args, &param_tys, &sink, overloaded);
        let ret = self.method_return_ty(&rty, method, args);
        (cat6(&qualified(info, self.ns()), "::", method, "(", &a, ")"), ret)
    }

    /// A call of a free function or an own method by its bare name.
    pub fn gen_bare_call(&mut self, fname: &str, args: &Vec<Expr>) -> (r: (String, Ty))
        ensures
            final(self).pg() == old(self).pg(),
            final(self).room() == old(self).room(),
            (final(self).gv(), (r.0@, r.1.v())) == gen_bare_call_spec(old(self).pg(), old(self).room(), old(self).gv(), fname@, exprs_v(args@)),
            settled(final(self).gv()) == settled(old(self).gv()),
        decreases old(self).room(), args@, 4int, 0int,
    {
        proof {
            reveal(gen_bare_call_spec);
            reveal(gen_trace_spec);
            reveal(gen_args_owned_spec);
        }
        if same(fname, "trace") && self.is_free_name(fname) {
            return self.gen_trace(args);
        }
        let callee = self.resolve_alias(fname);
        let param_tys = self.own_method_param_types(fname);
        let sink = self.bare_sink_params(fname);
        let a = self.gen_args_owned(args, &param_tys, &sink, false);
        let ret = match self.class_method_return(fname) {
            Some(t) => t,
            None => or_no_ty(&self.free_fn_return(&callee)),
        };
        (cat4(&callee, "(", &a, ")"), ret)
    }

    /// The code of each argument from `i` on.
    fn gen_codes(&mut self, args: &Vec<Expr>, i: usize, out: Vec<String>) -> (r: Vec<String>)
        ensures
            final(self).pg() == old(self).pg(),
            final(self).room() == old(self).room(),
            (final(self).gv(), texts(r@)) == gen_codes_spec(old(self).pg(), old(self).room(), old(self).gv(), exprs_v(args@), (i as int), texts(out@)),
            settled(final(self).gv()) == settled(old(self).gv()),
        decreases old(self).room(), args@, 1int, args.len()-i,
    {
        let ghost i_0 = i;
        let ghost out_0 = out;
        let mut i: usize = i;
        let mut out: Vec<String> = out;
        #[verifier::loop_isolation(false)]
        loop
            invariant
                self.pg() == old(self).pg(),
                self.room() == old(self).room(),
                gen_codes_spec(old(self).pg(), old(self).room(), old(self).gv(), exprs_v(args@), (i_0 as int), texts(out_0@)) == gen_codes_spec(self.pg(), self.room(), self.gv(), exprs_v(args@), (i as int), texts(out@)),
                settled(self.gv()) == settled(old(self).gv()),
            decreases args.len()-i,
        {
            proof {
                reveal(gen_codes_spec);
                reveal(gen_expr_spec);
            }
            if i >= args.len() {
                return out;
            }
            let (a, _) = self.gen_expr(&args[i]);
            out.push(a);
            i = i + 1;
        }
    }

    /// `__cpp__("text", a, b)`: the text as it is, with each `{0}`, `{1}` in it replaced by the
    /// code of the argument. Code that was put in is left alone.
    pub fn gen_cpp_code(&mut self, args: &Vec<Expr>) -> (r: (String, Ty))
        ensures
            final(self).pg() == old(self).pg(),
            final(self).room() == old(self).room(),
            (final(self).gv(), (r.0@, r.1.v())) == gen_cpp_code_spec(old(self).pg(), old(self).room(), old(self).gv(), exprs_v(args@)),
            settled(final(self).gv()) == settled(old(self).gv()),
        decreases old(self).room(), args@, 4int, 0int,
    {
        proof {
            reveal(gen_cpp_code_spec);
            reveal(gen_codes_spec);
        }
        if args.len() > 0 {
            match args[0].node() {
                Expr::Str { raw, interpolated: _ } => {
                    let codes = self.gen_codes(args, 1, Vec::new());
                    return (splice(&unescape_cpp_code(raw), &codes), no_ty());
                },
                _ => {},
            }
        }
        self.fail("`__cpp__` expects a string-literal first argument");
        ("/* __cpp__ */".to_owned(), no_ty())
    }

    /// `recv?.method(args)` whose value is not wanted.
    fn gen_safe_call(&mut self, e: &Expr) -> (r: (String, Ty))
        ensures
            final(self).pg() == old(self).pg(),
            final(self).room() == old(self).room(),
            (final(self).gv(), (r.0@, r.1.v())) == gen_safe_call_spec(old(self).pg(), old(self).room(), old(self).gv(), e.v()),
            settled(final(self).gv()) == settled(old(self).gv()),
        decreases old(self).room(), *e, 8int, 0int,
    {
        proof {
            reveal(gen_safe_call_spec);
            reveal(gen_safe_call_parts_spec);
        }
        match self.gen_safe_call_parts(e) {
            Some((rcode, is_ptr, call, ret)) => {
                if is_ptr {
                    (cat5("(", &rcode, " != NULL ? (", &call, ", 0) : 0)"), no_ty())
                } else {
                    (call, ret)
                }
            },
            None => (String::new(), no_ty()),
        }
    }

    /// A call.
    pub fn gen_call(&mut self, e: &Expr) -> (r: (String, Ty))
        ensures
            final(self).pg() == old(self).pg(),
            final(self).room() == old(self).room(),
            (final(self).gv(), (r.0@, r.1.v())) == gen_call_spec(old(self).pg(), old(self).room(), old(self).gv(), e.v()),
            settled(final(self).gv()) == settled(old(self).gv()),
        decreases old(self).room(), *e, 11int, 0int,
    {
        proof {
            reveal(gen_call_spec);
            reveal(gen_cpp_code_spec);
            reveal(gen_args_spec);
            reveal(gen_bare_call_spec);
            reveal(gen_safe_call_spec);
            reveal(gen_method_call_spec);
            reveal(gen_expr_spec);
        }
        match e.node() {
            Expr::Call(target, args) => {
                if is_cpp_injection(target) {
                    return self.gen_cpp_code(args);
                }
                match self.enum_ctor_of(target) {
                    Some((info, name)) => {
                        let a = self.gen_args(args);
                        return (cat4(&enum_value_ctor(&info, &name, self.ns()), "(", &a, ")"), info_ty(&qualified(&info, self.ns()), false, Some(info.dup())));
                    },
                    None => {},
                }
                match target.node() {
                    Expr::Ident(fname) => self.gen_bare_call(fname, args),
                    Expr::SafeField(_, _) => self.gen_safe_call(e),
                    Expr::Field(_, _) => self.gen_method_call(e),
                    _ => {
                        let (tc, _) = self.gen_expr(target);
                        let a = self.gen_args(args);
                        (cat4(&tc, "(", &a, ")"), no_ty())
                    },
                }
            },
            _ => (String::new(), no_ty()),
        }
    }

    /// A call in an expression. A nullable result buried in a larger expression is moved
    /// into an owned local, up to the configured depth.
    pub fn gen_call_expr(&mut self, e: &Expr) -> (r: (String, Ty))
        ensures
            final(self).pg() == old(self).pg(),
            final(self).room() == old(self).room(),
            (final(self).gv(), (r.0@, r.1.v())) == gen_call_expr_spec(old(self).pg(), old(self).room(), old(self).gv(), e.v()),
            settled(final(self).gv()) == settled(old(self).gv()),
        decreases old(self).room(), *e, 12int, 0int,
    {
        proof {
            reveal(gen_call_expr_spec);
            reveal(gen_call_spec);
        }
        let (code, ty) = self.gen_call(e);
        let depth: usize = self.expr_depth();
        if ty.nullable && depth > 1 {
            if depth <= self.max_extract_depth() {
                let tmp = self.fresh("null");
                self.say(&cat6(&decl_spelling(&ty), " ", &tmp, " = ", &code, ";"));
                self.register_owned(&tmp);
                return (tmp, ty);
            }
            self.warn(&cat3("a Null<T> function result is used inside a larger expression (nesting depth ", &dec_text(depth), "), so it cannot be stored in a `Null<T>` local and freed (extract the call to its own `Null<T>` local, or raise --depth to auto-extract)"));
        }
        (code, ty)
    }
}

/// What [`is_cpp_injection`] computes.
pub open spec fn is_cpp_injection_spec(target: ExprV) -> bool
{
    match target {
        ExprV::Ident(n) => { (n == "__cpp__"@) },
        _ => { false },
    }
}

/// What [`code_of`] computes.
pub open spec fn code_of_spec(codes: Seq<Seq<char>>, number: Seq<char>, k: int) -> Option<Seq<char>>
    decreases codes.len() - k,
{
    if !(0 <= k < codes.len()) { None } else {
        if (dec((k) as nat) == number) { Some(codes[k]) } else {
            let k = k + 1;
            code_of_spec(codes, number, k)
        }
    }
}

/// What [`placeholder`] computes.
pub open spec fn placeholder_spec(cs: Seq<char>, codes: Seq<Seq<char>>, i: int) -> Option<(Seq<char>, int)>
{
    if !(0 <= i < cs.len()) || (at_spec(cs, i, 0int) != '{') { None } else {
        let j: int = word_end_spec(cs, i + 1);
        if !(0 <= j < cs.len()) || (j <= i) || (at_spec(cs, j, 0int) != '}') { None } else {
            match code_of_spec(codes, cut_spec(cs, i + 1, j), 0int) {
                Some(code) => { Some((code, j + 1)) },
                None => { None },
            }
        }
    }
}

/// What [`splice_from`] computes.
pub open spec fn splice_from_spec(cs: Seq<char>, codes: Seq<Seq<char>>, i: int, out: Seq<char>) -> Seq<char>
    decreases cs.len() - i,
{
    if !(0 <= i < cs.len()) { out } else {
        match placeholder_spec(cs, codes, i) {
            Some((code, end)) => {
                let out = out + code;
                if !((i < end) && (end <= (cs.len()))) { arbitrary() } else {
                    let i = end;
                    splice_from_spec(cs, codes, i, out)
                }
            },
            None => {
                let out = out.push(at_spec(cs, i, 0int));
                let i = i + 1;
                splice_from_spec(cs, codes, i, out)
            },
        }
    }
}

/// What [`splice`] computes.
#[verifier::opaque]
pub open spec fn splice_spec(text: Seq<char>, codes: Seq<Seq<char>>) -> Seq<char>
{
    splice_from_spec(text, codes, 0int, Seq::empty())
}

/// What [`BodyGen::gen_plain_call`] computes.
#[verifier::opaque]
pub open spec fn gen_plain_call_spec(p: Env, room: int, st: GenV, rcode: Seq<char>, rty: TyV, method: Seq<char>, args: Seq<ExprV>) -> (GenV, (Seq<char>, TyV))
    decreases room, args, 4int, 0int,
{
    let param_tys = callee_param_types_spec(p, st, rty, method);
    let st = check_overload_spec(p, st, rty, method, args);
    let sink = callee_sink_params_spec(p, st, rty, method);
    let overloaded = method_is_overloaded_spec(p, st, rty, method);
    let (st, a) = gen_args_owned_spec(p, room, st, args, param_tys, sink, overloaded);
    let ret = method_return_ty_spec(p, st, rty, method, args);
    (st, (rcode + member_op_spec(rty) + method + "("@ + a + ")"@, ret))
}

/// What [`BodyGen::gen_static_call`] computes.
#[verifier::opaque]
pub open spec fn gen_static_call_spec(p: Env, room: int, st: GenV, info: TypeInfoV, method: Seq<char>, args: Seq<ExprV>) -> (GenV, (Seq<char>, TyV))
    decreases room, args, 4int, 0int,
{
    let is_member = match class_decl_spec(p.prog, info) {
        Some(c) => { class_defines_method_spec(p.prog, info.module_index, c, method) },
        None => { false },
    };
    if !is_member {
        match module_free_fn_spec(p.prog, info.module_index, method) {
            Some(f) => {
                let param_tys = param_tys_spec(p.prog, f.params, info.module_index, st.ns);
                let sink = param_sink_flags_spec(f.params);
                let (st, a) = gen_args_owned_spec(p, room, st, args, param_tys, sink, false);
                let ret = ret_ty_spec(p, st, f.ret, info.module_index);
                (st, (namespace_prefix_spec(info.namespace, st.ns) + method + "("@ + a + ")"@, ret))
            },
            None => {
                let rty = info_ty_spec(info.name, false, Some(info));
                let param_tys = callee_param_types_spec(p, st, rty, method);
                let st = check_overload_spec(p, st, rty, method, args);
                let sink = callee_sink_params_spec(p, st, rty, method);
                let overloaded = method_is_overloaded_spec(p, st, rty, method);
                let (st, a) = gen_args_owned_spec(p, room, st, args, param_tys, sink, overloaded);
                let ret = method_return_ty_spec(p, st, rty, method, args);
                (st, (qualified_spec(info, st.ns) + "::"@ + method + "("@ + a + ")"@, ret))
            },
        }
    } else {
        let rty = info_ty_spec(info.name, false, Some(info));
        let param_tys = callee_param_types_spec(p, st, rty, method);
        let st = check_overload_spec(p, st, rty, method, args);
        let sink = callee_sink_params_spec(p, st, rty, method);
        let overloaded = method_is_overloaded_spec(p, st, rty, method);
        let (st, a) = gen_args_owned_spec(p, room, st, args, param_tys, sink, overloaded);
        let ret = method_return_ty_spec(p, st, rty, method, args);
        (st, (qualified_spec(info, st.ns) + "::"@ + method + "("@ + a + ")"@, ret))
    }
}

/// What [`BodyGen::gen_bare_call`] computes.
#[verifier::opaque]
pub open spec fn gen_bare_call_spec(p: Env, room: int, st: GenV, fname: Seq<char>, args: Seq<ExprV>) -> (GenV, (Seq<char>, TyV))
    decreases room, args, 4int, 0int,
{
    if (fname == "trace"@) && is_free_name_spec(p, st, fname) { gen_trace_spec(p, room, st, args) } else {
        let callee = resolve_alias_spec(p, st, fname);
        let param_tys = own_method_param_types_spec(p, st, fname);
        let sink = bare_sink_params_spec(p, st, fname);
        let (st, a) = gen_args_owned_spec(p, room, st, args, param_tys, sink, false);
        let ret = match class_method_return_spec(p, st, fname) {
            Some(t) => { t },
            None => { or_no_ty_spec(free_fn_return_spec(p, st, callee)) },
        };
        (st, (callee + "("@ + a + ")"@, ret))
    }
}

/// What [`BodyGen::gen_codes`] computes.
#[verifier::opaque]
pub open spec fn gen_codes_spec(p: Env, room: int, st: GenV, args: Seq<ExprV>, i: int, out: Seq<Seq<char>>) -> (GenV, Seq<Seq<char>>)
    decreases room, args, 1int, args.len()-i,
{
    if !(0 <= i < args.len()) { (st, out) } else {
        let (st, (a, _)) = gen_expr_spec(p, room, st, args[i]);
        let out = out.push(a);
        let i = i + 1;
        gen_codes_spec(p, room, st, args, i, out)
    }
}

/// What [`BodyGen::gen_cpp_code`] computes.
#[verifier::opaque]
pub open spec fn gen_cpp_code_spec(p: Env, room: int, st: GenV, args: Seq<ExprV>) -> (GenV, (Seq<char>, TyV))
    decreases room, args, 4int, 0int,
{
    if (args.len()) > 0 {
        match args[0] {
            ExprV::Str { raw, interpolated: _ } => {
                let (st, codes) = gen_codes_spec(p, room, st, args, 1int, Seq::empty());
                (st, (splice_spec(unescape_cpp_code_spec(raw), codes), no_ty_spec()))
            },
            _ => {
                let st = fail_spec(p, st, "`__cpp__` expects a string-literal first argument"@);
                (st, ("/* __cpp__ */"@, no_ty_spec()))
            },
        }
    } else {
        let st = fail_spec(p, st, "`__cpp__` expects a string-literal first argument"@);
        (st, ("/* __cpp__ */"@, no_ty_spec()))
    }
}

/// What [`BodyGen::gen_safe_call`] computes.
#[verifier::opaque]
pub open spec fn gen_safe_call_spec(p: Env, room: int, st: GenV, e: ExprV) -> (GenV, (Seq<char>, TyV))
    decreases room, e, 8int, 0int,
{
    let (st, x1) = gen_safe_call_parts_spec(p, room, st, e);
    match x1 {
        Some((rcode, is_ptr, call, ret)) => {
            if is_ptr { (st, ("("@ + rcode + " != NULL ? ("@ + call + ", 0) : 0)"@, no_ty_spec())) } else { (st, (call, ret)) }
        },
        None => { (st, (Seq::empty(), no_ty_spec())) },
    }
}

/// What [`BodyGen::gen_call`] computes.
#[verifier::opaque]
pub open spec fn gen_call_spec(p: Env, room: int, st: GenV, e: ExprV) -> (GenV, (Seq<char>, TyV))
    decreases room, e, 11int, 0int,
{
    match e {
        ExprV::Call(target, args) => {
            if is_cpp_injection_spec(*target) { gen_cpp_code_spec(p, room, st, args) } else {
                match enum_ctor_of_spec(p, st, *target) {
                    Some((info, name)) => {
                        let (st, a) = gen_args_spec(p, room, st, args);
                        (st, (enum_value_ctor_spec(info, name, st.ns) + "("@ + a + ")"@, info_ty_spec(qualified_spec(info, st.ns), false, Some(info))))
                    },
                    None => {
                        match *target {
                            ExprV::Ident(fname) => { gen_bare_call_spec(p, room, st, fname, args) },
                            ExprV::SafeField(_, _) => { gen_safe_call_spec(p, room, st, e) },
                            ExprV::Field(_, _) => { gen_method_call_spec(p, room, st, e) },
                            _ => {
                                let (st, (tc, _)) = gen_expr_spec(p, room, st, *target);
                                let (st, a) = gen_args_spec(p, room, st, args);
                                (st, (tc + "("@ + a + ")"@, no_ty_spec()))
                            },
                        }
                    },
                }
            }
        },
        _ => { (st, (Seq::empty(), no_ty_spec())) },
    }
}

/// What [`BodyGen::gen_call_expr`] computes.
#[verifier::opaque]
pub open spec fn gen_call_expr_spec(p: Env, room: int, st: GenV, e: ExprV) -> (GenV, (Seq<char>, TyV))
    decreases room, e, 12int, 0int,
{
    let (st, (code, ty)) = gen_call_spec(p, room, st, e);
    let depth: int = st.expr_depth;
    if ty.nullable && (depth > 1) {
        if depth <= st.max_extract_depth {
            let (st, tmp) = fresh_spec(p, st, "null"@);
            let st = say_spec(p, st, decl_spelling_spec(ty) + " "@ + tmp + " = "@ + code + ";"@);
            let st = register_owned_spec(p, st, tmp);
            (st, (tmp, ty))
        } else {
            let st = warn_spec(p, st, "a Null<T> function result is used inside a larger expression (nesting depth "@ + (dec((depth) as nat)) + "), so it cannot be stored in a `Null<T>` local and freed (extract the call to its own `Null<T>` local, or raise --depth to auto-extract)"@);
            (st, (code, ty))
        }
    } else { (st, (code, ty)) }
}

} // verus!
