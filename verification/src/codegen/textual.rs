//! Strings: literals, interpolation, traces and conversions.

use vstd::prelude::*;

use crate::ast::Expr;
use crate::codegen::expr::gen_expr_spec;
use crate::codegen::gen::GenV;
use crate::codegen::helpers::{no_ty, no_ty_spec, str_ty, str_ty_spec};
use crate::codegen::interp::{printf_escape, printf_escape_spec, split_interpolation, split_interpolation_spec};
use crate::codegen::quote::{Seg, SegV, has_interpolation, has_interpolation_spec, quoted_cpp, quoted_cpp_spec, segs_v};
use crate::codegen::state::{BodyGen, Env, fresh_spec, settled};
use crate::codegen::ty::{Ty, TyV};
use crate::codegen::values::{emits_c_string_literal, emits_c_string_literal_spec, format_scalar_spec, operand, operand_spec, say_spec, spec_for, spec_for_spec};
use crate::model::{ExprV, exprs_v};
use crate::parser::{parse_expression, parse_expression_spec};
use crate::resolve::{module_at, module_at_spec};
use crate::text::{cat2, cat3, cat4, cat5, chars_of, dec, dec_text, same};

verus! {

broadcast use {crate::codegen::gen::group_gen, crate::codegen::quote::group_quote, crate::codegen::ty::group_ty, crate::model::group_model, crate::text::group_texts};

impl<'a> BodyGen<'a> {
    /// The code of an interpolated expression: a string as it is, anything else in a buffer.
    /// Text that is no expression stands for itself.
    fn gen_interpolated(&mut self, e: &Expr, src: &str) -> (r: String)
        ensures
            final(self).pg() == old(self).pg(),
            final(self).room() == old(self).room(),
            (final(self).gv(), r@) == gen_interpolated_spec(old(self).pg(), old(self).room(), old(self).gv(), e.v(), src@),
            settled(final(self).gv()) == settled(old(self).gv()),
        decreases old(self).room(), *e, 4int, 0int,
    {
        proof {
            reveal(gen_expr_spec);
        }
        proof {
            reveal(gen_interpolated_spec);
        }
        let n: usize = chars_of(src).len();
        if n >= self.room_now() {
            return quoted_cpp(src);
        }
        match parse_expression(src) {
            Ok(inner) => {
                let (code, ty) = self.gen_nested(&inner, n);
                if same(&ty.base, "std::string") {
                    code
                } else {
                    self.format_scalar(&code, &ty)
                }
            },
            Err(_) => quoted_cpp(src),
        }
    }

    /// Append each piece from `i` on to the accumulator.
    fn gen_segments(&mut self, e: &Expr, segs: &Vec<Seg>, acc: &str, i: usize)
        ensures
            final(self).pg() == old(self).pg(),
            final(self).room() == old(self).room(),
            final(self).gv() == gen_segments_spec(old(self).pg(), old(self).room(), old(self).gv(), e.v(), segs_v(segs@), acc@, (i as int)),
            settled(final(self).gv()) == settled(old(self).gv()),
        decreases old(self).room(), *e, 5int, segs.len()-i,
    {
        let ghost i_0 = i;
        let mut i: usize = i;
        #[verifier::loop_isolation(false)]
        loop
            invariant
                self.pg() == old(self).pg(),
                self.room() == old(self).room(),
                gen_segments_spec(old(self).pg(), old(self).room(), old(self).gv(), e.v(), segs_v(segs@), acc@, (i_0 as int)) == gen_segments_spec(self.pg(), self.room(), self.gv(), e.v(), segs_v(segs@), acc@, (i as int)),
                settled(self.gv()) == settled(old(self).gv()),
            decreases segs.len()-i,
        {
            proof {
                reveal(gen_segments_spec);
                reveal(gen_interpolated_spec);
            }
            if i >= segs.len() {
                return;
            }
            let part = match &segs[i] {
                Seg::Lit(s) => quoted_cpp(s),
                Seg::Code(src) => self.gen_interpolated(e, src),
            };
            self.say(&cat4(acc, " += ", &part, ";"));
            i = i + 1;
        }
    }

    /// A string literal. An interpolated one is built piece by piece before the statement.
    pub fn gen_string(&mut self, e: &Expr) -> (r: (String, Ty))
        ensures
            final(self).pg() == old(self).pg(),
            final(self).room() == old(self).room(),
            (final(self).gv(), (r.0@, r.1.v())) == gen_string_spec(old(self).pg(), old(self).room(), old(self).gv(), e.v()),
            settled(final(self).gv()) == settled(old(self).gv()),
        decreases old(self).room(), *e, 10int, 0int,
    {
        proof {
            reveal(gen_string_spec);
            reveal(gen_segments_spec);
        }
        match e.node() {
            Expr::Str { raw, interpolated } => {
                if !*interpolated || !has_interpolation(raw) {
                    return (quoted_cpp(raw), str_ty());
                }
                let (segs, sources) = split_interpolation(raw);
                if sources.len() == 0 {
                    return (quoted_cpp(raw), str_ty());
                }
                let acc = self.fresh("str");
                self.say(&cat3("std::string ", &acc, ";"));
                self.gen_segments(e, &segs, &acc, 0);
                (acc, str_ty())
            },
            _ => (String::new(), no_ty()),
        }
    }

    /// The printf conversion and the argument of a traced value.
    fn gen_traced(&mut self, a: &Expr) -> (r: (String, String))
        ensures
            final(self).pg() == old(self).pg(),
            final(self).room() == old(self).room(),
            (final(self).gv(), (r.0@, r.1@)) == gen_traced_spec(old(self).pg(), old(self).room(), old(self).gv(), a.v()),
            settled(final(self).gv()) == settled(old(self).gv()),
        decreases old(self).room(), *a, 30int, 0int,
    {
        proof {
            reveal(gen_traced_spec);
            reveal(gen_expr_spec);
        }
        let (code, ty) = self.gen_expr(a);
        if emits_c_string_literal(a) {
            ("%s".to_owned(), code)
        } else {
            spec_for(&if same(&ty.base, "std::string") { operand(a, &code) } else { code }, &ty)
        }
    }

    /// The format and the arguments of the traced values from `i` on.
    fn gen_trace_args(&mut self, args: &Vec<Expr>, i: usize, fmt: String, vals: String) -> (r: (String, String))
        ensures
            final(self).pg() == old(self).pg(),
            final(self).room() == old(self).room(),
            (final(self).gv(), (r.0@, r.1@)) == gen_trace_args_spec(old(self).pg(), old(self).room(), old(self).gv(), exprs_v(args@), (i as int), fmt@, vals@),
            settled(final(self).gv()) == settled(old(self).gv()),
        decreases old(self).room(), args@, 1int, args.len()-i,
    {
        let ghost i_0 = i;
        let ghost fmt_0 = fmt;
        let ghost vals_0 = vals;
        let mut i: usize = i;
        let mut fmt: String = fmt;
        let mut vals: String = vals;
        #[verifier::loop_isolation(false)]
        loop
            invariant
                self.pg() == old(self).pg(),
                self.room() == old(self).room(),
                gen_trace_args_spec(old(self).pg(), old(self).room(), old(self).gv(), exprs_v(args@), (i_0 as int), fmt_0@, vals_0@) == gen_trace_args_spec(self.pg(), self.room(), self.gv(), exprs_v(args@), (i as int), fmt@, vals@),
                settled(self.gv()) == settled(old(self).gv()),
            decreases args.len()-i,
        {
            proof {
                reveal(gen_trace_args_spec);
                reveal(gen_traced_spec);
            }
            if i >= args.len() {
                return (fmt, vals);
            }
            let (spec, arg) = self.gen_traced(&args[i]);
            fmt = if i > 0 { cat3(&fmt, ", ", &spec) } else { cat2(&fmt, &spec) };
            vals = cat3(&vals, ", ", &arg);
            i = i + 1;
        }
    }

    /// `trace(...)`: the file and line, then the values, comma separated. Stripped to a no-op
    /// where traces are off.
    pub fn gen_trace(&mut self, args: &Vec<Expr>) -> (r: (String, Ty))
        ensures
            final(self).pg() == old(self).pg(),
            final(self).room() == old(self).room(),
            (final(self).gv(), (r.0@, r.1.v())) == gen_trace_spec(old(self).pg(), old(self).room(), old(self).gv(), exprs_v(args@)),
            settled(final(self).gv()) == settled(old(self).gv()),
        decreases old(self).room(), args@, 2int, 0int,
    {
        proof {
            reveal(gen_trace_spec);
            reveal(gen_trace_args_spec);
        }
        if self.no_trace() {
            return ("((void)0)".to_owned(), no_ty());
        }
        let file = match module_at(self.prog(), self.mi()) {
            Some(m) => cat2(&m.stem, ".hx"),
            None => "?".to_owned(),
        };
        let head = printf_escape(&cat4(&file, ":", &dec_text(self.current_line()), ": "));
        let (fmt, vals) = self.gen_trace_args(args, 0, head, String::new());
        (cat5("printf(\"", &fmt, "\\n\"", &vals, ")"), no_ty())
    }

    /// `Std.string(x)`.
    pub fn gen_std_string(&mut self, arg: &Expr) -> (r: (String, Ty))
        ensures
            final(self).pg() == old(self).pg(),
            final(self).room() == old(self).room(),
            (final(self).gv(), (r.0@, r.1.v())) == gen_std_string_spec(old(self).pg(), old(self).room(), old(self).gv(), arg.v()),
            settled(final(self).gv()) == settled(old(self).gv()),
        decreases old(self).room(), *arg, 30int, 0int,
    {
        proof {
            reveal(gen_std_string_spec);
            reveal(gen_expr_spec);
        }
        let (code, ty) = self.gen_expr(arg);
        if emits_c_string_literal(arg) {
            return (cat3("std::string(", &code, ")"), str_ty());
        }
        if same(&ty.base, "std::string") {
            return (code, str_ty());
        }
        if same(&ty.base, "bool") {
            return (cat3("((", &code, ") ? std::string(\"true\") : std::string(\"false\"))"), str_ty());
        }
        let buf = self.format_scalar(&code, &ty);
        (cat3("std::string(", &buf, ")"), str_ty())
    }

    /// A string argument as a `const char*`.
    pub fn cstr_arg(&mut self, arg: &Expr) -> (r: String)
        ensures
            final(self).pg() == old(self).pg(),
            final(self).room() == old(self).room(),
            (final(self).gv(), r@) == cstr_arg_spec(old(self).pg(), old(self).room(), old(self).gv(), arg.v()),
            settled(final(self).gv()) == settled(old(self).gv()),
        decreases old(self).room(), *arg, 30int, 0int,
    {
        proof {
            reveal(cstr_arg_spec);
            reveal(gen_expr_spec);
        }
        let (code, ty) = self.gen_expr(arg);
        if !emits_c_string_literal(arg) && same(&ty.base, "std::string") {
            cat2(&operand(arg, &code), ".c_str()")
        } else {
            code
        }
    }
}

/// With traces off, a trace is nothing: its values are not even looked at.
pub proof fn law_traces_are_stripped(p: Env, room: int, st: GenV, args: Seq<ExprV>)
    requires
        st.no_trace,
    ensures
        gen_trace_spec(p, room, st, args) == (st, ("((void)0)"@, no_ty_spec())),
{
    reveal(gen_trace_spec);
}

/// What [`BodyGen::gen_interpolated`] computes.
#[verifier::opaque]
pub open spec fn gen_interpolated_spec(p: Env, room: int, st: GenV, e: ExprV, src: Seq<char>) -> (GenV, Seq<char>)
    decreases room, e, 4int, 0int,
{
    let n: int = src.len() as int;
    if n >= room { (st, quoted_cpp_spec(src)) } else {
        match parse_expression_spec(src) {
            Ok(inner) => {
                let (st, (code, ty)) = gen_expr_spec(p, n, st, inner);
                if (ty.base == "std::string"@) { (st, code) } else { format_scalar_spec(p, st, code, ty) }
            },
            Err(_) => { (st, quoted_cpp_spec(src)) },
        }
    }
}

/// What [`BodyGen::gen_segments`] computes.
#[verifier::opaque]
pub open spec fn gen_segments_spec(p: Env, room: int, st: GenV, e: ExprV, segs: Seq<SegV>, acc: Seq<char>, i: int) -> GenV
    decreases room, e, 5int, segs.len()-i,
{
    if !(0 <= i < segs.len()) { st } else {
        let (st, part) = match segs[i] {
            SegV::Lit(s) => { (st, quoted_cpp_spec(s)) },
            SegV::Code(src) => {
                let (st, x1) = gen_interpolated_spec(p, room, st, e, src);
                (st, x1)
            },
        };
        let st = say_spec(p, st, acc + " += "@ + part + ";"@);
        let i = i + 1;
        gen_segments_spec(p, room, st, e, segs, acc, i)
    }
}

/// What [`BodyGen::gen_string`] computes.
#[verifier::opaque]
pub open spec fn gen_string_spec(p: Env, room: int, st: GenV, e: ExprV) -> (GenV, (Seq<char>, TyV))
    decreases room, e, 10int, 0int,
{
    match e {
        ExprV::Str { raw, interpolated } => {
            if (!interpolated) || (!has_interpolation_spec(raw)) { (st, (quoted_cpp_spec(raw), str_ty_spec())) } else {
                let (segs, sources) = split_interpolation_spec(raw);
                if (sources.len()) == 0 { (st, (quoted_cpp_spec(raw), str_ty_spec())) } else {
                    let (st, acc) = fresh_spec(p, st, "str"@);
                    let st = say_spec(p, st, "std::string "@ + acc + ";"@);
                    let st = gen_segments_spec(p, room, st, e, segs, acc, 0int);
                    (st, (acc, str_ty_spec()))
                }
            }
        },
        _ => { (st, (Seq::empty(), no_ty_spec())) },
    }
}

/// What [`BodyGen::gen_traced`] computes.
#[verifier::opaque]
pub open spec fn gen_traced_spec(p: Env, room: int, st: GenV, a: ExprV) -> (GenV, (Seq<char>, Seq<char>))
    decreases room, a, 30int, 0int,
{
    let (st, (code, ty)) = gen_expr_spec(p, room, st, a);
    if emits_c_string_literal_spec(a) { (st, ("%s"@, code)) } else {
        (st, spec_for_spec(if (ty.base == "std::string"@) { operand_spec(a, code) } else { code }, ty))
    }
}

/// What [`BodyGen::gen_trace_args`] computes.
#[verifier::opaque]
pub open spec fn gen_trace_args_spec(p: Env, room: int, st: GenV, args: Seq<ExprV>, i: int, fmt: Seq<char>, vals: Seq<char>) -> (GenV, (Seq<char>, Seq<char>))
    decreases room, args, 1int, args.len()-i,
{
    if !(0 <= i < args.len()) { (st, (fmt, vals)) } else {
        let (st, (spec, arg)) = gen_traced_spec(p, room, st, args[i]);
        let fmt = if i > 0 { fmt + ", "@ + spec } else { fmt + spec };
        let vals = vals + ", "@ + arg;
        let i = i + 1;
        gen_trace_args_spec(p, room, st, args, i, fmt, vals)
    }
}

/// What [`BodyGen::gen_trace`] computes.
#[verifier::opaque]
pub open spec fn gen_trace_spec(p: Env, room: int, st: GenV, args: Seq<ExprV>) -> (GenV, (Seq<char>, TyV))
    decreases room, args, 2int, 0int,
{
    if st.no_trace { (st, ("((void)0)"@, no_ty_spec())) } else {
        let file = match module_at_spec(p.prog, st.mi) {
            Some(m) => { m.stem + ".hx"@ },
            None => { "?"@ },
        };
        let head = printf_escape_spec(file + ":"@ + (dec((st.current_line) as nat)) + ": "@);
        let (st, (fmt, vals)) = gen_trace_args_spec(p, room, st, args, 0int, head, Seq::empty());
        (st, ("printf(\""@ + fmt + "\\n\""@ + vals + ")"@, no_ty_spec()))
    }
}

/// What [`BodyGen::gen_std_string`] computes.
#[verifier::opaque]
pub open spec fn gen_std_string_spec(p: Env, room: int, st: GenV, arg: ExprV) -> (GenV, (Seq<char>, TyV))
    decreases room, arg, 30int, 0int,
{
    let (st, (code, ty)) = gen_expr_spec(p, room, st, arg);
    if emits_c_string_literal_spec(arg) { (st, ("std::string("@ + code + ")"@, str_ty_spec())) } else {
        if (ty.base == "std::string"@) { (st, (code, str_ty_spec())) } else {
            if (ty.base == "bool"@) {
                (st, ("(("@ + code + ") ? std::string(\"true\") : std::string(\"false\"))"@, str_ty_spec()))
            } else {
                let (st, buf) = format_scalar_spec(p, st, code, ty);
                (st, ("std::string("@ + buf + ")"@, str_ty_spec()))
            }
        }
    }
}

/// What [`BodyGen::cstr_arg`] computes.
#[verifier::opaque]
pub open spec fn cstr_arg_spec(p: Env, room: int, st: GenV, arg: ExprV) -> (GenV, Seq<char>)
    decreases room, arg, 30int, 0int,
{
    let (st, (code, ty)) = gen_expr_spec(p, room, st, arg);
    if (!emits_c_string_literal_spec(arg)) && (ty.base == "std::string"@) { (st, operand_spec(arg, code) + ".c_str()"@) } else { (st, code) }
}

} // verus!
