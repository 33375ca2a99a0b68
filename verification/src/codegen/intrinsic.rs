//! Library functions: `Math`, `Std`, `StringTools`, `Sys` and `String`.

use vstd::prelude::*;

use crate::ast::Expr;
use crate::codegen::args::{arg_at_spec, arg_code_spec};
use crate::codegen::gen::GenV;
use crate::codegen::helpers::{bool_ty, bool_ty_spec, float_ty, float_ty_spec, int_ty, int_ty_spec, str_ty, str_ty_spec};
use crate::codegen::state::{BodyGen, Env, settled};
use crate::codegen::strtools::string_tools_call_spec;
use crate::codegen::textual::{cstr_arg_spec, gen_std_string_spec};
use crate::codegen::ty::{Ty, TyV};
use crate::model::{ExprV, exprs_v};
use crate::text::{cat3, cat4, cat5, cat6, cat8, same};

verus! {

broadcast use {crate::codegen::gen::group_gen, crate::codegen::ty::group_ty, crate::model::group_model, crate::text::group_texts};

/// The C function a `Math` function of one argument is.
pub fn math_function(method: &str) -> (r: Option<String>)
    ensures
        (match r { Some(y) => Some(y@), None => None }) == math_function_spec(method@),
{
    proof {
        reveal(math_function_spec);
    }
    if same(method, "sqrt") || same(method, "sin") || same(method, "cos") || same(method, "tan")
        || same(method, "asin") || same(method, "acos") || same(method, "atan") || same(method, "exp")
        || same(method, "log") {
        return Some(method.to_owned());
    }
    if same(method, "ffloor") {
        return Some("floor".to_owned());
    }
    if same(method, "fceil") {
        return Some("ceil".to_owned());
    }
    None
}

impl<'a> BodyGen<'a> {
    /// The smaller or larger of two values; a value that is no number wins, as in Haxe.
    fn min_max(&mut self, order: &str, args: &Vec<Expr>) -> (r: String)
        ensures
            final(self).pg() == old(self).pg(),
            final(self).room() == old(self).room(),
            (final(self).gv(), r@) == min_max_spec(old(self).pg(), old(self).room(), old(self).gv(), order@, exprs_v(args@)),
            settled(final(self).gv()) == settled(old(self).gv()),
        decreases old(self).room(), args@, 4int, 0int,
    {
        proof {
            reveal(min_max_spec);
            reveal(arg_code_spec);
        }
        let a = self.arg_code(args, 0);
        let b = self.arg_code(args, 1);
        cat3(&cat8(&cat8("((", &a, ") ", order, " (", &b, ") ? (", &a), ") : ((", &a, ") == (", &a, ") ? (", &b, ") : ("), &a, ")))")
    }

    fn math_call(&mut self, method: &str, args: &Vec<Expr>) -> (r: Option<(String, Ty)>)
        ensures
            final(self).pg() == old(self).pg(),
            final(self).room() == old(self).room(),
            (final(self).gv(), (match r { Some(y) => Some((y.0@, y.1.v())), None => None })) == math_call_spec(old(self).pg(), old(self).room(), old(self).gv(), method@, exprs_v(args@)),
            settled(final(self).gv()) == settled(old(self).gv()),
        decreases old(self).room(), args@, 6int, 0int,
    {
        proof {
            reveal(math_call_spec);
            reveal(arg_code_spec);
            reveal(arg_at_spec);
            reveal(min_max_spec);
        }
        match math_function(method) {
            Some(f) => {
                let a = self.arg_code(args, 0);
                return Some((cat4(&f, "(", &a, ")"), float_ty()));
            },
            None => {},
        }
        if same(method, "atan2") || same(method, "pow") {
            let a = self.arg_code(args, 0);
            let b = self.arg_code(args, 1);
            return Some((cat6(method, "(", &a, ", ", &b, ")"), float_ty()));
        }
        if same(method, "fround") {
            let a = self.arg_code(args, 0);
            return Some((cat3("floor((", &a, ") + 0.5)"), float_ty()));
        }
        if same(method, "floor") || same(method, "ceil") {
            let a = self.arg_code(args, 0);
            return Some((cat5("((int)", method, "(", &a, "))"), int_ty()));
        }
        if same(method, "round") {
            let a = self.arg_code(args, 0);
            return Some((cat3("((int)floor((", &a, ") + 0.5))"), int_ty()));
        }
        if same(method, "abs") {
            let (code, ty) = self.arg_at(args, 0);
            let f = if same(&ty.base, "float") || same(&ty.base, "double") { "fabs" } else { "abs" };
            return Some((cat4(f, "(", &code, ")"), ty));
        }
        if same(method, "min") {
            return Some((self.min_max("<", args), float_ty()));
        }
        if same(method, "max") {
            return Some((self.min_max(">", args), float_ty()));
        }
        if same(method, "random") {
            return Some(("(rand() / (RAND_MAX + 1.0))".to_owned(), float_ty()));
        }
        if same(method, "isNaN") {
            let a = self.arg_code(args, 0);
            return Some((cat5("((", &a, ") != (", &a, "))"), bool_ty()));
        }
        if same(method, "isFinite") {
            let a = self.arg_code(args, 0);
            return Some((cat3("(((", &a, ") * 0.0) == 0.0)"), bool_ty()));
        }
        None
    }

    /// The argument at a position as a `const char*`.
    fn cstr_at(&mut self, args: &Vec<Expr>, i: usize) -> (r: String)
        ensures
            final(self).pg() == old(self).pg(),
            final(self).room() == old(self).room(),
            (final(self).gv(), r@) == cstr_at_spec(old(self).pg(), old(self).room(), old(self).gv(), exprs_v(args@), (i as int)),
            settled(final(self).gv()) == settled(old(self).gv()),
        decreases old(self).room(), args@, 4int, 0int,
    {
        proof {
            reveal(cstr_at_spec);
            reveal(cstr_arg_spec);
        }
        if i >= args.len() {
            String::new()
        } else {
            self.cstr_arg(&args[i])
        }
    }

    fn std_call(&mut self, method: &str, args: &Vec<Expr>) -> (r: Option<(String, Ty)>)
        ensures
            final(self).pg() == old(self).pg(),
            final(self).room() == old(self).room(),
            (final(self).gv(), (match r { Some(y) => Some((y.0@, y.1.v())), None => None })) == std_call_spec(old(self).pg(), old(self).room(), old(self).gv(), method@, exprs_v(args@)),
            settled(final(self).gv()) == settled(old(self).gv()),
        decreases old(self).room(), args@, 6int, 0int,
    {
        proof {
            reveal(std_call_spec);
            reveal(arg_code_spec);
            reveal(gen_std_string_spec);
            reveal(cstr_at_spec);
        }
        if same(method, "int") {
            let a = self.arg_code(args, 0);
            return Some((cat3("(int)(", &a, ")"), int_ty()));
        }
        if same(method, "string") {
            if args.len() == 0 {
                return Some((String::new(), str_ty()));
            }
            return Some(self.gen_std_string(&args[0]));
        }
        if same(method, "parseInt") {
            let s = self.cstr_at(args, 0);
            return Some((cat3("(int)strtol(", &s, ", NULL, 0)"), int_ty()));
        }
        if same(method, "parseFloat") {
            let s = self.cstr_at(args, 0);
            return Some((cat3("atof(", &s, ")"), float_ty()));
        }
        if same(method, "random") {
            let n = self.arg_code(args, 0);
            return Some((cat5("(((int)(", &n, ")) > 0 ? (rand() % (int)(", &n, ")) : 0)"), int_ty()));
        }
        None
    }

    /// A library function of an object.
    pub fn intrinsic_call(&mut self, obj: &str, method: &str, args: &Vec<Expr>) -> (r: Option<(String, Ty)>)
        ensures
            final(self).pg() == old(self).pg(),
            final(self).room() == old(self).room(),
            (final(self).gv(), (match r { Some(y) => Some((y.0@, y.1.v())), None => None })) == intrinsic_call_spec(old(self).pg(), old(self).room(), old(self).gv(), obj@, method@, exprs_v(args@)),
            settled(final(self).gv()) == settled(old(self).gv()),
        decreases old(self).room(), args@, 8int, 0int,
    {
        proof {
            reveal(intrinsic_call_spec);
            reveal(math_call_spec);
            reveal(std_call_spec);
            reveal(string_tools_call_spec);
            reveal(arg_code_spec);
        }
        if same(obj, "Math") {
            return self.math_call(method, args);
        }
        if same(obj, "Std") {
            return self.std_call(method, args);
        }
        if same(obj, "StringTools") {
            return self.string_tools_call(method, args);
        }
        if same(obj, "Sys") && same(method, "cpuTime") {
            return Some(("((double) clock() / (double) CLOCKS_PER_SEC)".to_owned(), float_ty()));
        }
        if same(obj, "String") && same(method, "fromCharCode") {
            let c = self.arg_code(args, 0);
            return Some((cat3("std::string(1, (char)((", &c, ") & 0xFF))"), str_ty()));
        }
        None
    }
}

/// What [`math_function`] computes.
#[verifier::opaque]
pub open spec fn math_function_spec(method: Seq<char>) -> Option<Seq<char>>
{
    if (method == "sqrt"@) || (method == "sin"@) || (method == "cos"@) || (method == "tan"@) || (method == "asin"@) || (method == "acos"@) || (method == "atan"@) || (method == "exp"@) || (method == "log"@) { Some(method) } else {
        if (method == "ffloor"@) { Some("floor"@) } else {
            if (method == "fceil"@) { Some("ceil"@) } else { None }
        }
    }
}

/// What [`BodyGen::min_max`] computes.
#[verifier::opaque]
pub open spec fn min_max_spec(p: Env, room: int, st: GenV, order: Seq<char>, args: Seq<ExprV>) -> (GenV, Seq<char>)
    decreases room, args, 4int, 0int,
{
    let (st, a) = arg_code_spec(p, room, st, args, 0int);
    let (st, b) = arg_code_spec(p, room, st, args, 1int);
    (st, "(("@ + a + ") "@ + order + " ("@ + b + ") ? ("@ + a + ") : (("@ + a + ") == ("@ + a + ") ? ("@ + b + ") : ("@ + a + ")))"@)
}

/// What [`BodyGen::math_call`] computes.
#[verifier::opaque]
pub open spec fn math_call_spec(p: Env, room: int, st: GenV, method: Seq<char>, args: Seq<ExprV>) -> (GenV, Option<(Seq<char>, TyV)>)
    decreases room, args, 6int, 0int,
{
    match math_function_spec(method) {
        Some(f) => {
            let (st, a) = arg_code_spec(p, room, st, args, 0int);
            (st, Some((f + "("@ + a + ")"@, float_ty_spec())))
        },
        None => {
            if (method == "atan2"@) || (method == "pow"@) {
                let (st, a) = arg_code_spec(p, room, st, args, 0int);
                let (st, b) = arg_code_spec(p, room, st, args, 1int);
                (st, Some((method + "("@ + a + ", "@ + b + ")"@, float_ty_spec())))
            } else {
                if (method == "fround"@) {
                    let (st, a) = arg_code_spec(p, room, st, args, 0int);
                    (st, Some(("floor(("@ + a + ") + 0.5)"@, float_ty_spec())))
                } else {
                    if (method == "floor"@) || (method == "ceil"@) {
                        let (st, a) = arg_code_spec(p, room, st, args, 0int);
                        (st, Some(("((int)"@ + method + "("@ + a + "))"@, int_ty_spec())))
                    } else {
                        if (method == "round"@) {
                            let (st, a) = arg_code_spec(p, room, st, args, 0int);
                            (st, Some(("((int)floor(("@ + a + ") + 0.5))"@, int_ty_spec())))
                        } else {
                            if (method == "abs"@) {
                                let (st, (code, ty)) = arg_at_spec(p, room, st, args, 0int);
                                let f = if (ty.base == "float"@) || (ty.base == "double"@) { "fabs"@ } else { "abs"@ };
                                (st, Some((f + "("@ + code + ")"@, ty)))
                            } else {
                                if (method == "min"@) {
                                    let (st, x1) = min_max_spec(p, room, st, "<"@, args);
                                    (st, Some((x1, float_ty_spec())))
                                } else {
                                    if (method == "max"@) {
                                        let (st, x2) = min_max_spec(p, room, st, ">"@, args);
                                        (st, Some((x2, float_ty_spec())))
                                    } else {
                                        if (method == "random"@) { (st, Some(("(rand() / (RAND_MAX + 1.0))"@, float_ty_spec()))) } else {
                                            if (method == "isNaN"@) {
                                                let (st, a) = arg_code_spec(p, room, st, args, 0int);
                                                (st, Some(("(("@ + a + ") != ("@ + a + "))"@, bool_ty_spec())))
                                            } else {
                                                if (method == "isFinite"@) {
                                                    let (st, a) = arg_code_spec(p, room, st, args, 0int);
                                                    (st, Some(("((("@ + a + ") * 0.0) == 0.0)"@, bool_ty_spec())))
                                                } else { (st, None) }
                                            }
                                        }
                                    }
                                }
                            }
                        }
                    }
                }
            }
        },
    }
}

/// What [`BodyGen::cstr_at`] computes.
#[verifier::opaque]
pub open spec fn cstr_at_spec(p: Env, room: int, st: GenV, args: Seq<ExprV>, i: int) -> (GenV, Seq<char>)
    decreases room, args, 4int, 0int,
{
    if !(0 <= i < args.len()) { (st, Seq::empty()) } else { cstr_arg_spec(p, room, st, args[i]) }
}

/// What [`BodyGen::std_call`] computes.
#[verifier::opaque]
pub open spec fn std_call_spec(p: Env, room: int, st: GenV, method: Seq<char>, args: Seq<ExprV>) -> (GenV, Option<(Seq<char>, TyV)>)
    decreases room, args, 6int, 0int,
{
    if (method == "int"@) {
        let (st, a) = arg_code_spec(p, room, st, args, 0int);
        (st, Some(("(int)("@ + a + ")"@, int_ty_spec())))
    } else {
        if (method == "string"@) {
            if (args.len()) == 0 { (st, Some((Seq::empty(), str_ty_spec()))) } else {
                let (st, x1) = gen_std_string_spec(p, room, st, args[0]);
                (st, Some(x1))
            }
        } else {
            if (method == "parseInt"@) {
                let (st, s) = cstr_at_spec(p, room, st, args, 0int);
                (st, Some(("(int)strtol("@ + s + ", NULL, 0)"@, int_ty_spec())))
            } else {
                if (method == "parseFloat"@) {
                    let (st, s) = cstr_at_spec(p, room, st, args, 0int);
                    (st, Some(("atof("@ + s + ")"@, float_ty_spec())))
                } else {
                    if (method == "random"@) {
                        let (st, n) = arg_code_spec(p, room, st, args, 0int);
                        (st, Some(("(((int)("@ + n + ")) > 0 ? (rand() % (int)("@ + n + ")) : 0)"@, int_ty_spec())))
                    } else { (st, None) }
                }
            }
        }
    }
}

/// What [`BodyGen::intrinsic_call`] computes.
#[verifier::opaque]
pub open spec fn intrinsic_call_spec(p: Env, room: int, st: GenV, obj: Seq<char>, method: Seq<char>, args: Seq<ExprV>) -> (GenV, Option<(Seq<char>, TyV)>)
    decreases room, args, 8int, 0int,
{
    if (obj == "Math"@) { math_call_spec(p, room, st, method, args) } else {
        if (obj == "Std"@) { std_call_spec(p, room, st, method, args) } else {
            if (obj == "StringTools"@) { string_tools_call_spec(p, room, st, method, args) } else {
                if (obj == "Sys"@) && (method == "cpuTime"@) { (st, Some(("((double) clock() / (double) CLOCKS_PER_SEC)"@, float_ty_spec()))) } else {
                    if (obj == "String"@) && (method == "fromCharCode"@) {
                        let (st, c) = arg_code_spec(p, room, st, args, 0int);
                        (st, Some(("std::string(1, (char)(("@ + c + ") & 0xFF))"@, str_ty_spec())))
                    } else { (st, None) }
                }
            }
        }
    }
}

} // verus!
