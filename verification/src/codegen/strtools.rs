//! `StringTools`.

use vstd::prelude::*;

use crate::ast::Expr;
use crate::codegen::args::arg_code_spec;
use crate::codegen::gen::GenV;
use crate::codegen::helpers::{bool_ty, bool_ty_spec, str_ty, str_ty_spec};
use crate::codegen::state::{BodyGen, Env, fresh_spec, settled};
use crate::codegen::ty::{Ty, TyV};
use crate::codegen::values::say_spec;
use crate::model::{ExprV, exprs_v};
use crate::text::{cat3, cat4, cat5, cat7, cat8, same};

verus! {

broadcast use {crate::codegen::gen::group_gen, crate::codegen::ty::group_ty, crate::model::group_model, crate::text::group_texts};

impl<'a> BodyGen<'a> {
    fn gen_replace(&mut self, args: &Vec<Expr>) -> (r: (String, Ty))
        ensures
            final(self).pg() == old(self).pg(),
            final(self).room() == old(self).room(),
            (final(self).gv(), (r.0@, r.1.v())) == gen_replace_spec(old(self).pg(), old(self).room(), old(self).gv(), exprs_v(args@)),
            settled(final(self).gv()) == settled(old(self).gv()),
        decreases old(self).room(), args@, 4int, 0int,
    {
        proof {
            reveal(gen_replace_spec);
            reveal(arg_code_spec);
        }
        let s = self.arg_code(args, 0);
        let sub = self.arg_code(args, 1);
        let by = self.arg_code(args, 2);
        let acc = self.fresh("rep");
        let needle = self.fresh("sub");
        let repl = self.fresh("by");
        let pos = self.fresh("pos");
        self.say(&cat5("std::string ", &acc, " = ", &s, ";"));
        self.say(&cat5("std::string ", &needle, " = ", &sub, ";"));
        self.say(&cat5("std::string ", &repl, " = ", &by, ";"));
        self.say(&cat3("if (!", &needle, ".empty()) {"));
        self.say(&cat3("\tsize_t ", &pos, " = 0;"));
        self.say(&cat7(&cat8(&cat8("\twhile ((", &pos, " = ", &acc, ".find(", &needle, ", ", &pos), ")) != std::string::npos) { ", &acc, ".replace(", &pos, ", ", &needle, ".size(), "), &repl, "); ", &pos, " += ", &repl, ".size(); }"));
        self.say("}");
        (acc, str_ty())
    }

    /// Strip blanks at the start, the end or both.
    fn gen_trim(&mut self, method: &str, args: &Vec<Expr>) -> (r: (String, Ty))
        ensures
            final(self).pg() == old(self).pg(),
            final(self).room() == old(self).room(),
            (final(self).gv(), (r.0@, r.1.v())) == gen_trim_spec(old(self).pg(), old(self).room(), old(self).gv(), method@, exprs_v(args@)),
            settled(final(self).gv()) == settled(old(self).gv()),
        decreases old(self).room(), args@, 4int, 0int,
    {
        proof {
            reveal(gen_trim_spec);
            reveal(arg_code_spec);
        }
        let s = self.arg_code(args, 0);
        let acc = self.fresh("trm");
        let a = self.fresh("a");
        let b = self.fresh("b");
        let res = self.fresh("res");
        let lo = cat4(&acc, "[", &a, "]");
        let hi = cat4(&acc, "[", &b, " - 1]");
        self.say(&cat5("std::string ", &acc, " = ", &s, ";"));
        self.say(&cat7("size_t ", &a, " = 0; size_t ", &b, " = ", &acc, ".size();"));
        if !same(method, "rtrim") {
            self.say(&cat8(&cat8("while (", &a, " < ", &b, " && (", &lo, " == ' ' || ", &lo), " == '\\t' || ", &lo, " == '\\n' || ", &lo, " == '\\r')) ++", &a, ";"));
        }
        if !same(method, "ltrim") {
            self.say(&cat8(&cat8("while (", &b, " > ", &a, " && (", &hi, " == ' ' || ", &hi), " == '\\t' || ", &hi, " == '\\n' || ", &hi, " == '\\r')) --", &b, ";"));
        }
        self.say(&cat4(&cat8("std::string ", &res, " = ", &acc, ".substr(", &a, ", ", &b), " - ", &a, ");"));
        (res, str_ty())
    }

    /// Whether a string starts or ends with another.
    fn gen_affix(&mut self, starts: bool, args: &Vec<Expr>) -> (r: (String, Ty))
        ensures
            final(self).pg() == old(self).pg(),
            final(self).room() == old(self).room(),
            (final(self).gv(), (r.0@, r.1.v())) == gen_affix_spec(old(self).pg(), old(self).room(), old(self).gv(), starts, exprs_v(args@)),
            settled(final(self).gv()) == settled(old(self).gv()),
        decreases old(self).room(), args@, 4int, 0int,
    {
        proof {
            reveal(gen_affix_spec);
            reveal(arg_code_spec);
        }
        let s = self.arg_code(args, 0);
        let sub = self.arg_code(args, 1);
        let sv = self.fresh("s");
        let ss = self.fresh("sub");
        let res = self.fresh("res");
        self.say(&cat5("std::string ", &sv, " = ", &s, ";"));
        self.say(&cat5("std::string ", &ss, " = ", &sub, ";"));
        let from = if starts { "0".to_owned() } else { cat4(&sv, ".size() - ", &ss, ".size()") };
        self.say(&cat8(&cat8("bool ", &res, " = (", &sv, ".size() >= ", &ss, ".size() && ", &sv), ".compare(", &from, ", ", &ss, ".size(), ", &ss, ") == 0);"));
        (res, bool_ty())
    }

    fn gen_hex(&mut self, args: &Vec<Expr>) -> (r: (String, Ty))
        ensures
            final(self).pg() == old(self).pg(),
            final(self).room() == old(self).room(),
            (final(self).gv(), (r.0@, r.1.v())) == gen_hex_spec(old(self).pg(), old(self).room(), old(self).gv(), exprs_v(args@)),
            settled(final(self).gv()) == settled(old(self).gv()),
        decreases old(self).room(), args@, 4int, 0int,
    {
        proof {
            reveal(gen_hex_spec);
            reveal(arg_code_spec);
        }
        let n = self.arg_code(args, 0);
        let buf = self.fresh("hex");
        let res = self.fresh("res");
        let digits = if args.len() > 1 { self.arg_code(args, 1) } else { String::new() };
        self.say(&cat3("char ", &buf, "[32];"));
        if args.len() > 1 {
            self.say(&cat7("sprintf(", &buf, ", \"%0*X\", (int)(", &digits, "), (unsigned int)(", &n, "));"));
        } else {
            self.say(&cat5("sprintf(", &buf, ", \"%X\", (unsigned int)(", &n, "));"));
        }
        self.say(&cat5("std::string ", &res, " = ", &buf, ";"));
        (res, str_ty())
    }

    /// A function of `StringTools`.
    pub fn string_tools_call(&mut self, method: &str, args: &Vec<Expr>) -> (r: Option<(String, Ty)>)
        ensures
            final(self).pg() == old(self).pg(),
            final(self).room() == old(self).room(),
            (final(self).gv(), (match r { Some(y) => Some((y.0@, y.1.v())), None => None })) == string_tools_call_spec(old(self).pg(), old(self).room(), old(self).gv(), method@, exprs_v(args@)),
            settled(final(self).gv()) == settled(old(self).gv()),
        decreases old(self).room(), args@, 6int, 0int,
    {
        proof {
            reveal(string_tools_call_spec);
            reveal(gen_replace_spec);
            reveal(gen_trim_spec);
            reveal(gen_affix_spec);
            reveal(gen_hex_spec);
        }
        if same(method, "replace") {
            return Some(self.gen_replace(args));
        }
        if same(method, "trim") || same(method, "ltrim") || same(method, "rtrim") {
            return Some(self.gen_trim(method, args));
        }
        if same(method, "startsWith") {
            return Some(self.gen_affix(true, args));
        }
        if same(method, "endsWith") {
            return Some(self.gen_affix(false, args));
        }
        if same(method, "hex") {
            return Some(self.gen_hex(args));
        }
        None
    }
}

/// What [`BodyGen::gen_replace`] computes.
#[verifier::opaque]
pub open spec fn gen_replace_spec(p: Env, room: int, st: GenV, args: Seq<ExprV>) -> (GenV, (Seq<char>, TyV))
    decreases room, args, 4int, 0int,
{
    let (st, s) = arg_code_spec(p, room, st, args, 0int);
    let (st, sub) = arg_code_spec(p, room, st, args, 1int);
    let (st, by) = arg_code_spec(p, room, st, args, 2int);
    let (st, acc) = fresh_spec(p, st, "rep"@);
    let (st, needle) = fresh_spec(p, st, "sub"@);
    let (st, repl) = fresh_spec(p, st, "by"@);
    let (st, pos) = fresh_spec(p, st, "pos"@);
    let st = say_spec(p, st, "std::string "@ + acc + " = "@ + s + ";"@);
    let st = say_spec(p, st, "std::string "@ + needle + " = "@ + sub + ";"@);
    let st = say_spec(p, st, "std::string "@ + repl + " = "@ + by + ";"@);
    let st = say_spec(p, st, "if (!"@ + needle + ".empty()) {"@);
    let st = say_spec(p, st, "\tsize_t "@ + pos + " = 0;"@);
    let st = say_spec(p, st, "\twhile (("@ + pos + " = "@ + acc + ".find("@ + needle + ", "@ + pos + ")) != std::string::npos) { "@ + acc + ".replace("@ + pos + ", "@ + needle + ".size(), "@ + repl + "); "@ + pos + " += "@ + repl + ".size(); }"@);
    let st = say_spec(p, st, "}"@);
    (st, (acc, str_ty_spec()))
}

/// What [`BodyGen::gen_trim`] computes.
#[verifier::opaque]
pub open spec fn gen_trim_spec(p: Env, room: int, st: GenV, method: Seq<char>, args: Seq<ExprV>) -> (GenV, (Seq<char>, TyV))
    decreases room, args, 4int, 0int,
{
    let (st, s) = arg_code_spec(p, room, st, args, 0int);
    let (st, acc) = fresh_spec(p, st, "trm"@);
    let (st, a) = fresh_spec(p, st, "a"@);
    let (st, b) = fresh_spec(p, st, "b"@);
    let (st, res) = fresh_spec(p, st, "res"@);
    let lo = acc + "["@ + a + "]"@;
    let hi = acc + "["@ + b + " - 1]"@;
    let st = say_spec(p, st, "std::string "@ + acc + " = "@ + s + ";"@);
    let st = say_spec(p, st, "size_t "@ + a + " = 0; size_t "@ + b + " = "@ + acc + ".size();"@);
    let st = if !(method == "rtrim"@) {
        let st = say_spec(p, st, "while ("@ + a + " < "@ + b + " && ("@ + lo + " == ' ' || "@ + lo + " == '\\t' || "@ + lo + " == '\\n' || "@ + lo + " == '\\r')) ++"@ + a + ";"@);
        st
    } else { st };
    let st = if !(method == "ltrim"@) {
        let st = say_spec(p, st, "while ("@ + b + " > "@ + a + " && ("@ + hi + " == ' ' || "@ + hi + " == '\\t' || "@ + hi + " == '\\n' || "@ + hi + " == '\\r')) --"@ + b + ";"@);
        st
    } else { st };
    let st = say_spec(p, st, "std::string "@ + res + " = "@ + acc + ".substr("@ + a + ", "@ + b + " - "@ + a + ");"@);
    (st, (res, str_ty_spec()))
}

/// What [`BodyGen::gen_affix`] computes.
#[verifier::opaque]
pub open spec fn gen_affix_spec(p: Env, room: int, st: GenV, starts: bool, args: Seq<ExprV>) -> (GenV, (Seq<char>, TyV))
    decreases room, args, 4int, 0int,
{
    let (st, s) = arg_code_spec(p, room, st, args, 0int);
    let (st, sub) = arg_code_spec(p, room, st, args, 1int);
    let (st, sv) = fresh_spec(p, st, "s"@);
    let (st, ss) = fresh_spec(p, st, "sub"@);
    let (st, res) = fresh_spec(p, st, "res"@);
    let st = say_spec(p, st, "std::string "@ + sv + " = "@ + s + ";"@);
    let st = say_spec(p, st, "std::string "@ + ss + " = "@ + sub + ";"@);
    let from = if starts { "0"@ } else { sv + ".size() - "@ + ss + ".size()"@ };
    let st = say_spec(p, st, "bool "@ + res + " = ("@ + sv + ".size() >= "@ + ss + ".size() && "@ + sv + ".compare("@ + from + ", "@ + ss + ".size(), "@ + ss + ") == 0);"@);
    (st, (res, bool_ty_spec()))
}

/// What [`BodyGen::gen_hex`] computes.
#[verifier::opaque]
pub open spec fn gen_hex_spec(p: Env, room: int, st: GenV, args: Seq<ExprV>) -> (GenV, (Seq<char>, TyV))
    decreases room, args, 4int, 0int,
{
    let (st, n) = arg_code_spec(p, room, st, args, 0int);
    let (st, buf) = fresh_spec(p, st, "hex"@);
    let (st, res) = fresh_spec(p, st, "res"@);
    let (st, digits) = if (args.len()) > 1 {
        let (st, x1) = arg_code_spec(p, room, st, args, 1int);
        (st, x1)
    } else { (st, Seq::empty()) };
    let st = say_spec(p, st, "char "@ + buf + "[32];"@);
    let st = if (args.len()) > 1 {
        let st = say_spec(p, st, "sprintf("@ + buf + ", \"%0*X\", (int)("@ + digits + "), (unsigned int)("@ + n + "));"@);
        st
    } else {
        let st = say_spec(p, st, "sprintf("@ + buf + ", \"%X\", (unsigned int)("@ + n + "));"@);
        st
    };
    let st = say_spec(p, st, "std::string "@ + res + " = "@ + buf + ";"@);
    (st, (res, str_ty_spec()))
}

/// What [`BodyGen::string_tools_call`] computes.
#[verifier::opaque]
pub open spec fn string_tools_call_spec(p: Env, room: int, st: GenV, method: Seq<char>, args: Seq<ExprV>) -> (GenV, Option<(Seq<char>, TyV)>)
    decreases room, args, 6int, 0int,
{
    if (method == "replace"@) {
        let (st, x1) = gen_replace_spec(p, room, st, args);
        (st, Some(x1))
    } else {
        if (method == "trim"@) || (method == "ltrim"@) || (method == "rtrim"@) {
            let (st, x2) = gen_trim_spec(p, room, st, method, args);
            (st, Some(x2))
        } else {
            if (method == "startsWith"@) {
                let (st, x3) = gen_affix_spec(p, room, st, true, args);
                (st, Some(x3))
            } else {
                if (method == "endsWith"@) {
                    let (st, x4) = gen_affix_spec(p, room, st, false, args);
                    (st, Some(x4))
                } else {
                    if (method == "hex"@) {
                        let (st, x5) = gen_hex_spec(p, room, st, args);
                        (st, Some(x5))
                    } else { (st, None) }
                }
            }
        }
    }
}

} // verus!
