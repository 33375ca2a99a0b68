//! Methods of strings.

use vstd::prelude::*;

use crate::ast::Expr;
use crate::codegen::args::arg_code_spec;
use crate::codegen::gen::GenV;
use crate::codegen::helpers::{int_ty, int_ty_spec, no_ty, no_ty_spec, plain_ty, plain_ty_spec, str_ty, str_ty_spec};
use crate::codegen::state::{BodyGen, Env, fresh_spec, settled};
use crate::codegen::textual::gen_std_string_spec;
use crate::codegen::ty::{Ty, TyV};
use crate::codegen::values::say_spec;
use crate::model::{ExprV, exprs_v};
use crate::text::{cat2, cat3, cat4, cat5, cat6, cat7, cat8, same};

verus! {

broadcast use {crate::codegen::gen::group_gen, crate::codegen::ty::group_ty, crate::model::group_model, crate::text::group_texts};

impl<'a> BodyGen<'a> {
    /// A copy with the letters of one case replaced, byte by byte.
    fn gen_case(&mut self, rcode: &str, lo: &str, hi: &str, delta: &str) -> (r: (String, Ty))
        ensures
            final(self).pg() == old(self).pg(),
            final(self).room() == old(self).room(),
            (final(self).gv(), (r.0@, r.1.v())) == gen_case_spec(old(self).pg(), old(self).gv(), rcode@, lo@, hi@, delta@),
            settled(final(self).gv()) == settled(old(self).gv()),
    {
        proof {
            reveal(gen_case_spec);
        }
        let acc = self.fresh("case");
        let i = self.fresh("i");
        self.say(&cat5("std::string ", &acc, " = ", rcode, ";"));
        self.say(&cat3(&cat8(&cat8(&cat8(&cat8("for (size_t ", &i, " = 0; ", &i, " < ", &acc, ".size(); ++", &i), ") { if (", &acc, "[", &i, "] >= '", lo, "' && "), &acc, "[", &i, "] <= '", hi, "') ", &acc), "[", &i, "] = (char)(", &acc, "[", &i, "] "), delta, "); }"));
        (acc, str_ty())
    }

    fn gen_split(&mut self, rcode: &str, args: &Vec<Expr>) -> (r: (String, Ty))
        ensures
            final(self).pg() == old(self).pg(),
            final(self).room() == old(self).room(),
            (final(self).gv(), (r.0@, r.1.v())) == gen_split_spec(old(self).pg(), old(self).room(), old(self).gv(), rcode@, exprs_v(args@)),
            settled(final(self).gv()) == settled(old(self).gv()),
        decreases old(self).room(), args@, 4int, 0int,
    {
        proof {
            reveal(gen_split_spec);
            reveal(arg_code_spec);
        }
        let delim = self.arg_code(args, 0);
        let acc = self.fresh("spl");
        let s = self.fresh("s");
        let d = self.fresh("d");
        let i = self.fresh("i");
        let start = self.fresh("start");
        let found = self.fresh("found");
        self.say(&cat3("std::vector<std::string > ", &acc, ";"));
        self.say(&cat5("std::string ", &s, " = ", rcode, ";"));
        self.say(&cat5("std::string ", &d, " = ", &delim, ";"));
        self.say(&cat3("if (", &d, ".empty()) {"));
        self.say(&cat8(&cat8("\tfor (size_t ", &i, " = 0; ", &i, " < ", &s, ".size(); ++", &i), ") { ", &acc, ".push_back(", &s, ".substr(", &i, ", 1)); }"));
        self.say("} else {");
        self.say(&cat3("\tsize_t ", &start, " = 0;"));
        self.say(&cat3("\tsize_t ", &found, ";"));
        self.say(&cat2(&cat8("\twhile ((", &found, " = ", &s, ".find(", &d, ", ", &start), ")) != std::string::npos) {"));
        self.say(&cat4(&cat8("\t\t", &acc, ".push_back(", &s, ".substr(", &start, ", ", &found), " - ", &start, "));"));
        self.say(&cat7("\t\t", &start, " = ", &found, " + ", &d, ".size();"));
        self.say("\t}");
        self.say(&cat7("\t", &acc, ".push_back(", &s, ".substr(", &start, "));"));
        self.say("}");
        (acc, plain_ty("std::vector<std::string >"))
    }

    fn gen_substr(&mut self, rcode: &str, args: &Vec<Expr>) -> (r: (String, Ty))
        ensures
            final(self).pg() == old(self).pg(),
            final(self).room() == old(self).room(),
            (final(self).gv(), (r.0@, r.1.v())) == gen_substr_spec(old(self).pg(), old(self).room(), old(self).gv(), rcode@, exprs_v(args@)),
            settled(final(self).gv()) == settled(old(self).gv()),
        decreases old(self).room(), args@, 4int, 0int,
    {
        proof {
            reveal(gen_substr_spec);
            reveal(arg_code_spec);
        }
        let pos = self.arg_code(args, 0);
        let len = if args.len() > 1 { self.arg_code(args, 1) } else { String::new() };
        let s = self.fresh("s");
        let q = self.fresh("p");
        let res = self.fresh("sub");
        self.say(&cat5("std::string ", &s, " = ", rcode, ";"));
        self.say(&cat5("int ", &q, " = (int)(", &pos, ");"));
        self.say(&cat7("if (", &q, " < 0) ", &q, " += (int)", &s, ".size();"));
        self.say(&cat5("if (", &q, " < 0) ", &q, " = 0;"));
        self.say(&cat2(&cat8("if ((size_t)", &q, " > ", &s, ".size()) ", &q, " = (int)", &s), ".size();"));
        if args.len() > 1 {
            let n = self.fresh("n");
            self.say(&cat2(&cat8("int ", &n, " = (int)(", &len, "); if (", &n, " < 0) ", &n), " = 0;"));
            self.say(&cat2(&cat8("std::string ", &res, " = ", &s, ".substr((size_t)", &q, ", (size_t)", &n), ");"));
        } else {
            self.say(&cat7("std::string ", &res, " = ", &s, ".substr((size_t)", &q, ");"));
        }
        (res, str_ty())
    }

    /// The line that computes an index clamped to a string.
    fn clamp_offset(&mut self, name: &str, code: &str, s: &str)
        ensures
            final(self).pg() == old(self).pg(),
            final(self).room() == old(self).room(),
            final(self).gv() == clamp_offset_spec(old(self).pg(), old(self).gv(), name@, code@, s@),
            settled(final(self).gv()) == settled(old(self).gv()),
    {
        proof {
            reveal(clamp_offset_spec);
        }
        self.say(&cat3(&cat8(&cat8("int ", name, " = (int)(", code, "); if (", name, " < 0) ", name), " = 0; if ((size_t)", name, " > ", s, ".size()) ", name, " = (int)"), s, ".size();"));
    }

    fn gen_substring(&mut self, rcode: &str, args: &Vec<Expr>) -> (r: (String, Ty))
        ensures
            final(self).pg() == old(self).pg(),
            final(self).room() == old(self).room(),
            (final(self).gv(), (r.0@, r.1.v())) == gen_substring_spec(old(self).pg(), old(self).room(), old(self).gv(), rcode@, exprs_v(args@)),
            settled(final(self).gv()) == settled(old(self).gv()),
        decreases old(self).room(), args@, 4int, 0int,
    {
        proof {
            reveal(gen_substring_spec);
            reveal(arg_code_spec);
        }
        let start = self.arg_code(args, 0);
        let end = if args.len() > 1 { self.arg_code(args, 1) } else { String::new() };
        let s = self.fresh("s");
        let a = self.fresh("a");
        let b = self.fresh("b");
        let res = self.fresh("sub");
        self.say(&cat5("std::string ", &s, " = ", rcode, ";"));
        self.clamp_offset(&a, &start, &s);
        if args.len() > 1 {
            self.clamp_offset(&b, &end, &s);
        } else {
            self.say(&cat5("int ", &b, " = (int)", &s, ".size();"));
        }
        self.say(&cat6(&cat8("if (", &a, " > ", &b, ") { int t = ", &a, "; ", &a), " = ", &b, "; ", &b, " = t; }"));
        self.say(&cat4(&cat8("std::string ", &res, " = ", &s, ".substr((size_t)", &a, ", (size_t)(", &b), " - ", &a, "));"));
        (res, str_ty())
    }

    /// The text of the argument at a position.
    fn gen_string_arg(&mut self, args: &Vec<Expr>, i: usize) -> (r: String)
        ensures
            final(self).pg() == old(self).pg(),
            final(self).room() == old(self).room(),
            (final(self).gv(), r@) == gen_string_arg_spec(old(self).pg(), old(self).room(), old(self).gv(), exprs_v(args@), (i as int)),
            settled(final(self).gv()) == settled(old(self).gv()),
        decreases old(self).room(), args@, 4int, 0int,
    {
        proof {
            reveal(gen_string_arg_spec);
            reveal(gen_std_string_spec);
        }
        if i >= args.len() {
            return String::new();
        }
        let (code, _) = self.gen_std_string(&args[i]);
        code
    }

    /// A method of a string that is one expression.
    fn simple_string_call(&mut self, rcode: &str, method: &str, args: &Vec<Expr>) -> (r: Option<(String, Ty)>)
        ensures
            final(self).pg() == old(self).pg(),
            final(self).room() == old(self).room(),
            (final(self).gv(), (match r { Some(y) => Some((y.0@, y.1.v())), None => None })) == simple_string_call_spec(old(self).pg(), old(self).room(), old(self).gv(), rcode@, method@, exprs_v(args@)),
            settled(final(self).gv()) == settled(old(self).gv()),
        decreases old(self).room(), args@, 6int, 0int,
    {
        proof {
            reveal(simple_string_call_spec);
            reveal(arg_code_spec);
            reveal(gen_string_arg_spec);
        }
        if same(method, "toString") {
            return Some((rcode.to_owned(), str_ty()));
        }
        if same(method, "charAt") {
            let i = self.arg_code(args, 0);
            return Some((cat4(rcode, ".substr(", &i, ", 1)"), str_ty()));
        }
        if same(method, "indexOf") {
            let needle = self.arg_code(args, 0);
            if args.len() > 1 {
                let start = self.arg_code(args, 1);
                return Some((cat7("((int)", rcode, ".find(", &needle, ", ", &start, "))"), int_ty()));
            }
            return Some((cat5("((int)", rcode, ".find(", &needle, "))"), int_ty()));
        }
        if same(method, "lastIndexOf") {
            if args.len() > 1 {
                return None;
            }
            let needle = self.arg_code(args, 0);
            return Some((cat5("((int)", rcode, ".rfind(", &needle, "))"), int_ty()));
        }
        if same(method, "charCodeAt") {
            let i = self.arg_code(args, 0);
            return Some((cat5("((int)(unsigned char)", rcode, ".at(", &i, "))"), int_ty()));
        }
        if same(method, "add") {
            let sv = self.gen_string_arg(args, 0);
            return Some((cat3(rcode, " += ", &sv), no_ty()));
        }
        if same(method, "addChar") {
            let c = self.arg_code(args, 0);
            return Some((cat4(rcode, " += (char)(", &c, ")"), no_ty()));
        }
        None
    }

    /// A method of a string.
    pub fn string_call(&mut self, rcode: &str, method: &str, args: &Vec<Expr>) -> (r: Option<(String, Ty)>)
        ensures
            final(self).pg() == old(self).pg(),
            final(self).room() == old(self).room(),
            (final(self).gv(), (match r { Some(y) => Some((y.0@, y.1.v())), None => None })) == string_call_spec(old(self).pg(), old(self).room(), old(self).gv(), rcode@, method@, exprs_v(args@)),
            settled(final(self).gv()) == settled(old(self).gv()),
        decreases old(self).room(), args@, 8int, 0int,
    {
        proof {
            reveal(string_call_spec);
            reveal(gen_split_spec);
            reveal(gen_substr_spec);
            reveal(gen_substring_spec);
            reveal(simple_string_call_spec);
        }
        if same(method, "toUpperCase") {
            return Some(self.gen_case(rcode, "a", "z", "- 'a' + 'A'"));
        }
        if same(method, "toLowerCase") {
            return Some(self.gen_case(rcode, "A", "Z", "- 'A' + 'a'"));
        }
        if same(method, "split") {
            return Some(self.gen_split(rcode, args));
        }
        if same(method, "substr") {
            return Some(self.gen_substr(rcode, args));
        }
        if same(method, "substring") {
            return Some(self.gen_substring(rcode, args));
        }
        self.simple_string_call(rcode, method, args)
    }
}

/// What [`BodyGen::gen_case`] computes.
#[verifier::opaque]
pub open spec fn gen_case_spec(p: Env, st: GenV, rcode: Seq<char>, lo: Seq<char>, hi: Seq<char>, delta: Seq<char>) -> (GenV, (Seq<char>, TyV))
{
    let (st, acc) = fresh_spec(p, st, "case"@);
    let (st, i) = fresh_spec(p, st, "i"@);
    let st = say_spec(p, st, "std::string "@ + acc + " = "@ + rcode + ";"@);
    let st = say_spec(p, st, "for (size_t "@ + i + " = 0; "@ + i + " < "@ + acc + ".size(); ++"@ + i + ") { if ("@ + acc + "["@ + i + "] >= '"@ + lo + "' && "@ + acc + "["@ + i + "] <= '"@ + hi + "') "@ + acc + "["@ + i + "] = (char)("@ + acc + "["@ + i + "] "@ + delta + "); }"@);
    (st, (acc, str_ty_spec()))
}

/// What [`BodyGen::gen_split`] computes.
#[verifier::opaque]
pub open spec fn gen_split_spec(p: Env, room: int, st: GenV, rcode: Seq<char>, args: Seq<ExprV>) -> (GenV, (Seq<char>, TyV))
    decreases room, args, 4int, 0int,
{
    let (st, delim) = arg_code_spec(p, room, st, args, 0int);
    let (st, acc) = fresh_spec(p, st, "spl"@);
    let (st, s) = fresh_spec(p, st, "s"@);
    let (st, d) = fresh_spec(p, st, "d"@);
    let (st, i) = fresh_spec(p, st, "i"@);
    let (st, start) = fresh_spec(p, st, "start"@);
    let (st, found) = fresh_spec(p, st, "found"@);
    let st = say_spec(p, st, "std::vector<std::string > "@ + acc + ";"@);
    let st = say_spec(p, st, "std::string "@ + s + " = "@ + rcode + ";"@);
    let st = say_spec(p, st, "std::string "@ + d + " = "@ + delim + ";"@);
    let st = say_spec(p, st, "if ("@ + d + ".empty()) {"@);
    let st = say_spec(p, st, "\tfor (size_t "@ + i + " = 0; "@ + i + " < "@ + s + ".size(); ++"@ + i + ") { "@ + acc + ".push_back("@ + s + ".substr("@ + i + ", 1)); }"@);
    let st = say_spec(p, st, "} else {"@);
    let st = say_spec(p, st, "\tsize_t "@ + start + " = 0;"@);
    let st = say_spec(p, st, "\tsize_t "@ + found + ";"@);
    let st = say_spec(p, st, "\twhile (("@ + found + " = "@ + s + ".find("@ + d + ", "@ + start + ")) != std::string::npos) {"@);
    let st = say_spec(p, st, "\t\t"@ + acc + ".push_back("@ + s + ".substr("@ + start + ", "@ + found + " - "@ + start + "));"@);
    let st = say_spec(p, st, "\t\t"@ + start + " = "@ + found + " + "@ + d + ".size();"@);
    let st = say_spec(p, st, "\t}"@);
    let st = say_spec(p, st, "\t"@ + acc + ".push_back("@ + s + ".substr("@ + start + "));"@);
    let st = say_spec(p, st, "}"@);
    (st, (acc, plain_ty_spec("std::vector<std::string >"@)))
}

/// What [`BodyGen::gen_substr`] computes.
#[verifier::opaque]
pub open spec fn gen_substr_spec(p: Env, room: int, st: GenV, rcode: Seq<char>, args: Seq<ExprV>) -> (GenV, (Seq<char>, TyV))
    decreases room, args, 4int, 0int,
{
    let (st, pos) = arg_code_spec(p, room, st, args, 0int);
    let (st, len) = if (args.len()) > 1 {
        let (st, x1) = arg_code_spec(p, room, st, args, 1int);
        (st, x1)
    } else { (st, Seq::empty()) };
    let (st, s) = fresh_spec(p, st, "s"@);
    let (st, q) = fresh_spec(p, st, "p"@);
    let (st, res) = fresh_spec(p, st, "sub"@);
    let st = say_spec(p, st, "std::string "@ + s + " = "@ + rcode + ";"@);
    let st = say_spec(p, st, "int "@ + q + " = (int)("@ + pos + ");"@);
    let st = say_spec(p, st, "if ("@ + q + " < 0) "@ + q + " += (int)"@ + s + ".size();"@);
    let st = say_spec(p, st, "if ("@ + q + " < 0) "@ + q + " = 0;"@);
    let st = say_spec(p, st, "if ((size_t)"@ + q + " > "@ + s + ".size()) "@ + q + " = (int)"@ + s + ".size();"@);
    let st = if (args.len()) > 1 {
        let (st, n) = fresh_spec(p, st, "n"@);
        let st = say_spec(p, st, "int "@ + n + " = (int)("@ + len + "); if ("@ + n + " < 0) "@ + n + " = 0;"@);
        let st = say_spec(p, st, "std::string "@ + res + " = "@ + s + ".substr((size_t)"@ + q + ", (size_t)"@ + n + ");"@);
        st
    } else {
        let st = say_spec(p, st, "std::string "@ + res + " = "@ + s + ".substr((size_t)"@ + q + ");"@);
        st
    };
    (st, (res, str_ty_spec()))
}

/// What [`BodyGen::clamp_offset`] computes.
#[verifier::opaque]
pub open spec fn clamp_offset_spec(p: Env, st: GenV, name: Seq<char>, code: Seq<char>, s: Seq<char>) -> GenV
{
    let st = say_spec(p, st, "int "@ + name + " = (int)("@ + code + "); if ("@ + name + " < 0) "@ + name + " = 0; if ((size_t)"@ + name + " > "@ + s + ".size()) "@ + name + " = (int)"@ + s + ".size();"@);
    st
}

/// What [`BodyGen::gen_substring`] computes.
#[verifier::opaque]
pub open spec fn gen_substring_spec(p: Env, room: int, st: GenV, rcode: Seq<char>, args: Seq<ExprV>) -> (GenV, (Seq<char>, TyV))
    decreases room, args, 4int, 0int,
{
    let (st, start) = arg_code_spec(p, room, st, args, 0int);
    let (st, end) = if (args.len()) > 1 {
        let (st, x1) = arg_code_spec(p, room, st, args, 1int);
        (st, x1)
    } else { (st, Seq::empty()) };
    let (st, s) = fresh_spec(p, st, "s"@);
    let (st, a) = fresh_spec(p, st, "a"@);
    let (st, b) = fresh_spec(p, st, "b"@);
    let (st, res) = fresh_spec(p, st, "sub"@);
    let st = say_spec(p, st, "std::string "@ + s + " = "@ + rcode + ";"@);
    let st = clamp_offset_spec(p, st, a, start, s);
    let st = if (args.len()) > 1 {
        let st = clamp_offset_spec(p, st, b, end, s);
        st
    } else {
        let st = say_spec(p, st, "int "@ + b + " = (int)"@ + s + ".size();"@);
        st
    };
    let st = say_spec(p, st, "if ("@ + a + " > "@ + b + ") { int t = "@ + a + "; "@ + a + " = "@ + b + "; "@ + b + " = t; }"@);
    let st = say_spec(p, st, "std::string "@ + res + " = "@ + s + ".substr((size_t)"@ + a + ", (size_t)("@ + b + " - "@ + a + "));"@);
    (st, (res, str_ty_spec()))
}

/// What [`BodyGen::gen_string_arg`] computes.
#[verifier::opaque]
pub open spec fn gen_string_arg_spec(p: Env, room: int, st: GenV, args: Seq<ExprV>, i: int) -> (GenV, Seq<char>)
    decreases room, args, 4int, 0int,
{
    if !(0 <= i < args.len()) { (st, Seq::empty()) } else {
        let (st, (code, _)) = gen_std_string_spec(p, room, st, args[i]);
        (st, code)
    }
}

/// What [`BodyGen::simple_string_call`] computes.
#[verifier::opaque]
pub open spec fn simple_string_call_spec(p: Env, room: int, st: GenV, rcode: Seq<char>, method: Seq<char>, args: Seq<ExprV>) -> (GenV, Option<(Seq<char>, TyV)>)
    decreases room, args, 6int, 0int,
{
    if (method == "toString"@) { (st, Some((rcode, str_ty_spec()))) } else {
        if (method == "charAt"@) {
            let (st, i) = arg_code_spec(p, room, st, args, 0int);
            (st, Some((rcode + ".substr("@ + i + ", 1)"@, str_ty_spec())))
        } else {
            if (method == "indexOf"@) {
                let (st, needle) = arg_code_spec(p, room, st, args, 0int);
                if (args.len()) > 1 {
                    let (st, start) = arg_code_spec(p, room, st, args, 1int);
                    (st, Some(("((int)"@ + rcode + ".find("@ + needle + ", "@ + start + "))"@, int_ty_spec())))
                } else { (st, Some(("((int)"@ + rcode + ".find("@ + needle + "))"@, int_ty_spec()))) }
            } else {
                if (method == "lastIndexOf"@) {
                    if (args.len()) > 1 { (st, None) } else {
                        let (st, needle) = arg_code_spec(p, room, st, args, 0int);
                        (st, Some(("((int)"@ + rcode + ".rfind("@ + needle + "))"@, int_ty_spec())))
                    }
                } else {
                    if (method == "charCodeAt"@) {
                        let (st, i) = arg_code_spec(p, room, st, args, 0int);
                        (st, Some(("((int)(unsigned char)"@ + rcode + ".at("@ + i + "))"@, int_ty_spec())))
                    } else {
                        if (method == "add"@) {
                            let (st, sv) = gen_string_arg_spec(p, room, st, args, 0int);
                            (st, Some((rcode + " += "@ + sv, no_ty_spec())))
                        } else {
                            if (method == "addChar"@) {
                                let (st, c) = arg_code_spec(p, room, st, args, 0int);
                                (st, Some((rcode + " += (char)("@ + c + ")"@, no_ty_spec())))
                            } else { (st, None) }
                        }
                    }
                }
            }
        }
    }
}

/// What [`BodyGen::string_call`] computes.
#[verifier::opaque]
pub open spec fn string_call_spec(p: Env, room: int, st: GenV, rcode: Seq<char>, method: Seq<char>, args: Seq<ExprV>) -> (GenV, Option<(Seq<char>, TyV)>)
    decreases room, args, 8int, 0int,
{
    if (method == "toUpperCase"@) {
        let (st, x1) = gen_case_spec(p, st, rcode, "a"@, "z"@, "- 'a' + 'A'"@);
        (st, Some(x1))
    } else {
        if (method == "toLowerCase"@) {
            let (st, x2) = gen_case_spec(p, st, rcode, "A"@, "Z"@, "- 'A' + 'a'"@);
            (st, Some(x2))
        } else {
            if (method == "split"@) {
                let (st, x3) = gen_split_spec(p, room, st, rcode, args);
                (st, Some(x3))
            } else {
                if (method == "substr"@) {
                    let (st, x4) = gen_substr_spec(p, room, st, rcode, args);
                    (st, Some(x4))
                } else {
                    if (method == "substring"@) {
                        let (st, x5) = gen_substring_spec(p, room, st, rcode, args);
                        (st, Some(x5))
                    } else { simple_string_call_spec(p, room, st, rcode, method, args) }
                }
            }
        }
    }
}

} // verus!
