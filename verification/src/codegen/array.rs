//! Methods of arrays that search, copy or join.

use vstd::prelude::*;

use crate::ast::Expr;
use crate::codegen::args::arg_code_spec;
use crate::codegen::gen::GenV;
use crate::codegen::helpers::{bool_ty, bool_ty_spec, int_ty, int_ty_spec, no_ty, no_ty_spec, str_ty, str_ty_spec};
use crate::codegen::state::{BodyGen, Env, fresh_spec, settled};
use crate::codegen::ty::{Ty, TyV};
use crate::codegen::types::{decl_spelling, decl_spelling_spec, element_ty_spec};
use crate::codegen::values::{say_spec, spec_for, spec_for_spec};
use crate::model::{ExprV, exprs_v};
use crate::text::{cat2, cat3, cat4, cat5, cat6, cat7, cat8, same};

verus! {

broadcast use {crate::codegen::gen::group_gen, crate::codegen::ty::group_ty, crate::model::group_model, crate::text::group_texts};

impl<'a> BodyGen<'a> {
    /// A search for an element.
    fn search_call(&mut self, rcode: &str, method: &str, args: &Vec<Expr>) -> (r: Option<(String, Ty)>)
        ensures
            final(self).pg() == old(self).pg(),
            final(self).room() == old(self).room(),
            (final(self).gv(), (match r { Some(y) => Some((y.0@, y.1.v())), None => None })) == search_call_spec(old(self).pg(), old(self).room(), old(self).gv(), rcode@, method@, exprs_v(args@)),
            settled(final(self).gv()) == settled(old(self).gv()),
        decreases old(self).room(), args@, 4int, 0int,
    {
        proof {
            reveal(search_call_spec);
            reveal(arg_code_spec);
        }
        if same(method, "contains") {
            let x = self.arg_code(args, 0);
            let i = self.fresh("i");
            let has = self.fresh("has");
            self.say(&cat3("bool ", &has, " = false;"));
            self.say(&cat3(&cat8(&cat8("for (size_t ", &i, " = 0; ", &i, " < ", rcode, ".size(); ++", &i), ") { if (", rcode, "[", &i, "] == ", &x, ") { "), &has, " = true; break; } }"));
            return Some((has, bool_ty()));
        }
        if same(method, "indexOf") {
            let x = self.arg_code(args, 0);
            let start = if args.len() > 1 { self.arg_code(args, 1) } else { "0".to_owned() };
            let i = self.fresh("i");
            let idx = self.fresh("idx");
            self.say(&cat3("int ", &idx, " = -1;"));
            self.say(&cat7(&cat8(&cat8("for (size_t ", &i, " = (size_t)(", &start, "); ", &i, " < ", rcode), ".size(); ++", &i, ") { if (", rcode, "[", &i, "] == "), &x, ") { ", &idx, " = (int)", &i, "; break; } }"));
            return Some((idx, int_ty()));
        }
        if same(method, "remove") {
            let x = self.arg_code(args, 0);
            let i = self.fresh("i");
            let rem = self.fresh("rem");
            self.say(&cat3("bool ", &rem, " = false;"));
            self.say(&cat2(&cat8(&cat8(&cat8("for (size_t ", &i, " = 0; ", &i, " < ", rcode, ".size(); ++", &i), ") { if (", rcode, "[", &i, "] == ", &x, ") { "), rcode, ".erase(", rcode, ".begin() + ", &i, "); ", &rem), " = true; break; } }"));
            return Some((rem, bool_ty()));
        }
        if same(method, "lastIndexOf") {
            let x = self.arg_code(args, 0);
            let i = self.fresh("i");
            let idx = self.fresh("idx");
            let start = if args.len() > 1 {
                let from = self.arg_code(args, 1);
                cat3("(size_t)(", &from, ") + 1")
            } else {
                cat2(rcode, ".size()")
            };
            self.say(&cat3("int ", &idx, " = -1;"));
            self.say(&cat7(&cat8(&cat8("for (size_t ", &i, " = ", &start, "; ", &i, "-- > 0; ) { if (", &i), " < ", rcode, ".size() && ", rcode, "[", &i, "] == "), &x, ") { ", &idx, " = (int)", &i, "; break; } }"));
            return Some((idx, int_ty()));
        }
        None
    }

    /// The line that computes an index clamped to a container, counting a negative one from
    /// its end.
    fn clamp_index(&mut self, name: &str, code: &str, size_of: &str)
        ensures
            final(self).pg() == old(self).pg(),
            final(self).room() == old(self).room(),
            final(self).gv() == clamp_index_spec(old(self).pg(), old(self).gv(), name@, code@, size_of@),
            settled(final(self).gv()) == settled(old(self).gv()),
    {
        proof {
            reveal(clamp_index_spec);
        }
        self.say(&cat2(&cat8(&cat8(&cat8("int ", name, " = (int)(", code, "); if (", name, " < 0) ", name), " += (int)", size_of, ".size(); if (", name, " < 0) ", name, " = 0; if ((size_t)"), name, " > ", size_of, ".size()) ", name, " = (int)", size_of), ".size();"));
    }

    fn gen_slice(&mut self, rcode: &str, rty: &Ty, args: &Vec<Expr>) -> (r: (String, Ty))
        ensures
            final(self).pg() == old(self).pg(),
            final(self).room() == old(self).room(),
            (final(self).gv(), (r.0@, r.1.v())) == gen_slice_spec(old(self).pg(), old(self).room(), old(self).gv(), rcode@, rty.v(), exprs_v(args@)),
            settled(final(self).gv()) == settled(old(self).gv()),
        decreases old(self).room(), args@, 4int, 0int,
    {
        proof {
            reveal(gen_slice_spec);
            reveal(arg_code_spec);
        }
        let pos = self.arg_code(args, 0);
        let end = if args.len() > 1 { self.arg_code(args, 1) } else { String::new() };
        let acc = self.fresh("slc");
        let a = self.fresh("a");
        let b = self.fresh("b");
        let i = self.fresh("i");
        self.say(&cat4(&rty.base, " ", &acc, ";"));
        self.clamp_index(&a, &pos, rcode);
        if args.len() > 1 {
            self.clamp_index(&b, &end, rcode);
        } else {
            self.say(&cat5("int ", &b, " = (int)", rcode, ".size();"));
        }
        self.say(&cat3(&cat8(&cat8("for (size_t ", &i, " = (size_t)", &a, "; ", &i, " < (size_t)", &b), "; ++", &i, ") { ", &acc, ".push_back(", rcode, "["), &i, "]); }"));
        (acc, rty.dup())
    }

    fn gen_join(&mut self, rcode: &str, rty: &Ty, args: &Vec<Expr>) -> (r: (String, Ty))
        ensures
            final(self).pg() == old(self).pg(),
            final(self).room() == old(self).room(),
            (final(self).gv(), (r.0@, r.1.v())) == gen_join_spec(old(self).pg(), old(self).room(), old(self).gv(), rcode@, rty.v(), exprs_v(args@)),
            settled(final(self).gv()) == settled(old(self).gv()),
        decreases old(self).room(), args@, 4int, 0int,
    {
        proof {
            reveal(gen_join_spec);
            reveal(arg_code_spec);
        }
        let sep = self.arg_code(args, 0);
        let elem = self.element_ty(rty);
        let i = self.fresh("i");
        let acc = self.fresh("join");
        let head = cat8(&cat8("for (size_t ", &i, " = 0; ", &i, " < ", rcode, ".size(); ++", &i), ") { if (", &i, ") ", &acc, " += ", &sep, "; ");
        if same(&elem.base, "std::string") {
            self.say(&cat3("std::string ", &acc, ";"));
            self.say(&cat7(&head, &acc, " += ", rcode, "[", &i, "]; }"));
        } else {
            let (spec, _) = spec_for("", &elem);
            let buf = self.fresh("buf");
            self.say(&cat3("std::string ", &acc, ";"));
            self.say(&cat2(&cat8(&cat8(&head, "char ", &buf, "[64]; sprintf(", &buf, ", \"", &spec, "\", "), rcode, "[", &i, "]); ", &acc, " += ", &buf), "; }"));
        }
        (acc, str_ty())
    }

    /// The other methods of an array.
    pub fn array_call(&mut self, rcode: &str, rty: &Ty, method: &str, args: &Vec<Expr>) -> (r: Option<(String, Ty)>)
        ensures
            final(self).pg() == old(self).pg(),
            final(self).room() == old(self).room(),
            (final(self).gv(), (match r { Some(y) => Some((y.0@, y.1.v())), None => None })) == array_call_spec(old(self).pg(), old(self).room(), old(self).gv(), rcode@, rty.v(), method@, exprs_v(args@)),
            settled(final(self).gv()) == settled(old(self).gv()),
        decreases old(self).room(), args@, 6int, 0int,
    {
        proof {
            reveal(array_call_spec);
            reveal(search_call_spec);
            reveal(gen_join_spec);
            reveal(arg_code_spec);
            reveal(gen_slice_spec);
        }
        match self.search_call(rcode, method, args) {
            Some(res) => {
                return Some(res);
            },
            None => {},
        }
        if same(method, "reverse") {
            let espell = decl_spelling(&self.element_ty(rty));
            let i = self.fresh("i");
            let tmp = self.fresh("tmp");
            self.say(&cat7(&cat8(&cat8(&cat8(&cat8("for (size_t ", &i, " = 0; ", &i, " < ", rcode, ".size() / 2; ++", &i), ") { ", &espell, " ", &tmp, " = ", rcode, "["), &i, "]; ", rcode, "[", &i, "] = ", rcode), "[", rcode, ".size() - 1 - ", &i, "]; ", rcode, "["), rcode, ".size() - 1 - ", &i, "] = ", &tmp, "; }"));
            return Some(("((void)0)".to_owned(), no_ty()));
        }
        if same(method, "copy") {
            return Some((cat4(&rty.base, "(", rcode, ")"), rty.dup()));
        }
        if same(method, "join") {
            return Some(self.gen_join(rcode, rty, args));
        }
        if same(method, "concat") {
            let other = self.arg_code(args, 0);
            let i = self.fresh("i");
            let acc = self.fresh("cat");
            self.say(&cat6(&rty.base, " ", &acc, " = ", rcode, ";"));
            self.say(&cat8(&cat8("for (size_t ", &i, " = 0; ", &i, " < (", &other, ").size(); ++", &i), ") { ", &acc, ".push_back((", &other, ")[", &i, "]); }"));
            return Some((acc, rty.dup()));
        }
        if same(method, "slice") {
            return Some(self.gen_slice(rcode, rty, args));
        }
        None
    }
}

/// What [`BodyGen::search_call`] computes.
#[verifier::opaque]
pub open spec fn search_call_spec(p: Env, room: int, st: GenV, rcode: Seq<char>, method: Seq<char>, args: Seq<ExprV>) -> (GenV, Option<(Seq<char>, TyV)>)
    decreases room, args, 4int, 0int,
{
    if (method == "contains"@) {
        let (st, x) = arg_code_spec(p, room, st, args, 0int);
        let (st, i) = fresh_spec(p, st, "i"@);
        let (st, has) = fresh_spec(p, st, "has"@);
        let st = say_spec(p, st, "bool "@ + has + " = false;"@);
        let st = say_spec(p, st, "for (size_t "@ + i + " = 0; "@ + i + " < "@ + rcode + ".size(); ++"@ + i + ") { if ("@ + rcode + "["@ + i + "] == "@ + x + ") { "@ + has + " = true; break; } }"@);
        (st, Some((has, bool_ty_spec())))
    } else {
        if (method == "indexOf"@) {
            let (st, x) = arg_code_spec(p, room, st, args, 0int);
            let (st, start) = if (args.len()) > 1 {
                let (st, x1) = arg_code_spec(p, room, st, args, 1int);
                (st, x1)
            } else { (st, "0"@) };
            let (st, i) = fresh_spec(p, st, "i"@);
            let (st, idx) = fresh_spec(p, st, "idx"@);
            let st = say_spec(p, st, "int "@ + idx + " = -1;"@);
            let st = say_spec(p, st, "for (size_t "@ + i + " = (size_t)("@ + start + "); "@ + i + " < "@ + rcode + ".size(); ++"@ + i + ") { if ("@ + rcode + "["@ + i + "] == "@ + x + ") { "@ + idx + " = (int)"@ + i + "; break; } }"@);
            (st, Some((idx, int_ty_spec())))
        } else {
            if (method == "remove"@) {
                let (st, x) = arg_code_spec(p, room, st, args, 0int);
                let (st, i) = fresh_spec(p, st, "i"@);
                let (st, rem) = fresh_spec(p, st, "rem"@);
                let st = say_spec(p, st, "bool "@ + rem + " = false;"@);
                let st = say_spec(p, st, "for (size_t "@ + i + " = 0; "@ + i + " < "@ + rcode + ".size(); ++"@ + i + ") { if ("@ + rcode + "["@ + i + "] == "@ + x + ") { "@ + rcode + ".erase("@ + rcode + ".begin() + "@ + i + "); "@ + rem + " = true; break; } }"@);
                (st, Some((rem, bool_ty_spec())))
            } else {
                if (method == "lastIndexOf"@) {
                    let (st, x) = arg_code_spec(p, room, st, args, 0int);
                    let (st, i) = fresh_spec(p, st, "i"@);
                    let (st, idx) = fresh_spec(p, st, "idx"@);
                    let (st, start) = if (args.len()) > 1 {
                        let (st, from) = arg_code_spec(p, room, st, args, 1int);
                        (st, "(size_t)("@ + from + ") + 1"@)
                    } else { (st, rcode + ".size()"@) };
                    let st = say_spec(p, st, "int "@ + idx + " = -1;"@);
                    let st = say_spec(p, st, "for (size_t "@ + i + " = "@ + start + "; "@ + i + "-- > 0; ) { if ("@ + i + " < "@ + rcode + ".size() && "@ + rcode + "["@ + i + "] == "@ + x + ") { "@ + idx + " = (int)"@ + i + "; break; } }"@);
                    (st, Some((idx, int_ty_spec())))
                } else { (st, None) }
            }
        }
    }
}

/// What [`BodyGen::clamp_index`] computes.
#[verifier::opaque]
pub open spec fn clamp_index_spec(p: Env, st: GenV, name: Seq<char>, code: Seq<char>, size_of: Seq<char>) -> GenV
{
    let st = say_spec(p, st, "int "@ + name + " = (int)("@ + code + "); if ("@ + name + " < 0) "@ + name + " += (int)"@ + size_of + ".size(); if ("@ + name + " < 0) "@ + name + " = 0; if ((size_t)"@ + name + " > "@ + size_of + ".size()) "@ + name + " = (int)"@ + size_of + ".size();"@);
    st
}

/// What [`BodyGen::gen_slice`] computes.
#[verifier::opaque]
pub open spec fn gen_slice_spec(p: Env, room: int, st: GenV, rcode: Seq<char>, rty: TyV, args: Seq<ExprV>) -> (GenV, (Seq<char>, TyV))
    decreases room, args, 4int, 0int,
{
    let (st, pos) = arg_code_spec(p, room, st, args, 0int);
    let (st, end) = if (args.len()) > 1 {
        let (st, x1) = arg_code_spec(p, room, st, args, 1int);
        (st, x1)
    } else { (st, Seq::empty()) };
    let (st, acc) = fresh_spec(p, st, "slc"@);
    let (st, a) = fresh_spec(p, st, "a"@);
    let (st, b) = fresh_spec(p, st, "b"@);
    let (st, i) = fresh_spec(p, st, "i"@);
    let st = say_spec(p, st, rty.base + " "@ + acc + ";"@);
    let st = clamp_index_spec(p, st, a, pos, rcode);
    let st = if (args.len()) > 1 {
        let st = clamp_index_spec(p, st, b, end, rcode);
        st
    } else {
        let st = say_spec(p, st, "int "@ + b + " = (int)"@ + rcode + ".size();"@);
        st
    };
    let st = say_spec(p, st, "for (size_t "@ + i + " = (size_t)"@ + a + "; "@ + i + " < (size_t)"@ + b + "; ++"@ + i + ") { "@ + acc + ".push_back("@ + rcode + "["@ + i + "]); }"@);
    (st, (acc, rty))
}

/// What [`BodyGen::gen_join`] computes.
#[verifier::opaque]
pub open spec fn gen_join_spec(p: Env, room: int, st: GenV, rcode: Seq<char>, rty: TyV, args: Seq<ExprV>) -> (GenV, (Seq<char>, TyV))
    decreases room, args, 4int, 0int,
{
    let (st, sep) = arg_code_spec(p, room, st, args, 0int);
    let elem = element_ty_spec(p, st, rty);
    let (st, i) = fresh_spec(p, st, "i"@);
    let (st, acc) = fresh_spec(p, st, "join"@);
    let head = "for (size_t "@ + i + " = 0; "@ + i + " < "@ + rcode + ".size(); ++"@ + i + ") { if ("@ + i + ") "@ + acc + " += "@ + sep + "; "@;
    let st = if (elem.base == "std::string"@) {
        let st = say_spec(p, st, "std::string "@ + acc + ";"@);
        let st = say_spec(p, st, head + acc + " += "@ + rcode + "["@ + i + "]; }"@);
        st
    } else {
        let (spec, _) = spec_for_spec(""@, elem);
        let (st, buf) = fresh_spec(p, st, "buf"@);
        let st = say_spec(p, st, "std::string "@ + acc + ";"@);
        let st = say_spec(p, st, head + "char "@ + buf + "[64]; sprintf("@ + buf + ", \""@ + spec + "\", "@ + rcode + "["@ + i + "]); "@ + acc + " += "@ + buf + "; }"@);
        st
    };
    (st, (acc, str_ty_spec()))
}

/// What [`BodyGen::array_call`] computes.
#[verifier::opaque]
pub open spec fn array_call_spec(p: Env, room: int, st: GenV, rcode: Seq<char>, rty: TyV, method: Seq<char>, args: Seq<ExprV>) -> (GenV, Option<(Seq<char>, TyV)>)
    decreases room, args, 6int, 0int,
{
    let (st, x1) = search_call_spec(p, room, st, rcode, method, args);
    match x1 {
        Some(res) => { (st, Some(res)) },
        None => {
            if (method == "reverse"@) {
                let espell = decl_spelling_spec(element_ty_spec(p, st, rty));
                let (st, i) = fresh_spec(p, st, "i"@);
                let (st, tmp) = fresh_spec(p, st, "tmp"@);
                let st = say_spec(p, st, "for (size_t "@ + i + " = 0; "@ + i + " < "@ + rcode + ".size() / 2; ++"@ + i + ") { "@ + espell + " "@ + tmp + " = "@ + rcode + "["@ + i + "]; "@ + rcode + "["@ + i + "] = "@ + rcode + "["@ + rcode + ".size() - 1 - "@ + i + "]; "@ + rcode + "["@ + rcode + ".size() - 1 - "@ + i + "] = "@ + tmp + "; }"@);
                (st, Some(("((void)0)"@, no_ty_spec())))
            } else {
                if (method == "copy"@) { (st, Some((rty.base + "("@ + rcode + ")"@, rty))) } else {
                    if (method == "join"@) {
                        let (st, x2) = gen_join_spec(p, room, st, rcode, rty, args);
                        (st, Some(x2))
                    } else {
                        if (method == "concat"@) {
                            let (st, other) = arg_code_spec(p, room, st, args, 0int);
                            let (st, i) = fresh_spec(p, st, "i"@);
                            let (st, acc) = fresh_spec(p, st, "cat"@);
                            let st = say_spec(p, st, rty.base + " "@ + acc + " = "@ + rcode + ";"@);
                            let st = say_spec(p, st, "for (size_t "@ + i + " = 0; "@ + i + " < ("@ + other + ").size(); ++"@ + i + ") { "@ + acc + ".push_back(("@ + other + ")["@ + i + "]); }"@);
                            (st, Some((acc, rty)))
                        } else {
                            if (method == "slice"@) {
                                let (st, x3) = gen_slice_spec(p, room, st, rcode, rty, args);
                                (st, Some(x3))
                            } else { (st, None) }
                        }
                    }
                }
            }
        },
    }
}

} // verus!
