//! Methods of arrays and maps.

use vstd::prelude::*;

use crate::ast::Expr;
use crate::codegen::args::{arg_code_spec, gen_arg_spec, gen_args_typed_spec, one_ty, one_ty_spec};
use crate::codegen::array::array_call_spec;
use crate::codegen::callee::bind_elem_arg_spec;
use crate::codegen::compr::{gen_array_filter_spec, gen_array_map_spec, gen_array_sort_spec};
use crate::codegen::gen::GenV;
use crate::codegen::helpers::{bool_ty, bool_ty_spec, no_ty, no_ty_spec, plain_ty, plain_ty_spec, rcode_is_map, rcode_is_map_spec};
use crate::codegen::state::{BodyGen, Env, fresh_spec, settled};
use crate::codegen::ty::{Ty, TyV};
use crate::codegen::types::{decl_spelling, decl_spelling_spec, element_ty_spec, map_key_ty_spec, map_value_ty_spec};
use crate::codegen::values::{elem_member_ty_spec, say_spec};
use crate::model::{ExprV, exprs_v};
use crate::text::{cat2, cat3, cat4, cat5, cat6, cat7, cat8, same};

verus! {

broadcast use {crate::codegen::gen::group_gen, crate::codegen::ty::group_ty, crate::model::group_model, crate::text::group_texts};

/// Whether the first argument is a lambda.
pub fn takes_lambda(args: &Vec<Expr>) -> (r: bool)
    ensures
        r == takes_lambda_spec(exprs_v(args@)),
{
    args.len() > 0 && matches!(args[0].node(), Expr::Lambda { params: _, ret: _, body: _ })
}

/// Whether the first argument is an empty array literal.
pub fn takes_empty_array(args: &Vec<Expr>) -> (r: bool)
    ensures
        r == takes_empty_array_spec(exprs_v(args@)),
{
    args.len() > 0 && is_empty_array(&args[0])
}

/// Whether an expression is an empty array literal.
pub fn is_empty_array(e: &Expr) -> (r: bool)
    ensures
        r == is_empty_array_spec(e.v()),
{
    match e.node() {
        Expr::ArrayLit(v) => v.len() == 0,
        _ => false,
    }
}

impl<'a> BodyGen<'a> {
    /// The arguments of a call that stores an element, bound to the element type.
    fn gen_stored(&mut self, args: &Vec<Expr>, elem: &Ty) -> (r: String)
        ensures
            final(self).pg() == old(self).pg(),
            final(self).room() == old(self).room(),
            (final(self).gv(), r@) == gen_stored_spec(old(self).pg(), old(self).room(), old(self).gv(), exprs_v(args@), elem.v()),
            settled(final(self).gv()) == settled(old(self).gv()),
        decreases old(self).room(), args@, 4int, 0int,
    {
        proof {
            reveal(gen_stored_spec);
            reveal(gen_args_typed_spec);
        }
        let a = self.gen_args_typed(args, &one_ty(elem), false);
        if args.len() > 0 {
            self.bind_elem_arg(&args[0], a, elem)
        } else {
            a
        }
    }

    /// The element of `insert`.
    fn gen_inserted(&mut self, args: &Vec<Expr>, elem: &Ty) -> (r: String)
        ensures
            final(self).pg() == old(self).pg(),
            final(self).room() == old(self).room(),
            (final(self).gv(), r@) == gen_inserted_spec(old(self).pg(), old(self).room(), old(self).gv(), exprs_v(args@), elem.v()),
            settled(final(self).gv()) == settled(old(self).gv()),
        decreases old(self).room(), args@, 4int, 0int,
    {
        proof {
            reveal(gen_inserted_spec);
            reveal(gen_arg_spec);
        }
        if args.len() < 2 {
            return String::new();
        }
        let a = self.gen_arg(&args[1], &Some(elem.dup()), false, false);
        self.bind_elem_arg(&args[1], a, elem)
    }

    /// A method of an array that adds or takes out an element.
    fn growing_call(&mut self, rcode: &str, rty: &Ty, method: &str, args: &Vec<Expr>) -> (r: Option<(String, Ty)>)
        ensures
            final(self).pg() == old(self).pg(),
            final(self).room() == old(self).room(),
            (final(self).gv(), (match r { Some(y) => Some((y.0@, y.1.v())), None => None })) == growing_call_spec(old(self).pg(), old(self).room(), old(self).gv(), rcode@, rty.v(), method@, exprs_v(args@)),
            settled(final(self).gv()) == settled(old(self).gv()),
        decreases old(self).room(), args@, 6int, 0int,
    {
        proof {
            reveal(growing_call_spec);
            reveal(gen_stored_spec);
            reveal(arg_code_spec);
            reveal(gen_inserted_spec);
        }
        if same(method, "push") {
            if takes_empty_array(args) {
                return Some((cat4(rcode, ".push_back(", &decl_spelling(&self.element_ty(rty)), "())"), no_ty()));
            }
            let elem = self.elem_member_ty(rty);
            let a = self.gen_stored(args, &elem);
            return Some((cat4(rcode, ".push_back(", &a, ")"), no_ty()));
        }
        if same(method, "insert") {
            let pos = self.arg_code(args, 0);
            let elem = self.elem_member_ty(rty);
            let a = self.gen_inserted(args, &elem);
            return Some((cat8(rcode, ".insert(", rcode, ".begin() + ", &pos, ", ", &a, ")"), no_ty()));
        }
        if same(method, "unshift") {
            let elem = self.elem_member_ty(rty);
            let a = self.gen_stored(args, &elem);
            return Some((cat6(rcode, ".insert(", rcode, ".begin(), ", &a, ")"), no_ty()));
        }
        if same(method, "pop") {
            let elem = self.element_ty(rty);
            let tmp = self.fresh("pop");
            self.say(&cat6(&decl_spelling(&elem), " ", &tmp, " = ", rcode, ".back();"));
            self.say(&cat2(rcode, ".pop_back();"));
            return Some((tmp, elem));
        }
        if same(method, "shift") {
            let elem = self.element_ty(rty);
            let tmp = self.fresh("shift");
            self.say(&cat6(&decl_spelling(&elem), " ", &tmp, " = ", rcode, ".front();"));
            self.say(&cat4(rcode, ".erase(", rcode, ".begin());"));
            return Some((tmp, elem));
        }
        None
    }

    /// A method of a map.
    fn map_call(&mut self, rcode: &str, rty: &Ty, method: &str, args: &Vec<Expr>) -> (r: Option<(String, Ty)>)
        ensures
            final(self).pg() == old(self).pg(),
            final(self).room() == old(self).room(),
            (final(self).gv(), (match r { Some(y) => Some((y.0@, y.1.v())), None => None })) == map_call_spec(old(self).pg(), old(self).room(), old(self).gv(), rcode@, rty.v(), method@, exprs_v(args@)),
            settled(final(self).gv()) == settled(old(self).gv()),
        decreases old(self).room(), args@, 6int, 0int,
    {
        proof {
            reveal(map_call_spec);
            reveal(arg_code_spec);
        }
        if same(method, "get") {
            let k = self.arg_code(args, 0);
            return Some((cat4(rcode, "[", &k, "]"), self.map_value_ty(rty)));
        }
        if same(method, "exists") {
            let k = self.arg_code(args, 0);
            return Some((cat7("(", rcode, ".find(", &k, ") != ", rcode, ".end())"), bool_ty()));
        }
        if same(method, "set") {
            let k = self.arg_code(args, 0);
            let v = self.arg_code(args, 1);
            return Some((cat5(rcode, "[", &k, "] = ", &v), no_ty()));
        }
        if same(method, "remove") {
            let k = self.arg_code(args, 0);
            return Some((cat5("(", rcode, ".erase(", &k, ") != 0)"), bool_ty()));
        }
        if same(method, "keys") {
            let kspell = decl_spelling(&self.map_key_ty(rty));
            let it = self.fresh("it");
            let acc = self.fresh("keys");
            self.say(&cat5("std::vector<", &kspell, " > ", &acc, ";"));
            self.say(&cat3(&cat8(&cat8("for (", &rty.base, "::iterator ", &it, " = ", rcode, ".begin(); ", &it), " != ", rcode, ".end(); ++", &it, ") { ", &acc, ".push_back("), &it, "->first); }"));
            return Some((acc, plain_ty(&cat3("std::vector<", &kspell, " >"))));
        }
        None
    }

    /// A method of an array or a map.
    pub fn container_call(&mut self, rcode: &str, rty: &Ty, method: &str, args: &Vec<Expr>) -> (r: Option<(String, Ty)>)
        ensures
            final(self).pg() == old(self).pg(),
            final(self).room() == old(self).room(),
            (final(self).gv(), (match r { Some(y) => Some((y.0@, y.1.v())), None => None })) == container_call_spec(old(self).pg(), old(self).room(), old(self).gv(), rcode@, rty.v(), method@, exprs_v(args@)),
            settled(final(self).gv()) == settled(old(self).gv()),
        decreases old(self).room(), args@, 8int, 0int,
    {
        proof {
            reveal(container_call_spec);
            reveal(growing_call_spec);
            reveal(gen_array_map_spec);
            reveal(gen_array_filter_spec);
            reveal(gen_array_sort_spec);
            reveal(map_call_spec);
            reveal(array_call_spec);
        }
        match self.growing_call(rcode, rty, method, args) {
            Some(res) => {
                return Some(res);
            },
            None => {},
        }
        if takes_lambda(args) {
            if same(method, "map") {
                return Some(self.gen_array_map(rcode, rty, &args[0]));
            }
            if same(method, "filter") {
                return Some(self.gen_array_filter(rcode, rty, &args[0]));
            }
            if same(method, "sort") {
                return Some(self.gen_array_sort(rcode, rty, &args[0]));
            }
        }
        if rcode_is_map(rty) {
            match self.map_call(rcode, rty, method, args) {
                Some(res) => {
                    return Some(res);
                },
                None => {},
            }
        }
        self.array_call(rcode, rty, method, args)
    }
}

/// What [`takes_lambda`] computes.
pub open spec fn takes_lambda_spec(args: Seq<ExprV>) -> bool
{
    ((args.len()) > 0) && (match args[0] { ExprV::Lambda { params: _, ret: _, body: _ } => true, _ => false })
}

/// What [`takes_empty_array`] computes.
pub open spec fn takes_empty_array_spec(args: Seq<ExprV>) -> bool
{
    ((args.len()) > 0) && is_empty_array_spec(args[0])
}

/// What [`is_empty_array`] computes.
pub open spec fn is_empty_array_spec(e: ExprV) -> bool
{
    match e {
        ExprV::ArrayLit(v) => { (v.len()) == 0 },
        _ => { false },
    }
}

/// What [`BodyGen::gen_stored`] computes.
#[verifier::opaque]
pub open spec fn gen_stored_spec(p: Env, room: int, st: GenV, args: Seq<ExprV>, elem: TyV) -> (GenV, Seq<char>)
    decreases room, args, 4int, 0int,
{
    let (st, a) = gen_args_typed_spec(p, room, st, args, one_ty_spec(elem), false);
    if (args.len()) > 0 { bind_elem_arg_spec(p, st, args[0], a, elem) } else { (st, a) }
}

/// What [`BodyGen::gen_inserted`] computes.
#[verifier::opaque]
pub open spec fn gen_inserted_spec(p: Env, room: int, st: GenV, args: Seq<ExprV>, elem: TyV) -> (GenV, Seq<char>)
    decreases room, args, 4int, 0int,
{
    if (args.len()) < 2 { (st, Seq::empty()) } else {
        let (st, a) = gen_arg_spec(p, room, st, args[1], Some(elem), false, false);
        bind_elem_arg_spec(p, st, args[1], a, elem)
    }
}

/// What [`BodyGen::growing_call`] computes.
#[verifier::opaque]
pub open spec fn growing_call_spec(p: Env, room: int, st: GenV, rcode: Seq<char>, rty: TyV, method: Seq<char>, args: Seq<ExprV>) -> (GenV, Option<(Seq<char>, TyV)>)
    decreases room, args, 6int, 0int,
{
    if (method == "push"@) {
        if takes_empty_array_spec(args) {
            (st, Some((rcode + ".push_back("@ + (decl_spelling_spec(element_ty_spec(p, st, rty))) + "())"@, no_ty_spec())))
        } else {
            let elem = elem_member_ty_spec(p, st, rty);
            let (st, a) = gen_stored_spec(p, room, st, args, elem);
            (st, Some((rcode + ".push_back("@ + a + ")"@, no_ty_spec())))
        }
    } else {
        if (method == "insert"@) {
            let (st, pos) = arg_code_spec(p, room, st, args, 0int);
            let elem = elem_member_ty_spec(p, st, rty);
            let (st, a) = gen_inserted_spec(p, room, st, args, elem);
            (st, Some((rcode + ".insert("@ + rcode + ".begin() + "@ + pos + ", "@ + a + ")"@, no_ty_spec())))
        } else {
            if (method == "unshift"@) {
                let elem = elem_member_ty_spec(p, st, rty);
                let (st, a) = gen_stored_spec(p, room, st, args, elem);
                (st, Some((rcode + ".insert("@ + rcode + ".begin(), "@ + a + ")"@, no_ty_spec())))
            } else {
                if (method == "pop"@) {
                    let elem = element_ty_spec(p, st, rty);
                    let (st, tmp) = fresh_spec(p, st, "pop"@);
                    let st = say_spec(p, st, decl_spelling_spec(elem) + " "@ + tmp + " = "@ + rcode + ".back();"@);
                    let st = say_spec(p, st, rcode + ".pop_back();"@);
                    (st, Some((tmp, elem)))
                } else {
                    if (method == "shift"@) {
                        let elem = element_ty_spec(p, st, rty);
                        let (st, tmp) = fresh_spec(p, st, "shift"@);
                        let st = say_spec(p, st, decl_spelling_spec(elem) + " "@ + tmp + " = "@ + rcode + ".front();"@);
                        let st = say_spec(p, st, rcode + ".erase("@ + rcode + ".begin());"@);
                        (st, Some((tmp, elem)))
                    } else { (st, None) }
                }
            }
        }
    }
}

/// What [`BodyGen::map_call`] computes.
#[verifier::opaque]
pub open spec fn map_call_spec(p: Env, room: int, st: GenV, rcode: Seq<char>, rty: TyV, method: Seq<char>, args: Seq<ExprV>) -> (GenV, Option<(Seq<char>, TyV)>)
    decreases room, args, 6int, 0int,
{
    if (method == "get"@) {
        let (st, k) = arg_code_spec(p, room, st, args, 0int);
        (st, Some((rcode + "["@ + k + "]"@, map_value_ty_spec(p, st, rty))))
    } else {
        if (method == "exists"@) {
            let (st, k) = arg_code_spec(p, room, st, args, 0int);
            (st, Some(("("@ + rcode + ".find("@ + k + ") != "@ + rcode + ".end())"@, bool_ty_spec())))
        } else {
            if (method == "set"@) {
                let (st, k) = arg_code_spec(p, room, st, args, 0int);
                let (st, v) = arg_code_spec(p, room, st, args, 1int);
                (st, Some((rcode + "["@ + k + "] = "@ + v, no_ty_spec())))
            } else {
                if (method == "remove"@) {
                    let (st, k) = arg_code_spec(p, room, st, args, 0int);
                    (st, Some(("("@ + rcode + ".erase("@ + k + ") != 0)"@, bool_ty_spec())))
                } else {
                    if (method == "keys"@) {
                        let kspell = decl_spelling_spec(map_key_ty_spec(p, st, rty));
                        let (st, it) = fresh_spec(p, st, "it"@);
                        let (st, acc) = fresh_spec(p, st, "keys"@);
                        let st = say_spec(p, st, "std::vector<"@ + kspell + " > "@ + acc + ";"@);
                        let st = say_spec(p, st, "for ("@ + rty.base + "::iterator "@ + it + " = "@ + rcode + ".begin(); "@ + it + " != "@ + rcode + ".end(); ++"@ + it + ") { "@ + acc + ".push_back("@ + it + "->first); }"@);
                        (st, Some((acc, plain_ty_spec("std::vector<"@ + kspell + " >"@))))
                    } else { (st, None) }
                }
            }
        }
    }
}

/// What [`BodyGen::container_call`] computes.
#[verifier::opaque]
pub open spec fn container_call_spec(p: Env, room: int, st: GenV, rcode: Seq<char>, rty: TyV, method: Seq<char>, args: Seq<ExprV>) -> (GenV, Option<(Seq<char>, TyV)>)
    decreases room, args, 8int, 0int,
{
    let (st, x1) = growing_call_spec(p, room, st, rcode, rty, method, args);
    match x1 {
        Some(res) => { (st, Some(res)) },
        None => {
            if takes_lambda_spec(args) {
                if (method == "map"@) {
                    let (st, x2) = gen_array_map_spec(p, room, st, rcode, rty, args[0]);
                    (st, Some(x2))
                } else {
                    if (method == "filter"@) {
                        let (st, x3) = gen_array_filter_spec(p, room, st, rcode, rty, args[0]);
                        (st, Some(x3))
                    } else {
                        if (method == "sort"@) {
                            let (st, x4) = gen_array_sort_spec(p, room, st, rcode, rty, args[0]);
                            (st, Some(x4))
                        } else {
                            if rcode_is_map_spec(rty) {
                                let (st, x5) = map_call_spec(p, room, st, rcode, rty, method, args);
                                match x5 {
                                    Some(res) => { (st, Some(res)) },
                                    None => { array_call_spec(p, room, st, rcode, rty, method, args) },
                                }
                            } else { array_call_spec(p, room, st, rcode, rty, method, args) }
                        }
                    }
                }
            } else {
                if rcode_is_map_spec(rty) {
                    let (st, x6) = map_call_spec(p, room, st, rcode, rty, method, args);
                    match x6 {
                        Some(res) => { (st, Some(res)) },
                        None => { array_call_spec(p, room, st, rcode, rty, method, args) },
                    }
                } else { array_call_spec(p, room, st, rcode, rty, method, args) }
            }
        },
    }
}

} // verus!
