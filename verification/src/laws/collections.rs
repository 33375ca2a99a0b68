//! What the methods of ordered maps and the searches of arrays become.

use vstd::prelude::*;

use crate::codegen::args::arg_code_spec;
use crate::codegen::array::{array_call_spec, search_call_spec};
use crate::codegen::gen::GenV;
use crate::codegen::helpers::{no_ty_spec, plain_ty_spec};
use crate::codegen::ordered::{ordered_map_call_spec, scan_keys_spec};
use crate::codegen::state::{Env, fresh_spec};
use crate::codegen::ty::{OrderedMapRefV, TyV};
use crate::codegen::types::decl_spelling_spec;
use crate::codegen::values::say_spec;
use crate::laws::builtins::said;
use crate::model::ExprV;

verus! {

broadcast use {crate::codegen::gen::group_gen, crate::codegen::ty::group_ty, crate::model::group_model, crate::text::group_texts};

proof fn ordered_map_letters()
    ensures
        "get"@.len() == 3,
        "get"@[0] == 'g',
        "get"@[1] == 'e',
        "get"@[2] == 't',
        "exists"@.len() == 6,
        "exists"@[0] == 'e',
        "exists"@[1] == 'x',
        "exists"@[2] == 'i',
        "exists"@[3] == 's',
        "exists"@[4] == 't',
        "exists"@[5] == 's',
        "set"@.len() == 3,
        "set"@[0] == 's',
        "set"@[1] == 'e',
        "set"@[2] == 't',
        "remove"@.len() == 6,
        "remove"@[0] == 'r',
        "remove"@[1] == 'e',
        "remove"@[2] == 'm',
        "remove"@[3] == 'o',
        "remove"@[4] == 'v',
        "remove"@[5] == 'e',
        "keys"@.len() == 4,
        "keys"@[0] == 'k',
        "keys"@[1] == 'e',
        "keys"@[2] == 'y',
        "keys"@[3] == 's',
{
    reveal_strlit("get");
    reveal_strlit("exists");
    reveal_strlit("set");
    reveal_strlit("remove");
    reveal_strlit("keys");
}

proof fn search_letters()
    ensures
        "contains"@.len() == 8,
        "contains"@[0] == 'c',
        "contains"@[1] == 'o',
        "contains"@[2] == 'n',
        "contains"@[3] == 't',
        "contains"@[4] == 'a',
        "contains"@[5] == 'i',
        "contains"@[6] == 'n',
        "contains"@[7] == 's',
        "indexOf"@.len() == 7,
        "indexOf"@[0] == 'i',
        "indexOf"@[1] == 'n',
        "indexOf"@[2] == 'd',
        "indexOf"@[3] == 'e',
        "indexOf"@[4] == 'x',
        "indexOf"@[5] == 'O',
        "indexOf"@[6] == 'f',
        "remove"@.len() == 6,
        "remove"@[0] == 'r',
        "remove"@[1] == 'e',
        "remove"@[2] == 'm',
        "remove"@[3] == 'o',
        "remove"@[4] == 'v',
        "remove"@[5] == 'e',
        "lastIndexOf"@.len() == 11,
        "lastIndexOf"@[0] == 'l',
        "lastIndexOf"@[1] == 'a',
        "lastIndexOf"@[2] == 's',
        "lastIndexOf"@[3] == 't',
        "lastIndexOf"@[4] == 'I',
        "lastIndexOf"@[5] == 'n',
        "lastIndexOf"@[6] == 'd',
        "lastIndexOf"@[7] == 'e',
        "lastIndexOf"@[8] == 'x',
        "lastIndexOf"@[9] == 'O',
        "lastIndexOf"@[10] == 'f',
        "reverse"@.len() == 7,
        "reverse"@[0] == 'r',
        "reverse"@[1] == 'e',
        "reverse"@[2] == 'v',
        "reverse"@[3] == 'e',
        "reverse"@[4] == 'r',
        "reverse"@[5] == 's',
        "reverse"@[6] == 'e',
        "copy"@.len() == 4,
        "copy"@[0] == 'c',
        "copy"@[1] == 'o',
        "copy"@[2] == 'p',
        "copy"@[3] == 'y',
        "join"@.len() == 4,
        "join"@[0] == 'j',
        "join"@[1] == 'o',
        "join"@[2] == 'i',
        "join"@[3] == 'n',
        "concat"@.len() == 6,
        "concat"@[0] == 'c',
        "concat"@[1] == 'o',
        "concat"@[2] == 'n',
        "concat"@[3] == 'c',
        "concat"@[4] == 'a',
        "concat"@[5] == 't',
        "slice"@.len() == 5,
        "slice"@[0] == 's',
        "slice"@[1] == 'l',
        "slice"@[2] == 'i',
        "slice"@[3] == 'c',
        "slice"@[4] == 'e',
{
    reveal_strlit("contains");
    reveal_strlit("indexOf");
    reveal_strlit("remove");
    reveal_strlit("lastIndexOf");
    reveal_strlit("reverse");
    reveal_strlit("copy");
    reveal_strlit("join");
    reveal_strlit("concat");
    reveal_strlit("slice");
}

/// The loop that looks through a container for a value and acts on the first that is equal.
pub open spec fn search_loop(container: Seq<char>, i: Seq<char>, from: Seq<char>, x: Seq<char>, found: Seq<char>) -> Seq<char> {
    "for (size_t "@ + i + " = "@ + from + "; "@ + i + " < "@ + container + ".size(); ++"@ + i + ") { if ("@ + container + "["@ + i + "] == "@ + x
        + ") { "@ + found + "break; } }"@
}

proof fn loop_from_zero(container: Seq<char>, i: Seq<char>, x: Seq<char>, found: Seq<char>)
    ensures
        "for (size_t "@ + i + " = 0; "@ + i + " < "@ + container + ".size(); ++"@ + i + ") { if ("@ + container + "["@ + i + "] == "@ + x + ") { "@
            + found + "break; } }"@ == search_loop(container, i, "0"@, x, found),
{
    reveal_strlit(" = 0; ");
    reveal_strlit(" = ");
    reveal_strlit("0");
    reveal_strlit("; ");
    assert(" = 0; "@ =~= " = "@ + "0"@ + "; "@);
    let rest = i + " < "@ + container + ".size(); ++"@ + i + ") { if ("@ + container + "["@ + i + "] == "@ + x + ") { "@ + found + "break; } }"@;
    assert("for (size_t "@ + i + " = 0; "@ + i + " < "@ + container + ".size(); ++"@ + i + ") { if ("@ + container + "["@ + i + "] == "@ + x
        + ") { "@ + found + "break; } }"@ =~= "for (size_t "@ + i + " = 0; "@ + rest);
    assert(search_loop(container, i, "0"@, x, found) =~= "for (size_t "@ + i + (" = "@ + "0"@ + "; "@) + rest);
}

proof fn two_lines(p: Env, st: GenV, a: Seq<char>, b: Seq<char>)
    ensures
        said(p, st, seq![a, b]) == say_spec(p, say_spec(p, st, a), b),
{
    reveal_with_fuel(said, 3);
    assert(seq![a, b].drop_last() =~= seq![a]);
    assert(seq![a].drop_last() =~= Seq::empty());
}

proof fn three_lines(p: Env, st: GenV, a: Seq<char>, b: Seq<char>, c: Seq<char>)
    ensures
        said(p, st, seq![a, b, c]) == say_spec(p, say_spec(p, say_spec(p, st, a), b), c),
{
    two_lines(p, st, a, b);
    assert(seq![a, b, c].drop_last() =~= seq![a, b]);
}

/// Reading an ordered map: the value of the key, or an empty one where there is none.
pub proof fn law_ordered_get(p: Env, room: int, st: GenV, om: OrderedMapRefV, args: Seq<ExprV>)
    ensures
        ({
            let (s1, k) = arg_code_spec(p, room, st, args, 0);
            let (s2, i) = fresh_spec(p, s1, "i"@);
            let (s3, got) = fresh_spec(p, s2, "get"@);
            let none = if om.val_ty.is_ptr { "NULL"@ } else { om.val_ty.base + "()"@ };
            ordered_map_call_spec(p, room, st, om, "get"@, args) == (
                said(
                    p,
                    s3,
                    seq![
                        decl_spelling_spec(om.val_ty) + " "@ + got + " = "@ + none + ";"@,
                        search_loop(om.keys, i, "0"@, k, got + " = "@ + om.vals + "["@ + i + "]; "@),
                    ],
                ),
                Some((got, om.val_ty)),
            )
        }),
{
    ordered_map_letters();
    reveal(ordered_map_call_spec);
    reveal(arg_code_spec);
    reveal(scan_keys_spec);
    let (s1, k) = arg_code_spec(p, room, st, args, 0);
    let (s2, i) = fresh_spec(p, s1, "i"@);
    let (s3, got) = fresh_spec(p, s2, "get"@);
    let none = if om.val_ty.is_ptr { "NULL"@ } else { om.val_ty.base + "()"@ };
    let found = got + " = "@ + om.vals + "["@ + i + "]; "@;
    loop_from_zero(om.keys, i, k, found);
    two_lines(p, s3, decl_spelling_spec(om.val_ty) + " "@ + got + " = "@ + none + ";"@, search_loop(om.keys, i, "0"@, k, found));
}

/// Asking an ordered map for a key: whether it is among the keys.
pub proof fn law_ordered_exists(p: Env, room: int, st: GenV, om: OrderedMapRefV, args: Seq<ExprV>)
    ensures
        ({
            let (s1, k) = arg_code_spec(p, room, st, args, 0);
            let (s2, i) = fresh_spec(p, s1, "i"@);
            let (s3, has) = fresh_spec(p, s2, "has"@);
            ordered_map_call_spec(p, room, st, om, "exists"@, args) == (
                said(p, s3, seq!["bool "@ + has + " = false;"@, search_loop(om.keys, i, "0"@, k, has + " = true; "@)]),
                Some((has, plain_ty_spec("bool"@))),
            )
        }),
        ordered_map_call_spec(p, room, st, om, "keys"@, args) == (
            st,
            Some((om.keys, plain_ty_spec("std::vector<"@ + decl_spelling_spec(om.key_ty) + " >"@))),
        ),
{
    ordered_map_letters();
    reveal(ordered_map_call_spec);
    reveal(arg_code_spec);
    reveal(scan_keys_spec);
    let (s1, k) = arg_code_spec(p, room, st, args, 0);
    let (s2, i) = fresh_spec(p, s1, "i"@);
    let (s3, has) = fresh_spec(p, s2, "has"@);
    loop_from_zero(om.keys, i, k, has + " = true; "@);
    two_lines(p, s3, "bool "@ + has + " = false;"@, search_loop(om.keys, i, "0"@, k, has + " = true; "@));
}

/// Storing in an ordered map: the value of a key that is there is replaced where it stands; a
/// new key goes to the end, with its value at the same place.
pub proof fn law_ordered_set(p: Env, room: int, st: GenV, om: OrderedMapRefV, args: Seq<ExprV>)
    ensures
        ({
            let (s1, k) = arg_code_spec(p, room, st, args, 0);
            let (s2, v) = arg_code_spec(p, room, s1, args, 1);
            let (s3, i) = fresh_spec(p, s2, "i"@);
            let (s4, found) = fresh_spec(p, s3, "found"@);
            ordered_map_call_spec(p, room, st, om, "set"@, args) == (
                said(
                    p,
                    s4,
                    seq![
                        "bool "@ + found + " = false;"@,
                        search_loop(om.keys, i, "0"@, k, om.vals + "["@ + i + "] = "@ + v + "; "@ + found + " = true; "@),
                        "if (!"@ + found + ") { "@ + om.keys + ".push_back("@ + k + "); "@ + om.vals + ".push_back("@ + v + "); }"@,
                    ],
                ),
                Some((Seq::<char>::empty(), no_ty_spec())),
            )
        }),
{
    ordered_map_letters();
    reveal(ordered_map_call_spec);
    reveal(arg_code_spec);
    reveal(scan_keys_spec);
    let (s1, k) = arg_code_spec(p, room, st, args, 0);
    let (s2, v) = arg_code_spec(p, room, s1, args, 1);
    let (s3, i) = fresh_spec(p, s2, "i"@);
    let (s4, found) = fresh_spec(p, s3, "found"@);
    let act = om.vals + "["@ + i + "] = "@ + v + "; "@ + found + " = true; "@;
    loop_from_zero(om.keys, i, k, act);
    three_lines(
        p,
        s4,
        "bool "@ + found + " = false;"@,
        search_loop(om.keys, i, "0"@, k, act),
        "if (!"@ + found + ") { "@ + om.keys + ".push_back("@ + k + "); "@ + om.vals + ".push_back("@ + v + "); }"@,
    );
}

/// Removing from an ordered map takes the key and the value at its place, and says whether it
/// was there.
pub proof fn law_ordered_remove(p: Env, room: int, st: GenV, om: OrderedMapRefV, args: Seq<ExprV>)
    ensures
        ({
            let (s1, k) = arg_code_spec(p, room, st, args, 0);
            let (s2, i) = fresh_spec(p, s1, "i"@);
            let (s3, rem) = fresh_spec(p, s2, "rem"@);
            ordered_map_call_spec(p, room, st, om, "remove"@, args) == (
                said(
                    p,
                    s3,
                    seq![
                        "bool "@ + rem + " = false;"@,
                        search_loop(
                            om.keys,
                            i,
                            "0"@,
                            k,
                            om.keys + ".erase("@ + om.keys + ".begin() + "@ + i + "); "@ + om.vals + ".erase("@ + om.vals + ".begin() + "@ + i + "); "@
                                + rem + " = true; "@,
                        ),
                    ],
                ),
                Some((rem, plain_ty_spec("bool"@))),
            )
        }),
{
    ordered_map_letters();
    reveal(ordered_map_call_spec);
    reveal(arg_code_spec);
    reveal(scan_keys_spec);
    let (s1, k) = arg_code_spec(p, room, st, args, 0);
    let (s2, i) = fresh_spec(p, s1, "i"@);
    let (s3, rem) = fresh_spec(p, s2, "rem"@);
    let act = om.keys + ".erase("@ + om.keys + ".begin() + "@ + i + "); "@ + om.vals + ".erase("@ + om.vals + ".begin() + "@ + i + "); "@ + rem
        + " = true; "@;
    loop_from_zero(om.keys, i, k, act);
    two_lines(p, s3, "bool "@ + rem + " = false;"@, search_loop(om.keys, i, "0"@, k, act));
}

/// A copy of an array is a vector of the same elements, and joined arrays are the first with the
/// elements of the second behind its own.
pub proof fn law_copied_arrays(p: Env, room: int, st: GenV, r: Seq<char>, rty: TyV, args: Seq<ExprV>)
    ensures
        array_call_spec(p, room, st, r, rty, "copy"@, args) == (st, Some((rty.base + "("@ + r + ")"@, rty))),
        ({
            let (s1, other) = arg_code_spec(p, room, st, args, 0);
            let (s2, i) = fresh_spec(p, s1, "i"@);
            let (s3, acc) = fresh_spec(p, s2, "cat"@);
            array_call_spec(p, room, st, r, rty, "concat"@, args) == (
                said(
                    p,
                    s3,
                    seq![
                        rty.base + " "@ + acc + " = "@ + r + ";"@,
                        "for (size_t "@ + i + " = 0; "@ + i + " < ("@ + other + ").size(); ++"@ + i + ") { "@ + acc + ".push_back(("@ + other + ")["@ + i
                            + "]); }"@,
                    ],
                ),
                Some((acc, rty)),
            )
        }),
{
    search_letters();
    reveal(array_call_spec);
    reveal(arg_code_spec);
    reveal(search_call_spec);
    let (s1, other) = arg_code_spec(p, room, st, args, 0);
    let (s2, i) = fresh_spec(p, s1, "i"@);
    let (s3, acc) = fresh_spec(p, s2, "cat"@);
    two_lines(
        p,
        s3,
        rty.base + " "@ + acc + " = "@ + r + ";"@,
        "for (size_t "@ + i + " = 0; "@ + i + " < ("@ + other + ").size(); ++"@ + i + ") { "@ + acc + ".push_back(("@ + other + ")["@ + i + "]); }"@,
    );
}

/// A search of an array says whether an element is there.
pub proof fn law_array_contains(p: Env, room: int, st: GenV, r: Seq<char>, args: Seq<ExprV>)
    ensures
        ({
            let (s1, x) = arg_code_spec(p, room, st, args, 0);
            let (s2, i) = fresh_spec(p, s1, "i"@);
            let (s3, has) = fresh_spec(p, s2, "has"@);
            search_call_spec(p, room, st, r, "contains"@, args) == (
                said(p, s3, seq!["bool "@ + has + " = false;"@, search_loop(r, i, "0"@, x, has + " = true; "@)]),
                Some((has, plain_ty_spec("bool"@))),
            )
        }),
{
    search_letters();
    reveal(search_call_spec);
    reveal(arg_code_spec);
    let (s1, x) = arg_code_spec(p, room, st, args, 0);
    let (s2, i) = fresh_spec(p, s1, "i"@);
    let (s3, has) = fresh_spec(p, s2, "has"@);
    found_and_left(r, i, x, has);
    two_lines(p, s3, "bool "@ + has + " = false;"@, search_loop(r, i, "0"@, x, has + " = true; "@));
}

proof fn found_and_left(r: Seq<char>, i: Seq<char>, x: Seq<char>, has: Seq<char>)
    ensures
        "for (size_t "@ + i + " = 0; "@ + i + " < "@ + r + ".size(); ++"@ + i + ") { if ("@ + r + "["@ + i + "] == "@ + x + ") { "@ + has
            + " = true; break; } }"@ == search_loop(r, i, "0"@, x, has + " = true; "@),
{
    reveal_strlit(" = true; break; } }");
    reveal_strlit(" = true; ");
    reveal_strlit("break; } }");
    assert(" = true; break; } }"@ =~= " = true; "@ + "break; } }"@);
    loop_from_zero(r, i, x, has + " = true; "@);
    let head = "for (size_t "@ + i + " = 0; "@ + i + " < "@ + r + ".size(); ++"@ + i + ") { if ("@ + r + "["@ + i + "] == "@ + x + ") { "@;
    assert(head + has + (" = true; "@ + "break; } }"@) =~= head + (has + " = true; "@) + "break; } }"@);
}

} // verus!
