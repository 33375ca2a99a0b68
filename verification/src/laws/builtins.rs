//! What the built-in functions and types of Haxe become.

use vstd::prelude::*;

use crate::codegen::args::{arg_at_spec, arg_code_spec};
use crate::codegen::container::{gen_inserted_spec, gen_stored_spec, growing_call_spec, map_call_spec, takes_empty_array_spec};
use crate::codegen::ctypes::builtin_cpp_spec;
use crate::codegen::gen::GenV;
use crate::codegen::helpers::{bool_ty_spec, float_ty_spec, int_ty_spec, no_ty_spec, plain_ty_spec, str_ty_spec};
use crate::codegen::intrinsic::{cstr_at_spec, intrinsic_call_spec, math_call_spec, math_function_spec, min_max_spec, std_call_spec};
use crate::codegen::state::{Env, fresh_spec};
use crate::codegen::strcall::{gen_case_spec, gen_string_arg_spec, simple_string_call_spec, string_call_spec};
use crate::codegen::strtools::{gen_affix_spec, gen_hex_spec, gen_trim_spec, string_tools_call_spec};
use crate::codegen::ty::TyV;
use crate::codegen::types::{decl_spelling_spec, element_ty_spec, map_value_ty_spec};
use crate::codegen::values::{elem_member_ty_spec, say_spec};
use crate::model::ExprV;

verus! {

broadcast use {crate::codegen::gen::group_gen, crate::codegen::ty::group_ty, crate::model::group_model, crate::text::group_texts};

proof fn math_letters()
    ensures
        "sqrt"@.len() == 4,
        "sqrt"@[0] == 's',
        "sqrt"@[1] == 'q',
        "sqrt"@[2] == 'r',
        "sqrt"@[3] == 't',
        "sin"@.len() == 3,
        "sin"@[0] == 's',
        "sin"@[1] == 'i',
        "sin"@[2] == 'n',
        "cos"@.len() == 3,
        "cos"@[0] == 'c',
        "cos"@[1] == 'o',
        "cos"@[2] == 's',
        "tan"@.len() == 3,
        "tan"@[0] == 't',
        "tan"@[1] == 'a',
        "tan"@[2] == 'n',
        "asin"@.len() == 4,
        "asin"@[0] == 'a',
        "asin"@[1] == 's',
        "asin"@[2] == 'i',
        "asin"@[3] == 'n',
        "acos"@.len() == 4,
        "acos"@[0] == 'a',
        "acos"@[1] == 'c',
        "acos"@[2] == 'o',
        "acos"@[3] == 's',
        "atan"@.len() == 4,
        "atan"@[0] == 'a',
        "atan"@[1] == 't',
        "atan"@[2] == 'a',
        "atan"@[3] == 'n',
        "exp"@.len() == 3,
        "exp"@[0] == 'e',
        "exp"@[1] == 'x',
        "exp"@[2] == 'p',
        "log"@.len() == 3,
        "log"@[0] == 'l',
        "log"@[1] == 'o',
        "log"@[2] == 'g',
        "ffloor"@.len() == 6,
        "ffloor"@[0] == 'f',
        "ffloor"@[1] == 'f',
        "ffloor"@[2] == 'l',
        "ffloor"@[3] == 'o',
        "ffloor"@[4] == 'o',
        "ffloor"@[5] == 'r',
        "fceil"@.len() == 5,
        "fceil"@[0] == 'f',
        "fceil"@[1] == 'c',
        "fceil"@[2] == 'e',
        "fceil"@[3] == 'i',
        "fceil"@[4] == 'l',
        "atan2"@.len() == 5,
        "atan2"@[0] == 'a',
        "atan2"@[1] == 't',
        "atan2"@[2] == 'a',
        "atan2"@[3] == 'n',
        "atan2"@[4] == '2',
        "pow"@.len() == 3,
        "pow"@[0] == 'p',
        "pow"@[1] == 'o',
        "pow"@[2] == 'w',
        "fround"@.len() == 6,
        "fround"@[0] == 'f',
        "fround"@[1] == 'r',
        "fround"@[2] == 'o',
        "fround"@[3] == 'u',
        "fround"@[4] == 'n',
        "fround"@[5] == 'd',
        "floor"@.len() == 5,
        "floor"@[0] == 'f',
        "floor"@[1] == 'l',
        "floor"@[2] == 'o',
        "floor"@[3] == 'o',
        "floor"@[4] == 'r',
        "ceil"@.len() == 4,
        "ceil"@[0] == 'c',
        "ceil"@[1] == 'e',
        "ceil"@[2] == 'i',
        "ceil"@[3] == 'l',
        "round"@.len() == 5,
        "round"@[0] == 'r',
        "round"@[1] == 'o',
        "round"@[2] == 'u',
        "round"@[3] == 'n',
        "round"@[4] == 'd',
        "abs"@.len() == 3,
        "abs"@[0] == 'a',
        "abs"@[1] == 'b',
        "abs"@[2] == 's',
        "min"@.len() == 3,
        "min"@[0] == 'm',
        "min"@[1] == 'i',
        "min"@[2] == 'n',
        "max"@.len() == 3,
        "max"@[0] == 'm',
        "max"@[1] == 'a',
        "max"@[2] == 'x',
        "random"@.len() == 6,
        "random"@[0] == 'r',
        "random"@[1] == 'a',
        "random"@[2] == 'n',
        "random"@[3] == 'd',
        "random"@[4] == 'o',
        "random"@[5] == 'm',
        "isNaN"@.len() == 5,
        "isNaN"@[0] == 'i',
        "isNaN"@[1] == 's',
        "isNaN"@[2] == 'N',
        "isNaN"@[3] == 'a',
        "isNaN"@[4] == 'N',
        "isFinite"@.len() == 8,
        "isFinite"@[0] == 'i',
        "isFinite"@[1] == 's',
        "isFinite"@[2] == 'F',
        "isFinite"@[3] == 'i',
        "isFinite"@[4] == 'n',
        "isFinite"@[5] == 'i',
        "isFinite"@[6] == 't',
        "isFinite"@[7] == 'e',
{
    reveal_strlit("sqrt");
    reveal_strlit("sin");
    reveal_strlit("cos");
    reveal_strlit("tan");
    reveal_strlit("asin");
    reveal_strlit("acos");
    reveal_strlit("atan");
    reveal_strlit("exp");
    reveal_strlit("log");
    reveal_strlit("ffloor");
    reveal_strlit("fceil");
    reveal_strlit("atan2");
    reveal_strlit("pow");
    reveal_strlit("fround");
    reveal_strlit("floor");
    reveal_strlit("ceil");
    reveal_strlit("round");
    reveal_strlit("abs");
    reveal_strlit("min");
    reveal_strlit("max");
    reveal_strlit("random");
    reveal_strlit("isNaN");
    reveal_strlit("isFinite");
}

proof fn object_letters()
    ensures
        "Math"@.len() == 4,
        "Math"@[0] == 'M',
        "Math"@[1] == 'a',
        "Math"@[2] == 't',
        "Math"@[3] == 'h',
        "Std"@.len() == 3,
        "Std"@[0] == 'S',
        "Std"@[1] == 't',
        "Std"@[2] == 'd',
        "StringTools"@.len() == 11,
        "StringTools"@[0] == 'S',
        "StringTools"@[1] == 't',
        "StringTools"@[2] == 'r',
        "StringTools"@[3] == 'i',
        "StringTools"@[4] == 'n',
        "StringTools"@[5] == 'g',
        "StringTools"@[6] == 'T',
        "StringTools"@[7] == 'o',
        "StringTools"@[8] == 'o',
        "StringTools"@[9] == 'l',
        "StringTools"@[10] == 's',
        "Sys"@.len() == 3,
        "Sys"@[0] == 'S',
        "Sys"@[1] == 'y',
        "Sys"@[2] == 's',
        "String"@.len() == 6,
        "String"@[0] == 'S',
        "String"@[1] == 't',
        "String"@[2] == 'r',
        "String"@[3] == 'i',
        "String"@[4] == 'n',
        "String"@[5] == 'g',
{
    reveal_strlit("Math");
    reveal_strlit("Std");
    reveal_strlit("StringTools");
    reveal_strlit("Sys");
    reveal_strlit("String");
}

proof fn std_letters()
    ensures
        "int"@.len() == 3,
        "int"@[0] == 'i',
        "int"@[1] == 'n',
        "int"@[2] == 't',
        "string"@.len() == 6,
        "string"@[0] == 's',
        "string"@[1] == 't',
        "string"@[2] == 'r',
        "string"@[3] == 'i',
        "string"@[4] == 'n',
        "string"@[5] == 'g',
        "parseInt"@.len() == 8,
        "parseInt"@[0] == 'p',
        "parseInt"@[1] == 'a',
        "parseInt"@[2] == 'r',
        "parseInt"@[3] == 's',
        "parseInt"@[4] == 'e',
        "parseInt"@[5] == 'I',
        "parseInt"@[6] == 'n',
        "parseInt"@[7] == 't',
        "parseFloat"@.len() == 10,
        "parseFloat"@[0] == 'p',
        "parseFloat"@[1] == 'a',
        "parseFloat"@[2] == 'r',
        "parseFloat"@[3] == 's',
        "parseFloat"@[4] == 'e',
        "parseFloat"@[5] == 'F',
        "parseFloat"@[6] == 'l',
        "parseFloat"@[7] == 'o',
        "parseFloat"@[8] == 'a',
        "parseFloat"@[9] == 't',
        "random"@.len() == 6,
        "random"@[0] == 'r',
        "random"@[1] == 'a',
        "random"@[2] == 'n',
        "random"@[3] == 'd',
        "random"@[4] == 'o',
        "random"@[5] == 'm',
{
    reveal_strlit("int");
    reveal_strlit("string");
    reveal_strlit("parseInt");
    reveal_strlit("parseFloat");
    reveal_strlit("random");
}

proof fn string_letters()
    ensures
        "toUpperCase"@.len() == 11,
        "toUpperCase"@[0] == 't',
        "toUpperCase"@[1] == 'o',
        "toUpperCase"@[2] == 'U',
        "toUpperCase"@[3] == 'p',
        "toUpperCase"@[4] == 'p',
        "toUpperCase"@[5] == 'e',
        "toUpperCase"@[6] == 'r',
        "toUpperCase"@[7] == 'C',
        "toUpperCase"@[8] == 'a',
        "toUpperCase"@[9] == 's',
        "toUpperCase"@[10] == 'e',
        "toLowerCase"@.len() == 11,
        "toLowerCase"@[0] == 't',
        "toLowerCase"@[1] == 'o',
        "toLowerCase"@[2] == 'L',
        "toLowerCase"@[3] == 'o',
        "toLowerCase"@[4] == 'w',
        "toLowerCase"@[5] == 'e',
        "toLowerCase"@[6] == 'r',
        "toLowerCase"@[7] == 'C',
        "toLowerCase"@[8] == 'a',
        "toLowerCase"@[9] == 's',
        "toLowerCase"@[10] == 'e',
        "split"@.len() == 5,
        "split"@[0] == 's',
        "split"@[1] == 'p',
        "split"@[2] == 'l',
        "split"@[3] == 'i',
        "split"@[4] == 't',
        "substr"@.len() == 6,
        "substr"@[0] == 's',
        "substr"@[1] == 'u',
        "substr"@[2] == 'b',
        "substr"@[3] == 's',
        "substr"@[4] == 't',
        "substr"@[5] == 'r',
        "substring"@.len() == 9,
        "substring"@[0] == 's',
        "substring"@[1] == 'u',
        "substring"@[2] == 'b',
        "substring"@[3] == 's',
        "substring"@[4] == 't',
        "substring"@[5] == 'r',
        "substring"@[6] == 'i',
        "substring"@[7] == 'n',
        "substring"@[8] == 'g',
        "toString"@.len() == 8,
        "toString"@[0] == 't',
        "toString"@[1] == 'o',
        "toString"@[2] == 'S',
        "toString"@[3] == 't',
        "toString"@[4] == 'r',
        "toString"@[5] == 'i',
        "toString"@[6] == 'n',
        "toString"@[7] == 'g',
        "charAt"@.len() == 6,
        "charAt"@[0] == 'c',
        "charAt"@[1] == 'h',
        "charAt"@[2] == 'a',
        "charAt"@[3] == 'r',
        "charAt"@[4] == 'A',
        "charAt"@[5] == 't',
        "indexOf"@.len() == 7,
        "indexOf"@[0] == 'i',
        "indexOf"@[1] == 'n',
        "indexOf"@[2] == 'd',
        "indexOf"@[3] == 'e',
        "indexOf"@[4] == 'x',
        "indexOf"@[5] == 'O',
        "indexOf"@[6] == 'f',
        "lastIndexOf"@.len() == 11,
        "lastIndexOf"@[0] == 'l',
        "lastIndexOf"@[1] == 'a',
        "lastIndexOf"@[2] == 's',
        "lastIndexOf"@[3] == 't',
        "lastIndexOf"@[4] == 'I',
        "lastIndexOf"@[5] == 'n',
        "lastIndexOf"@[6] == 'd',
        "lastIndexOf"@[7] == 'e',
        "lastIndexOf"@[8] == 'x',
        "lastIndexOf"@[9] == 'O',
        "lastIndexOf"@[10] == 'f',
        "charCodeAt"@.len() == 10,
        "charCodeAt"@[0] == 'c',
        "charCodeAt"@[1] == 'h',
        "charCodeAt"@[2] == 'a',
        "charCodeAt"@[3] == 'r',
        "charCodeAt"@[4] == 'C',
        "charCodeAt"@[5] == 'o',
        "charCodeAt"@[6] == 'd',
        "charCodeAt"@[7] == 'e',
        "charCodeAt"@[8] == 'A',
        "charCodeAt"@[9] == 't',
        "add"@.len() == 3,
        "add"@[0] == 'a',
        "add"@[1] == 'd',
        "add"@[2] == 'd',
        "addChar"@.len() == 7,
        "addChar"@[0] == 'a',
        "addChar"@[1] == 'd',
        "addChar"@[2] == 'd',
        "addChar"@[3] == 'C',
        "addChar"@[4] == 'h',
        "addChar"@[5] == 'a',
        "addChar"@[6] == 'r',
{
    reveal_strlit("toUpperCase");
    reveal_strlit("toLowerCase");
    reveal_strlit("split");
    reveal_strlit("substr");
    reveal_strlit("substring");
    reveal_strlit("toString");
    reveal_strlit("charAt");
    reveal_strlit("indexOf");
    reveal_strlit("lastIndexOf");
    reveal_strlit("charCodeAt");
    reveal_strlit("add");
    reveal_strlit("addChar");
}

proof fn tool_letters()
    ensures
        "trim"@.len() == 4,
        "trim"@[0] == 't',
        "trim"@[1] == 'r',
        "trim"@[2] == 'i',
        "trim"@[3] == 'm',
        "ltrim"@.len() == 5,
        "ltrim"@[0] == 'l',
        "ltrim"@[1] == 't',
        "ltrim"@[2] == 'r',
        "ltrim"@[3] == 'i',
        "ltrim"@[4] == 'm',
        "rtrim"@.len() == 5,
        "rtrim"@[0] == 'r',
        "rtrim"@[1] == 't',
        "rtrim"@[2] == 'r',
        "rtrim"@[3] == 'i',
        "rtrim"@[4] == 'm',
        "startsWith"@.len() == 10,
        "startsWith"@[0] == 's',
        "startsWith"@[1] == 't',
        "startsWith"@[2] == 'a',
        "startsWith"@[3] == 'r',
        "startsWith"@[4] == 't',
        "startsWith"@[5] == 's',
        "startsWith"@[6] == 'W',
        "startsWith"@[7] == 'i',
        "startsWith"@[8] == 't',
        "startsWith"@[9] == 'h',
        "endsWith"@.len() == 8,
        "endsWith"@[0] == 'e',
        "endsWith"@[1] == 'n',
        "endsWith"@[2] == 'd',
        "endsWith"@[3] == 's',
        "endsWith"@[4] == 'W',
        "endsWith"@[5] == 'i',
        "endsWith"@[6] == 't',
        "endsWith"@[7] == 'h',
        "hex"@.len() == 3,
        "hex"@[0] == 'h',
        "hex"@[1] == 'e',
        "hex"@[2] == 'x',
        "replace"@.len() == 7,
        "replace"@[0] == 'r',
        "replace"@[1] == 'e',
        "replace"@[2] == 'p',
        "replace"@[3] == 'l',
        "replace"@[4] == 'a',
        "replace"@[5] == 'c',
        "replace"@[6] == 'e',
        "cpuTime"@.len() == 7,
        "cpuTime"@[0] == 'c',
        "cpuTime"@[1] == 'p',
        "cpuTime"@[2] == 'u',
        "cpuTime"@[3] == 'T',
        "cpuTime"@[4] == 'i',
        "cpuTime"@[5] == 'm',
        "cpuTime"@[6] == 'e',
        "fromCharCode"@.len() == 12,
        "fromCharCode"@[0] == 'f',
        "fromCharCode"@[1] == 'r',
        "fromCharCode"@[2] == 'o',
        "fromCharCode"@[3] == 'm',
        "fromCharCode"@[4] == 'C',
        "fromCharCode"@[5] == 'h',
        "fromCharCode"@[6] == 'a',
        "fromCharCode"@[7] == 'r',
        "fromCharCode"@[8] == 'C',
        "fromCharCode"@[9] == 'o',
        "fromCharCode"@[10] == 'd',
        "fromCharCode"@[11] == 'e',
{
    reveal_strlit("trim");
    reveal_strlit("ltrim");
    reveal_strlit("rtrim");
    reveal_strlit("startsWith");
    reveal_strlit("endsWith");
    reveal_strlit("hex");
    reveal_strlit("replace");
    reveal_strlit("cpuTime");
    reveal_strlit("fromCharCode");
}

proof fn map_letters()
    ensures
        "get"@.len() == 3,
        "get"@[0] == 'g',
        "get"@[1] == 'e',
        "get"@[2] == 't',
        "exists"@.len() == 6,
        "exists"@[0] == 'e',
        "exists"@[1] == 'x',
        "exists"@[2] == 'i',
        "exists"@[3] == 's',
        "exists"@[4] == 't',
        "exists"@[5] == 's',
        "set"@.len() == 3,
        "set"@[0] == 's',
        "set"@[1] == 'e',
        "set"@[2] == 't',
        "remove"@.len() == 6,
        "remove"@[0] == 'r',
        "remove"@[1] == 'e',
        "remove"@[2] == 'm',
        "remove"@[3] == 'o',
        "remove"@[4] == 'v',
        "remove"@[5] == 'e',
        "keys"@.len() == 4,
        "keys"@[0] == 'k',
        "keys"@[1] == 'e',
        "keys"@[2] == 'y',
        "keys"@[3] == 's',
{
    reveal_strlit("get");
    reveal_strlit("exists");
    reveal_strlit("set");
    reveal_strlit("remove");
    reveal_strlit("keys");
}

proof fn array_letters()
    ensures
        "push"@.len() == 4,
        "push"@[0] == 'p',
        "push"@[1] == 'u',
        "push"@[2] == 's',
        "push"@[3] == 'h',
        "insert"@.len() == 6,
        "insert"@[0] == 'i',
        "insert"@[1] == 'n',
        "insert"@[2] == 's',
        "insert"@[3] == 'e',
        "insert"@[4] == 'r',
        "insert"@[5] == 't',
        "unshift"@.len() == 7,
        "unshift"@[0] == 'u',
        "unshift"@[1] == 'n',
        "unshift"@[2] == 's',
        "unshift"@[3] == 'h',
        "unshift"@[4] == 'i',
        "unshift"@[5] == 'f',
        "unshift"@[6] == 't',
        "pop"@.len() == 3,
        "pop"@[0] == 'p',
        "pop"@[1] == 'o',
        "pop"@[2] == 'p',
        "shift"@.len() == 5,
        "shift"@[0] == 's',
        "shift"@[1] == 'h',
        "shift"@[2] == 'i',
        "shift"@[3] == 'f',
        "shift"@[4] == 't',
{
    reveal_strlit("push");
    reveal_strlit("insert");
    reveal_strlit("unshift");
    reveal_strlit("pop");
    reveal_strlit("shift");
}

proof fn type_letters()
    ensures
        "Int"@.len() == 3,
        "Int"@[0] == 'I',
        "Int"@[1] == 'n',
        "Int"@[2] == 't',
        "UInt"@.len() == 4,
        "UInt"@[0] == 'U',
        "UInt"@[1] == 'I',
        "UInt"@[2] == 'n',
        "UInt"@[3] == 't',
        "Float"@.len() == 5,
        "Float"@[0] == 'F',
        "Float"@[1] == 'l',
        "Float"@[2] == 'o',
        "Float"@[3] == 'a',
        "Float"@[4] == 't',
        "Float64"@.len() == 7,
        "Float64"@[0] == 'F',
        "Float64"@[1] == 'l',
        "Float64"@[2] == 'o',
        "Float64"@[3] == 'a',
        "Float64"@[4] == 't',
        "Float64"@[5] == '6',
        "Float64"@[6] == '4',
        "Bool"@.len() == 4,
        "Bool"@[0] == 'B',
        "Bool"@[1] == 'o',
        "Bool"@[2] == 'o',
        "Bool"@[3] == 'l',
        "String"@.len() == 6,
        "String"@[0] == 'S',
        "String"@[1] == 't',
        "String"@[2] == 'r',
        "String"@[3] == 'i',
        "String"@[4] == 'n',
        "String"@[5] == 'g',
        "StdString"@.len() == 9,
        "StdString"@[0] == 'S',
        "StdString"@[1] == 't',
        "StdString"@[2] == 'd',
        "StdString"@[3] == 'S',
        "StdString"@[4] == 't',
        "StdString"@[5] == 'r',
        "StdString"@[6] == 'i',
        "StdString"@[7] == 'n',
        "StdString"@[8] == 'g',
        "StringBuf"@.len() == 9,
        "StringBuf"@[0] == 'S',
        "StringBuf"@[1] == 't',
        "StringBuf"@[2] == 'r',
        "StringBuf"@[3] == 'i',
        "StringBuf"@[4] == 'n',
        "StringBuf"@[5] == 'g',
        "StringBuf"@[6] == 'B',
        "StringBuf"@[7] == 'u',
        "StringBuf"@[8] == 'f',
        "Void"@.len() == 4,
        "Void"@[0] == 'V',
        "Void"@[1] == 'o',
        "Void"@[2] == 'i',
        "Void"@[3] == 'd',
        "Dynamic"@.len() == 7,
        "Dynamic"@[0] == 'D',
        "Dynamic"@[1] == 'y',
        "Dynamic"@[2] == 'n',
        "Dynamic"@[3] == 'a',
        "Dynamic"@[4] == 'm',
        "Dynamic"@[5] == 'i',
        "Dynamic"@[6] == 'c',
        "Any"@.len() == 3,
        "Any"@[0] == 'A',
        "Any"@[1] == 'n',
        "Any"@[2] == 'y',
        "Float32"@.len() == 7,
        "Float32"@[0] == 'F',
        "Float32"@[1] == 'l',
        "Float32"@[2] == 'o',
        "Float32"@[3] == 'a',
        "Float32"@[4] == 't',
        "Float32"@[5] == '3',
        "Float32"@[6] == '2',
        "Single"@.len() == 6,
        "Single"@[0] == 'S',
        "Single"@[1] == 'i',
        "Single"@[2] == 'n',
        "Single"@[3] == 'g',
        "Single"@[4] == 'l',
        "Single"@[5] == 'e',
        "UInt8"@.len() == 5,
        "UInt8"@[0] == 'U',
        "UInt8"@[1] == 'I',
        "UInt8"@[2] == 'n',
        "UInt8"@[3] == 't',
        "UInt8"@[4] == '8',
        "UInt16"@.len() == 6,
        "UInt16"@[0] == 'U',
        "UInt16"@[1] == 'I',
        "UInt16"@[2] == 'n',
        "UInt16"@[3] == 't',
        "UInt16"@[4] == '1',
        "UInt16"@[5] == '6',
        "UInt32"@.len() == 6,
        "UInt32"@[0] == 'U',
        "UInt32"@[1] == 'I',
        "UInt32"@[2] == 'n',
        "UInt32"@[3] == 't',
        "UInt32"@[4] == '3',
        "UInt32"@[5] == '2',
        "Int8"@.len() == 4,
        "Int8"@[0] == 'I',
        "Int8"@[1] == 'n',
        "Int8"@[2] == 't',
        "Int8"@[3] == '8',
        "Char"@.len() == 4,
        "Char"@[0] == 'C',
        "Char"@[1] == 'h',
        "Char"@[2] == 'a',
        "Char"@[3] == 'r',
        "Int16"@.len() == 5,
        "Int16"@[0] == 'I',
        "Int16"@[1] == 'n',
        "Int16"@[2] == 't',
        "Int16"@[3] == '1',
        "Int16"@[4] == '6',
        "Int32"@.len() == 5,
        "Int32"@[0] == 'I',
        "Int32"@[1] == 'n',
        "Int32"@[2] == 't',
        "Int32"@[3] == '3',
        "Int32"@[4] == '2',
        "ConstCharStar"@.len() == 13,
        "ConstCharStar"@[0] == 'C',
        "ConstCharStar"@[1] == 'o',
        "ConstCharStar"@[2] == 'n',
        "ConstCharStar"@[3] == 's',
        "ConstCharStar"@[4] == 't',
        "ConstCharStar"@[5] == 'C',
        "ConstCharStar"@[6] == 'h',
        "ConstCharStar"@[7] == 'a',
        "ConstCharStar"@[8] == 'r',
        "ConstCharStar"@[9] == 'S',
        "ConstCharStar"@[10] == 't',
        "ConstCharStar"@[11] == 'a',
        "ConstCharStar"@[12] == 'r',
{
    reveal_strlit("Int");
    reveal_strlit("UInt");
    reveal_strlit("Float");
    reveal_strlit("Float64");
    reveal_strlit("Bool");
    reveal_strlit("String");
    reveal_strlit("StdString");
    reveal_strlit("StringBuf");
    reveal_strlit("Void");
    reveal_strlit("Dynamic");
    reveal_strlit("Any");
    reveal_strlit("Float32");
    reveal_strlit("Single");
    reveal_strlit("UInt8");
    reveal_strlit("UInt16");
    reveal_strlit("UInt32");
    reveal_strlit("Int8");
    reveal_strlit("Char");
    reveal_strlit("Int16");
    reveal_strlit("Int32");
    reveal_strlit("ConstCharStar");
}

/// The functions of `Math` that C has too keep their names: `f(a)`.
pub proof fn law_math_functions(p: Env, room: int, st: GenV, f: Seq<char>, args: Seq<ExprV>)
    requires
        f == "sqrt"@ || f == "sin"@ || f == "cos"@ || f == "tan"@ || f == "asin"@ || f == "acos"@ || f == "atan"@ || f == "exp"@ || f == "log"@,
    ensures
        ({ let (s1, a) = arg_code_spec(p, room, st, args, 0); intrinsic_call_spec(p, room, st, "Math"@, f, args) == (s1, Some((f + "("@ + a + ")"@, plain_ty_spec("double"@)))) }),
{
    math_letters();
    object_letters();
    reveal(intrinsic_call_spec);
    reveal(math_call_spec);
    reveal(math_function_spec);
    reveal(float_ty_spec);
}

/// The ones that give a float for a rounded number are C's; those that give an integer cast it.
/// Rounding is the floor of the number and a half.
pub proof fn law_rounding(p: Env, room: int, st: GenV, args: Seq<ExprV>)
    ensures
        ({ let (s1, a) = arg_code_spec(p, room, st, args, 0); intrinsic_call_spec(p, room, st, "Math"@, "ffloor"@, args) == (s1, Some(("floor"@ + "("@ + a + ")"@, plain_ty_spec("double"@)))) }),
        ({ let (s1, a) = arg_code_spec(p, room, st, args, 0); intrinsic_call_spec(p, room, st, "Math"@, "fceil"@, args) == (s1, Some(("ceil"@ + "("@ + a + ")"@, plain_ty_spec("double"@)))) }),
        ({ let (s1, a) = arg_code_spec(p, room, st, args, 0); intrinsic_call_spec(p, room, st, "Math"@, "fround"@, args) == (s1, Some(("floor(("@ + a + ") + 0.5)"@, plain_ty_spec("double"@)))) }),
        ({ let (s1, a) = arg_code_spec(p, room, st, args, 0); intrinsic_call_spec(p, room, st, "Math"@, "floor"@, args) == (s1, Some(("((int)"@ + "floor"@ + "("@ + a + "))"@, plain_ty_spec("int"@)))) }),
        ({ let (s1, a) = arg_code_spec(p, room, st, args, 0); intrinsic_call_spec(p, room, st, "Math"@, "ceil"@, args) == (s1, Some(("((int)"@ + "ceil"@ + "("@ + a + "))"@, plain_ty_spec("int"@)))) }),
        ({ let (s1, a) = arg_code_spec(p, room, st, args, 0); intrinsic_call_spec(p, room, st, "Math"@, "round"@, args) == (s1, Some(("((int)floor(("@ + a + ") + 0.5))"@, plain_ty_spec("int"@)))) }),
{
    math_letters();
    object_letters();
    reveal(intrinsic_call_spec);
    reveal(math_call_spec);
    reveal(math_function_spec);
    reveal(float_ty_spec);
    reveal(int_ty_spec);
}

/// The functions of two numbers take them in the order of the call.
/// The lesser is chosen by `<` and the greater by `>`; where the first is not a number it is the result.
pub proof fn law_math_of_two(p: Env, room: int, st: GenV, args: Seq<ExprV>)
    ensures
        ({ let (s1, a) = arg_code_spec(p, room, st, args, 0); let (s2, b) = arg_code_spec(p, room, s1, args, 1); intrinsic_call_spec(p, room, st, "Math"@, "atan2"@, args) == (s2, Some(("atan2"@ + "("@ + a + ", "@ + b + ")"@, plain_ty_spec("double"@)))) }),
        ({ let (s1, a) = arg_code_spec(p, room, st, args, 0); let (s2, b) = arg_code_spec(p, room, s1, args, 1); intrinsic_call_spec(p, room, st, "Math"@, "pow"@, args) == (s2, Some(("pow"@ + "("@ + a + ", "@ + b + ")"@, plain_ty_spec("double"@)))) }),
        ({ let (s1, a) = arg_code_spec(p, room, st, args, 0); let (s2, b) = arg_code_spec(p, room, s1, args, 1); intrinsic_call_spec(p, room, st, "Math"@, "min"@, args) == (s2, Some(("(("@ + a + ") "@ + "<"@ + " ("@ + b + ") ? ("@ + a + ") : (("@ + a + ") == ("@ + a + ") ? ("@ + b + ") : ("@ + a + ")))"@, plain_ty_spec("double"@)))) }),
        ({ let (s1, a) = arg_code_spec(p, room, st, args, 0); let (s2, b) = arg_code_spec(p, room, s1, args, 1); intrinsic_call_spec(p, room, st, "Math"@, "max"@, args) == (s2, Some(("(("@ + a + ") "@ + ">"@ + " ("@ + b + ") ? ("@ + a + ") : (("@ + a + ") == ("@ + a + ") ? ("@ + b + ") : ("@ + a + ")))"@, plain_ty_spec("double"@)))) }),
{
    math_letters();
    object_letters();
    reveal(intrinsic_call_spec);
    reveal(math_call_spec);
    reveal(math_function_spec);
    reveal(min_max_spec);
    reveal(float_ty_spec);
}

/// A number is no number when it differs from itself, and finite when it times zero is zero.
/// A random number is at least zero and less than one.
pub proof fn law_math_tests(p: Env, room: int, st: GenV, args: Seq<ExprV>)
    ensures
        ({ let (s1, a) = arg_code_spec(p, room, st, args, 0); intrinsic_call_spec(p, room, st, "Math"@, "isNaN"@, args) == (s1, Some(("(("@ + a + ") != ("@ + a + "))"@, plain_ty_spec("bool"@)))) }),
        ({ let (s1, a) = arg_code_spec(p, room, st, args, 0); intrinsic_call_spec(p, room, st, "Math"@, "isFinite"@, args) == (s1, Some(("((("@ + a + ") * 0.0) == 0.0)"@, plain_ty_spec("bool"@)))) }),
        intrinsic_call_spec(p, room, st, "Math"@, "random"@, args) == (st, Some(("(rand() / (RAND_MAX + 1.0))"@, plain_ty_spec("double"@)))),
{
    math_letters();
    object_letters();
    reveal(intrinsic_call_spec);
    reveal(math_call_spec);
    reveal(math_function_spec);
    reveal(float_ty_spec);
    reveal(bool_ty_spec);
}

/// The size of a number is `fabs` of a `double` or a `float` and `abs` of any other, and has its type.
pub proof fn law_absolute_value(p: Env, room: int, st: GenV, args: Seq<ExprV>)
    ensures
        ({ let (s1, v) = arg_at_spec(p, room, st, args, 0); let f = if v.1.base == "double"@ || v.1.base == "float"@ { "fabs"@ } else { "abs"@ }; intrinsic_call_spec(p, room, st, "Math"@, "abs"@, args) == (s1, Some((f + "("@ + v.0 + ")"@, v.1))) }),
{
    math_letters();
    object_letters();
    reveal(intrinsic_call_spec);
    reveal(math_call_spec);
    reveal(math_function_spec);
}

/// The conversions of `Std`: a number to an integer by a cast, a text to a number by C's functions.
/// A random integer is below the bound, and zero for a bound that is not positive.
pub proof fn law_std_functions(p: Env, room: int, st: GenV, args: Seq<ExprV>)
    ensures
        ({ let (s1, a) = arg_code_spec(p, room, st, args, 0); intrinsic_call_spec(p, room, st, "Std"@, "int"@, args) == (s1, Some(("(int)("@ + a + ")"@, plain_ty_spec("int"@)))) }),
        ({ let (s1, a) = cstr_at_spec(p, room, st, args, 0); intrinsic_call_spec(p, room, st, "Std"@, "parseInt"@, args) == (s1, Some(("(int)strtol("@ + a + ", NULL, 0)"@, plain_ty_spec("int"@)))) }),
        ({ let (s1, a) = cstr_at_spec(p, room, st, args, 0); intrinsic_call_spec(p, room, st, "Std"@, "parseFloat"@, args) == (s1, Some(("atof("@ + a + ")"@, plain_ty_spec("double"@)))) }),
        ({ let (s1, a) = arg_code_spec(p, room, st, args, 0); intrinsic_call_spec(p, room, st, "Std"@, "random"@, args) == (s1, Some(("(((int)("@ + a + ")) > 0 ? (rand() % (int)("@ + a + ")) : 0)"@, plain_ty_spec("int"@)))) }),
{
    std_letters();
    object_letters();
    reveal(intrinsic_call_spec);
    reveal(std_call_spec);
    reveal(float_ty_spec);
    reveal(int_ty_spec);
}

/// Processor time is in seconds, and a character code makes a text of one character.
pub proof fn law_time_and_characters(p: Env, room: int, st: GenV, args: Seq<ExprV>)
    ensures
        intrinsic_call_spec(p, room, st, "Sys"@, "cpuTime"@, args) == (st, Some(("((double) clock() / (double) CLOCKS_PER_SEC)"@, plain_ty_spec("double"@)))),
        ({ let (s1, a) = arg_code_spec(p, room, st, args, 0); intrinsic_call_spec(p, room, st, "String"@, "fromCharCode"@, args) == (s1, Some(("std::string(1, (char)(("@ + a + ") & 0xFF))"@, plain_ty_spec("std::string"@)))) }),
{
    tool_letters();
    object_letters();
    reveal(intrinsic_call_spec);
    reveal(float_ty_spec);
    reveal(str_ty_spec);
}

/// Looking into a text: a character, its code, and where another text stands first, first from a place on, or last.
pub proof fn law_looking_into_texts(p: Env, room: int, st: GenV, r: Seq<char>, args: Seq<ExprV>)
    ensures
        string_call_spec(p, room, st, r, "toString"@, args) == (st, Some((r, plain_ty_spec("std::string"@)))),
        ({ let (s1, a) = arg_code_spec(p, room, st, args, 0); string_call_spec(p, room, st, r, "charAt"@, args) == (s1, Some((r + ".substr("@ + a + ", 1)"@, plain_ty_spec("std::string"@)))) }),
        ({ let (s1, a) = arg_code_spec(p, room, st, args, 0); string_call_spec(p, room, st, r, "charCodeAt"@, args) == (s1, Some(("((int)(unsigned char)"@ + r + ".at("@ + a + "))"@, plain_ty_spec("int"@)))) }),
        args.len() <= 1 ==> ({ let (s1, a) = arg_code_spec(p, room, st, args, 0); string_call_spec(p, room, st, r, "indexOf"@, args) == (s1, Some(("((int)"@ + r + ".find("@ + a + "))"@, plain_ty_spec("int"@)))) }),
        args.len() > 1 ==> ({ let (s1, a) = arg_code_spec(p, room, st, args, 0); let (s2, b) = arg_code_spec(p, room, s1, args, 1); string_call_spec(p, room, st, r, "indexOf"@, args) == (s2, Some(("((int)"@ + r + ".find("@ + a + ", "@ + b + "))"@, plain_ty_spec("int"@)))) }),
        args.len() <= 1 ==> ({ let (s1, a) = arg_code_spec(p, room, st, args, 0); string_call_spec(p, room, st, r, "lastIndexOf"@, args) == (s1, Some(("((int)"@ + r + ".rfind("@ + a + "))"@, plain_ty_spec("int"@)))) }),
{
    string_letters();
    reveal(string_call_spec);
    reveal(simple_string_call_spec);
    reveal(str_ty_spec);
    reveal(int_ty_spec);
    reveal(no_ty_spec);
}

/// A buffer grows at its end by a text, or by the character of a code.
pub proof fn law_buffer_grows(p: Env, room: int, st: GenV, r: Seq<char>, args: Seq<ExprV>)
    ensures
        ({ let (s1, a) = gen_string_arg_spec(p, room, st, args, 0); string_call_spec(p, room, st, r, "add"@, args) == (s1, Some((r + " += "@ + a, no_ty_spec()))) }),
        ({ let (s1, a) = arg_code_spec(p, room, st, args, 0); string_call_spec(p, room, st, r, "addChar"@, args) == (s1, Some((r + " += (char)("@ + a + ")"@, no_ty_spec()))) }),
{
    string_letters();
    reveal(string_call_spec);
    reveal(simple_string_call_spec);
    reveal(str_ty_spec);
    reveal(int_ty_spec);
    reveal(no_ty_spec);
}

/// The state once the lines stand in front of the code at hand, in their order.
pub open spec fn said(p: Env, st: GenV, lines: Seq<Seq<char>>) -> GenV
    decreases lines.len(),
{
    if lines.len() == 0 {
        st
    } else {
        say_spec(p, said(p, st, lines.drop_last()), lines.last())
    }
}

/// The loop that turns the characters from one to another into those of the other case.
pub open spec fn case_loop(acc: Seq<char>, i: Seq<char>, lo: Seq<char>, hi: Seq<char>, delta: Seq<char>) -> Seq<char> {
    "for (size_t "@ + i + " = 0; "@ + i + " < "@ + acc + ".size(); ++"@ + i + ") { if ("@ + acc + "["@ + i + "] >= '"@ + lo + "' && "@ + acc + "["@ + i + "] <= '"@ + hi + "') "@ + acc + "["@ + i + "] = (char)("@ + acc + "["@ + i + "] "@ + delta + "); }"@
}

/// Upper case moves the letters `a` to `z` of a copy, lower case the letters `A` to `Z`; the rest stays.
pub proof fn law_letter_case(p: Env, room: int, st: GenV, r: Seq<char>, args: Seq<ExprV>)
    ensures
        ({ let (s1, acc) = fresh_spec(p, st, "case"@); let (s2, i) = fresh_spec(p, s1, "i"@); string_call_spec(p, room, st, r, "toUpperCase"@, args) == (said(p, s2, seq!["std::string "@ + acc + " = "@ + r + ";"@, case_loop(acc, i, "a"@, "z"@, "- 'a' + 'A'"@)]), Some((acc, plain_ty_spec("std::string"@)))) }),
        ({ let (s1, acc) = fresh_spec(p, st, "case"@); let (s2, i) = fresh_spec(p, s1, "i"@); string_call_spec(p, room, st, r, "toLowerCase"@, args) == (said(p, s2, seq!["std::string "@ + acc + " = "@ + r + ";"@, case_loop(acc, i, "A"@, "Z"@, "- 'A' + 'a'"@)]), Some((acc, plain_ty_spec("std::string"@)))) }),
{
    string_letters();
    reveal(string_call_spec);
    reveal(simple_string_call_spec);
    reveal(str_ty_spec);
    reveal(int_ty_spec);
    reveal(no_ty_spec);
    reveal(gen_case_spec);
    reveal_with_fuel(said, 3);
}

/// The test that a character is a blank.
pub open spec fn blank_test(c: Seq<char>) -> Seq<char> {
    "("@ + c + " == ' ' || "@ + c + " == '\\t' || "@ + c + " == '\\n' || "@ + c + " == '\\r')"@
}

/// The loops that move the two ends of a text inwards over blanks.
pub open spec fn trim_loops(front: bool, back: bool, acc: Seq<char>, a: Seq<char>, b: Seq<char>) -> Seq<Seq<char>> {
    (if front {
        seq!["while ("@ + a + " < "@ + b + " && "@ + blank_test(acc + "["@ + a + "]"@) + ") ++"@ + a + ";"@]
    } else {
        Seq::empty()
    }) + (if back {
        seq!["while ("@ + b + " > "@ + a + " && "@ + blank_test(acc + "["@ + b + " - 1]"@) + ") --"@ + b + ";"@]
    } else {
        Seq::empty()
    })
}

proof fn said_more(p: Env, st: GenV, a: Seq<Seq<char>>, l: Seq<char>)
    ensures
        said(p, st, a + seq![l]) == say_spec(p, said(p, st, a), l),
        a.push(l) == a + seq![l],
{
    assert((a + seq![l]).drop_last() =~= a);
}

/// `trim` takes the blanks off both ends of a text, `ltrim` off its front alone, `rtrim` off its back alone.
pub proof fn law_trimmed_ends(p: Env, room: int, st: GenV, method: Seq<char>, args: Seq<ExprV>)
    requires
        method == "trim"@ || method == "ltrim"@ || method == "rtrim"@,
    ensures
        ({
            let (s1, s) = arg_code_spec(p, room, st, args, 0);
            let (s2, acc) = fresh_spec(p, s1, "trm"@);
            let (s3, a) = fresh_spec(p, s2, "a"@);
            let (s4, b) = fresh_spec(p, s3, "b"@);
            let (s5, res) = fresh_spec(p, s4, "res"@);
            let lines = seq!["std::string "@ + acc + " = "@ + s + ";"@, "size_t "@ + a + " = 0; size_t "@ + b + " = "@ + acc + ".size();"@]
                + trim_loops(method != "rtrim"@, method != "ltrim"@, acc, a, b)
                + seq!["std::string "@ + res + " = "@ + acc + ".substr("@ + a + ", "@ + b + " - "@ + a + ");"@];
            intrinsic_call_spec(p, room, st, "StringTools"@, method, args) == (said(p, s5, lines), Some((res, plain_ty_spec("std::string"@))))
        }),
{
    tool_letters();
    object_letters();
    reveal(intrinsic_call_spec);
    reveal(string_tools_call_spec);
    reveal(gen_trim_spec);
    reveal(str_ty_spec);
    let (s1, s) = arg_code_spec(p, room, st, args, 0);
    let (s2, acc) = fresh_spec(p, s1, "trm"@);
    let (s3, a) = fresh_spec(p, s2, "a"@);
    let (s4, b) = fresh_spec(p, s3, "b"@);
    let (s5, res) = fresh_spec(p, s4, "res"@);
    let lo = acc + "["@ + a + "]"@;
    let hi = acc + "["@ + b + " - 1]"@;
    let l1 = "std::string "@ + acc + " = "@ + s + ";"@;
    let l2 = "size_t "@ + a + " = 0; size_t "@ + b + " = "@ + acc + ".size();"@;
    let l3 = "while ("@ + a + " < "@ + b + " && "@ + blank_test(lo) + ") ++"@ + a + ";"@;
    let l4 = "while ("@ + b + " > "@ + a + " && "@ + blank_test(hi) + ") --"@ + b + ";"@;
    let l5 = "std::string "@ + res + " = "@ + acc + ".substr("@ + a + ", "@ + b + " - "@ + a + ");"@;
    split_words();
    blank_in(a, b, lo, " < "@, ") ++"@, a);
    blank_in(b, a, hi, " > "@, ") --"@, b);
    let none = Seq::<Seq<char>>::empty();
    said_more(p, s5, none, l1);
    said_more(p, s5, none + seq![l1], l2);
    let two = none + seq![l1] + seq![l2];
    assert(two =~= seq![l1, l2]);
    let loops = trim_loops(method != "rtrim"@, method != "ltrim"@, acc, a, b);
    if method == "rtrim"@ {
        said_more(p, s5, two, l4);
        assert(two + loops =~= two + seq![l4]);
    } else if method == "ltrim"@ {
        said_more(p, s5, two, l3);
        assert(two + loops =~= two + seq![l3]);
    } else {
        said_more(p, s5, two, l3);
        said_more(p, s5, two + seq![l3], l4);
        assert(two + loops =~= two + seq![l3] + seq![l4]);
    }
    said_more(p, s5, two + loops, l5);
}

proof fn blank_in(a: Seq<char>, b: Seq<char>, c: Seq<char>, op: Seq<char>, step: Seq<char>, v: Seq<char>)
    ensures
        "while ("@ + a + op + b + " && "@ + blank_test(c) + step + v + ";"@
            =~= "while ("@ + a + op + b + (" && "@ + "("@) + c + " == ' ' || "@ + c + " == '\\t' || "@ + c + " == '\\n' || "@ + c + (" == '\\r')"@ + step) + v + ";"@,
{
}

proof fn split_words()
    ensures
        " && ("@ == " && "@ + "("@,
        " == '\\r')) ++"@ == " == '\\r')"@ + ") ++"@,
        " == '\\r')) --"@ == " == '\\r')"@ + ") --"@,
{
    reveal_strlit(" && (");
    reveal_strlit(" && ");
    reveal_strlit("(");
    reveal_strlit(" == '\\r')) ++");
    reveal_strlit(" == '\\r')) --");
    reveal_strlit(" == '\\r')");
    reveal_strlit(") ++");
    reveal_strlit(") --");
}

/// A text starts with another when that stands at its very front, and ends with it when that stands as far from the end as it is long.
pub proof fn law_affixes(p: Env, room: int, st: GenV, args: Seq<ExprV>)
    ensures
        ({ let (s1, s) = arg_code_spec(p, room, st, args, 0); let (s2, t) = arg_code_spec(p, room, s1, args, 1); let (s3, sv) = fresh_spec(p, s2, "s"@); let (s4, tv) = fresh_spec(p, s3, "sub"@); let (s5, res) = fresh_spec(p, s4, "res"@); intrinsic_call_spec(p, room, st, "StringTools"@, "startsWith"@, args) == (said(p, s5, seq!["std::string "@ + sv + " = "@ + s + ";"@, "std::string "@ + tv + " = "@ + t + ";"@, "bool "@ + res + " = ("@ + sv + ".size() >= "@ + tv + ".size() && "@ + sv + ".compare("@ + "0"@ + ", "@ + tv + ".size(), "@ + tv + ") == 0);"@]), Some((res, plain_ty_spec("bool"@)))) }),
        ({ let (s1, s) = arg_code_spec(p, room, st, args, 0); let (s2, t) = arg_code_spec(p, room, s1, args, 1); let (s3, sv) = fresh_spec(p, s2, "s"@); let (s4, tv) = fresh_spec(p, s3, "sub"@); let (s5, res) = fresh_spec(p, s4, "res"@); intrinsic_call_spec(p, room, st, "StringTools"@, "endsWith"@, args) == (said(p, s5, seq!["std::string "@ + sv + " = "@ + s + ";"@, "std::string "@ + tv + " = "@ + t + ";"@, "bool "@ + res + " = ("@ + sv + ".size() >= "@ + tv + ".size() && "@ + sv + ".compare("@ + (sv + ".size() - "@ + tv + ".size()"@) + ", "@ + tv + ".size(), "@ + tv + ") == 0);"@]), Some((res, plain_ty_spec("bool"@)))) }),
{
    tool_letters();
    object_letters();
    reveal(intrinsic_call_spec);
    reveal(string_tools_call_spec);
    reveal(gen_affix_spec);
    reveal(bool_ty_spec);
    reveal_with_fuel(said, 4);
}

/// A number in hexadecimal digits: as many as it has, or no fewer than asked.
pub proof fn law_hexadecimal(p: Env, room: int, st: GenV, args: Seq<ExprV>)
    ensures
        args.len() <= 1 ==> ({ let (s1, n) = arg_code_spec(p, room, st, args, 0); let (s2, buf) = fresh_spec(p, s1, "hex"@); let (s3, res) = fresh_spec(p, s2, "res"@); intrinsic_call_spec(p, room, st, "StringTools"@, "hex"@, args) == (said(p, s3, seq!["char "@ + buf + "[32];"@, "sprintf("@ + buf + ", \"%X\", (unsigned int)("@ + n + "));"@, "std::string "@ + res + " = "@ + buf + ";"@]), Some((res, plain_ty_spec("std::string"@)))) }),
        args.len() > 1 ==> ({ let (s1, n) = arg_code_spec(p, room, st, args, 0); let (s2, buf) = fresh_spec(p, s1, "hex"@); let (s3, res) = fresh_spec(p, s2, "res"@); let (s4, d) = arg_code_spec(p, room, s3, args, 1); intrinsic_call_spec(p, room, st, "StringTools"@, "hex"@, args) == (said(p, s4, seq!["char "@ + buf + "[32];"@, "sprintf("@ + buf + ", \"%0*X\", (int)("@ + d + "), (unsigned int)("@ + n + "));"@, "std::string "@ + res + " = "@ + buf + ";"@]), Some((res, plain_ty_spec("std::string"@)))) }),
{
    tool_letters();
    object_letters();
    reveal(intrinsic_call_spec);
    reveal(string_tools_call_spec);
    reveal(gen_hex_spec);
    reveal(str_ty_spec);
    reveal_with_fuel(said, 4);
}

/// What a map is asked for goes by the key, the first argument: its value, whether it has one, and whether one was removed.
/// Storing takes the value from the second.
pub proof fn law_map_functions(p: Env, room: int, st: GenV, r: Seq<char>, rty: TyV, args: Seq<ExprV>)
    ensures
        ({ let (s1, k) = arg_code_spec(p, room, st, args, 0); map_call_spec(p, room, st, r, rty, "get"@, args) == (s1, Some((r + "["@ + k + "]"@, map_value_ty_spec(p, s1, rty)))) }),
        ({ let (s1, k) = arg_code_spec(p, room, st, args, 0); map_call_spec(p, room, st, r, rty, "exists"@, args) == (s1, Some(("("@ + r + ".find("@ + k + ") != "@ + r + ".end())"@, plain_ty_spec("bool"@)))) }),
        ({ let (s1, k) = arg_code_spec(p, room, st, args, 0); let (s2, v) = arg_code_spec(p, room, s1, args, 1); map_call_spec(p, room, st, r, rty, "set"@, args) == (s2, Some((r + "["@ + k + "] = "@ + v, no_ty_spec()))) }),
        ({ let (s1, k) = arg_code_spec(p, room, st, args, 0); map_call_spec(p, room, st, r, rty, "remove"@, args) == (s1, Some(("("@ + r + ".erase("@ + k + ") != 0)"@, plain_ty_spec("bool"@)))) }),
{
    map_letters();
    reveal(map_call_spec);
    reveal(bool_ty_spec);
    reveal(no_ty_spec);
}

/// An array grows at its end by `push`, at its front by `unshift` and where asked by `insert`.
/// It shrinks at its end by `pop` and at its front by `shift`, whose value is read before it goes.
pub proof fn law_array_ends(p: Env, room: int, st: GenV, r: Seq<char>, rty: TyV, args: Seq<ExprV>)
    ensures
        !takes_empty_array_spec(args) ==> ({ let (s1, a) = gen_stored_spec(p, room, st, args, elem_member_ty_spec(p, st, rty)); growing_call_spec(p, room, st, r, rty, "push"@, args) == (s1, Some((r + ".push_back("@ + a + ")"@, no_ty_spec()))) }),
        ({ let (s1, a) = gen_stored_spec(p, room, st, args, elem_member_ty_spec(p, st, rty)); growing_call_spec(p, room, st, r, rty, "unshift"@, args) == (s1, Some((r + ".insert("@ + r + ".begin(), "@ + a + ")"@, no_ty_spec()))) }),
        ({ let (s1, i) = arg_code_spec(p, room, st, args, 0); let (s2, a) = gen_inserted_spec(p, room, s1, args, elem_member_ty_spec(p, s1, rty)); growing_call_spec(p, room, st, r, rty, "insert"@, args) == (s2, Some((r + ".insert("@ + r + ".begin() + "@ + i + ", "@ + a + ")"@, no_ty_spec()))) }),
        ({ let e = element_ty_spec(p, st, rty); let (s1, t) = fresh_spec(p, st, "pop"@); let s2 = say_spec(p, s1, decl_spelling_spec(e) + " "@ + t + " = "@ + r + ".back();"@); growing_call_spec(p, room, st, r, rty, "pop"@, args) == (say_spec(p, s2, r + ".pop_back();"@), Some((t, e))) }),
        ({ let e = element_ty_spec(p, st, rty); let (s1, t) = fresh_spec(p, st, "shift"@); let s2 = say_spec(p, s1, decl_spelling_spec(e) + " "@ + t + " = "@ + r + ".front();"@); growing_call_spec(p, room, st, r, rty, "shift"@, args) == (say_spec(p, s2, r + ".erase("@ + r + ".begin());"@), Some((t, e))) }),
{
    array_letters();
    reveal(growing_call_spec);
    reveal(no_ty_spec);
}

/// The types that C++ has: each by its own name, and no other.
pub proof fn law_builtin_types(name: Seq<char>)
    ensures
        builtin_cpp_spec("Int"@) == Some("int"@),
        builtin_cpp_spec("Int32"@) == Some("int"@),
        builtin_cpp_spec("UInt"@) == Some("unsigned int"@),
        builtin_cpp_spec("Float"@) == Some("double"@),
        builtin_cpp_spec("Float64"@) == Some("double"@),
        builtin_cpp_spec("Float32"@) == Some("float"@),
        builtin_cpp_spec("Single"@) == Some("float"@),
        builtin_cpp_spec("Bool"@) == Some("bool"@),
        builtin_cpp_spec("String"@) == Some("std::string"@),
        builtin_cpp_spec("StdString"@) == Some("std::string"@),
        builtin_cpp_spec("StringBuf"@) == Some("std::string"@),
        builtin_cpp_spec("Void"@) == Some("void"@),
        builtin_cpp_spec("Dynamic"@) == Some("void*"@),
        builtin_cpp_spec("Any"@) == Some("void*"@),
        builtin_cpp_spec("UInt8"@) == Some("uint8_t"@),
        builtin_cpp_spec("UInt16"@) == Some("uint16_t"@),
        builtin_cpp_spec("UInt32"@) == Some("uint32_t"@),
        builtin_cpp_spec("Int8"@) == Some("char"@),
        builtin_cpp_spec("Char"@) == Some("char"@),
        builtin_cpp_spec("Int16"@) == Some("short"@),
        builtin_cpp_spec("ConstCharStar"@) == Some("const char*"@),
        builtin_cpp_spec(name) is Some ==> name == "Int"@ || name == "Int32"@ || name == "UInt"@ || name == "Float"@ || name == "Float64"@ || name == "Float32"@ || name == "Single"@ || name == "Bool"@ || name == "String"@ || name == "StdString"@ || name == "StringBuf"@ || name == "Void"@ || name == "Dynamic"@ || name == "Any"@ || name == "UInt8"@ || name == "UInt16"@ || name == "UInt32"@ || name == "Int8"@ || name == "Char"@ || name == "Int16"@ || name == "ConstCharStar"@,
{
    type_letters();
    reveal(builtin_cpp_spec);
}

} // verus!
