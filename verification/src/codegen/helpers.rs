//! Pieces of generation that need no state: types, operators, literals and texts.

use vstd::prelude::*;

use crate::ast::{BinOp, Class, Expr, Field, Param, PropAccess, Type, UnOp};
use crate::codegen::ty::{Ty, TyV};
use crate::lexer::{at, at_spec, cut, cut_spec};
use crate::model::{ClassV, ExprV, FieldV, ParamV, TypeV, params_v};
use crate::parser::pp::{trim, trim_spec};
use crate::parser::types::{meta_has, meta_has_spec};
use crate::program::{TypeInfo, TypeInfoV};
use crate::resolve::{last_is, last_is_spec};
use crate::strings::{before, before_spec, cap, cap_spec, find_char, find_char_spec, split, split_once, split_once_spec, split_spec, starts_with};
use crate::text::{cat2, cat3, chars_of, empty, same, texts};

verus! {

broadcast use {crate::codegen::ty::group_ty, crate::model::group_model, crate::program::group_program, crate::text::group_texts};

/// A type known by its spelling alone.
pub fn plain_ty(base: &str) -> (r: Ty)
    ensures
        r.v() == plain_ty_spec(base@),
{
    Ty { base: base.to_owned(), is_ptr: false, info: None, nullable: false, unsigned: false, iter: None }
}

/// A type of which nothing is known.
pub fn no_ty() -> (r: Ty)
    ensures
        r.v() == no_ty_spec(),
{
    plain_ty("")
}

/// A type with what it resolves to.
pub fn info_ty(base: &str, is_ptr: bool, info: Option<TypeInfo>) -> (r: Ty)
    ensures
        r.v() == info_ty_spec(base@, is_ptr, (match info { Some(y) => Some(y.v()), None => None })),
{
    Ty { base: base.to_owned(), is_ptr, info, nullable: false, unsigned: false, iter: None }
}

/// `cpp.Float32`: a 32-bit C++ `float`.
pub fn float32_ty() -> (r: Ty)
    ensures
        r.v() == float32_ty_spec(),
{
    plain_ty("float")
}

/// Haxe `Float`: a C++ `double`.
pub fn float_ty() -> (r: Ty)
    ensures
        r.v() == float_ty_spec(),
{
    plain_ty("double")
}

/// The type `int`.
pub fn int_ty() -> (r: Ty)
    ensures
        r.v() == int_ty_spec(),
{
    plain_ty("int")
}

/// The type `bool`.
pub fn bool_ty() -> (r: Ty)
    ensures
        r.v() == bool_ty_spec(),
{
    plain_ty("bool")
}

/// The type `std::string`.
pub fn str_ty() -> (r: Ty)
    ensures
        r.v() == str_ty_spec(),
{
    plain_ty("std::string")
}

/// A Haxe `Int` backed by an unsigned C++ `size_t` (`.length`).
pub fn size_ty() -> (r: Ty)
    ensures
        r.v() == size_ty_spec(),
{
    Ty { base: "int".to_owned(), is_ptr: false, info: None, nullable: false, unsigned: true, iter: None }
}

/// The same type as a pointer or as a value.
pub fn with_ptr(t: &Ty, is_ptr: bool) -> (r: Ty)
    ensures
        r.v() == with_ptr_spec(t.v(), is_ptr),
{
    let mut r = t.dup();
    r.is_ptr = is_ptr;
    r
}

/// Whether a type is a known integer scalar.
pub fn is_int_ty(ty: &Ty) -> (r: bool)
    ensures
        r == is_int_ty_spec(ty.v()),
{
    proof {
        reveal(is_int_ty_spec);
    }
    !ty.is_ptr && (same(&ty.base, "int") || same(&ty.base, "unsigned int") || same(&ty.base, "uint8_t")
        || same(&ty.base, "uint16_t") || same(&ty.base, "uint32_t") || same(&ty.base, "char")
        || same(&ty.base, "short") || same(&ty.base, "long"))
}

/// Whether a type is a floating scalar.
pub fn is_float_base(ty: &Ty) -> (r: bool)
    ensures
        r == is_float_base_spec(ty.v()),
{
    proof {
        reveal(is_float_base_spec);
    }
    !ty.is_ptr && (same(&ty.base, "float") || same(&ty.base, "double"))
}

/// Whether a type is a built-in arithmetic scalar: an integer, a floating scalar or `bool`.
pub fn is_arith_scalar(ty: &Ty) -> (r: bool)
    ensures
        r == is_arith_scalar_spec(ty.v()),
{
    proof {
        reveal(is_arith_scalar_spec);
    }
    is_int_ty(ty) || is_float_base(ty) || (!ty.is_ptr && same(&ty.base, "bool"))
}

/// Whether an operand is a plain signed C++ `int`.
pub fn is_signed_int(ty: &Ty) -> (r: bool)
    ensures
        r == is_signed_int_spec(ty.v()),
{
    proof {
        reveal(is_signed_int_spec);
    }
    !ty.is_ptr && !ty.unsigned && same(&ty.base, "int")
}

/// Whether a type is a vector.
pub fn is_vector_ty(ty: &Ty) -> (r: bool)
    ensures
        r == is_vector_ty_spec(ty.v()),
{
    proof {
        reveal(is_vector_ty_spec);
    }
    starts_with(&ty.base, "std::vector")
}

/// Whether a type is a map.
pub fn rcode_is_map(ty: &Ty) -> (r: bool)
    ensures
        r == rcode_is_map_spec(ty.v()),
{
    proof {
        reveal(rcode_is_map_spec);
    }
    starts_with(&ty.base, "std::map")
}

/// Whether a type is a vector or a map.
pub fn is_container_ty(ty: &Ty) -> (r: bool)
    ensures
        r == is_container_ty_spec(ty.v()),
{
    proof {
        reveal(is_container_ty_spec);
    }
    is_vector_ty(ty) || rcode_is_map(ty)
}

/// Whether a type is a string held by value.
pub fn is_value_string(ty: &Ty) -> (r: bool)
    ensures
        r == is_value_string_spec(ty.v()),
{
    proof {
        reveal(is_value_string_spec);
    }
    !ty.is_ptr && same(&ty.base, "std::string")
}

/// A mixed signed/unsigned comparison made explicit: whichever side is a signed `int` when
/// the other is an unsigned size is cast to `size_t`; otherwise nothing changes.
pub fn cast_signed_for_unsigned(a: &str, aty: &Ty, b: &str, bty: &Ty) -> (r: (String, String))
    ensures
        (r.0@, r.1@) == cast_signed_for_unsigned_spec(a@, aty.v(), b@, bty.v()),
{
    proof {
        reveal(cast_signed_for_unsigned_spec);
    }
    if aty.unsigned && is_signed_int(bty) {
        (a.to_owned(), cat3("(size_t)(", b, ")"))
    } else if bty.unsigned && is_signed_int(aty) {
        (cat3("(size_t)(", a, ")"), b.to_owned())
    } else {
        (a.to_owned(), b.to_owned())
    }
}

/// The C++ binary operator. `>>>` is lowered through an unsigned cast before.
pub fn binop(op: BinOp) -> (r: String)
    ensures
        r@ == binop_spec(op),
{
    proof {
        reveal(binop_spec);
    }
    match op {
        BinOp::Add => "+".to_owned(),
        BinOp::Sub => "-".to_owned(),
        BinOp::Mul => "*".to_owned(),
        BinOp::Div => "/".to_owned(),
        BinOp::Mod => "%".to_owned(),
        BinOp::Eq => "==".to_owned(),
        BinOp::Ne => "!=".to_owned(),
        BinOp::Lt => "<".to_owned(),
        BinOp::Gt => ">".to_owned(),
        BinOp::Le => "<=".to_owned(),
        BinOp::Ge => ">=".to_owned(),
        BinOp::And => "&&".to_owned(),
        BinOp::Or => "||".to_owned(),
        BinOp::BitAnd => "&".to_owned(),
        BinOp::BitOr => "|".to_owned(),
        BinOp::BitXor => "^".to_owned(),
        BinOp::Shl => "<<".to_owned(),
        BinOp::Shr => ">>".to_owned(),
        BinOp::UShr => ">>".to_owned(),
    }
}

/// The spelling of a unary operator.
pub fn unop(op: UnOp) -> (r: String)
    ensures
        r@ == unop_spec(op),
{
    proof {
        reveal(unop_spec);
    }
    match op {
        UnOp::Neg => "-".to_owned(),
        UnOp::Not => "!".to_owned(),
        UnOp::BitNot => "~".to_owned(),
        UnOp::Incr => "++".to_owned(),
        UnOp::Decr => "--".to_owned(),
    }
}

/// Whether an operator compares two values.
pub fn is_comparison(op: BinOp) -> (r: bool)
    ensures
        r == is_comparison_spec(op),
{
    match op {
        BinOp::Eq | BinOp::Ne | BinOp::Lt | BinOp::Gt | BinOp::Le | BinOp::Ge => true,
        _ => false,
    }
}

/// Whether an operator yields a truth value.
pub fn is_boolean_op(op: BinOp) -> (r: bool)
    ensures
        r == is_boolean_op_spec(op),
{
    match op {
        BinOp::And | BinOp::Or => true,
        _ => is_comparison(op),
    }
}

/// Whether an operator is arithmetic.
pub fn is_arithmetic_op(op: BinOp) -> (r: bool)
    ensures
        r == is_arithmetic_op_spec(op),
{
    match op {
        BinOp::Add | BinOp::Sub | BinOp::Mul | BinOp::Div | BinOp::Mod => true,
        _ => false,
    }
}

/// The type of a binary expression. Arithmetic promotes to Float when either operand is
/// one.
pub fn binop_result_ty(op: BinOp, lhs: &Ty, rhs: &Ty) -> (r: Ty)
    ensures
        r.v() == binop_result_ty_spec(op, lhs.v(), rhs.v()),
{
    proof {
        reveal(binop_result_ty_spec);
    }
    if is_boolean_op(op) {
        return bool_ty();
    }
    if op == BinOp::UShr {
        return int_ty();
    }
    if is_arithmetic_op(op) && (is_float_base(lhs) || is_float_base(rhs)) {
        return float_ty();
    }
    lhs.dup()
}

/// Intrinsic constant fields of `Math`. There is no portable C++98 NaN constant: inf − inf
/// is NaN. `M_PI` is not standard C++98 either, so the literal stands.
pub fn intrinsic_field(obj: &str, name: &str) -> (r: Option<(String, Ty)>)
    ensures
        (match r { Some(y) => Some((y.0@, y.1.v())), None => None }) == intrinsic_field_spec(obj@, name@),
{
    proof {
        reveal(intrinsic_field_spec);
    }
    if !same(obj, "Math") {
        return None;
    }
    if same(name, "POSITIVE_INFINITY") {
        Some(("HUGE_VAL".to_owned(), float_ty()))
    } else if same(name, "NEGATIVE_INFINITY") {
        Some(("(-HUGE_VAL)".to_owned(), float_ty()))
    } else if same(name, "NaN") {
        Some(("(HUGE_VAL - HUGE_VAL)".to_owned(), float_ty()))
    } else if same(name, "PI") {
        Some(("3.141592653589793".to_owned(), float_ty()))
    } else {
        None
    }
}

/// Whether `new T(...)` lowers to a C++ value: a container or a string.
pub fn is_value_new(ty: &Type) -> (r: bool)
    ensures
        r == is_value_new_spec(ty.v()),
{
    proof {
        reveal(is_value_new_spec);
    }
    match ty.node() {
        Type::Named { path, params: _, optional: _, line: _ } => {
            last_is(path, "Array") || last_is(path, "Map") || last_is(path, "String") || last_is(path, "StringBuf")
        },
        _ => false,
    }
}

/// Is this declared type an explicit `Null<T>`?
pub fn is_null_type(ty: &Option<Type>) -> (r: bool)
    ensures
        r == is_null_type_spec((match ty { Some(y) => Some(y.v()), None => None })),
{
    proof {
        reveal(is_null_type_spec);
    }
    match ty {
        Some(t) => match t.node() {
            Type::Named { path, params, optional: _, line: _ } => last_is(path, "Null") && params.len() == 1,
            _ => false,
        },
        None => false,
    }
}

/// Container methods that mutate their receiver.
pub fn is_mutating_container_method(method: &str) -> (r: bool)
    ensures
        r == is_mutating_container_method_spec(method@),
{
    proof {
        reveal(is_mutating_container_method_spec);
    }
    same(method, "push") || same(method, "insert") || same(method, "pop") || same(method, "shift")
        || same(method, "unshift") || same(method, "remove") || same(method, "reverse") || same(method, "sort")
        || same(method, "set")
}

/// The variant name the callee of a destructuring pattern names.
pub fn call_pattern_variant(callee: &Expr) -> (r: String)
    ensures
        r@ == call_pattern_variant_spec(callee.v()),
{
    proof {
        reveal(call_pattern_variant_spec);
    }
    match callee.node() {
        Expr::Ident(n) => n.clone(),
        Expr::Field(_, n) => n.clone(),
        _ => String::new(),
    }
}

/// The method an external read of a property routes through: the user's `get_x` for a
/// custom getter, or the generated `GetX` when reads are open but the backing field is
/// hidden.
pub fn getter_method(f: &Field) -> (r: Option<String>)
    ensures
        (match r { Some(y) => Some(y@), None => None }) == getter_method_spec(f.v()),
{
    proof {
        reveal(getter_method_spec);
    }
    if f.get == PropAccess::Get {
        return Some(cat2("get_", &f.name));
    }
    if f.get == PropAccess::Default && f.set != PropAccess::Default {
        return Some(cat2("Get", &cap(&f.name)));
    }
    None
}

/// The receiver and the key of a `map.get(k)` call.
pub fn map_get_init<'a>(init: &'a Option<Expr>) -> (r: Option<(&'a Expr, &'a Expr)>)
    ensures
        (match r { Some(y) => Some((y.0.v(), y.1.v())), None => None }) == map_get_init_spec((match init { Some(y) => Some(y.v()), None => None })),
{
    proof {
        reveal(map_get_init_spec);
    }
    match init {
        Some(e) => match e.node() {
            Expr::Call(target, args) => match target.node() {
                Expr::Field(map_expr, method) => {
                    if same(method, "get") && args.len() == 1 {
                        Some((map_expr, &args[0]))
                    } else {
                        None
                    }
                },
                _ => None,
            },
            _ => None,
        },
        None => None,
    }
}

/// A class without a name or members, for functions outside any class.
pub fn empty_class() -> (r: Class)
    ensures
        r.v() == empty_class_spec(),
{
    Class {
        name: String::new(),
        line: 0,
        type_params: Vec::new(),
        extends: None,
        implements: Vec::new(),
        is_extern: false,
        is_final: false,
        is_abstract: false,
        abstract_underlying: None,
        meta: Vec::new(),
        fields: Vec::new(),
        methods: Vec::new(),
        ctor: None,
    }
}

/// A type by its dotted name alone.
pub fn type_from_name(name: &str) -> (r: Type)
    ensures
        r.v() == type_from_name_spec(name@),
{
    Type::Named { path: split(name, '.'), params: Vec::new(), optional: false, line: 0 }
}

/// Per-position `@sink` flags of a parameter list, from the one at `i` on.
pub fn sink_flags_from(params: &Vec<Param>, i: usize, out: Vec<bool>) -> (r: Vec<bool>)
    ensures
        r@ == sink_flags_from_spec(params_v(params@), (i as int), out@),
{
    let ghost i_0 = i;
    let ghost out_0 = out;
    let mut i: usize = i;
    let mut out: Vec<bool> = out;
    #[verifier::loop_isolation(false)]
    loop
        invariant
            sink_flags_from_spec(params_v(params@), (i_0 as int), out_0@) == sink_flags_from_spec(params_v(params@), (i as int), out@),
        decreases params.len() - i,
    {
        if i >= params.len() {
            return out;
        }
        out.push(meta_has(&params[i].meta, "sink"));
        i = i + 1;
    }
}

/// Per-position `@sink` flags of a parameter list: the callee consumes what is passed there.
pub fn param_sink_flags(params: &Vec<Param>) -> (r: Vec<bool>)
    ensures
        r@ == param_sink_flags_spec(params_v(params@)),
{
    proof {
        reveal(param_sink_flags_spec);
    }
    sink_flags_from(params, 0, Vec::new())
}

/// Whether a character opens a bracket.
pub fn opens(c: char) -> (r: bool)
    ensures
        r == opens_spec(c),
{
    c == '<' || c == '(' || c == '['
}

/// Whether a character closes a bracket.
pub fn closes(c: char) -> (r: bool)
    ensures
        r == closes_spec(c),
{
    c == '>' || c == ')' || c == ']'
}

/// Whether the character at `i` closes a bracket; the `>` of an arrow does not.
pub fn closes_at(cs: &Vec<char>, i: usize) -> (r: bool)
    ensures
        r == closes_at_spec(cs@, (i as int)),
{
    closes(at(cs, i, 0)) && !(i > 0 && at(cs, i, 0) == '>' && at(cs, i - 1, 0) == '-')
}

/// The pieces of the text from `start` on between top-level commas; `<…>`, `(…)` and
/// `[…]` nest.
pub fn split_commas_from(cs: &Vec<char>, start: usize, i: usize, up: usize, down: usize, out: Vec<String>) -> (r: Vec<String>)
    requires
        i <= cs.len(),
        up <= i,
        down <= i,
    ensures
        texts(r@) == split_commas_from_spec(cs@, (start as int), (i as int), (up as int), (down as int), texts(out@)),
{
    let ghost start_0 = start;
    let ghost i_0 = i;
    let ghost up_0 = up;
    let ghost down_0 = down;
    let ghost out_0 = out;
    let mut start: usize = start;
    let mut i: usize = i;
    let mut up: usize = up;
    let mut down: usize = down;
    let mut out: Vec<String> = out;
    #[verifier::loop_isolation(false)]
    loop
        invariant
            split_commas_from_spec(cs@, (start_0 as int), (i_0 as int), (up_0 as int), (down_0 as int), texts(out_0@)) == split_commas_from_spec(cs@, (start as int), (i as int), (up as int), (down as int), texts(out@)),
            i <= cs.len(),
            up <= i,
            down <= i,
        decreases cs.len() - i,
    {
        if i >= cs.len() {
            out.push(cut(cs, start, cs.len()));
            return out;
        }
        let c = at(cs, i, 0);
        if opens(c) {
            up = up + 1;
        } else if closes_at(cs, i) {
            down = down + 1;
        } else if c == ',' && up == down {
            out.push(cut(cs, start, i));
            start = i + 1;
        }
        i = i + 1;
    }
}

/// The pieces of a text between its top-level commas.
pub fn split_top_commas(s: &str) -> (r: Vec<String>)
    ensures
        texts(r@) == split_top_commas_spec(s@),
{
    proof {
        reveal(split_top_commas_spec);
    }
    split_commas_from(&chars_of(s), 0, 0, 0, 0, Vec::new())
}

/// Where the first comma outside `<…>` stands from `i` on.
pub fn top_comma_from(cs: &Vec<char>, i: usize, up: usize, down: usize) -> (r: Option<usize>)
    requires
        i <= cs.len(),
        up <= i,
        down <= i,
    ensures
        (match r { Some(y) => Some((y as int)), None => None }) == top_comma_from_spec(cs@, (i as int), (up as int), (down as int)),
        r matches Some(k) ==> k < cs.len(),
{
    let ghost i_0 = i;
    let ghost up_0 = up;
    let ghost down_0 = down;
    let mut i: usize = i;
    let mut up: usize = up;
    let mut down: usize = down;
    #[verifier::loop_isolation(false)]
    loop
        invariant
            top_comma_from_spec(cs@, (i_0 as int), (up_0 as int), (down_0 as int)) == top_comma_from_spec(cs@, (i as int), (up as int), (down as int)),
            i <= cs.len(),
            up <= i,
            down <= i,
        decreases cs.len() - i,
    {
        if i >= cs.len() {
            return None;
        }
        let c = at(cs, i, 0);
        if c == '<' {
            up = up + 1;
        } else if c == '>' {
            down = down + 1;
        } else if c == ',' && up == down {
            return Some(i);
        }
        i = i + 1;
    }
}

/// A generic-argument list split on its top-level comma.
pub fn split_top_comma(s: &str) -> (r: Option<(String, String)>)
    ensures
        (match r { Some(y) => Some((y.0@, y.1@)), None => None }) == split_top_comma_spec(s@),
{
    proof {
        reveal(split_top_comma_spec);
    }
    let cs = chars_of(s);
    match top_comma_from(&cs, 0, 0, 0) {
        Some(k) => Some((cut(&cs, 0, k), cut(&cs, k + 1, cs.len()))),
        None => None,
    }
}

/// Where the `)` that matches the first `(` from `i` on stands.
pub fn close_paren(cs: &Vec<char>, i: usize, depth: usize) -> (r: Option<usize>)
    requires
        i <= cs.len(),
        depth <= i,
    ensures
        (match r { Some(y) => Some((y as int)), None => None }) == close_paren_spec(cs@, (i as int), (depth as int)),
        r matches Some(k) ==> i <= k < cs.len(),
{
    let ghost i_0 = i;
    let ghost depth_0 = depth;
    let mut i: usize = i;
    let mut depth: usize = depth;
    #[verifier::loop_isolation(false)]
    loop
        invariant
            close_paren_spec(cs@, (i_0 as int), (depth_0 as int)) == close_paren_spec(cs@, (i as int), (depth as int)),
            i_0 <= i <= cs.len(),
            depth <= i,
        decreases cs.len() - i,
    {
        if i >= cs.len() {
            return None;
        }
        let c = at(cs, i, 0);
        if c == '(' {
            depth = depth + 1;
        } else if c == ')' {
            if depth == 1 {
                return Some(i);
            }
            if depth > 0 {
                depth = depth - 1;
            }
        }
        i = i + 1;
    }
}

/// The types named by the pieces `name:Type` from the one at `i` on, skipping empty pieces.
pub fn piece_types(ps: &Vec<String>, i: usize, out: Vec<String>) -> (r: Vec<String>)
    ensures
        texts(r@) == piece_types_spec(texts(ps@), (i as int), texts(out@)),
{
    let ghost i_0 = i;
    let ghost out_0 = out;
    let mut i: usize = i;
    let mut out: Vec<String> = out;
    #[verifier::loop_isolation(false)]
    loop
        invariant
            piece_types_spec(texts(ps@), (i_0 as int), texts(out_0@)) == piece_types_spec(texts(ps@), (i as int), texts(out@)),
        decreases ps.len() - i,
    {
        if i >= ps.len() {
            return out;
        }
        let p = trim(&ps[i]);
        if !empty(&p) {
            match split_once(&p, ":") {
                Some((_, t)) => {
                    out.push(trim(&t));
                },
                None => {
                    out.push(String::new());
                },
            }
        }
        i = i + 1;
    }
}

/// One `@:overload(function(p:T, …):R {})` signature: its parameter type names and its
/// return type name. `None` if it does not look like a function signature.
pub fn parse_overload_sig(s: &str) -> (r: Option<(Vec<String>, String)>)
    ensures
        (match r { Some(y) => Some((texts(y.0@), y.1@)), None => None }) == parse_overload_sig_spec(s@),
{
    proof {
        reveal(parse_overload_sig_spec);
    }
    let t = trim(s);
    let cs = chars_of(&t);
    let open: usize = find_char(&cs, '(', 0);
    if open >= cs.len() {
        return None;
    }
    match close_paren(&cs, open, 0) {
        None => None,
        Some(close) => {
            let params = piece_types(&split_top_commas(&cut(&cs, open + 1, close)), 0, Vec::new());
            let ret = match split_once(&cut(&cs, close + 1, cs.len()), ":") {
                Some((_, r)) => trim(&before(&r, "{")),
                None => String::new(),
            };
            Some((params, ret))
        },
    }
}

/// A Haxe `Float` literal as C++: an unsuffixed literal is a `double` already.
pub fn float_lit(s: &str) -> (r: String)
    ensures
        r@ == float_lit_spec(s@),
{
    s.to_owned()
}

/// A Haxe `Int` literal as C++.
pub fn int_lit(s: &str) -> (r: String)
    ensures
        r@ == int_lit_spec(s@),
{
    s.to_owned()
}

/// What [`plain_ty`] computes.
pub open spec fn plain_ty_spec(base: Seq<char>) -> TyV
{
    TyV { base, is_ptr: false, info: None, nullable: false, unsigned: false, iter: None }
}

/// What [`no_ty`] computes.
pub open spec fn no_ty_spec() -> TyV
{
    plain_ty_spec(""@)
}

/// What [`info_ty`] computes.
pub open spec fn info_ty_spec(base: Seq<char>, is_ptr: bool, info: Option<TypeInfoV>) -> TyV
{
    TyV { base, is_ptr, info, nullable: false, unsigned: false, iter: None }
}

/// What [`float32_ty`] computes.
pub open spec fn float32_ty_spec() -> TyV
{
    plain_ty_spec("float"@)
}

/// What [`float_ty`] computes.
pub open spec fn float_ty_spec() -> TyV
{
    plain_ty_spec("double"@)
}

/// What [`int_ty`] computes.
pub open spec fn int_ty_spec() -> TyV
{
    plain_ty_spec("int"@)
}

/// What [`bool_ty`] computes.
pub open spec fn bool_ty_spec() -> TyV
{
    plain_ty_spec("bool"@)
}

/// What [`str_ty`] computes.
pub open spec fn str_ty_spec() -> TyV
{
    plain_ty_spec("std::string"@)
}

/// What [`size_ty`] computes.
pub open spec fn size_ty_spec() -> TyV
{
    TyV { base: "int"@, is_ptr: false, info: None, nullable: false, unsigned: true, iter: None }
}

/// What [`with_ptr`] computes.
pub open spec fn with_ptr_spec(t: TyV, is_ptr: bool) -> TyV
{
    let r = t;
    let r = TyV { is_ptr: is_ptr, ..r };
    r
}

/// What [`is_int_ty`] computes.
#[verifier::opaque]
pub open spec fn is_int_ty_spec(ty: TyV) -> bool
{
    (!ty.is_ptr) && ((ty.base == "int"@) || (ty.base == "unsigned int"@) || (ty.base == "uint8_t"@) || (ty.base == "uint16_t"@) || (ty.base == "uint32_t"@) || (ty.base == "char"@) || (ty.base == "short"@) || (ty.base == "long"@))
}

/// What [`is_float_base`] computes.
#[verifier::opaque]
pub open spec fn is_float_base_spec(ty: TyV) -> bool
{
    (!ty.is_ptr) && ((ty.base == "float"@) || (ty.base == "double"@))
}

/// What [`is_arith_scalar`] computes.
#[verifier::opaque]
pub open spec fn is_arith_scalar_spec(ty: TyV) -> bool
{
    is_int_ty_spec(ty) || is_float_base_spec(ty) || ((!ty.is_ptr) && (ty.base == "bool"@))
}

/// What [`is_signed_int`] computes.
#[verifier::opaque]
pub open spec fn is_signed_int_spec(ty: TyV) -> bool
{
    (!ty.is_ptr) && (!ty.unsigned) && (ty.base == "int"@)
}

/// What [`is_vector_ty`] computes.
#[verifier::opaque]
pub open spec fn is_vector_ty_spec(ty: TyV) -> bool
{
    ("std::vector"@).is_prefix_of(ty.base)
}

/// What [`rcode_is_map`] computes.
#[verifier::opaque]
pub open spec fn rcode_is_map_spec(ty: TyV) -> bool
{
    ("std::map"@).is_prefix_of(ty.base)
}

/// What [`is_container_ty`] computes.
#[verifier::opaque]
pub open spec fn is_container_ty_spec(ty: TyV) -> bool
{
    is_vector_ty_spec(ty) || rcode_is_map_spec(ty)
}

/// What [`is_value_string`] computes.
#[verifier::opaque]
pub open spec fn is_value_string_spec(ty: TyV) -> bool
{
    (!ty.is_ptr) && (ty.base == "std::string"@)
}

/// What [`cast_signed_for_unsigned`] computes.
#[verifier::opaque]
pub open spec fn cast_signed_for_unsigned_spec(a: Seq<char>, aty: TyV, b: Seq<char>, bty: TyV) -> (Seq<char>, Seq<char>)
{
    if aty.unsigned && is_signed_int_spec(bty) { (a, "(size_t)("@ + b + ")"@) } else if bty.unsigned && is_signed_int_spec(aty) { ("(size_t)("@ + a + ")"@, b) } else { (a, b) }
}

/// What [`binop`] computes.
#[verifier::opaque]
pub open spec fn binop_spec(op: BinOp) -> Seq<char>
{
    match op {
        BinOp::Add => { "+"@ },
        BinOp::Sub => { "-"@ },
        BinOp::Mul => { "*"@ },
        BinOp::Div => { "/"@ },
        BinOp::Mod => { "%"@ },
        BinOp::Eq => { "=="@ },
        BinOp::Ne => { "!="@ },
        BinOp::Lt => { "<"@ },
        BinOp::Gt => { ">"@ },
        BinOp::Le => { "<="@ },
        BinOp::Ge => { ">="@ },
        BinOp::And => { "&&"@ },
        BinOp::Or => { "||"@ },
        BinOp::BitAnd => { "&"@ },
        BinOp::BitOr => { "|"@ },
        BinOp::BitXor => { "^"@ },
        BinOp::Shl => { "<<"@ },
        BinOp::Shr => { ">>"@ },
        BinOp::UShr => { ">>"@ },
    }
}

/// What [`unop`] computes.
#[verifier::opaque]
pub open spec fn unop_spec(op: UnOp) -> Seq<char>
{
    match op {
        UnOp::Neg => { "-"@ },
        UnOp::Not => { "!"@ },
        UnOp::BitNot => { "~"@ },
        UnOp::Incr => { "++"@ },
        UnOp::Decr => { "--"@ },
    }
}

/// What [`is_comparison`] computes.
pub open spec fn is_comparison_spec(op: BinOp) -> bool
{
    match op {
        BinOp::Eq | BinOp::Ne | BinOp::Lt | BinOp::Gt | BinOp::Le | BinOp::Ge => { true },
        _ => { false },
    }
}

/// What [`is_boolean_op`] computes.
pub open spec fn is_boolean_op_spec(op: BinOp) -> bool
{
    match op {
        BinOp::And | BinOp::Or => { true },
        _ => { is_comparison_spec(op) },
    }
}

/// What [`is_arithmetic_op`] computes.
pub open spec fn is_arithmetic_op_spec(op: BinOp) -> bool
{
    match op {
        BinOp::Add | BinOp::Sub | BinOp::Mul | BinOp::Div | BinOp::Mod => { true },
        _ => { false },
    }
}

/// What [`binop_result_ty`] computes.
#[verifier::opaque]
pub open spec fn binop_result_ty_spec(op: BinOp, lhs: TyV, rhs: TyV) -> TyV
{
    if is_boolean_op_spec(op) { bool_ty_spec() } else {
        if op == (BinOp::UShr) { int_ty_spec() } else {
            if is_arithmetic_op_spec(op) && (is_float_base_spec(lhs) || is_float_base_spec(rhs)) { float_ty_spec() } else { lhs }
        }
    }
}

/// What [`intrinsic_field`] computes.
#[verifier::opaque]
pub open spec fn intrinsic_field_spec(obj: Seq<char>, name: Seq<char>) -> Option<(Seq<char>, TyV)>
{
    if !(obj == "Math"@) { None } else {
        if (name == "POSITIVE_INFINITY"@) { Some(("HUGE_VAL"@, float_ty_spec())) } else if (name == "NEGATIVE_INFINITY"@) { Some(("(-HUGE_VAL)"@, float_ty_spec())) } else if (name == "NaN"@) { Some(("(HUGE_VAL - HUGE_VAL)"@, float_ty_spec())) } else if (name == "PI"@) { Some(("3.141592653589793"@, float_ty_spec())) } else { None }
    }
}

/// What [`is_value_new`] computes.
#[verifier::opaque]
pub open spec fn is_value_new_spec(ty: TypeV) -> bool
{
    match ty {
        TypeV::Named { path, params: _, optional: _, line: _ } => {
            last_is_spec(path, "Array"@) || last_is_spec(path, "Map"@) || last_is_spec(path, "String"@) || last_is_spec(path, "StringBuf"@)
        },
        _ => { false },
    }
}

/// What [`is_null_type`] computes.
#[verifier::opaque]
pub open spec fn is_null_type_spec(ty: Option<TypeV>) -> bool
{
    match ty {
        Some(t) => {
            match t {
                TypeV::Named { path, params, optional: _, line: _ } => { last_is_spec(path, "Null"@) && ((params.len()) == 1) },
                _ => { false },
            }
        },
        None => { false },
    }
}

/// What [`is_mutating_container_method`] computes.
#[verifier::opaque]
pub open spec fn is_mutating_container_method_spec(method: Seq<char>) -> bool
{
    (method == "push"@) || (method == "insert"@) || (method == "pop"@) || (method == "shift"@) || (method == "unshift"@) || (method == "remove"@) || (method == "reverse"@) || (method == "sort"@) || (method == "set"@)
}

/// What [`call_pattern_variant`] computes.
#[verifier::opaque]
pub open spec fn call_pattern_variant_spec(callee: ExprV) -> Seq<char>
{
    match callee {
        ExprV::Ident(n) => { n },
        ExprV::Field(_, n) => { n },
        _ => { Seq::empty() },
    }
}

/// What [`getter_method`] computes.
#[verifier::opaque]
pub open spec fn getter_method_spec(f: FieldV) -> Option<Seq<char>>
{
    if f.get == (PropAccess::Get) { Some("get_"@ + f.name) } else {
        if (f.get == (PropAccess::Default)) && (f.set != (PropAccess::Default)) { Some("Get"@ + cap_spec(f.name)) } else { None }
    }
}

/// What [`map_get_init`] computes.
#[verifier::opaque]
pub open spec fn map_get_init_spec(init: Option<ExprV>) -> Option<(ExprV, ExprV)>
{
    match init {
        Some(e) => {
            match e {
                ExprV::Call(target, args) => {
                    match *target {
                        ExprV::Field(map_expr, method) => {
                            if (method == "get"@) && ((args.len()) == 1) { Some((*map_expr, args[0])) } else { None }
                        },
                        _ => { None },
                    }
                },
                _ => { None },
            }
        },
        None => { None },
    }
}

/// What [`empty_class`] computes.
pub open spec fn empty_class_spec() -> ClassV
{
    ClassV { name: Seq::empty(), line: 0, type_params: Seq::empty(), extends: None, implements: Seq::empty(), is_extern: false, is_final: false, is_abstract: false, abstract_underlying: None, meta: Seq::empty(), fields: Seq::empty(), methods: Seq::empty(), ctor: None }
}

/// What [`type_from_name`] computes.
pub open spec fn type_from_name_spec(name: Seq<char>) -> TypeV
{
    TypeV::Named { path: split_spec(name, '.'), params: Seq::empty(), optional: false, line: 0 }
}

/// What [`sink_flags_from`] computes.
pub open spec fn sink_flags_from_spec(params: Seq<ParamV>, i: int, out: Seq<bool>) -> Seq<bool>
    decreases params.len() - i,
{
    if !(0 <= i < params.len()) { out } else {
        let out = out.push(meta_has_spec(params[i].meta, "sink"@));
        let i = i + 1;
        sink_flags_from_spec(params, i, out)
    }
}

/// What [`param_sink_flags`] computes.
#[verifier::opaque]
pub open spec fn param_sink_flags_spec(params: Seq<ParamV>) -> Seq<bool>
{
    sink_flags_from_spec(params, 0int, Seq::empty())
}

/// What [`opens`] computes.
pub open spec fn opens_spec(c: char) -> bool
{
    (c == '<') || (c == '(') || (c == '[')
}

/// What [`closes`] computes.
pub open spec fn closes_spec(c: char) -> bool
{
    (c == '>') || (c == ')') || (c == ']')
}

/// What [`closes_at`] computes.
pub open spec fn closes_at_spec(cs: Seq<char>, i: int) -> bool
{
    (closes_spec(at_spec(cs, i, 0int))) && (!((i > 0) && (at_spec(cs, i, 0int) == '>') && (at_spec(cs, i - 1, 0int) == '-')))
}

/// What [`split_commas_from`] computes.
pub open spec fn split_commas_from_spec(cs: Seq<char>, start: int, i: int, up: int, down: int, out: Seq<Seq<char>>) -> Seq<Seq<char>>
    decreases cs.len() - i,
{
    if !(0 <= i < cs.len()) {
        let out = out.push(cut_spec(cs, start, cs.len() as int));
        out
    } else {
        let c = at_spec(cs, i, 0int);
        let (down, out, start, up) = if opens_spec(c) {
            let up = up + 1;
            (down, out, start, up)
        } else if closes_at_spec(cs, i) {
            let down = down + 1;
            (down, out, start, up)
        } else if (c == ',') && (up == down) {
            let out = out.push(cut_spec(cs, start, i));
            let start = i + 1;
            (down, out, start, up)
        } else { (down, out, start, up) };
        let i = i + 1;
        split_commas_from_spec(cs, start, i, up, down, out)
    }
}

/// What [`split_top_commas`] computes.
#[verifier::opaque]
pub open spec fn split_top_commas_spec(s: Seq<char>) -> Seq<Seq<char>>
{
    split_commas_from_spec(s, 0int, 0int, 0int, 0int, Seq::empty())
}

/// What [`top_comma_from`] computes.
pub open spec fn top_comma_from_spec(cs: Seq<char>, i: int, up: int, down: int) -> Option<int>
    decreases cs.len() - i,
{
    if !(0 <= i < cs.len()) { None } else {
        let c = at_spec(cs, i, 0int);
        if c == '<' {
            let up = up + 1;
            let i = i + 1;
            top_comma_from_spec(cs, i, up, down)
        } else if c == '>' {
            let down = down + 1;
            let i = i + 1;
            top_comma_from_spec(cs, i, up, down)
        } else if (c == ',') && (up == down) { Some(i) } else {
            let i = i + 1;
            top_comma_from_spec(cs, i, up, down)
        }
    }
}

/// What [`split_top_comma`] computes.
#[verifier::opaque]
pub open spec fn split_top_comma_spec(s: Seq<char>) -> Option<(Seq<char>, Seq<char>)>
{
    let cs = s;
    match top_comma_from_spec(cs, 0int, 0int, 0int) {
        Some(k) => { Some((cut_spec(cs, 0int, k), cut_spec(cs, k + 1, cs.len() as int))) },
        None => { None },
    }
}

/// What [`close_paren`] computes.
pub open spec fn close_paren_spec(cs: Seq<char>, i: int, depth: int) -> Option<int>
    decreases cs.len() - i,
{
    if !(0 <= i < cs.len()) { None } else {
        let c = at_spec(cs, i, 0int);
        if c == '(' {
            let depth = depth + 1;
            let i = i + 1;
            close_paren_spec(cs, i, depth)
        } else if c == ')' {
            if depth == 1 { Some(i) } else {
                if depth > 0 {
                    let depth = depth - 1;
                    let i = i + 1;
                    close_paren_spec(cs, i, depth)
                } else {
                    let i = i + 1;
                    close_paren_spec(cs, i, depth)
                }
            }
        } else {
            let i = i + 1;
            close_paren_spec(cs, i, depth)
        }
    }
}

/// What [`piece_types`] computes.
pub open spec fn piece_types_spec(ps: Seq<Seq<char>>, i: int, out: Seq<Seq<char>>) -> Seq<Seq<char>>
    decreases ps.len() - i,
{
    if !(0 <= i < ps.len()) { out } else {
        let p = trim_spec(ps[i]);
        let out = if !((p).len() == 0) {
            match split_once_spec(p, ":"@) {
                Some((_, t)) => {
                    let out = out.push(trim_spec(t));
                    out
                },
                None => {
                    let out = out.push(Seq::empty());
                    out
                },
            }
        } else { out };
        let i = i + 1;
        piece_types_spec(ps, i, out)
    }
}

/// What [`parse_overload_sig`] computes.
#[verifier::opaque]
pub open spec fn parse_overload_sig_spec(s: Seq<char>) -> Option<(Seq<Seq<char>>, Seq<char>)>
{
    let t = trim_spec(s);
    let cs = t;
    let open: int = find_char_spec(cs, '(', 0int);
    if !(0 <= open < cs.len()) { None } else {
        match close_paren_spec(cs, open, 0int) {
            None => { None },
            Some(close) => {
                let params = piece_types_spec(split_top_commas_spec(cut_spec(cs, open + 1, close)), 0int, Seq::empty());
                let ret = match split_once_spec(cut_spec(cs, close + 1, cs.len() as int), ":"@) {
                    Some((_, r)) => {
                        trim_spec(before_spec(r, "{"@))
                    },
                    None => { Seq::empty() },
                };
                Some((params, ret))
            },
        }
    }
}

/// What [`float_lit`] computes.
pub open spec fn float_lit_spec(s: Seq<char>) -> Seq<char>
{
    s
}

/// What [`int_lit`] computes.
pub open spec fn int_lit_spec(s: Seq<char>) -> Seq<char>
{
    s
}

} // verus!
