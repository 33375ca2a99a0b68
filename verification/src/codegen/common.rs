//! What header and source generation share: parameters, fields, accessors, constants.

use vstd::prelude::*;

use crate::ast::{Access, Class, Expr, Field, Function, Param, PropAccess, Type, UnOp};
use crate::codegen::ctypes::{is_value_struct, is_value_struct_spec, map_type_use, map_type_use_spec};
use crate::codegen::helpers::{float_lit, float_lit_spec, int_lit, int_lit_spec, int_ty, int_ty_spec, is_boolean_op, is_boolean_op_spec, is_int_ty, is_int_ty_spec, plain_ty, plain_ty_spec};
use crate::codegen::quote::{has_interpolation, has_interpolation_spec, quoted_cpp, quoted_cpp_spec};
use crate::codegen::ty::{Ty, TyV};
use crate::lexer::{at, at_spec, is_word, is_word_spec};
use crate::model::{ClassV, ExprV, FieldV, FunctionV, ParamV, TypeV, fields_v, functions_v, params_v};
use crate::parser::types::{meta_has, meta_has_spec};
use crate::program::{Program, ProgramV};
use crate::resolve::{last_is, last_is_spec, package_of, package_of_spec};
use crate::strings::{before, before_spec, ends_with, join, join_spec, starts_with};
use crate::text::{cat2, cat3, chars_of, same, texts};

verus! {

broadcast use {crate::codegen::quote::group_quote, crate::codegen::ty::group_ty, crate::model::group_model, crate::program::group_program, crate::text::group_texts};

/// `n` tabs.
pub fn tabs_from(n: usize, out: String) -> (r: String)
    ensures
        r@ == tabs_from_spec((n as int), out@),
{
    let ghost n_0 = n;
    let ghost out_0 = out;
    let mut n: usize = n;
    let mut out: String = out;
    #[verifier::loop_isolation(false)]
    loop
        invariant
            tabs_from_spec((n_0 as int), out_0@) == tabs_from_spec((n as int), out@),
        decreases n,
    {
        if n < 1 {
            return out;
        }
        out.append("\t");
        n = n - 1;
    }
}

/// `n` tabs.
pub fn tabs(n: usize) -> (r: String)
    ensures
        r@ == tabs_spec((n as int)),
{
    tabs_from(n, String::new())
}

/// The characters from `i` on, each that no identifier can hold as an underscore.
pub fn sanitize_from(cs: &Vec<char>, i: usize, out: String) -> (r: String)
    ensures
        r@ == sanitize_from_spec(cs@, (i as int), out@),
{
    let ghost i_0 = i;
    let ghost out_0 = out;
    let mut i: usize = i;
    let mut out: String = out;
    #[verifier::loop_isolation(false)]
    loop
        invariant
            sanitize_from_spec(cs@, (i_0 as int), out_0@) == sanitize_from_spec(cs@, (i as int), out@),
        decreases cs.len() - i,
    {
        if i >= cs.len() {
            return out;
        }
        if is_word(at(cs, i, 0)) {
            out.push(at(cs, i, 0));
        } else {
            out.append("_");
        }
        i = i + 1;
    }
}

/// The text as an identifier: anything else than a word character becomes `_`.
pub fn sanitize(s: &str) -> (r: String)
    ensures
        r@ == sanitize_spec(s@),
{
    sanitize_from(&chars_of(s), 0, String::new())
}

/// A literal of a scalar type as C++: a number, possibly negated, a truth value or a string
/// without interpolation.
pub fn render_scalar_literal(e: &Expr) -> (r: Option<String>)
    ensures
        (match r { Some(y) => Some(y@), None => None }) == render_scalar_literal_spec(e.v()),
{
    proof {
        reveal(render_scalar_literal_spec);
    }
    match e.node() {
        Expr::Int(s) => Some(int_lit(s)),
        Expr::Float(s) => Some(float_lit(s)),
        Expr::Bool(b) => Some(if *b { "true".to_owned() } else { "false".to_owned() }),
        Expr::Str { raw, interpolated } => {
            if *interpolated && has_interpolation(raw) {
                None
            } else {
                Some(quoted_cpp(raw))
            }
        },
        Expr::Unary { op: UnOp::Neg, expr, prefix: true } => match expr.node() {
            Expr::Int(s) => Some(cat2("-", &int_lit(s))),
            Expr::Float(s) => Some(cat2("-", &float_lit(s))),
            _ => None,
        },
        _ => None,
    }
}

/// The value of an `enum abstract` member that a C++ `enum` can hold.
pub fn enum_member_value(e: &Expr) -> (r: Option<String>)
    ensures
        (match r { Some(y) => Some(y@), None => None }) == enum_member_value_spec(e.v()),
{
    proof {
        reveal(enum_member_value_spec);
    }
    match e.node() {
        Expr::Int(s) => Some(int_lit(s)),
        Expr::Unary { op: UnOp::Neg, expr, prefix: true } => match expr.node() {
            Expr::Int(s) => Some(cat2("-", &int_lit(s))),
            _ => None,
        },
        _ => None,
    }
}

/// The value of an `enum abstract` member over a type that no C++ `enum` can hold.
pub fn enum_abstract_value(e: &Expr) -> (r: Option<String>)
    ensures
        (match r { Some(y) => Some(y@), None => None }) == enum_abstract_value_spec(e.v()),
{
    render_scalar_literal(e)
}

/// Whether a literal is an integral constant.
pub fn is_integral_literal(e: &Expr) -> (r: bool)
    ensures
        r == is_integral_literal_spec(e.v()),
{
    proof {
        reveal(is_integral_literal_spec);
    }
    match e.node() {
        Expr::Bool(_) => true,
        _ => enum_member_value(e).is_some(),
    }
}

/// Whether a static is a constant of the class itself: immutable, with an integral literal.
pub fn is_const_static(f: &Field) -> (r: bool)
    ensures
        r == is_const_static_spec(f.v()),
{
    proof {
        reveal(is_const_static_spec);
    }
    if !f.is_static || !(f.is_final || f.is_inline) {
        return false;
    }
    match &f.init {
        Some(e) => is_integral_literal(e),
        None => false,
    }
}

/// Whether a static is read through an accessor that initialises it on first use: one with
/// an initialiser that is no literal, or a container without one.
pub fn is_meyers_static(prog: &Program, mi: usize, f: &Field) -> (r: bool)
    ensures
        r == is_meyers_static_spec(prog.v(), (mi as int), f.v()),
{
    proof {
        reveal(is_meyers_static_spec);
    }
    if !f.is_static {
        return false;
    }
    match &f.init {
        Some(e) => {
            if matches!(e.node(), Expr::Null) {
                false
            } else {
                render_scalar_literal(e).is_none()
            }
        },
        None => match &f.ty {
            Some(t) => {
                let cpp = map_type_use(prog, t, mi, &package_of(prog, mi));
                starts_with(&cpp, "std::vector") || starts_with(&cpp, "std::map")
            },
            None => false,
        },
    }
}

/// Whether the value of a static cannot change.
pub fn final_is_const(f: &Field) -> (r: bool)
    ensures
        r == final_is_const_spec(f.v()),
{
    f.is_final
}

/// Whether a field is a property: one of its accesses is not the plain one.
pub fn has_accessor(f: &Field) -> (r: bool)
    ensures
        r == has_accessor_spec(f.v()),
{
    f.get != PropAccess::Default || f.set != PropAccess::Default
}

/// Whether a function is a method of the given name.
pub fn is_named(m: &Function, name: &str) -> (r: bool)
    ensures
        r == is_named_spec(m.v(), name@),
{
    match &m.name {
        Some(n) => same(n, name),
        None => false,
    }
}

/// The first method of a name from `i` on.
pub fn find_method<'a>(methods: &'a Vec<Function>, name: &str, i: usize) -> (r: Option<&'a Function>)
    ensures
        (match r { Some(y) => Some(y.v()), None => None }) == find_method_spec(functions_v(methods@), name@, (i as int)),
{
    let ghost i_0 = i;
    let mut i: usize = i;
    #[verifier::loop_isolation(false)]
    loop
        invariant
            find_method_spec(functions_v(methods@), name@, (i_0 as int)) == find_method_spec(functions_v(methods@), name@, (i as int)),
        decreases methods.len() - i,
    {
        if i >= methods.len() {
            return None;
        }
        if is_named(&methods[i], name) {
            return Some(&methods[i]);
        }
        i = i + 1;
    }
}

/// Whether one of the methods has this name.
pub fn has_method_named(methods: &Vec<Function>, name: &str) -> (r: bool)
    ensures
        r == has_method_named_spec(functions_v(methods@), name@),
{
    proof {
        reveal(has_method_named_spec);
    }
    find_method(methods, name, 0).is_some()
}

/// Whether the user wrote the setter of a `set` property.
pub fn custom_setter(c: &Class, f: &Field) -> (r: bool)
    ensures
        r == custom_setter_spec(c.v(), f.v()),
{
    f.set == PropAccess::Setter && has_method_named(&c.methods, &cat2("set_", &f.name))
}

/// Whether a getter is generated for a property.
pub fn generated_getter(f: &Field) -> (r: bool)
    ensures
        r == generated_getter_spec(f.v()),
{
    f.get == PropAccess::Default && f.set != PropAccess::Default
}

/// Whether a method is the custom accessor of a property.
pub fn is_accessor_of(f: &Field, name: &str) -> (r: bool)
    ensures
        r == is_accessor_of_spec(f.v(), name@),
{
    (f.get == PropAccess::Get && same(name, &cat2("get_", &f.name)))
        || (f.set == PropAccess::Setter && same(name, &cat2("set_", &f.name)))
}

/// The property a method is an accessor of, from the field at `i` on.
pub fn accessed_field<'a>(fields: &'a Vec<Field>, name: &str, i: usize) -> (r: Option<&'a Field>)
    ensures
        (match r { Some(y) => Some(y.v()), None => None }) == accessed_field_spec(fields_v(fields@), name@, (i as int)),
{
    let ghost i_0 = i;
    let mut i: usize = i;
    #[verifier::loop_isolation(false)]
    loop
        invariant
            accessed_field_spec(fields_v(fields@), name@, (i_0 as int)) == accessed_field_spec(fields_v(fields@), name@, (i as int)),
        decreases fields.len() - i,
    {
        if i >= fields.len() {
            return None;
        }
        if is_accessor_of(&fields[i], name) {
            return Some(&fields[i]);
        }
        i = i + 1;
    }
}

/// The type a custom accessor returns: that of its property.
pub fn accessor_ret_type(c: &Class, name: &str) -> (r: Option<Type>)
    ensures
        (match r { Some(y) => Some(y.v()), None => None }) == accessor_ret_type_spec(c.v(), name@),
{
    proof {
        reveal(accessor_ret_type_spec);
    }
    match accessed_field(&c.fields, name, 0) {
        Some(f) => match &f.ty {
            Some(t) => Some(t.dup()),
            None => None,
        },
        None => None,
    }
}

/// The access a method is declared with: an explicit `public`, or that of the public
/// property it is an accessor of; hidden otherwise.
pub fn method_access(c: &Class, m: &Function) -> (r: Access)
    ensures
        r == method_access_spec(c.v(), m.v()),
{
    proof {
        reveal(method_access_spec);
    }
    if m.access == Access::Public {
        return Access::Public;
    }
    match &m.name {
        Some(n) => match accessed_field(&c.fields, n, 0) {
            Some(f) => {
                if f.access == Access::Public {
                    Access::Public
                } else {
                    Access::Private
                }
            },
            None => Access::Private,
        },
        None => Access::Private,
    }
}

/// The key and value types of an `@orderedMap` field.
pub fn ordered_map_kv(f: &Field) -> (r: Option<(Type, Type)>)
    ensures
        (match r { Some(y) => Some((y.0.v(), y.1.v())), None => None }) == ordered_map_kv_spec(f.v()),
{
    proof {
        reveal(ordered_map_kv_spec);
    }
    if !meta_has(&f.meta, "orderedMap") {
        return None;
    }
    match &f.ty {
        Some(t) => match t.node() {
            Type::Named { path, params, optional: _, line: _ } => {
                if last_is(path, "Map") && params.len() == 2 {
                    Some((params[0].dup(), params[1].dup()))
                } else {
                    None
                }
            },
            _ => None,
        },
        None => None,
    }
}

/// The value an omitted optional takes, where its type has one.
pub fn default_value(prog: &Program, mi: usize, ns: &Vec<String>, t: &Type) -> (r: Option<String>)
    ensures
        (match r { Some(y) => Some(y@), None => None }) == default_value_spec(prog.v(), (mi as int), texts(ns@), t.v()),
{
    proof {
        reveal(default_value_spec);
    }
    let cpp = map_type_use(prog, t, mi, ns);
    if ends_with(&cpp, "*") {
        Some("NULL".to_owned())
    } else if same(&cpp, "bool") {
        Some("false".to_owned())
    } else if same(&cpp, "double") {
        Some("0.0".to_owned())
    } else if same(&cpp, "float") {
        Some("0.0f".to_owned())
    } else if same(&cpp, "std::string") {
        Some("\"\"".to_owned())
    } else if is_int_ty(&plain_ty(&cpp)) {
        Some("0".to_owned())
    } else {
        None
    }
}

/// How a parameter is passed: containers, strings and value structures by `const` reference,
/// an optional value structure by pointer, anything else by value.
pub fn param_type(prog: &Program, mi: usize, ns: &Vec<String>, p: &Param) -> (r: String)
    ensures
        r@ == param_type_spec(prog.v(), (mi as int), texts(ns@), p.v()),
{
    proof {
        reveal(param_type_spec);
    }
    match &p.ty {
        None => "int".to_owned(),
        Some(t) => {
            let cpp = map_type_use(prog, t, mi, ns);
            if ends_with(&cpp, "*") {
                return cpp;
            }
            if is_value_struct(prog, mi, t) {
                if p.optional {
                    return cat2(&cpp, "*");
                }
                return cat3("const ", &cpp, "&");
            }
            if starts_with(&cpp, "std::") {
                return cat3("const ", &cpp, "&");
            }
            cpp
        },
    }
}

/// The default a parameter is declared with.
pub fn param_default(prog: &Program, mi: usize, ns: &Vec<String>, p: &Param) -> (r: Option<String>)
    ensures
        (match r { Some(y) => Some(y@), None => None }) == param_default_spec(prog.v(), (mi as int), texts(ns@), p.v()),
{
    proof {
        reveal(param_default_spec);
    }
    match &p.default {
        Some(e) => match render_scalar_literal(e) {
            Some(v) => Some(v),
            None => {
                if matches!(e.node(), Expr::Null) {
                    Some("NULL".to_owned())
                } else {
                    None
                }
            },
        },
        None => {
            if !p.optional {
                return None;
            }
            match &p.ty {
                Some(t) => {
                    if is_value_struct(prog, mi, t) {
                        Some("NULL".to_owned())
                    } else {
                        match default_value(prog, mi, ns, t) {
                            Some(v) => Some(v),
                            None => Some(cat2(&map_type_use(prog, t, mi, ns), "()")),
                        }
                    }
                },
                None => Some("0".to_owned()),
            }
        },
    }
}

/// The declaration of a parameter, with its default.
pub fn param_decl(prog: &Program, mi: usize, ns: &Vec<String>, p: &Param) -> (r: String)
    ensures
        r@ == param_decl_spec(prog.v(), (mi as int), texts(ns@), p.v()),
{
    proof {
        reveal(param_decl_spec);
    }
    let head = cat3(&param_type(prog, mi, ns, p), " ", &p.name);
    match param_default(prog, mi, ns, p) {
        Some(d) => cat3(&head, " = ", &d),
        None => head,
    }
}

/// The declarations of the parameters from `i` on.
pub fn param_decls_from(prog: &Program, mi: usize, ns: &Vec<String>, params: &Vec<Param>, defaults: bool, i: usize, out: Vec<String>) -> (r: Vec<String>)
    ensures
        texts(r@) == param_decls_from_spec(prog.v(), (mi as int), texts(ns@), params_v(params@), defaults, (i as int), texts(out@)),
{
    let ghost i_0 = i;
    let ghost out_0 = out;
    let mut i: usize = i;
    let mut out: Vec<String> = out;
    #[verifier::loop_isolation(false)]
    loop
        invariant
            param_decls_from_spec(prog.v(), (mi as int), texts(ns@), params_v(params@), defaults, (i_0 as int), texts(out_0@)) == param_decls_from_spec(prog.v(), (mi as int), texts(ns@), params_v(params@), defaults, (i as int), texts(out@)),
        decreases params.len() - i,
    {
        if i >= params.len() {
            return out;
        }
        let decl = param_decl(prog, mi, ns, &params[i]);
        out.push(if defaults { decl } else { before(&decl, " = ") });
        i = i + 1;
    }
}

/// The declarations of a parameter list, with or without defaults.
pub fn param_list(prog: &Program, mi: usize, ns: &Vec<String>, params: &Vec<Param>, defaults: bool) -> (r: String)
    ensures
        r@ == param_list_spec(prog.v(), (mi as int), texts(ns@), params_v(params@), defaults),
{
    proof {
        reveal(param_list_spec);
    }
    join(&param_decls_from(prog, mi, ns, params, defaults, 0, Vec::new()), ", ")
}

/// The width of a scalar in a conversion that can lose something: `0` for none.
pub fn scalar_rank(base: &str) -> (r: usize)
    ensures
        (r as int) == scalar_rank_spec(base@),
{
    proof {
        reveal(scalar_rank_spec);
    }
    if same(base, "char") || same(base, "uint8_t") {
        1
    } else if same(base, "short") || same(base, "uint16_t") {
        2
    } else if same(base, "int") || same(base, "unsigned int") || same(base, "uint32_t") {
        3
    } else {
        0
    }
}

/// Whether a conversion between scalars narrows: `double` to `float`, or an integer to a
/// smaller one.
pub fn scalar_narrows(from: &str, to: &str) -> (r: bool)
    ensures
        r == scalar_narrows_spec(from@, to@),
{
    proof {
        reveal(scalar_narrows_spec);
    }
    if same(from, "double") && same(to, "float") {
        return true;
    }
    scalar_rank(to) > 0 && scalar_rank(from) > scalar_rank(to)
}

/// Whether an expression is a number written out, possibly negated or grouped.
pub fn is_number_literal(e: &Expr) -> (r: bool)
    ensures
        r == is_number_literal_spec(e.v()),
    decreases *e,
{
    proof {
        reveal(is_number_literal_spec);
    }
    match e.node() {
        Expr::Int(_) => true,
        Expr::Float(_) => true,
        Expr::Paren(inner) => is_number_literal(inner),
        Expr::Meta(_, inner) => is_number_literal(inner),
        Expr::Unary { op, expr, prefix: _ } => *op == UnOp::Neg && is_number_literal(expr),
        _ => false,
    }
}

/// The type an expression has after C++'s integer promotion: arithmetic on small integers
/// is `int` arithmetic.
pub fn promoted_ty(e: &Expr, ty: &Ty) -> (r: Ty)
    ensures
        r.v() == promoted_ty_spec(e.v(), ty.v()),
    decreases *e,
{
    proof {
        reveal(promoted_ty_spec);
    }
    match e.node() {
        Expr::Paren(inner) => promoted_ty(inner, ty),
        Expr::Binary { op, lhs: _, rhs: _ } => {
            if !is_boolean_op(*op) && scalar_rank(&ty.base) > 0 && scalar_rank(&ty.base) < 3 {
                int_ty()
            } else {
                ty.dup()
            }
        },
        _ => ty.dup(),
    }
}

/// What [`tabs_from`] computes.
pub open spec fn tabs_from_spec(n: int, out: Seq<char>) -> Seq<char>
    decreases n,
{
    if n < 1 { out } else {
        let out = out + "\t"@;
        let n = n - 1;
        tabs_from_spec(n, out)
    }
}

/// What [`tabs`] computes.
pub open spec fn tabs_spec(n: int) -> Seq<char>
{
    tabs_from_spec(n, Seq::empty())
}

/// What [`sanitize_from`] computes.
pub open spec fn sanitize_from_spec(cs: Seq<char>, i: int, out: Seq<char>) -> Seq<char>
    decreases cs.len() - i,
{
    if !(0 <= i < cs.len()) { out } else {
        let out = if is_word_spec(at_spec(cs, i, 0int)) {
            let out = out.push(at_spec(cs, i, 0int));
            out
        } else {
            let out = out + "_"@;
            out
        };
        let i = i + 1;
        sanitize_from_spec(cs, i, out)
    }
}

/// What [`sanitize`] computes.
pub open spec fn sanitize_spec(s: Seq<char>) -> Seq<char>
{
    sanitize_from_spec(s, 0int, Seq::empty())
}

/// What [`render_scalar_literal`] computes.
#[verifier::opaque]
pub open spec fn render_scalar_literal_spec(e: ExprV) -> Option<Seq<char>>
{
    match e {
        ExprV::Int(s) => { Some(int_lit_spec(s)) },
        ExprV::Float(s) => { Some(float_lit_spec(s)) },
        ExprV::Bool(b) => {
            Some(if b { "true"@ } else { "false"@ })
        },
        ExprV::Str { raw, interpolated } => {
            if interpolated && has_interpolation_spec(raw) { None } else { Some(quoted_cpp_spec(raw)) }
        },
        ExprV::Unary { op: UnOp::Neg, expr, prefix: true } => {
            match *expr {
                ExprV::Int(s) => { Some("-"@ + int_lit_spec(s)) },
                ExprV::Float(s) => { Some("-"@ + float_lit_spec(s)) },
                _ => { None },
            }
        },
        _ => { None },
    }
}

/// What [`enum_member_value`] computes.
#[verifier::opaque]
pub open spec fn enum_member_value_spec(e: ExprV) -> Option<Seq<char>>
{
    match e {
        ExprV::Int(s) => { Some(int_lit_spec(s)) },
        ExprV::Unary { op: UnOp::Neg, expr, prefix: true } => {
            match *expr {
                ExprV::Int(s) => { Some("-"@ + int_lit_spec(s)) },
                _ => { None },
            }
        },
        _ => { None },
    }
}

/// What [`enum_abstract_value`] computes.
pub open spec fn enum_abstract_value_spec(e: ExprV) -> Option<Seq<char>>
{
    render_scalar_literal_spec(e)
}

/// What [`is_integral_literal`] computes.
#[verifier::opaque]
pub open spec fn is_integral_literal_spec(e: ExprV) -> bool
{
    match e {
        ExprV::Bool(_) => { true },
        _ => { enum_member_value_spec(e) is Some },
    }
}

/// What [`is_const_static`] computes.
#[verifier::opaque]
pub open spec fn is_const_static_spec(f: FieldV) -> bool
{
    if (!f.is_static) || !(f.is_final || f.is_inline) { false } else {
        match f.init {
            Some(e) => { is_integral_literal_spec(e) },
            None => { false },
        }
    }
}

/// What [`is_meyers_static`] computes.
#[verifier::opaque]
pub open spec fn is_meyers_static_spec(prog: ProgramV, mi: int, f: FieldV) -> bool
{
    if !f.is_static { false } else {
        match f.init {
            Some(e) => {
                if (match e { ExprV::Null => true, _ => false }) { false } else { render_scalar_literal_spec(e) is None }
            },
            None => {
                match f.ty {
                    Some(t) => {
                        let cpp = map_type_use_spec(prog, t, mi, package_of_spec(prog, mi));
                        (("std::vector"@).is_prefix_of(cpp)) || (("std::map"@).is_prefix_of(cpp))
                    },
                    None => { false },
                }
            },
        }
    }
}

/// What [`final_is_const`] computes.
pub open spec fn final_is_const_spec(f: FieldV) -> bool
{
    f.is_final
}

/// What [`has_accessor`] computes.
pub open spec fn has_accessor_spec(f: FieldV) -> bool
{
    (f.get != (PropAccess::Default)) || (f.set != (PropAccess::Default))
}

/// What [`is_named`] computes.
pub open spec fn is_named_spec(m: FunctionV, name: Seq<char>) -> bool
{
    match m.name {
        Some(n) => { (n == name) },
        None => { false },
    }
}

/// What [`find_method`] computes.
pub open spec fn find_method_spec(methods: Seq<FunctionV>, name: Seq<char>, i: int) -> Option<FunctionV>
    decreases methods.len() - i,
{
    if !(0 <= i < methods.len()) { None } else {
        if is_named_spec(methods[i], name) { Some(methods[i]) } else {
            let i = i + 1;
            find_method_spec(methods, name, i)
        }
    }
}

/// What [`has_method_named`] computes.
#[verifier::opaque]
pub open spec fn has_method_named_spec(methods: Seq<FunctionV>, name: Seq<char>) -> bool
{
    find_method_spec(methods, name, 0int) is Some
}

/// What [`custom_setter`] computes.
pub open spec fn custom_setter_spec(c: ClassV, f: FieldV) -> bool
{
    (f.set == (PropAccess::Setter)) && has_method_named_spec(c.methods, "set_"@ + f.name)
}

/// What [`generated_getter`] computes.
pub open spec fn generated_getter_spec(f: FieldV) -> bool
{
    (f.get == (PropAccess::Default)) && (f.set != (PropAccess::Default))
}

/// What [`is_accessor_of`] computes.
pub open spec fn is_accessor_of_spec(f: FieldV, name: Seq<char>) -> bool
{
    ((f.get == (PropAccess::Get)) && (name == "get_"@ + f.name)) || ((f.set == (PropAccess::Setter)) && (name == "set_"@ + f.name))
}

/// What [`accessed_field`] computes.
pub open spec fn accessed_field_spec(fields: Seq<FieldV>, name: Seq<char>, i: int) -> Option<FieldV>
    decreases fields.len() - i,
{
    if !(0 <= i < fields.len()) { None } else {
        if is_accessor_of_spec(fields[i], name) { Some(fields[i]) } else {
            let i = i + 1;
            accessed_field_spec(fields, name, i)
        }
    }
}

/// What [`accessor_ret_type`] computes.
#[verifier::opaque]
pub open spec fn accessor_ret_type_spec(c: ClassV, name: Seq<char>) -> Option<TypeV>
{
    match accessed_field_spec(c.fields, name, 0int) {
        Some(f) => {
            match f.ty {
                Some(t) => { Some(t) },
                None => { None },
            }
        },
        None => { None },
    }
}

/// What [`method_access`] computes.
#[verifier::opaque]
pub open spec fn method_access_spec(c: ClassV, m: FunctionV) -> Access
{
    if m.access == (Access::Public) { Access::Public } else {
        match m.name {
            Some(n) => {
                match accessed_field_spec(c.fields, n, 0int) {
                    Some(f) => {
                        if f.access == (Access::Public) { Access::Public } else { Access::Private }
                    },
                    None => { Access::Private },
                }
            },
            None => { Access::Private },
        }
    }
}

/// What [`ordered_map_kv`] computes.
#[verifier::opaque]
pub open spec fn ordered_map_kv_spec(f: FieldV) -> Option<(TypeV, TypeV)>
{
    if !meta_has_spec(f.meta, "orderedMap"@) { None } else {
        match f.ty {
            Some(t) => {
                match t {
                    TypeV::Named { path, params, optional: _, line: _ } => {
                        if last_is_spec(path, "Map"@) && ((params.len()) == 2) { Some((params[0], params[1])) } else { None }
                    },
                    _ => { None },
                }
            },
            None => { None },
        }
    }
}

/// What [`default_value`] computes.
#[verifier::opaque]
pub open spec fn default_value_spec(prog: ProgramV, mi: int, ns: Seq<Seq<char>>, t: TypeV) -> Option<Seq<char>>
{
    let cpp = map_type_use_spec(prog, t, mi, ns);
    if ("*"@).is_suffix_of(cpp) { Some("NULL"@) } else if (cpp == "bool"@) { Some("false"@) } else if (cpp == "double"@) { Some("0.0"@) } else if (cpp == "float"@) { Some("0.0f"@) } else if (cpp == "std::string"@) { Some("\"\""@) } else if is_int_ty_spec(plain_ty_spec(cpp)) { Some("0"@) } else { None }
}

/// What [`param_type`] computes.
#[verifier::opaque]
pub open spec fn param_type_spec(prog: ProgramV, mi: int, ns: Seq<Seq<char>>, p: ParamV) -> Seq<char>
{
    match p.ty {
        None => { "int"@ },
        Some(t) => {
            let cpp = map_type_use_spec(prog, t, mi, ns);
            if ("*"@).is_suffix_of(cpp) { cpp } else {
                if is_value_struct_spec(prog, mi, t) {
                    if p.optional { cpp + "*"@ } else { "const "@ + cpp + "&"@ }
                } else {
                    if ("std::"@).is_prefix_of(cpp) { "const "@ + cpp + "&"@ } else { cpp }
                }
            }
        },
    }
}

/// What [`param_default`] computes.
#[verifier::opaque]
pub open spec fn param_default_spec(prog: ProgramV, mi: int, ns: Seq<Seq<char>>, p: ParamV) -> Option<Seq<char>>
{
    match p.default {
        Some(e) => {
            match render_scalar_literal_spec(e) {
                Some(v) => { Some(v) },
                None => {
                    if (match e { ExprV::Null => true, _ => false }) { Some("NULL"@) } else { None }
                },
            }
        },
        None => {
            if !p.optional { None } else {
                match p.ty {
                    Some(t) => {
                        if is_value_struct_spec(prog, mi, t) { Some("NULL"@) } else {
                            match default_value_spec(prog, mi, ns, t) {
                                Some(v) => { Some(v) },
                                None => { Some(map_type_use_spec(prog, t, mi, ns) + "()"@) },
                            }
                        }
                    },
                    None => { Some("0"@) },
                }
            }
        },
    }
}

/// What [`param_decl`] computes.
#[verifier::opaque]
pub open spec fn param_decl_spec(prog: ProgramV, mi: int, ns: Seq<Seq<char>>, p: ParamV) -> Seq<char>
{
    let head = param_type_spec(prog, mi, ns, p) + " "@ + p.name;
    match param_default_spec(prog, mi, ns, p) {
        Some(d) => { head + " = "@ + d },
        None => { head },
    }
}

/// What [`param_decls_from`] computes.
pub open spec fn param_decls_from_spec(prog: ProgramV, mi: int, ns: Seq<Seq<char>>, params: Seq<ParamV>, defaults: bool, i: int, out: Seq<Seq<char>>) -> Seq<Seq<char>>
    decreases params.len() - i,
{
    if !(0 <= i < params.len()) { out } else {
        let decl = param_decl_spec(prog, mi, ns, params[i]);
        let out = out.push(if defaults { decl } else { before_spec(decl, " = "@) });
        let i = i + 1;
        param_decls_from_spec(prog, mi, ns, params, defaults, i, out)
    }
}

/// What [`param_list`] computes.
#[verifier::opaque]
pub open spec fn param_list_spec(prog: ProgramV, mi: int, ns: Seq<Seq<char>>, params: Seq<ParamV>, defaults: bool) -> Seq<char>
{
    join_spec(param_decls_from_spec(prog, mi, ns, params, defaults, 0int, Seq::empty()), ", "@)
}

/// What [`scalar_rank`] computes.
#[verifier::opaque]
pub open spec fn scalar_rank_spec(base: Seq<char>) -> int
{
    if (base == "char"@) || (base == "uint8_t"@) { 1 } else if (base == "short"@) || (base == "uint16_t"@) { 2 } else if (base == "int"@) || (base == "unsigned int"@) || (base == "uint32_t"@) { 3 } else { 0 }
}

/// What [`scalar_narrows`] computes.
#[verifier::opaque]
pub open spec fn scalar_narrows_spec(from: Seq<char>, to: Seq<char>) -> bool
{
    if (from == "double"@) && (to == "float"@) { true } else { (scalar_rank_spec(to) > 0) && (scalar_rank_spec(from) > scalar_rank_spec(to)) }
}

/// What [`is_number_literal`] computes.
#[verifier::opaque]
pub open spec fn is_number_literal_spec(e: ExprV) -> bool
    decreases e,
{
    match e {
        ExprV::Int(_) => { true },
        ExprV::Float(_) => { true },
        ExprV::Paren(inner) => { is_number_literal_spec(*inner) },
        ExprV::Meta(_, inner) => { is_number_literal_spec(*inner) },
        ExprV::Unary { op, expr, prefix: _ } => { (op == (UnOp::Neg)) && is_number_literal_spec(*expr) },
        _ => { false },
    }
}

/// What [`promoted_ty`] computes.
#[verifier::opaque]
pub open spec fn promoted_ty_spec(e: ExprV, ty: TyV) -> TyV
    decreases e,
{
    match e {
        ExprV::Paren(inner) => { promoted_ty_spec(*inner, ty) },
        ExprV::Binary { op, lhs: _, rhs: _ } => {
            if (!is_boolean_op_spec(op)) && (scalar_rank_spec(ty.base) > 0) && (scalar_rank_spec(ty.base) < 3) { int_ty_spec() } else { ty }
        },
        _ => { ty },
    }
}

} // verus!
