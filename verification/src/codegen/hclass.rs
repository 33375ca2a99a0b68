//! Class declarations.

use vstd::prelude::*;

use crate::ast::{Access, Class, Decl, Field, Function, Param, PropAccess, Type};
use crate::codegen::classdef::{param_names, param_names_spec};
use crate::codegen::common::{accessor_ret_type, accessor_ret_type_spec, custom_setter, custom_setter_spec, final_is_const, final_is_const_spec, generated_getter, generated_getter_spec, has_accessor, has_accessor_spec, is_const_static, is_const_static_spec, is_meyers_static, is_meyers_static_spec, method_access, method_access_spec, ordered_map_kv, ordered_map_kv_spec, param_decl, param_decl_spec, param_list, param_list_spec, render_scalar_literal, render_scalar_literal_spec};
use crate::codegen::ctypes::{is_value_struct, is_value_struct_spec, map_type_base, map_type_base_spec, map_type_use, map_type_use_spec, resolve_alias_type, resolve_alias_type_spec};
use crate::codegen::hdecls::{base_list, base_list_spec, base_parts, base_parts_spec, cpp_def_name, cpp_def_name_spec, forwarder_deferred, forwarder_deferred_spec, method_signature, method_signature_spec, ret_spelling, ret_spelling_spec};
use crate::codegen::lookup::{is_accessor_method, is_accessor_method_spec, is_nullable_field, is_nullable_field_spec, method_overridden_in_subclass, method_overridden_in_subclass_spec, method_overrides_base, method_overrides_base_spec};
use crate::lexer::{cut, cut_spec, is_word, is_word_spec};
use crate::model::{ClassV, DeclV, FieldV, FunctionV, ParamV, TypeV, decls_v, params_v};
use crate::parser::pp::{trim, trim_spec};
use crate::parser::types::{meta_has, meta_has_spec};
use crate::program::{Holder, HolderV, Program, ProgramV};
use crate::resolve::{facts_of, facts_of_spec, meta_arg, meta_arg_spec};
use crate::strings::{before, before_spec, cap, cap_spec, ends_with, join, join_spec, starts_with};
use crate::text::{cat2, cat3, cat4, cat5, cat6, cat7, cat8, chars_of, empty, same, texts};

verus! {

broadcast use {crate::model::group_model, crate::program::group_program, crate::text::group_texts};

/// An operator, a conversion or a converting constructor that calls a method: inside the
/// class, or declared there and defined after all classes.
pub struct Forwarder {
    pub inside: String,
    pub decl: String,
    pub def: String,
}

/// Mathematical model of [`Forwarder`].
pub struct ForwarderV {
    pub inside: Seq<char>,
    pub decl: Seq<char>,
    pub def: Seq<char>,
}

impl Forwarder {
    /// The value with every string and list seen as a sequence.
    pub open spec fn v(self) -> ForwarderV
    {
        ForwarderV {
            inside: self.inside@,
            decl: self.decl@,
            def: self.def@,
        }
    }
}

/// Whether a text is an operator of two operands.
pub fn is_binary_token(op: &str) -> (r: bool)
    ensures
        r == is_binary_token_spec(op@),
{
    proof {
        reveal(is_binary_token_spec);
    }
    same(op, "+") || same(op, "-") || same(op, "*") || same(op, "/") || same(op, "%") || same(op, "==")
        || same(op, "!=") || same(op, "<") || same(op, ">") || same(op, "<=") || same(op, ">=")
        || same(op, "<<") || same(op, ">>") || same(op, "&") || same(op, "|") || same(op, "^")
        || same(op, "&&") || same(op, "||")
}

/// Whether a text is a prefix operator.
pub fn is_prefix_token(op: &str) -> (r: bool)
    ensures
        r == is_prefix_token_spec(op@),
{
    proof {
        reveal(is_prefix_token_spec);
    }
    same(op, "-") || same(op, "!") || same(op, "~") || same(op, "++") || same(op, "--")
}

/// Whether a character is part of an operand's name.
pub fn operator_start(cs: &Vec<char>, i: usize) -> (r: usize)
    ensures
        (r as int) == operator_start_spec(cs@, (i as int)),
{
    let ghost i_0 = i;
    let mut i: usize = i;
    #[verifier::loop_isolation(false)]
    loop
        invariant
            operator_start_spec(cs@, (i_0 as int)) == operator_start_spec(cs@, (i as int)),
        decreases cs.len() - i,
    {
        if i >= cs.len() || !(is_word(cs[i]) || cs[i] == ' ') {
            return i;
        }
        i = i + 1;
    }
}

/// The end of the run at `i` that holds no word character and no space.
pub fn operator_end(cs: &Vec<char>, i: usize) -> (r: usize)
    ensures
        (r as int) == operator_end_spec(cs@, (i as int)),
{
    let ghost i_0 = i;
    let mut i: usize = i;
    #[verifier::loop_isolation(false)]
    loop
        invariant
            operator_end_spec(cs@, (i_0 as int)) == operator_end_spec(cs@, (i as int)),
        decreases cs.len() - i,
    {
        if i >= cs.len() || is_word(cs[i]) || cs[i] == ' ' {
            return i;
        }
        i = i + 1;
    }
}

/// The C++ operator that `@:op(...)` on a method with `n` parameters asks for: an index with
/// one, an operator between two operands with one, a prefix operator with none. Any other
/// form has none.
pub fn cpp_operator(arg: &str, n: usize) -> (r: Option<String>)
    ensures
        (match r { Some(y) => Some(y@), None => None }) == cpp_operator_spec(arg@, (n as int)),
{
    proof {
        reveal(cpp_operator_spec);
    }
    let cs = chars_of(&trim(arg));
    let a: usize = operator_start(&cs, 0);
    let b: usize = operator_end(&cs, a);
    let op = cut(&cs, a, b);
    if same(&op, "[]") {
        return if n == 1 { Some(op) } else { None };
    }
    let rest: usize = operator_start(&cs, b);
    if a > 0 {
        // between two operands
        if n == 1 && b < cs.len() && rest >= cs.len() && is_binary_token(&op) { Some(op) } else { None }
    } else {
        if n == 0 && b < cs.len() && rest >= cs.len() && is_prefix_token(&op) { Some(op) } else { None }
    }
}

/// The operator a method marked `@:op` is also reached by.
pub fn op_forwarder(prog: &Program, mi: usize, ns: &Vec<String>, cpp: &str, m: &Function, ret: &Option<Type>) -> (r: Option<Forwarder>)
    ensures
        (match r { Some(y) => Some(y.v()), None => None }) == op_forwarder_spec(prog.v(), (mi as int), texts(ns@), cpp@, m.v(), (match ret { Some(y) => Some(y.v()), None => None })),
{
    proof {
        reveal(op_forwarder_spec);
    }
    match &m.name {
        Some(name) => match meta_arg(&m.meta, "op", 0) {
            Some(arg) => match cpp_operator(&arg, m.params.len()) {
                Some(op) => {
                    let r0 = ret_spelling(prog, mi, ns, ret);
                    let params = param_list(prog, mi, ns, &m.params, true);
                    let body = cat5(" { return ", name, "(", &join(&param_names(&m.params, 0, Vec::new()), ", "), "); }");
                    Some(Forwarder {
                        inside: cat7(&r0, " operator", &op, "(", &params, ")", &body),
                        decl: cat6(&r0, " operator", &op, "(", &params, ");"),
                        def: cat3(&cat8("inline ", &r0, " ", cpp, "::operator", &op, "(", &params), ")", &body),
                    })
                },
                None => None,
            },
            None => None,
        },
        None => None,
    }
}

/// The conversion a method marked `@:to` is: of an object, without parameters.
pub fn to_forwarder(prog: &Program, mi: usize, ns: &Vec<String>, cpp: &str, m: &Function, ret: &Option<Type>) -> (r: Option<Forwarder>)
    ensures
        (match r { Some(y) => Some(y.v()), None => None }) == to_forwarder_spec(prog.v(), (mi as int), texts(ns@), cpp@, m.v(), (match ret { Some(y) => Some(y.v()), None => None })),
{
    proof {
        reveal(to_forwarder_spec);
    }
    if !meta_has(&m.meta, "to") || m.modifiers.is_static || m.params.len() > 0 {
        return None;
    }
    match &m.name {
        Some(name) => match ret {
            Some(t) => {
                let target = map_type_use(prog, t, mi, ns);
                Some(Forwarder {
                    inside: cat5("operator ", &target, "() { return ", name, "(); }"),
                    decl: cat3("operator ", &target, "();"),
                    def: cat7("inline ", cpp, "::operator ", &target, "() { return ", name, "(); }"),
                })
            },
            None => None,
        },
        None => None,
    }
}

/// The converting constructor a method marked `@:from` is: static, of one parameter.
pub fn converting_ctor(prog: &Program, mi: usize, ns: &Vec<String>, cpp: &str, m: &Function) -> (r: Option<Forwarder>)
    ensures
        (match r { Some(y) => Some(y.v()), None => None }) == converting_ctor_spec(prog.v(), (mi as int), texts(ns@), cpp@, m.v()),
{
    proof {
        reveal(converting_ctor_spec);
    }
    if !meta_has(&m.meta, "from") || !m.modifiers.is_static || m.params.len() != 1 {
        return None;
    }
    match &m.name {
        Some(name) => {
            let decl = before(&param_decl(prog, mi, ns, &m.params[0]), " = ");
            let body = cat5(" { *this = ", name, "(", &m.params[0].name, "); }");
            Some(Forwarder {
                inside: cat5(cpp, "(", &decl, ")", &body),
                decl: cat4(cpp, "(", &decl, ");"),
                def: cat8("inline ", cpp, "::", cpp, "(", &decl, ")", &body),
            })
        },
        None => None,
    }
}

/// The lines of a forwarder: those in the class, and those after all classes.
pub fn place_forwarder(f: &Option<Forwarder>, deferred: bool, t: &str) -> (r: (String, String))
    ensures
        (r.0@, r.1@) == place_forwarder_spec((match f { Some(y) => Some(y.v()), None => None }), deferred, t@),
{
    match f {
        Some(w) => {
            if deferred {
                (cat4(t, "\t", &w.decl, "\n"), cat3(t, &w.def, "\n"))
            } else {
                (cat4(t, "\t", &w.inside, "\n"), String::new())
            }
        },
        None => (String::new(), String::new()),
    }
}

/// The type of the first parameter.
pub fn first_param_type(m: &Function) -> (r: Option<Type>)
    ensures
        (match r { Some(y) => Some(y.v()), None => None }) == first_param_type_spec(m.v()),
{
    if m.params.len() == 0 {
        return None;
    }
    match &m.params[0].ty {
        Some(t) => Some(t.dup()),
        None => None,
    }
}

/// Whether a parameter from `i` on has a type that mentions one defined after a class.
pub fn params_deferred(decls: &Vec<Decl>, c: &Class, params: &Vec<Param>, i: usize) -> (r: bool)
    ensures
        r == params_deferred_spec(decls_v(decls@), c.v(), params_v(params@), (i as int)),
{
    let ghost i_0 = i;
    let mut i: usize = i;
    #[verifier::loop_isolation(false)]
    loop
        invariant
            params_deferred_spec(decls_v(decls@), c.v(), params_v(params@), (i_0 as int)) == params_deferred_spec(decls_v(decls@), c.v(), params_v(params@), (i as int)),
        decreases params.len() - i,
    {
        if i >= params.len() {
            return false;
        }
        if forwarder_deferred(decls, c, &params[i].ty) {
            return true;
        }
        i = i + 1;
    }
}

/// The operators and conversions a method is also reached by.
pub fn forwarders(prog: &Program, mi: usize, ns: &Vec<String>, decls: &Vec<Decl>, c: &Class, cpp: &str, m: &Function, ret: &Option<Type>, t: &str) -> (r: (String, String))
    ensures
        (r.0@, r.1@) == forwarders_spec(prog.v(), (mi as int), texts(ns@), decls_v(decls@), c.v(), cpp@, m.v(), (match ret { Some(y) => Some(y.v()), None => None }), t@),
{
    proof {
        reveal(forwarders_spec);
    }
    let later = forwarder_deferred(decls, c, ret);
    let (a, x) = place_forwarder(&op_forwarder(prog, mi, ns, cpp, m, ret), later || params_deferred(decls, c, &m.params, 0), t);
    let (b, y) = place_forwarder(&to_forwarder(prog, mi, ns, cpp, m, ret), later, t);
    let (d, z) = place_forwarder(&converting_ctor(prog, mi, ns, cpp, m), forwarder_deferred(decls, c, &first_param_type(m)), t);
    (cat3(&a, &b, &d), cat3(&x, &y, &z))
}

/// A return type: the declared one, else that of the property an accessor belongs to.
pub fn effective_ret(c: &Class, name: &str, ret: &Option<Type>) -> (r: Option<Type>)
    ensures
        (match r { Some(y) => Some(y.v()), None => None }) == effective_ret_spec(c.v(), name@, (match ret { Some(y) => Some(y.v()), None => None })),
{
    proof {
        reveal(effective_ret_spec);
    }
    match ret {
        Some(t) => Some(t.dup()),
        None => accessor_ret_type(c, name),
    }
}

/// The declaration of a method. It is virtual where it overrides or is overridden, and pure
/// where it is abstract.
pub fn method_line(prog: &Program, mi: usize, ns: &Vec<String>, c: &Class, m: &Function, name: &str, ret: &Option<Type>, t: &str) -> (r: String)
    ensures
        r@ == method_line_spec(prog.v(), (mi as int), texts(ns@), c.v(), m.v(), name@, (match ret { Some(y) => Some(y.v()), None => None }), t@),
{
    proof {
        reveal(method_line_spec);
    }
    let sig = method_signature(prog, mi, ns, m, ret);
    if m.modifiers.is_abstract {
        return cat4(t, "\tvirtual ", &sig, " = 0;\n");
    }
    if m.modifiers.is_static {
        return cat4(t, "\tstatic ", &sig, ";\n");
    }
    let virt = if m.modifiers.is_override || method_overrides_base(prog, c, mi, name)
        || method_overridden_in_subclass(prog, c, mi, name) { "virtual " } else { "" };
    cat5(t, "\t", virt, &sig, ";\n")
}

/// The methods from `i` on: public lines, hidden lines, and definitions for later.
pub fn method_lines(prog: &Program, mi: usize, ns: &Vec<String>, decls: &Vec<Decl>, c: &Class, cpp: &str, t: &str, i: usize, shown: String, hidden: String, later: String) -> (r: (String, String, String))
    ensures
        (r.0@, r.1@, r.2@) == method_lines_spec(prog.v(), (mi as int), texts(ns@), decls_v(decls@), c.v(), cpp@, t@, (i as int), shown@, hidden@, later@),
{
    let ghost i_0 = i;
    let ghost shown_0 = shown;
    let ghost hidden_0 = hidden;
    let ghost later_0 = later;
    let mut i: usize = i;
    let mut shown: String = shown;
    let mut hidden: String = hidden;
    let mut later: String = later;
    #[verifier::loop_isolation(false)]
    loop
        invariant
            method_lines_spec(prog.v(), (mi as int), texts(ns@), decls_v(decls@), c.v(), cpp@, t@, (i_0 as int), shown_0@, hidden_0@, later_0@) == method_lines_spec(prog.v(), (mi as int), texts(ns@), decls_v(decls@), c.v(), cpp@, t@, (i as int), shown@, hidden@, later@),
        decreases c.methods.len() - i,
    {
        if i >= c.methods.len() {
            return (shown, hidden, later);
        }
        match &c.methods[i].name {
            Some(name) => {
                if !is_accessor_method(c, name) {
                    let ret = effective_ret(c, name, &c.methods[i].ret);
                    let text = method_line(prog, mi, ns, c, &c.methods[i], name, &ret, t);
                    let (fwd, def) = forwarders(prog, mi, ns, decls, c, cpp, &c.methods[i], &ret, t);
                    if method_access(c, &c.methods[i]) == Access::Public {
                        shown = cat2(&shown, &text);
                    } else {
                        hidden = cat2(&hidden, &text);
                    }
                    shown = cat2(&shown, &fwd);
                    later = cat2(&later, &def);
                }
            },
            None => {},
        }
        i = i + 1;
    }
}

/// The type of a field: a value structure that can be null is a pointer.
pub fn field_type(prog: &Program, mi: usize, ns: &Vec<String>, c: &Class, f: &Field) -> (r: String)
    ensures
        r@ == field_type_spec(prog.v(), (mi as int), texts(ns@), c.v(), f.v()),
{
    proof {
        reveal(field_type_spec);
    }
    match &f.ty {
        Some(t) => {
            let used = map_type_use(prog, t, mi, ns);
            if !ends_with(&used, "*") && is_nullable_field(c, &f.name) && is_value_struct(prog, mi, t) {
                cat2(&map_type_base(prog, t, mi, ns), "*")
            } else {
                used
            }
        },
        None => "void*".to_owned(),
    }
}

/// Whether a type, its aliases followed, is a container or a structure.
pub fn is_shared_value(prog: &Program, mi: usize, ns: &Vec<String>, t: &Type) -> (r: bool)
    ensures
        r == is_shared_value_spec(prog.v(), (mi as int), texts(ns@), t.v()),
{
    proof {
        reveal(is_shared_value_spec);
    }
    let cpp = map_type_use(prog, &resolve_alias_type(prog, t, mi), mi, ns);
    starts_with(&cpp, "std::vector") || starts_with(&cpp, "std::map") || is_value_struct(prog, mi, t)
}

/// What a generated getter returns: containers and structures by reference, pointers as they
/// are, anything else as a constant copy.
pub fn getter_type(prog: &Program, mi: usize, ns: &Vec<String>, f: &Field, fty: &str) -> (r: String)
    ensures
        r@ == getter_type_spec(prog.v(), (mi as int), texts(ns@), f.v(), fty@),
{
    proof {
        reveal(getter_type_spec);
    }
    let shared = match &f.ty {
        Some(t) => is_shared_value(prog, mi, ns, t),
        None => false,
    };
    if ends_with(fty, "*") {
        fty.to_owned()
    } else if shared {
        cat2(fty, "&")
    } else {
        cat2("const ", fty)
    }
}

/// The generated accessors of a property.
pub fn emit_accessors(prog: &Program, mi: usize, ns: &Vec<String>, c: &Class, f: &Field, t: &str) -> (r: String)
    ensures
        r@ == emit_accessors_spec(prog.v(), (mi as int), texts(ns@), c.v(), f.v(), t@),
{
    proof {
        reveal(emit_accessors_spec);
    }
    let fty = field_type(prog, mi, ns, c, f);
    let getter = if generated_getter(f) {
        cat8(t, "\t", &getter_type(prog, mi, ns, f, &fty), " Get", &cap(&f.name), "() { return ", &f.name, "; }\n")
    } else {
        String::new()
    };
    if f.set == PropAccess::Setter && !custom_setter(c, f) {
        cat6(&cat8(&getter, t, "\tvoid Set", &cap(&f.name), "(", &fty, " ", &f.name), ") { this->", &f.name, " = ", &f.name, "; }\n")
    } else {
        getter
    }
}

/// The declarations of the accessors of the properties from `i` on.
pub fn accessor_lines(prog: &Program, mi: usize, ns: &Vec<String>, c: &Class, t: &str, i: usize, out: String) -> (r: String)
    ensures
        r@ == accessor_lines_spec(prog.v(), (mi as int), texts(ns@), c.v(), t@, (i as int), out@),
{
    let ghost i_0 = i;
    let ghost out_0 = out;
    let mut i: usize = i;
    let mut out: String = out;
    #[verifier::loop_isolation(false)]
    loop
        invariant
            accessor_lines_spec(prog.v(), (mi as int), texts(ns@), c.v(), t@, (i_0 as int), out_0@) == accessor_lines_spec(prog.v(), (mi as int), texts(ns@), c.v(), t@, (i as int), out@),
        decreases c.fields.len() - i,
    {
        if i >= c.fields.len() {
            return out;
        }
        out = cat2(&out, &emit_accessors(prog, mi, ns, c, &c.fields[i], t));
        i = i + 1;
    }
}

/// The declaration of a static field: a constant, an accessor, or a plain static.
pub fn static_line(prog: &Program, mi: usize, ns: &Vec<String>, c: &Class, f: &Field, t: &str) -> (r: String)
    ensures
        r@ == static_line_spec(prog.v(), (mi as int), texts(ns@), c.v(), f.v(), t@),
{
    proof {
        reveal(static_line_spec);
    }
    let fty = field_type(prog, mi, ns, c, f);
    if is_const_static(f) {
        let lit = match &f.init {
            Some(e) => match render_scalar_literal(e) {
                Some(v) => v,
                None => String::new(),
            },
            None => String::new(),
        };
        return cat8(t, "\tstatic const ", &fty, " ", &f.name, " = ", &lit, ";\n");
    }
    if is_meyers_static(prog, mi, f) {
        let cst = if final_is_const(f) { "const " } else { "" };
        return cat7(t, "\tstatic ", cst, &fty, "& ", &f.name, "();\n");
    }
    cat6(t, "\tstatic ", &fty, " ", &f.name, ";\n")
}

/// A space where a template argument ends in `>`.
pub fn pad(s: &str) -> (r: String)
    ensures
        r@ == pad_spec(s@),
{
    if ends_with(s, ">") {
        " ".to_owned()
    } else {
        String::new()
    }
}

/// The two vectors an ordered map is stored in.
pub fn ordered_map_lines(prog: &Program, mi: usize, ns: &Vec<String>, f: &Field, t: &str) -> (r: Option<String>)
    ensures
        (match r { Some(y) => Some(y@), None => None }) == ordered_map_lines_spec(prog.v(), (mi as int), texts(ns@), f.v(), t@),
{
    proof {
        reveal(ordered_map_lines_spec);
    }
    match ordered_map_kv(f) {
        Some((kty, vty)) => {
            let k = map_type_use(prog, &kty, mi, ns);
            let v = map_type_use(prog, &vty, mi, ns);
            Some(cat7(&cat8(t, "\tstd::vector<", &k, &pad(&k), "> ", &f.name, "_keys;\n", t), "\tstd::vector<", &v, &pad(&v), "> ", &f.name, "_vals;\n"))
        },
        None => None,
    }
}

/// Whether the backing field of a property is hidden: its writes are restricted or routed,
/// or a custom getter reads it.
pub fn hides_backing(f: &Field) -> (r: bool)
    ensures
        r == hides_backing_spec(f.v()),
{
    has_accessor(f) && (f.set != PropAccess::Default || f.get == PropAccess::Get)
}

/// The line of a field, and whether it is public.
pub fn field_line(prog: &Program, mi: usize, ns: &Vec<String>, c: &Class, f: &Field, t: &str) -> (r: (String, bool))
    ensures
        (r.0@, r.1) == field_line_spec(prog.v(), (mi as int), texts(ns@), c.v(), f.v(), t@),
{
    proof {
        reveal(field_line_spec);
    }
    let public = f.access == Access::Public;
    if f.is_static {
        return (static_line(prog, mi, ns, c, f, t), public);
    }
    // a computed property has no storage
    if f.get == PropAccess::Get && f.set == PropAccess::Never && !meta_has(&f.meta, "isVar") {
        return (String::new(), public);
    }
    match ordered_map_lines(prog, mi, ns, f, t) {
        Some(text) => (text, public),
        None => (cat6(t, "\t", &field_type(prog, mi, ns, c, f), " ", &f.name, ";\n"), public && !hides_backing(f)),
    }
}

/// The fields from `i` on: public lines and hidden lines.
pub fn field_lines(prog: &Program, mi: usize, ns: &Vec<String>, c: &Class, t: &str, i: usize, shown: String, hidden: String) -> (r: (String, String))
    ensures
        (r.0@, r.1@) == field_lines_spec(prog.v(), (mi as int), texts(ns@), c.v(), t@, (i as int), shown@, hidden@),
{
    let ghost i_0 = i;
    let ghost shown_0 = shown;
    let ghost hidden_0 = hidden;
    let mut i: usize = i;
    let mut shown: String = shown;
    let mut hidden: String = hidden;
    #[verifier::loop_isolation(false)]
    loop
        invariant
            field_lines_spec(prog.v(), (mi as int), texts(ns@), c.v(), t@, (i_0 as int), shown_0@, hidden_0@) == field_lines_spec(prog.v(), (mi as int), texts(ns@), c.v(), t@, (i as int), shown@, hidden@),
        decreases c.fields.len() - i,
    {
        if i >= c.fields.len() {
            return (shown, hidden);
        }
        let (text, public) = field_line(prog, mi, ns, c, &c.fields[i], t);
        if public {
            shown = cat2(&shown, &text);
        } else {
            hidden = cat2(&hidden, &text);
        }
        i = i + 1;
    }
}

/// The lines from `i` on, each behind `t`.
pub fn indented(lines: &Vec<String>, t: &str, i: usize, out: String) -> (r: String)
    ensures
        r@ == indented_spec(texts(lines@), t@, (i as int), out@),
{
    let ghost i_0 = i;
    let ghost out_0 = out;
    let mut i: usize = i;
    let mut out: String = out;
    #[verifier::loop_isolation(false)]
    loop
        invariant
            indented_spec(texts(lines@), t@, (i_0 as int), out_0@) == indented_spec(texts(lines@), t@, (i as int), out@),
        decreases lines.len() - i,
    {
        if i >= lines.len() {
            return out;
        }
        out = cat4(&out, t, &lines[i], "\n");
        i = i + 1;
    }
}

/// The destructor: it frees what the class owns, and is virtual unless the class is a value.
pub fn dtor_text(c: &Class, cpp: &str, deletes: &Vec<String>, t: &str) -> (r: String)
    ensures
        r@ == dtor_text_spec(c.v(), cpp@, texts(deletes@), t@),
{
    proof {
        reveal(dtor_text_spec);
    }
    let virt = if meta_has(&c.meta, "stackOnly") || c.abstract_underlying.is_some() { "" } else { "virtual " };
    if deletes.len() == 0 {
        cat6(t, "\t", virt, "~", cpp, "() {}\n")
    } else {
        cat2(&cat8(t, "\t", virt, "~", cpp, "() {\n", &indented(deletes, &cat2(t, "\t\t"), 0, String::new()), t), "\t}\n")
    }
}

/// The bases of a class.
pub fn class_bases(prog: &Program, mi: usize, ns: &Vec<String>, c: &Class) -> (r: String)
    ensures
        r@ == class_bases_spec(prog.v(), (mi as int), texts(ns@), c.v()),
{
    proof {
        reveal(class_bases_spec);
    }
    let mut parts: Vec<String> = Vec::new();
    match &c.extends {
        Some(sup) => {
            parts.push(cat2("public ", &map_type_base(prog, sup, mi, ns)));
        },
        None => {},
    }
    base_list(&base_parts(prog, mi, ns, &c.implements, 0, parts))
}

/// The structure that computes what a constructor does before `super(...)`.
pub fn holder_text(prog: &Program, mi: usize, ns: &Vec<String>, h: &Holder, ctor: &Function, t: &str) -> (r: String)
    ensures
        r@ == holder_text_spec(prog.v(), (mi as int), texts(ns@), h.v(), ctor.v(), t@),
{
    proof {
        reveal(holder_text_spec);
    }
    cat6(&cat8(t, "struct ", &h.name, " {\n", &indented(&h.member_decls, &cat2(t, "\t"), 0, String::new()), t, "\t", &h.name), "(", &param_list(prog, mi, ns, &ctor.params, false), ");\n", t, "};\n\n")
}

/// The declaration of a class, and the definitions that must follow all classes.
pub fn emit_class(prog: &Program, mi: usize, ns: &Vec<String>, decls: &Vec<Decl>, c: &Class, t: &str) -> (r: (String, String))
    ensures
        (r.0@, r.1@) == emit_class_spec(prog.v(), (mi as int), texts(ns@), decls_v(decls@), c.v(), t@),
{
    proof {
        reveal(emit_class_spec);
    }
    let cpp = cpp_def_name(prog, mi, &c.name);
    let export = if meta_has(&c.meta, "libexport") { cat2(&prog.export_macro, "_CLASS ") } else { String::new() };
    let ctor_line = match &c.ctor {
        Some(f) => cat6(t, "\t", &cpp, "(", &param_list(prog, mi, ns, &f.params, true), ");\n"),
        None => String::new(),
    };
    let (front, base, dtor) = match facts_of(prog, &c.name, mi) {
        Some(facts) => {
            let dtor = dtor_text(c, &cpp, &facts.deletes, t);
            match &facts.holder {
                Some(h) => match &c.ctor {
                    Some(f) => (holder_text(prog, mi, ns, h, f, t), h.base_list.clone(), dtor),
                    None => (String::new(), h.base_list.clone(), dtor),
                },
                None => (String::new(), class_bases(prog, mi, ns, c), dtor),
            }
        },
        None => (String::new(), class_bases(prog, mi, ns, c), dtor_text(c, &cpp, &Vec::new(), t)),
    };
    let (s1, h1, later) = method_lines(prog, mi, ns, decls, c, &cpp, t, 0, cat2(&ctor_line, &dtor), String::new(), String::new());
    let s2 = accessor_lines(prog, mi, ns, c, t, 0, s1);
    let (shown, hidden) = field_lines(prog, mi, ns, c, t, 0, s2, h1);
    let protected = if empty(&hidden) { String::new() } else { cat3(t, "protected:\n", &hidden) };
    (cat6(&cat8(&front, t, "class ", &export, &cpp, &base, " {\n", t), "public:\n", &shown, &protected, t, "};\n"), later)
}

/// What [`is_binary_token`] computes.
#[verifier::opaque]
pub open spec fn is_binary_token_spec(op: Seq<char>) -> bool
{
    (op == "+"@) || (op == "-"@) || (op == "*"@) || (op == "/"@) || (op == "%"@) || (op == "=="@) || (op == "!="@) || (op == "<"@) || (op == ">"@) || (op == "<="@) || (op == ">="@) || (op == "<<"@) || (op == ">>"@) || (op == "&"@) || (op == "|"@) || (op == "^"@) || (op == "&&"@) || (op == "||"@)
}

/// What [`is_prefix_token`] computes.
#[verifier::opaque]
pub open spec fn is_prefix_token_spec(op: Seq<char>) -> bool
{
    (op == "-"@) || (op == "!"@) || (op == "~"@) || (op == "++"@) || (op == "--"@)
}

/// What [`operator_start`] computes.
pub open spec fn operator_start_spec(cs: Seq<char>, i: int) -> int
    decreases cs.len() - i,
{
    if !(0 <= i < cs.len()) || (!(is_word_spec(cs[i]) || ((cs[i]) == ' '))) { i } else {
        let i = i + 1;
        operator_start_spec(cs, i)
    }
}

/// What [`operator_end`] computes.
pub open spec fn operator_end_spec(cs: Seq<char>, i: int) -> int
    decreases cs.len() - i,
{
    if !(0 <= i < cs.len()) || is_word_spec(cs[i]) || ((cs[i]) == ' ') { i } else {
        let i = i + 1;
        operator_end_spec(cs, i)
    }
}

/// What [`cpp_operator`] computes.
#[verifier::opaque]
pub open spec fn cpp_operator_spec(arg: Seq<char>, n: int) -> Option<Seq<char>>
{
    let cs = trim_spec(arg);
    let a: int = operator_start_spec(cs, 0int);
    let b: int = operator_end_spec(cs, a);
    let op = cut_spec(cs, a, b);
    if (op == "[]"@) {
        if n == 1 { Some(op) } else { None }
    } else {
        let rest: int = operator_start_spec(cs, b);
        if a > 0 {
            if (n == 1) && (b < (cs.len())) && !(0 <= rest < cs.len()) && is_binary_token_spec(op) { Some(op) } else { None }
        } else {
            if (n == 0) && (b < (cs.len())) && !(0 <= rest < cs.len()) && is_prefix_token_spec(op) { Some(op) } else { None }
        }
    }
}

/// What [`op_forwarder`] computes.
#[verifier::opaque]
pub open spec fn op_forwarder_spec(prog: ProgramV, mi: int, ns: Seq<Seq<char>>, cpp: Seq<char>, m: FunctionV, ret: Option<TypeV>) -> Option<ForwarderV>
{
    match m.name {
        Some(name) => {
            match meta_arg_spec(m.meta, "op"@, 0int) {
                Some(arg) => {
                    match cpp_operator_spec(arg, m.params.len() as int) {
                        Some(op) => {
                            let r0 = ret_spelling_spec(prog, mi, ns, ret);
                            let params = param_list_spec(prog, mi, ns, m.params, true);
                            let body = " { return "@ + name + "("@ + (join_spec(param_names_spec(m.params, 0int, Seq::empty()), ", "@)) + "); }"@;
                            Some(ForwarderV { inside: r0 + " operator"@ + op + "("@ + params + ")"@ + body, decl: r0 + " operator"@ + op + "("@ + params + ");"@, def: "inline "@ + r0 + " "@ + cpp + "::operator"@ + op + "("@ + params + ")"@ + body })
                        },
                        None => { None },
                    }
                },
                None => { None },
            }
        },
        None => { None },
    }
}

/// What [`to_forwarder`] computes.
#[verifier::opaque]
pub open spec fn to_forwarder_spec(prog: ProgramV, mi: int, ns: Seq<Seq<char>>, cpp: Seq<char>, m: FunctionV, ret: Option<TypeV>) -> Option<ForwarderV>
{
    if (!meta_has_spec(m.meta, "to"@)) || m.modifiers.is_static || ((m.params.len()) > 0) { None } else {
        match m.name {
            Some(name) => {
                match ret {
                    Some(t) => {
                        let target = map_type_use_spec(prog, t, mi, ns);
                        Some(ForwarderV { inside: "operator "@ + target + "() { return "@ + name + "(); }"@, decl: "operator "@ + target + "();"@, def: "inline "@ + cpp + "::operator "@ + target + "() { return "@ + name + "(); }"@ })
                    },
                    None => { None },
                }
            },
            None => { None },
        }
    }
}

/// What [`converting_ctor`] computes.
#[verifier::opaque]
pub open spec fn converting_ctor_spec(prog: ProgramV, mi: int, ns: Seq<Seq<char>>, cpp: Seq<char>, m: FunctionV) -> Option<ForwarderV>
{
    if (!meta_has_spec(m.meta, "from"@)) || (!m.modifiers.is_static) || ((m.params.len()) != 1) { None } else {
        match m.name {
            Some(name) => {
                let decl = before_spec(param_decl_spec(prog, mi, ns, m.params[0]), " = "@);
                let body = " { *this = "@ + name + "("@ + (m.params[0].name) + "); }"@;
                Some(ForwarderV { inside: cpp + "("@ + decl + ")"@ + body, decl: cpp + "("@ + decl + ");"@, def: "inline "@ + cpp + "::"@ + cpp + "("@ + decl + ")"@ + body })
            },
            None => { None },
        }
    }
}

/// What [`place_forwarder`] computes.
pub open spec fn place_forwarder_spec(f: Option<ForwarderV>, deferred: bool, t: Seq<char>) -> (Seq<char>, Seq<char>)
{
    match f {
        Some(w) => {
            if deferred { (t + "\t"@ + w.decl + "\n"@, t + w.def + "\n"@) } else { (t + "\t"@ + w.inside + "\n"@, Seq::empty()) }
        },
        None => { (Seq::empty(), Seq::empty()) },
    }
}

/// What [`first_param_type`] computes.
pub open spec fn first_param_type_spec(m: FunctionV) -> Option<TypeV>
{
    if (m.params.len()) == 0 { None } else {
        match m.params[0].ty {
            Some(t) => { Some(t) },
            None => { None },
        }
    }
}

/// What [`params_deferred`] computes.
pub open spec fn params_deferred_spec(decls: Seq<DeclV>, c: ClassV, params: Seq<ParamV>, i: int) -> bool
    decreases params.len() - i,
{
    if !(0 <= i < params.len()) { false } else {
        if forwarder_deferred_spec(decls, c, params[i].ty) { true } else {
            let i = i + 1;
            params_deferred_spec(decls, c, params, i)
        }
    }
}

/// What [`forwarders`] computes.
#[verifier::opaque]
pub open spec fn forwarders_spec(prog: ProgramV, mi: int, ns: Seq<Seq<char>>, decls: Seq<DeclV>, c: ClassV, cpp: Seq<char>, m: FunctionV, ret: Option<TypeV>, t: Seq<char>) -> (Seq<char>, Seq<char>)
{
    let later = forwarder_deferred_spec(decls, c, ret);
    let (a, x) = place_forwarder_spec(op_forwarder_spec(prog, mi, ns, cpp, m, ret), later || params_deferred_spec(decls, c, m.params, 0int), t);
    let (b, y) = place_forwarder_spec(to_forwarder_spec(prog, mi, ns, cpp, m, ret), later, t);
    let (d, z) = place_forwarder_spec(converting_ctor_spec(prog, mi, ns, cpp, m), forwarder_deferred_spec(decls, c, first_param_type_spec(m)), t);
    (a + b + d, x + y + z)
}

/// What [`effective_ret`] computes.
#[verifier::opaque]
pub open spec fn effective_ret_spec(c: ClassV, name: Seq<char>, ret: Option<TypeV>) -> Option<TypeV>
{
    match ret {
        Some(t) => { Some(t) },
        None => { accessor_ret_type_spec(c, name) },
    }
}

/// What [`method_line`] computes.
#[verifier::opaque]
pub open spec fn method_line_spec(prog: ProgramV, mi: int, ns: Seq<Seq<char>>, c: ClassV, m: FunctionV, name: Seq<char>, ret: Option<TypeV>, t: Seq<char>) -> Seq<char>
{
    let sig = method_signature_spec(prog, mi, ns, m, ret);
    if m.modifiers.is_abstract {
        t + "\tvirtual "@ + sig + " = 0;\n"@
    } else {
        if m.modifiers.is_static {
            t + "\tstatic "@ + sig + ";\n"@
        } else {
            let virt = if m.modifiers.is_override || method_overrides_base_spec(prog, c, mi, name) || method_overridden_in_subclass_spec(prog, c, mi, name) { "virtual "@ } else { ""@ };
            t + "\t"@ + virt + sig + ";\n"@
        }
    }
}

/// What [`method_lines`] computes.
pub open spec fn method_lines_spec(prog: ProgramV, mi: int, ns: Seq<Seq<char>>, decls: Seq<DeclV>, c: ClassV, cpp: Seq<char>, t: Seq<char>, i: int, shown: Seq<char>, hidden: Seq<char>, later: Seq<char>) -> (Seq<char>, Seq<char>, Seq<char>)
    decreases c.methods.len() - i,
{
    if !(0 <= i < c.methods.len()) { (shown, hidden, later) } else {
        let (hidden, later, shown) = match c.methods[i].name {
            Some(name) => {
                if !is_accessor_method_spec(c, name) {
                    let ret = effective_ret_spec(c, name, c.methods[i].ret);
                    let text = method_line_spec(prog, mi, ns, c, c.methods[i], name, ret, t);
                    let (fwd, def) = forwarders_spec(prog, mi, ns, decls, c, cpp, c.methods[i], ret, t);
                    let (hidden, shown) = if method_access_spec(c, c.methods[i]) == (Access::Public) {
                        let shown = shown + text;
                        (hidden, shown)
                    } else {
                        let hidden = hidden + text;
                        (hidden, shown)
                    };
                    let shown = shown + fwd;
                    let later = later + def;
                    (hidden, later, shown)
                } else { (hidden, later, shown) }
            },
            None => { (hidden, later, shown) },
        };
        let i = i + 1;
        method_lines_spec(prog, mi, ns, decls, c, cpp, t, i, shown, hidden, later)
    }
}

/// What [`field_type`] computes.
#[verifier::opaque]
pub open spec fn field_type_spec(prog: ProgramV, mi: int, ns: Seq<Seq<char>>, c: ClassV, f: FieldV) -> Seq<char>
{
    match f.ty {
        Some(t) => {
            let used = map_type_use_spec(prog, t, mi, ns);
            if (!(("*"@).is_suffix_of(used))) && is_nullable_field_spec(c, f.name) && is_value_struct_spec(prog, mi, t) { map_type_base_spec(prog, t, mi, ns) + "*"@ } else { used }
        },
        None => { "void*"@ },
    }
}

/// What [`is_shared_value`] computes.
#[verifier::opaque]
pub open spec fn is_shared_value_spec(prog: ProgramV, mi: int, ns: Seq<Seq<char>>, t: TypeV) -> bool
{
    let cpp = map_type_use_spec(prog, resolve_alias_type_spec(prog, t, mi), mi, ns);
    (("std::vector"@).is_prefix_of(cpp)) || (("std::map"@).is_prefix_of(cpp)) || is_value_struct_spec(prog, mi, t)
}

/// What [`getter_type`] computes.
#[verifier::opaque]
pub open spec fn getter_type_spec(prog: ProgramV, mi: int, ns: Seq<Seq<char>>, f: FieldV, fty: Seq<char>) -> Seq<char>
{
    let shared = match f.ty {
        Some(t) => { is_shared_value_spec(prog, mi, ns, t) },
        None => { false },
    };
    if ("*"@).is_suffix_of(fty) { fty } else if shared { fty + "&"@ } else { "const "@ + fty }
}

/// What [`emit_accessors`] computes.
#[verifier::opaque]
pub open spec fn emit_accessors_spec(prog: ProgramV, mi: int, ns: Seq<Seq<char>>, c: ClassV, f: FieldV, t: Seq<char>) -> Seq<char>
{
    let fty = field_type_spec(prog, mi, ns, c, f);
    let getter = if generated_getter_spec(f) {
        t + "\t"@ + getter_type_spec(prog, mi, ns, f, fty) + " Get"@ + cap_spec(f.name) + "() { return "@ + f.name + "; }\n"@
    } else { Seq::empty() };
    if (f.set == (PropAccess::Setter)) && (!custom_setter_spec(c, f)) {
        getter + t + "\tvoid Set"@ + cap_spec(f.name) + "("@ + fty + " "@ + f.name + ") { this->"@ + f.name + " = "@ + f.name + "; }\n"@
    } else { getter }
}

/// What [`accessor_lines`] computes.
pub open spec fn accessor_lines_spec(prog: ProgramV, mi: int, ns: Seq<Seq<char>>, c: ClassV, t: Seq<char>, i: int, out: Seq<char>) -> Seq<char>
    decreases c.fields.len() - i,
{
    if !(0 <= i < c.fields.len()) { out } else {
        let out = out + emit_accessors_spec(prog, mi, ns, c, c.fields[i], t);
        let i = i + 1;
        accessor_lines_spec(prog, mi, ns, c, t, i, out)
    }
}

/// What [`static_line`] computes.
#[verifier::opaque]
pub open spec fn static_line_spec(prog: ProgramV, mi: int, ns: Seq<Seq<char>>, c: ClassV, f: FieldV, t: Seq<char>) -> Seq<char>
{
    let fty = field_type_spec(prog, mi, ns, c, f);
    if is_const_static_spec(f) {
        let lit = match f.init {
            Some(e) => {
                match render_scalar_literal_spec(e) {
                    Some(v) => { v },
                    None => { Seq::empty() },
                }
            },
            None => { Seq::empty() },
        };
        t + "\tstatic const "@ + fty + " "@ + f.name + " = "@ + lit + ";\n"@
    } else {
        if is_meyers_static_spec(prog, mi, f) {
            let cst = if final_is_const_spec(f) { "const "@ } else { ""@ };
            t + "\tstatic "@ + cst + fty + "& "@ + f.name + "();\n"@
        } else {
            t + "\tstatic "@ + fty + " "@ + f.name + ";\n"@
        }
    }
}

/// What [`pad`] computes.
pub open spec fn pad_spec(s: Seq<char>) -> Seq<char>
{
    if (">"@).is_suffix_of(s) { " "@ } else { Seq::empty() }
}

/// What [`ordered_map_lines`] computes.
#[verifier::opaque]
pub open spec fn ordered_map_lines_spec(prog: ProgramV, mi: int, ns: Seq<Seq<char>>, f: FieldV, t: Seq<char>) -> Option<Seq<char>>
{
    match ordered_map_kv_spec(f) {
        Some((kty, vty)) => {
            let k = map_type_use_spec(prog, kty, mi, ns);
            let v = map_type_use_spec(prog, vty, mi, ns);
            Some(t + "\tstd::vector<"@ + k + pad_spec(k) + "> "@ + f.name + "_keys;\n"@ + t + "\tstd::vector<"@ + v + pad_spec(v) + "> "@ + f.name + "_vals;\n"@)
        },
        None => { None },
    }
}

/// What [`hides_backing`] computes.
pub open spec fn hides_backing_spec(f: FieldV) -> bool
{
    has_accessor_spec(f) && ((f.set != (PropAccess::Default)) || (f.get == (PropAccess::Get)))
}

/// What [`field_line`] computes.
#[verifier::opaque]
pub open spec fn field_line_spec(prog: ProgramV, mi: int, ns: Seq<Seq<char>>, c: ClassV, f: FieldV, t: Seq<char>) -> (Seq<char>, bool)
{
    let public = f.access == (Access::Public);
    if f.is_static { (static_line_spec(prog, mi, ns, c, f, t), public) } else {
        if (f.get == (PropAccess::Get)) && (f.set == (PropAccess::Never)) && (!meta_has_spec(f.meta, "isVar"@)) { (Seq::empty(), public) } else {
            match ordered_map_lines_spec(prog, mi, ns, f, t) {
                Some(text) => { (text, public) },
                None => {
                    (t + "\t"@ + field_type_spec(prog, mi, ns, c, f) + " "@ + f.name + ";\n"@, public && (!hides_backing_spec(f)))
                },
            }
        }
    }
}

/// What [`field_lines`] computes.
pub open spec fn field_lines_spec(prog: ProgramV, mi: int, ns: Seq<Seq<char>>, c: ClassV, t: Seq<char>, i: int, shown: Seq<char>, hidden: Seq<char>) -> (Seq<char>, Seq<char>)
    decreases c.fields.len() - i,
{
    if !(0 <= i < c.fields.len()) { (shown, hidden) } else {
        let (text, public) = field_line_spec(prog, mi, ns, c, c.fields[i], t);
        let (hidden, shown) = if public {
            let shown = shown + text;
            (hidden, shown)
        } else {
            let hidden = hidden + text;
            (hidden, shown)
        };
        let i = i + 1;
        field_lines_spec(prog, mi, ns, c, t, i, shown, hidden)
    }
}

/// What [`indented`] computes.
pub open spec fn indented_spec(lines: Seq<Seq<char>>, t: Seq<char>, i: int, out: Seq<char>) -> Seq<char>
    decreases lines.len() - i,
{
    if !(0 <= i < lines.len()) { out } else {
        let out = out + t + (lines[i]) + "\n"@;
        let i = i + 1;
        indented_spec(lines, t, i, out)
    }
}

/// What [`dtor_text`] computes.
#[verifier::opaque]
pub open spec fn dtor_text_spec(c: ClassV, cpp: Seq<char>, deletes: Seq<Seq<char>>, t: Seq<char>) -> Seq<char>
{
    let virt = if meta_has_spec(c.meta, "stackOnly"@) || (c.abstract_underlying is Some) { ""@ } else { "virtual "@ };
    if (deletes.len()) == 0 { t + "\t"@ + virt + "~"@ + cpp + "() {}\n"@ } else { t + "\t"@ + virt + "~"@ + cpp + "() {\n"@ + (indented_spec(deletes, t + "\t\t"@, 0int, Seq::empty())) + t + "\t}\n"@ }
}

/// What [`class_bases`] computes.
#[verifier::opaque]
pub open spec fn class_bases_spec(prog: ProgramV, mi: int, ns: Seq<Seq<char>>, c: ClassV) -> Seq<char>
{
    let parts: Seq<Seq<char>> = Seq::empty();
    let parts = match c.extends {
        Some(sup) => {
            let parts = parts.push("public "@ + map_type_base_spec(prog, sup, mi, ns));
            parts
        },
        None => { parts },
    };
    base_list_spec(base_parts_spec(prog, mi, ns, c.implements, 0int, parts))
}

/// What [`holder_text`] computes.
#[verifier::opaque]
pub open spec fn holder_text_spec(prog: ProgramV, mi: int, ns: Seq<Seq<char>>, h: HolderV, ctor: FunctionV, t: Seq<char>) -> Seq<char>
{
    t + "struct "@ + h.name + " {\n"@ + (indented_spec(h.member_decls, t + "\t"@, 0int, Seq::empty())) + t + "\t"@ + h.name + "("@ + param_list_spec(prog, mi, ns, ctor.params, false) + ");\n"@ + t + "};\n\n"@
}

/// What [`emit_class`] computes.
#[verifier::opaque]
pub open spec fn emit_class_spec(prog: ProgramV, mi: int, ns: Seq<Seq<char>>, decls: Seq<DeclV>, c: ClassV, t: Seq<char>) -> (Seq<char>, Seq<char>)
{
    let cpp = cpp_def_name_spec(prog, mi, c.name);
    let export = if meta_has_spec(c.meta, "libexport"@) { prog.export_macro + "_CLASS "@ } else { Seq::empty() };
    let ctor_line = match c.ctor {
        Some(f) => {
            t + "\t"@ + cpp + "("@ + param_list_spec(prog, mi, ns, f.params, true) + ");\n"@
        },
        None => { Seq::empty() },
    };
    let (front, base, dtor) = match facts_of_spec(prog, c.name, mi) {
        Some(facts) => {
            let dtor = dtor_text_spec(c, cpp, facts.deletes, t);
            match facts.holder {
                Some(h) => {
                    match c.ctor {
                        Some(f) => { (holder_text_spec(prog, mi, ns, h, f, t), h.base_list, dtor) },
                        None => { (Seq::empty(), h.base_list, dtor) },
                    }
                },
                None => { (Seq::empty(), class_bases_spec(prog, mi, ns, c), dtor) },
            }
        },
        None => {
            (Seq::empty(), class_bases_spec(prog, mi, ns, c), dtor_text_spec(c, cpp, Seq::empty(), t))
        },
    };
    let (s1, h1, later) = method_lines_spec(prog, mi, ns, decls, c, cpp, t, 0int, ctor_line + dtor, Seq::empty(), Seq::empty());
    let s2 = accessor_lines_spec(prog, mi, ns, c, t, 0int, s1);
    let (shown, hidden) = field_lines_spec(prog, mi, ns, c, t, 0int, s2, h1);
    let protected = if ((hidden).len() == 0) { Seq::empty() } else { t + "protected:\n"@ + hidden };
    (front + t + "class "@ + export + cpp + base + " {\n"@ + t + "public:\n"@ + shown + protected + t + "};\n"@, later)
}

} // verus!
