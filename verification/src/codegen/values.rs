//! Reading values and handing them on.

use vstd::prelude::*;

use crate::ast::{BinOp, Decl, Expr, Field, GlobalVar, PropAccess, Type};
use crate::codegen::common::{is_meyers_static, is_meyers_static_spec, ordered_map_kv, ordered_map_kv_spec};
use crate::codegen::ctypes::{is_value_class, is_value_class_spec, namespace_prefix, namespace_prefix_spec, resolve_alias_type, resolve_alias_type_spec, resolve_type_by_cpp_spelling, resolve_type_by_cpp_spelling_spec};
use crate::codegen::gen::GenV;
use crate::codegen::helpers::{bool_ty, bool_ty_spec, info_ty, info_ty_spec, is_container_ty, is_container_ty_spec, is_value_new, is_value_new_spec, no_ty, no_ty_spec};
use crate::codegen::quote::{has_interpolation, has_interpolation_spec};
use crate::codegen::scan::{is_lambda_global, is_lambda_global_spec};
use crate::codegen::state::{BodyGen, Env, all_owned_deletes_spec, cpp_name_spec, fail_spec, fresh_spec, has_owned_locals_spec, hoist_spec, lookup_local_spec, register_owned_spec, settled, warn_spec};
use crate::codegen::ty::{Ty, TyV};
use crate::codegen::types::{class_field_spec, decl_spelling, decl_spelling_spec, deref_alias_spec, element_ty_spec, enum_variant_ref_spec, field_ty_spec, own_field_module_spec, self_class_cpp_name_spec};
use crate::lexer::{is_word, is_word_spec};
use crate::model::{DeclV, ExprV, FieldV, GlobalVarV, TypeV, decls_v};
use crate::program::{Program, ProgramV, TypeInfo, TypeInfoV};
use crate::resolve::{all_but_last, all_but_last_spec, last_of, last_of_spec, meta_arg, meta_arg_spec, module_at, module_at_spec, resolve_name, resolve_name_spec};
use crate::strings::{matches_at, matches_at_spec, split, split_spec, starts_with};
use crate::text::{cat2, cat3, cat4, cat5, cat6, cat7, cat8, chars_of, empty, has_text, same, texts};

verus! {

broadcast use {crate::codegen::gen::group_gen, crate::codegen::quote::group_quote, crate::codegen::ty::group_ty, crate::model::group_model, crate::program::group_program, crate::text::group_texts};

/// Whether an expression is emitted as a bare C++ string literal, a `const char*`, rather
/// than as a `std::string` value: a literal with nothing to interpolate, seen through
/// grouping.
pub fn emits_c_string_literal(e: &Expr) -> (r: bool)
    ensures
        r == emits_c_string_literal_spec(e.v()),
    decreases *e,
{
    proof {
        reveal(emits_c_string_literal_spec);
    }
    match e.node() {
        Expr::Paren(inner) => emits_c_string_literal(inner),
        Expr::Meta(_, inner) => emits_c_string_literal(inner),
        Expr::Str { raw, interpolated } => !*interpolated || !has_interpolation(raw),
        _ => false,
    }
}

/// Where the parenthesis that opens at `i` or before closes, or the end of the text. What
/// stands between quotes is passed over.
pub fn closing_paren(cs: &Vec<char>, i: usize, depth: usize, quoted: bool) -> (r: usize)
    requires
        depth <= i,
    ensures
        (r as int) == closing_paren_spec(cs@, (i as int), (depth as int), quoted),
{
    let ghost i_0 = i;
    let ghost depth_0 = depth;
    let ghost quoted_0 = quoted;
    let mut i: usize = i;
    let mut depth: usize = depth;
    let mut quoted: bool = quoted;
    #[verifier::loop_isolation(false)]
    loop
        invariant
            closing_paren_spec(cs@, (i_0 as int), (depth_0 as int), quoted_0) == closing_paren_spec(cs@, (i as int), (depth as int), quoted),
            depth <= i,
        decreases cs.len() - i,
    {
        if i >= cs.len() {
            return i;
        }
        if cs[i] == '\\' {
            i = if i + 1 < cs.len() { i + 2 } else { i + 1 };
            continue;
        }
        if cs[i] == '"' {
            quoted = !quoted;
        } else if !quoted && cs[i] == '(' {
            depth = depth + 1;
        } else if !quoted && cs[i] == ')' {
            if depth <= 1 {
                return i;
            }
            depth = depth - 1;
        }
        i = i + 1;
    }
}

/// Past the qualified name at `i`.
pub fn skip_qualified(cs: &Vec<char>, i: usize) -> (r: usize)
    ensures
        (r as int) == skip_qualified_spec(cs@, (i as int)),
{
    let ghost i_0 = i;
    let mut i: usize = i;
    #[verifier::loop_isolation(false)]
    loop
        invariant
            skip_qualified_spec(cs@, (i_0 as int)) == skip_qualified_spec(cs@, (i as int)),
        decreases cs.len() - i,
    {
        if i >= cs.len() || !(is_word(cs[i]) || cs[i] == ':') {
            return i;
        }
        i = i + 1;
    }
}

/// Whether a text is one pair of parentheses, or a call, from its start to its end.
pub fn is_enclosed(code: &str) -> (r: bool)
    ensures
        r == is_enclosed_spec(code@),
{
    proof {
        reveal(is_enclosed_spec);
    }
    let cs = chars_of(code);
    let open: usize = skip_qualified(&cs, 0);
    if open >= cs.len() || cs[open] != '(' {
        return false;
    }
    let close: usize = closing_paren(&cs, open, 0, false);
    close < cs.len() && close + 1 >= cs.len()
}

/// A text in parentheses, unless it is in some already.
pub fn enclosed(code: &str) -> (r: String)
    ensures
        r@ == enclosed_spec(code@),
{
    if is_enclosed(code) {
        code.to_owned()
    } else {
        cat3("(", code, ")")
    }
}

/// How tightly a binary operator binds.
pub fn binding(op: BinOp) -> (r: usize)
    ensures
        (r as int) == binding_spec(op),
        1 <= r <= 10,
{
    proof {
        reveal(binding_spec);
    }
    match op {
        BinOp::Or => 1usize,
        BinOp::And => 2usize,
        BinOp::BitOr => 3usize,
        BinOp::BitXor => 4usize,
        BinOp::BitAnd => 5usize,
        BinOp::Eq => 6usize,
        BinOp::Ne => 6usize,
        BinOp::Lt => 7usize,
        BinOp::Gt => 7usize,
        BinOp::Le => 7usize,
        BinOp::Ge => 7usize,
        BinOp::Shl => 8usize,
        BinOp::Shr => 8usize,
        BinOp::UShr => 8usize,
        BinOp::Add => 9usize,
        BinOp::Sub => 9usize,
        BinOp::Mul => 10usize,
        BinOp::Div => 10usize,
        BinOp::Mod => 10usize,
    }
}

/// The code of an expression where only operators that bind at least as tightly as `least`
/// can stand bare: one that does not is put in parentheses.
pub fn operand_of(e: &Expr, code: &str, least: usize) -> (r: String)
    ensures
        r@ == operand_of_spec(e.v(), code@, (least as int)),
    decreases *e,
{
    proof {
        reveal(operand_of_spec);
    }
    match e.node() {
        Expr::Meta(_, inner) => operand_of(inner, code, least),
        Expr::Untyped(inner) => operand_of(inner, code, least),
        Expr::TypeCheck { expr, ty: _ } => operand_of(expr, code, least),
        Expr::Binary { op, lhs: _, rhs: _ } => {
            if binding(*op) < least {
                enclosed(code)
            } else {
                code.to_owned()
            }
        },
        Expr::Ternary { cond: _, then: _, els: _ } => enclosed(code),
        Expr::Assign { op: _, target: _, value: _ } => enclosed(code),
        _ => code.to_owned(),
    }
}

/// The code of an expression as one operand: an operation is put in parentheses.
pub fn operand(e: &Expr, code: &str) -> (r: String)
    ensures
        r@ == operand_spec(e.v(), code@),
{
    operand_of(e, code, 11)
}

/// The code of an ascribed expression as an operand of an operator. The parentheses that the
/// ascription stood in are kept where the operator needs them.
pub fn ascribed_operand(e: &Expr, code: &str, least: usize) -> (r: String)
    ensures
        r@ == ascribed_operand_spec(e.v(), code@, (least as int)),
{
    match e.node() {
        Expr::TypeCheck { expr: _, ty: _ } => operand_of(e, code, least),
        _ => code.to_owned(),
    }
}

/// The code of a receiver as a `std::string` value: a bare literal is wrapped.
pub fn as_string_value(recv: &Expr, rcode: &str) -> (r: String)
    ensures
        r@ == as_string_value_spec(recv.v(), rcode@),
{
    proof {
        reveal(as_string_value_spec);
    }
    if emits_c_string_literal(recv) {
        cat3("std::string(", rcode, ")")
    } else {
        rcode.to_owned()
    }
}

/// The identifier an assignment target is rooted at: `a` for `a`, `a.f` and `a.f[i]`.
pub fn lvalue_root_ident(target: &Expr) -> (r: Option<String>)
    ensures
        (match r { Some(y) => Some(y@), None => None }) == lvalue_root_ident_spec(target.v()),
    decreases *target,
{
    proof {
        reveal(lvalue_root_ident_spec);
    }
    match target.node() {
        Expr::Ident(n) => Some(n.clone()),
        Expr::Field(recv, _) => lvalue_root_ident(recv),
        Expr::Index(recv, _) => lvalue_root_ident(recv),
        Expr::Paren(inner) => lvalue_root_ident(inner),
        _ => None,
    }
}

/// The text from `i` on with the common escapes decoded; any other backslash sequence is
/// kept.
pub fn unescape_from(cs: &Vec<char>, i: usize, out: String) -> (r: String)
    ensures
        r@ == unescape_from_spec(cs@, (i as int), out@),
{
    let ghost i_0 = i;
    let ghost out_0 = out;
    let mut i: usize = i;
    let mut out: String = out;
    #[verifier::loop_isolation(false)]
    loop
        invariant
            unescape_from_spec(cs@, (i_0 as int), out_0@) == unescape_from_spec(cs@, (i as int), out@),
        decreases cs.len() - i,
    {
        if i >= cs.len() {
            return out;
        }
        if cs[i] != '\\' {
            out.push(cs[i]);
            i = i + 1;
            continue;
        }
        if i + 1 >= cs.len() {
            out.push('\\');
            return out;
        }
        let d = cs[i + 1];
        if d == 'n' {
            out.push('\n');
        } else if d == 't' {
            out.push('\t');
        } else if d == '"' {
            out.push('"');
        } else if d == '\\' {
            out.push('\\');
        } else {
            out.push('\\');
            out.push(d);
        }
        i = i + 2;
    }
}

/// The C++ text a `__cpp__` format string spells.
pub fn unescape_cpp_code(raw: &str) -> (r: String)
    ensures
        r@ == unescape_cpp_code_spec(raw@),
{
    let cs = chars_of(raw);
    unescape_from(&cs, 0, String::new())
}

/// The characters from `i` on with every occurrence of `pat` replaced by `by`, from the
/// left.
pub fn replace_from(cs: &Vec<char>, pat: &Vec<char>, by: &str, i: usize, out: String) -> (r: String)
    ensures
        r@ == replace_from_spec(cs@, pat@, by@, (i as int), out@),
{
    let ghost i_0 = i;
    let ghost out_0 = out;
    let mut i: usize = i;
    let mut out: String = out;
    #[verifier::loop_isolation(false)]
    loop
        invariant
            replace_from_spec(cs@, pat@, by@, (i_0 as int), out_0@) == replace_from_spec(cs@, pat@, by@, (i as int), out@),
        decreases cs.len() - i,
    {
        if i >= cs.len() {
            return out;
        }
        if pat.len() > 0 && pat.len() <= cs.len() - i && matches_at(cs, pat, i, 0) {
            out = cat2(&out, by);
            i = i + pat.len();
        } else {
            out.push(cs[i]);
            i = i + 1;
        }
    }
}

/// A text with every occurrence of a pattern replaced.
pub fn replace_all(s: &str, pat: &str, by: &str) -> (r: String)
    ensures
        r@ == replace_all_spec(s@, pat@, by@),
{
    let cs = chars_of(s);
    let ps = chars_of(pat);
    replace_from(&cs, &ps, by, 0, String::new())
}

/// Whether an expression names the `cpp.Pointer` class, or a bare imported `Pointer`.
pub fn is_pointer_class(e: &Expr) -> (r: bool)
    ensures
        r == is_pointer_class_spec(e.v()),
{
    match e.node() {
        Expr::Field(_, n) => same(n, "Pointer"),
        Expr::Ident(n) => same(n, "Pointer"),
        _ => false,
    }
}

/// A printf conversion for a value of a type, and the argument to pass for it.
pub fn spec_for(code: &str, ty: &Ty) -> (r: (String, String))
    ensures
        (r.0@, r.1@) == spec_for_spec(code@, ty.v()),
{
    proof {
        reveal(spec_for_spec);
    }
    if same(&ty.base, "std::string") {
        ("%s".to_owned(), cat2(code, ".c_str()"))
    } else if same(&ty.base, "float") || same(&ty.base, "double") {
        ("%f".to_owned(), code.to_owned())
    } else {
        ("%d".to_owned(), code.to_owned())
    }
}

/// How large a buffer the text of any value of a scalar type fits in.
pub fn scalar_buffer(ty: &Ty) -> (r: String)
    ensures
        r@ == scalar_buffer_spec(ty.v()),
{
    if same(&ty.base, "double") {
        "320".to_owned()
    } else if same(&ty.base, "float") {
        "64".to_owned()
    } else {
        "24".to_owned()
    }
}

/// The operator that reaches a member.
pub fn member_op(ty: &Ty) -> (r: String)
    ensures
        r@ == member_op_spec(ty.v()),
{
    if ty.is_ptr {
        "->".to_owned()
    } else {
        ".".to_owned()
    }
}

/// A container behind a pointer, dereferenced.
pub fn container_access(code: &str, ty: &Ty, container: &Ty) -> (r: String)
    ensures
        r@ == container_access_spec(code@, ty.v(), container.v()),
{
    if ty.is_ptr && is_container_ty(container) {
        cat3("(*", code, ")")
    } else {
        code.to_owned()
    }
}

/// A global constant of this name among the declarations from `i` on.
pub fn final_in<'a>(decls: &'a Vec<Decl>, name: &str, i: usize) -> (r: Option<&'a GlobalVar>)
    ensures
        (match r { Some(y) => Some(y.v()), None => None }) == final_in_spec(decls_v(decls@), name@, (i as int)),
{
    let ghost i_0 = i;
    let mut i: usize = i;
    #[verifier::loop_isolation(false)]
    loop
        invariant
            final_in_spec(decls_v(decls@), name@, (i_0 as int)) == final_in_spec(decls_v(decls@), name@, (i as int)),
        decreases decls.len() - i,
    {
        if i >= decls.len() {
            return None;
        }
        match &decls[i] {
            Decl::Global(g) => {
                if g.is_final && same(&g.name, name) && !is_lambda_global(g) {
                    return Some(g);
                }
            },
            _ => {},
        }
        i = i + 1;
    }
}

/// The C++ name of a global constant of a module, spelled for the namespace `ns`.
/// `@:native("a.b.C")` says which C++ name and namespace it has.
pub fn final_spelling(g: &GlobalVar, package: &Vec<String>, ns: &Vec<String>) -> (r: String)
    ensures
        r@ == final_spelling_spec(g.v(), texts(package@), texts(ns@)),
{
    proof {
        reveal(final_spelling_spec);
    }
    let native = match meta_arg(&g.meta, "native", 0) {
        Some(n) => n,
        None => String::new(),
    };
    let parts = split(&native, '.');
    let cpp = match last_of(&parts) {
        Some(l) => l.clone(),
        None => String::new(),
    };
    if empty(&cpp) {
        return cat2(&namespace_prefix(package, ns), &g.name);
    }
    if parts.len() > 1 {
        return cat2(&namespace_prefix(&all_but_last(&parts, 0, Vec::new()), ns), &cpp);
    }
    cat2(&namespace_prefix(package, ns), &cpp)
}

/// How the final of a name is spelled, among the modules from `i` on.
pub fn final_from(prog: &Program, name: &str, ns: &Vec<String>, i: usize) -> (r: Option<String>)
    ensures
        (match r { Some(y) => Some(y@), None => None }) == final_from_spec(prog.v(), name@, texts(ns@), (i as int)),
{
    let ghost i_0 = i;
    let mut i: usize = i;
    #[verifier::loop_isolation(false)]
    loop
        invariant
            final_from_spec(prog.v(), name@, texts(ns@), (i_0 as int)) == final_from_spec(prog.v(), name@, texts(ns@), (i as int)),
        decreases prog.modules.len() - i,
    {
        if i >= prog.modules.len() {
            return None;
        }
        match final_in(&prog.modules[i].file.decls, name, 0) {
            Some(g) => {
                return Some(final_spelling(g, &prog.modules[i].package, ns));
            },
            None => {},
        }
        i = i + 1;
    }
}

/// A reference to a global constant: one of module `mi` is preferred.
pub fn global_final_ref(prog: &Program, name: &str, mi: usize, ns: &Vec<String>) -> (r: Option<String>)
    ensures
        (match r { Some(y) => Some(y@), None => None }) == global_final_ref_spec(prog.v(), name@, (mi as int), texts(ns@)),
{
    proof {
        reveal(global_final_ref_spec);
    }
    match module_at(prog, mi) {
        Some(m) => match final_in(&m.file.decls, name, 0) {
            Some(g) => Some(final_spelling(g, &m.package, ns)),
            None => final_from(prog, name, ns, 0),
        },
        None => final_from(prog, name, ns, 0),
    }
}

impl<'a> BodyGen<'a> {
    /// Add a line, at the right indentation, to those that go before the statement.
    pub fn say(&mut self, text: &str)
        ensures
            final(self).pg() == old(self).pg(),
            final(self).room() == old(self).room(),
            final(self).gv() == say_spec(old(self).pg(), old(self).gv(), text@),
            settled(final(self).gv()) == settled(old(self).gv()),
    {
        proof {
            reveal(say_spec);
        }
        let whole = cat3(self.prelude_t(), text, "\n");
        self.hoist(&whole);
    }

    /// Put a number into a buffer whose size depends on its type only, before the statement;
    /// the buffer's name.
    pub fn format_scalar(&mut self, code: &str, ty: &Ty) -> (r: String)
        ensures
            final(self).pg() == old(self).pg(),
            final(self).room() == old(self).room(),
            (final(self).gv(), r@) == format_scalar_spec(old(self).pg(), old(self).gv(), code@, ty.v()),
            settled(final(self).gv()) == settled(old(self).gv()),
    {
        proof {
            reveal(format_scalar_spec);
        }
        let (spec, arg) = spec_for(code, ty);
        let buf = self.fresh("buf");
        self.say(&cat4(&cat8("char ", &buf, "[", &scalar_buffer(ty), "]; sprintf(", &buf, ", \"", &spec), "\", ", &arg, ");"));
        buf
    }

    /// One operand of a string concatenation: a string as it is, anything else formatted and
    /// wrapped.
    pub fn concat_part(&mut self, code: &str, ty: &Ty) -> (r: String)
        ensures
            final(self).pg() == old(self).pg(),
            final(self).room() == old(self).room(),
            (final(self).gv(), r@) == concat_part_spec(old(self).pg(), old(self).gv(), code@, ty.v()),
            settled(final(self).gv()) == settled(old(self).gv()),
    {
        proof {
            reveal(concat_part_spec);
        }
        if same(&ty.base, "std::string") {
            return code.to_owned();
        }
        let buf = self.format_scalar(code, ty);
        cat3("std::string(", &buf, ")")
    }

    /// Place a freshly allocated argument: in an owned local of the current scope, unless
    /// the receiver takes ownership.
    pub fn place_new_arg(&mut self, new_code: String, ty: &Ty) -> (r: String)
        ensures
            final(self).pg() == old(self).pg(),
            final(self).room() == old(self).room(),
            (final(self).gv(), r@) == place_new_arg_spec(old(self).pg(), old(self).gv(), new_code@, ty.v()),
            settled(final(self).gv()) == settled(old(self).gv()),
    {
        proof {
            reveal(place_new_arg_spec);
        }
        if self.new_args_escape() {
            return new_code;
        }
        let tmp = self.fresh("v");
        self.say(&cat6(&decl_spelling(ty), " ", &tmp, " = ", &new_code, ";"));
        self.register_owned(&tmp);
        tmp
    }

    /// A nullable value read as a value: `NULL` reads as a default one.
    pub fn deref_nullable(&self, code: &str, ty: &Ty) -> (r: String)
        ensures
            r@ == deref_nullable_spec(self.pg(), self.gv(), code@, ty.v()),
    {
        proof {
            reveal(deref_nullable_spec);
        }
        if ty.is_ptr && ty.nullable {
            cat7("(", code, " != NULL ? *(", code, ") : ", &ty.base, "())")
        } else {
            code.to_owned()
        }
    }

    /// A `Null<String>` read in value position is dereferenced, unless the raw pointer is
    /// wanted for a null comparison.
    pub fn read_nullable_string(&self, code: String, ty: Ty) -> (r: (String, Ty))
        ensures
            (r.0@, r.1.v()) == read_nullable_string_spec(self.pg(), self.gv(), code@, ty.v()),
    {
        proof {
            reveal(read_nullable_string_spec);
        }
        if !self.no_nullable_deref() && ty.is_ptr && ty.nullable && same(&ty.base, "std::string") {
            let derefed = self.deref_nullable(&code, &ty);
            let mut value = ty;
            value.is_ptr = false;
            value.nullable = false;
            return (derefed, value);
        }
        (code, ty)
    }

    /// A null comparison with a `Map.get(k)` result is the iterator's existence check.
    pub fn try_iter_null_check(&self, op: BinOp, lhs: &Expr, rhs: &Expr) -> (r: Option<(String, Ty)>)
        ensures
            (match r { Some(y) => Some((y.0@, y.1.v())), None => None }) == try_iter_null_check_spec(self.pg(), self.gv(), op, lhs.v(), rhs.v()),
    {
        proof {
            reveal(try_iter_null_check_spec);
        }
        if op != BinOp::Eq && op != BinOp::Ne {
            return None;
        }
        let l_null = matches!(lhs.node(), Expr::Null);
        let r_null = matches!(rhs.node(), Expr::Null);
        if l_null == r_null {
            return None;
        }
        let other = if l_null { rhs } else { lhs };
        match other.node() {
            Expr::Ident(n) => match self.lookup_local(n) {
                Some(ty) => match &ty.iter {
                    Some(alias) => {
                        let o = if op == BinOp::Ne { " != " } else { " == " };
                        Some((cat4(&alias.it_name, o, &alias.map_code, ".end()"), bool_ty()))
                    },
                    None => None,
                },
                None => None,
            },
            _ => None,
        }
    }

    /// The type of the object a body belongs to.
    pub fn this_info(&self) -> (r: Option<TypeInfo>)
        ensures
            (match r { Some(y) => Some(y.v()), None => None }) == this_info_spec(self.pg(), self.gv()),
    {
        proof {
            reveal(this_info_spec);
        }
        resolve_name(self.prog(), &self.class().name, self.mi())
    }

    /// A bare name that no local has: a field, a type, a constant, an enum variant, or
    /// anything else as it stands.
    pub fn gen_global_ident(&mut self, name: &str) -> (r: (String, Ty))
        ensures
            final(self).pg() == old(self).pg(),
            final(self).room() == old(self).room(),
            (final(self).gv(), (r.0@, r.1.v())) == gen_global_ident_spec(old(self).pg(), old(self).gv(), name@),
            settled(final(self).gv()) == settled(old(self).gv()),
    {
        proof {
            reveal(gen_global_ident_spec);
        }
        match resolve_name(self.prog(), name, self.mi()) {
            Some(info) => {
                return (name.to_owned(), info_ty(name, false, Some(info)));
            },
            None => {},
        }
        match global_final_ref(self.prog(), name, self.mi(), self.ns()) {
            Some(q) => {
                return (q, no_ty());
            },
            None => {},
        }
        match self.enum_variant_ref(name) {
            Some(res) => {
                return res;
            },
            None => {},
        }
        if has_text(self.nonbinding_catch_vars(), name) {
            self.fail(&cat5("the value `", name, "` of an untyped/`Dynamic` catch cannot be used: C++ `catch (...)` does not bind the exception — give the catch a concrete type (e.g. `catch (", name, ":String)`)"));
        }
        (name.to_owned(), no_ty())
    }

    /// Report the use of an ordered map as a whole: it is two vectors.
    pub fn fail_ordered_map(&mut self, name: &str)
        ensures
            final(self).pg() == old(self).pg(),
            final(self).room() == old(self).room(),
            final(self).gv() == fail_ordered_map_spec(old(self).pg(), old(self).gv(), name@),
            settled(final(self).gv()) == settled(old(self).gv()),
    {
        proof {
            reveal(fail_ordered_map_spec);
        }
        self.fail(&cat3("`", name, "` is an @orderedMap field and has no single map value: use it via `get`/`set`/`exists`/`remove`/`keys` or a `for` loop, not as a whole value (it cannot be passed, returned, or assigned as a map)"));
    }

    /// A field of this object, by its bare name.
    pub fn gen_own_field(&self, f: &Field, name: &str) -> (r: (String, Ty))
        ensures
            (r.0@, r.1.v()) == gen_own_field_spec(self.pg(), self.gv(), f.v(), name@),
    {
        proof {
            reveal(gen_own_field_spec);
        }
        let ty = self.field_ty(f);
        if f.is_static {
            let call = if is_meyers_static(self.prog(), self.own_field_module(name), f) { "()" } else { "" };
            return (cat4(&self.self_class_cpp_name(), "::", name, call), ty);
        }
        // a custom getter is used everywhere but in itself
        if f.get == PropAccess::Get && !same(self.current_fn(), &cat2("get_", name)) {
            return (cat3("this->get_", name, "()"), ty);
        }
        self.read_nullable_string(cat2("this->", name), ty)
    }

    /// The code and the type of a name.
    pub fn gen_ident(&mut self, name: &str) -> (r: (String, Ty))
        ensures
            final(self).pg() == old(self).pg(),
            final(self).room() == old(self).room(),
            (final(self).gv(), (r.0@, r.1.v())) == gen_ident_spec(old(self).pg(), old(self).gv(), name@),
            settled(final(self).gv()) == settled(old(self).gv()),
    {
        proof {
            reveal(gen_ident_spec);
        }
        match self.lookup_local(name) {
            Some(ty) => {
                match &ty.iter {
                    Some(alias) => {
                        return (cat2(&alias.it_name, "->second"), alias.value_ty.dup());
                    },
                    None => {},
                }
                let code = self.cpp_name(name);
                return self.read_nullable_string(code, ty);
            },
            None => {},
        }
        match self.class_field(name) {
            Some(f) => {
                if ordered_map_kv(f).is_some() {
                    self.fail_ordered_map(name);
                    return (cat2("this->", name), no_ty());
                }
                self.gen_own_field(f, name)
            },
            None => self.gen_global_ident(name),
        }
    }

    /// Report an assignment through a value-struct parameter: it is passed as a constant
    /// reference.
    pub fn flag_const_param_write(&mut self, target: &Expr)
        ensures
            final(self).pg() == old(self).pg(),
            final(self).room() == old(self).room(),
            final(self).gv() == flag_const_param_write_spec(old(self).pg(), old(self).gv(), target.v()),
            settled(final(self).gv()) == settled(old(self).gv()),
    {
        proof {
            reveal(flag_const_param_write_spec);
        }
        match lvalue_root_ident(target) {
            Some(root) => {
                if has_text(self.value_struct_params(), &root) {
                    self.fail(&cat3("cannot assign to `", &root, "` or its fields: a value-struct parameter is lowered to C++ `const&` and cannot be mutated in place. Copy it into a local first, or — if the caller should see the change — pass it as a class or `Null<T>`"));
                }
            },
            None => {},
        }
    }

    /// Warn of a mutation of a container parameter: containers are passed by value.
    pub fn warn_if_param_container_mutated(&mut self, recv: &Expr, what: &str)
        ensures
            final(self).pg() == old(self).pg(),
            final(self).room() == old(self).room(),
            final(self).gv() == warn_if_param_container_mutated_spec(old(self).pg(), old(self).gv(), recv.v(), what@),
            settled(final(self).gv()) == settled(old(self).gv()),
    {
        proof {
            reveal(warn_if_param_container_mutated_spec);
        }
        match recv.node() {
            Expr::Ident(name) => {
                if !has_text(self.container_params(), name) {
                    return;
                }
                let kind = match self.lookup_local(name) {
                    Some(t) => {
                        let held = self.deref_alias(&t);
                        if starts_with(&held.base, "std::vector") {
                            "an Array"
                        } else if starts_with(&held.base, "std::map") {
                            "a Map"
                        } else {
                            ""
                        }
                    },
                    None => "",
                };
                if empty(kind) {
                    return;
                }
                self.warn(&cat7("`", what, "` mutates `", name, "`, ", kind, " parameter — Haxe containers are shared by reference (the caller would see this change), but Hatchet passes containers by value (`const&`), so the mutation is lost and the generated C++ will not compile; mutate a local copy and return it, or hold the container in a class"));
            },
            _ => {},
        }
    }

    /// The text of a value `return`. Owned locals are deleted first, after the value was
    /// computed.
    pub fn finish_return(&mut self, t: &str, value: &str) -> (r: String)
        ensures
            final(self).pg() == old(self).pg(),
            final(self).room() == old(self).room(),
            (final(self).gv(), r@) == finish_return_spec(old(self).pg(), old(self).gv(), t@, value@),
            settled(final(self).gv()) == settled(old(self).gv()),
    {
        proof {
            reveal(finish_return_spec);
        }
        if self.has_owned_locals() {
            let spell = decl_spelling(self.current_ret());
            let tmp = self.fresh("ret");
            let deletes = self.all_owned_deletes(t);
            cat5(&cat8(t, &spell, " ", &tmp, " = ", value, ";\n", &deletes), t, "return ", &tmp, ";\n")
        } else {
            cat4(t, "return ", value, ";\n")
        }
    }

    /// Whether `new` of a type makes a value rather than a heap object.
    pub fn value_new(&self, ty: &Type) -> (r: bool)
        ensures
            r == value_new_spec(self.pg(), self.gv(), ty.v()),
    {
        proof {
            reveal(value_new_spec);
        }
        let target = resolve_alias_type(self.prog(), ty, self.mi());
        if is_value_new(&target) {
            return true;
        }
        match target.node() {
            Type::Named { path, params: _, optional: _, line: _ } => is_value_class(self.prog(), path, self.mi()),
            _ => false,
        }
    }

    /// Whether an expression is a `new` of a heap object.
    pub fn heap_new(&self, e: &Expr) -> (r: bool)
        ensures
            r == heap_new_spec(self.pg(), self.gv(), e.v()),
    {
        proof {
            reveal(heap_new_spec);
        }
        match e.node() {
            Expr::New(ty, _) => !self.value_new(ty),
            _ => false,
        }
    }

    /// The value `container.push(v)` or `container.insert(k, v)` stores, where the container
    /// outlives this scope.
    pub fn push_into_retaining_container<'b>(&self, e: &'b Expr) -> (r: Option<&'b Expr>)
        ensures
            (match r { Some(y) => Some(y.v()), None => None }) == push_into_retaining_container_spec(self.pg(), self.gv(), e.v()),
    {
        proof {
            reveal(push_into_retaining_container_spec);
        }
        match e.node() {
            Expr::Call(target, args) => match target.node() {
                Expr::Field(recv, method) => {
                    let retains = match recv.node() {
                        Expr::Ident(n) => has_text(self.owned_containers(), n) || has_text(self.escaping(), n),
                        Expr::Field(inner, f) => {
                            matches!(inner.node(), Expr::This) && has_text(self.owned_containers(), f)
                        },
                        _ => false,
                    };
                    if !retains {
                        return None;
                    }
                    if same(method, "push") && args.len() == 1 {
                        return Some(&args[0]);
                    }
                    if same(method, "insert") && args.len() == 2 {
                        return Some(&args[1]);
                    }
                    None
                },
                _ => None,
            },
            _ => None,
        }
    }

    /// The element type of a container member, with what it resolves to.
    pub fn elem_member_ty(&self, vec: &Ty) -> (r: Ty)
        ensures
            r.v() == elem_member_ty_spec(self.pg(), self.gv(), vec.v()),
    {
        proof {
            reveal(elem_member_ty_spec);
        }
        let mut e = self.element_ty(vec);
        if e.info.is_none() && !empty(&e.base) {
            e.info = resolve_type_by_cpp_spelling(self.prog(), &e.base, self.ns());
        }
        e
    }
}

/// What [`emits_c_string_literal`] computes.
#[verifier::opaque]
pub open spec fn emits_c_string_literal_spec(e: ExprV) -> bool
    decreases e,
{
    match e {
        ExprV::Paren(inner) => { emits_c_string_literal_spec(*inner) },
        ExprV::Meta(_, inner) => { emits_c_string_literal_spec(*inner) },
        ExprV::Str { raw, interpolated } => { (!interpolated) || (!has_interpolation_spec(raw)) },
        _ => { false },
    }
}

/// What [`closing_paren`] computes.
pub open spec fn closing_paren_spec(cs: Seq<char>, i: int, depth: int, quoted: bool) -> int
    decreases cs.len() - i,
{
    if !(0 <= i < cs.len()) { i } else {
        if (cs[i]) == '\\' {
            let i = if (i + 1) < (cs.len()) { i + 2 } else { i + 1 };
            closing_paren_spec(cs, i, depth, quoted)
        } else {
            if (cs[i]) == '"' {
                let quoted = !quoted;
                let i = i + 1;
                closing_paren_spec(cs, i, depth, quoted)
            } else if (!quoted) && ((cs[i]) == '(') {
                let depth = depth + 1;
                let i = i + 1;
                closing_paren_spec(cs, i, depth, quoted)
            } else if (!quoted) && ((cs[i]) == ')') {
                if depth <= 1 { i } else {
                    let depth = depth - 1;
                    let i = i + 1;
                    closing_paren_spec(cs, i, depth, quoted)
                }
            } else {
                let i = i + 1;
                closing_paren_spec(cs, i, depth, quoted)
            }
        }
    }
}

/// What [`skip_qualified`] computes.
pub open spec fn skip_qualified_spec(cs: Seq<char>, i: int) -> int
    decreases cs.len() - i,
{
    if !(0 <= i < cs.len()) || (!(is_word_spec(cs[i]) || ((cs[i]) == ':'))) { i } else {
        let i = i + 1;
        skip_qualified_spec(cs, i)
    }
}

/// What [`is_enclosed`] computes.
#[verifier::opaque]
pub open spec fn is_enclosed_spec(code: Seq<char>) -> bool
{
    let cs = code;
    let open: int = skip_qualified_spec(cs, 0int);
    if !(0 <= open < cs.len()) || ((cs[open]) != '(') { false } else {
        let close: int = closing_paren_spec(cs, open, 0int, false);
        (close < (cs.len())) && ((close + 1) >= (cs.len()))
    }
}

/// What [`enclosed`] computes.
pub open spec fn enclosed_spec(code: Seq<char>) -> Seq<char>
{
    if is_enclosed_spec(code) { code } else { "("@ + code + ")"@ }
}

/// What [`binding`] computes.
#[verifier::opaque]
pub open spec fn binding_spec(op: BinOp) -> int
{
    match op {
        BinOp::Or => { 1int },
        BinOp::And => { 2int },
        BinOp::BitOr => { 3int },
        BinOp::BitXor => { 4int },
        BinOp::BitAnd => { 5int },
        BinOp::Eq => { 6int },
        BinOp::Ne => { 6int },
        BinOp::Lt => { 7int },
        BinOp::Gt => { 7int },
        BinOp::Le => { 7int },
        BinOp::Ge => { 7int },
        BinOp::Shl => { 8int },
        BinOp::Shr => { 8int },
        BinOp::UShr => { 8int },
        BinOp::Add => { 9int },
        BinOp::Sub => { 9int },
        BinOp::Mul => { 10int },
        BinOp::Div => { 10int },
        BinOp::Mod => { 10int },
    }
}

/// What [`operand_of`] computes.
#[verifier::opaque]
pub open spec fn operand_of_spec(e: ExprV, code: Seq<char>, least: int) -> Seq<char>
    decreases e,
{
    match e {
        ExprV::Meta(_, inner) => { operand_of_spec(*inner, code, least) },
        ExprV::Untyped(inner) => { operand_of_spec(*inner, code, least) },
        ExprV::TypeCheck { expr, ty: _ } => { operand_of_spec(*expr, code, least) },
        ExprV::Binary { op, lhs: _, rhs: _ } => {
            if binding_spec(op) < least { enclosed_spec(code) } else { code }
        },
        ExprV::Ternary { cond: _, then: _, els: _ } => { enclosed_spec(code) },
        ExprV::Assign { op: _, target: _, value: _ } => { enclosed_spec(code) },
        _ => { code },
    }
}

/// What [`operand`] computes.
pub open spec fn operand_spec(e: ExprV, code: Seq<char>) -> Seq<char>
{
    operand_of_spec(e, code, 11int)
}

/// What [`ascribed_operand`] computes.
pub open spec fn ascribed_operand_spec(e: ExprV, code: Seq<char>, least: int) -> Seq<char>
{
    match e {
        ExprV::TypeCheck { expr: _, ty: _ } => { operand_of_spec(e, code, least) },
        _ => { code },
    }
}

/// What [`as_string_value`] computes.
#[verifier::opaque]
pub open spec fn as_string_value_spec(recv: ExprV, rcode: Seq<char>) -> Seq<char>
{
    if emits_c_string_literal_spec(recv) { "std::string("@ + rcode + ")"@ } else { rcode }
}

/// What [`lvalue_root_ident`] computes.
#[verifier::opaque]
pub open spec fn lvalue_root_ident_spec(target: ExprV) -> Option<Seq<char>>
    decreases target,
{
    match target {
        ExprV::Ident(n) => { Some(n) },
        ExprV::Field(recv, _) => { lvalue_root_ident_spec(*recv) },
        ExprV::Index(recv, _) => { lvalue_root_ident_spec(*recv) },
        ExprV::Paren(inner) => { lvalue_root_ident_spec(*inner) },
        _ => { None },
    }
}

/// What [`unescape_from`] computes.
pub open spec fn unescape_from_spec(cs: Seq<char>, i: int, out: Seq<char>) -> Seq<char>
    decreases cs.len() - i,
{
    if !(0 <= i < cs.len()) { out } else {
        if (cs[i]) != '\\' {
            let out = out.push(cs[i]);
            let i = i + 1;
            unescape_from_spec(cs, i, out)
        } else {
            if (i + 1) >= (cs.len()) {
                let out = out.push('\\');
                out
            } else {
                let d = cs[i + 1];
                let out = if d == 'n' {
                    let out = out.push('\n');
                    out
                } else if d == 't' {
                    let out = out.push('\t');
                    out
                } else if d == '"' {
                    let out = out.push('"');
                    out
                } else if d == '\\' {
                    let out = out.push('\\');
                    out
                } else {
                    let out = out.push('\\');
                    let out = out.push(d);
                    out
                };
                let i = i + 2;
                unescape_from_spec(cs, i, out)
            }
        }
    }
}

/// What [`unescape_cpp_code`] computes.
pub open spec fn unescape_cpp_code_spec(raw: Seq<char>) -> Seq<char>
{
    let cs = raw;
    unescape_from_spec(cs, 0int, Seq::empty())
}

/// What [`replace_from`] computes.
pub open spec fn replace_from_spec(cs: Seq<char>, pat: Seq<char>, by: Seq<char>, i: int, out: Seq<char>) -> Seq<char>
    decreases cs.len() - i,
{
    if !(0 <= i < cs.len()) { out } else {
        if ((pat.len()) > 0) && ((pat.len()) <= ((cs.len()) - i)) && matches_at_spec(cs, pat, i, 0int) {
            let out = out + by;
            let i = i + (pat.len());
            replace_from_spec(cs, pat, by, i, out)
        } else {
            let out = out.push(cs[i]);
            let i = i + 1;
            replace_from_spec(cs, pat, by, i, out)
        }
    }
}

/// What [`replace_all`] computes.
pub open spec fn replace_all_spec(s: Seq<char>, pat: Seq<char>, by: Seq<char>) -> Seq<char>
{
    let cs = s;
    let ps = pat;
    replace_from_spec(cs, ps, by, 0int, Seq::empty())
}

/// What [`is_pointer_class`] computes.
pub open spec fn is_pointer_class_spec(e: ExprV) -> bool
{
    match e {
        ExprV::Field(_, n) => { (n == "Pointer"@) },
        ExprV::Ident(n) => { (n == "Pointer"@) },
        _ => { false },
    }
}

/// What [`spec_for`] computes.
#[verifier::opaque]
pub open spec fn spec_for_spec(code: Seq<char>, ty: TyV) -> (Seq<char>, Seq<char>)
{
    if (ty.base == "std::string"@) { ("%s"@, code + ".c_str()"@) } else if (ty.base == "float"@) || (ty.base == "double"@) { ("%f"@, code) } else { ("%d"@, code) }
}

/// What [`scalar_buffer`] computes.
pub open spec fn scalar_buffer_spec(ty: TyV) -> Seq<char>
{
    if (ty.base == "double"@) { "320"@ } else if (ty.base == "float"@) { "64"@ } else { "24"@ }
}

/// What [`member_op`] computes.
pub open spec fn member_op_spec(ty: TyV) -> Seq<char>
{
    if ty.is_ptr { "->"@ } else { "."@ }
}

/// What [`container_access`] computes.
pub open spec fn container_access_spec(code: Seq<char>, ty: TyV, container: TyV) -> Seq<char>
{
    if ty.is_ptr && is_container_ty_spec(container) { "(*"@ + code + ")"@ } else { code }
}

/// What [`final_in`] computes.
pub open spec fn final_in_spec(decls: Seq<DeclV>, name: Seq<char>, i: int) -> Option<GlobalVarV>
    decreases decls.len() - i,
{
    if !(0 <= i < decls.len()) { None } else {
        match decls[i] {
            DeclV::Global(g) => {
                if g.is_final && (g.name == name) && (!is_lambda_global_spec(g)) { Some(g) } else {
                    let i = i + 1;
                    final_in_spec(decls, name, i)
                }
            },
            _ => {
                let i = i + 1;
                final_in_spec(decls, name, i)
            },
        }
    }
}

/// What [`final_spelling`] computes.
#[verifier::opaque]
pub open spec fn final_spelling_spec(g: GlobalVarV, package: Seq<Seq<char>>, ns: Seq<Seq<char>>) -> Seq<char>
{
    let native = match meta_arg_spec(g.meta, "native"@, 0int) {
        Some(n) => { n },
        None => { Seq::empty() },
    };
    let parts = split_spec(native, '.');
    let cpp = match last_of_spec(parts) {
        Some(l) => { l },
        None => { Seq::empty() },
    };
    if ((cpp).len() == 0) { namespace_prefix_spec(package, ns) + g.name } else {
        if (parts.len()) > 1 { (namespace_prefix_spec(all_but_last_spec(parts, 0int, Seq::empty()), ns)) + cpp } else { namespace_prefix_spec(package, ns) + cpp }
    }
}

/// What [`final_from`] computes.
pub open spec fn final_from_spec(prog: ProgramV, name: Seq<char>, ns: Seq<Seq<char>>, i: int) -> Option<Seq<char>>
    decreases prog.modules.len() - i,
{
    if !(0 <= i < prog.modules.len()) { None } else {
        match final_in_spec(prog.modules[i].file.decls, name, 0int) {
            Some(g) => { Some(final_spelling_spec(g, prog.modules[i].package, ns)) },
            None => {
                let i = i + 1;
                final_from_spec(prog, name, ns, i)
            },
        }
    }
}

/// What [`global_final_ref`] computes.
#[verifier::opaque]
pub open spec fn global_final_ref_spec(prog: ProgramV, name: Seq<char>, mi: int, ns: Seq<Seq<char>>) -> Option<Seq<char>>
{
    match module_at_spec(prog, mi) {
        Some(m) => {
            match final_in_spec(m.file.decls, name, 0int) {
                Some(g) => { Some(final_spelling_spec(g, m.package, ns)) },
                None => { final_from_spec(prog, name, ns, 0int) },
            }
        },
        None => { final_from_spec(prog, name, ns, 0int) },
    }
}

/// What [`BodyGen::say`] computes.
#[verifier::opaque]
pub open spec fn say_spec(p: Env, st: GenV, text: Seq<char>) -> GenV
{
    let whole = st.prelude_t + text + "\n"@;
    let st = hoist_spec(p, st, whole);
    st
}

/// What [`BodyGen::format_scalar`] computes.
#[verifier::opaque]
pub open spec fn format_scalar_spec(p: Env, st: GenV, code: Seq<char>, ty: TyV) -> (GenV, Seq<char>)
{
    let (spec, arg) = spec_for_spec(code, ty);
    let (st, buf) = fresh_spec(p, st, "buf"@);
    let st = say_spec(p, st, "char "@ + buf + "["@ + scalar_buffer_spec(ty) + "]; sprintf("@ + buf + ", \""@ + spec + "\", "@ + arg + ");"@);
    (st, buf)
}

/// What [`BodyGen::concat_part`] computes.
#[verifier::opaque]
pub open spec fn concat_part_spec(p: Env, st: GenV, code: Seq<char>, ty: TyV) -> (GenV, Seq<char>)
{
    if (ty.base == "std::string"@) { (st, code) } else {
        let (st, buf) = format_scalar_spec(p, st, code, ty);
        (st, "std::string("@ + buf + ")"@)
    }
}

/// What [`BodyGen::place_new_arg`] computes.
#[verifier::opaque]
pub open spec fn place_new_arg_spec(p: Env, st: GenV, new_code: Seq<char>, ty: TyV) -> (GenV, Seq<char>)
{
    if st.new_args_escape { (st, new_code) } else {
        let (st, tmp) = fresh_spec(p, st, "v"@);
        let st = say_spec(p, st, decl_spelling_spec(ty) + " "@ + tmp + " = "@ + new_code + ";"@);
        let st = register_owned_spec(p, st, tmp);
        (st, tmp)
    }
}

/// What [`BodyGen::deref_nullable`] computes.
#[verifier::opaque]
pub open spec fn deref_nullable_spec(p: Env, st: GenV, code: Seq<char>, ty: TyV) -> Seq<char>
{
    if ty.is_ptr && ty.nullable { "("@ + code + " != NULL ? *("@ + code + ") : "@ + ty.base + "())"@ } else { code }
}

/// What [`BodyGen::read_nullable_string`] computes.
#[verifier::opaque]
pub open spec fn read_nullable_string_spec(p: Env, st: GenV, code: Seq<char>, ty: TyV) -> (Seq<char>, TyV)
{
    if (!st.no_nullable_deref) && ty.is_ptr && ty.nullable && (ty.base == "std::string"@) {
        let derefed = deref_nullable_spec(p, st, code, ty);
        let value = ty;
        let value = TyV { is_ptr: false, ..value };
        let value = TyV { nullable: false, ..value };
        (derefed, value)
    } else { (code, ty) }
}

/// What [`BodyGen::try_iter_null_check`] computes.
#[verifier::opaque]
pub open spec fn try_iter_null_check_spec(p: Env, st: GenV, op: BinOp, lhs: ExprV, rhs: ExprV) -> Option<(Seq<char>, TyV)>
{
    if (op != (BinOp::Eq)) && (op != (BinOp::Ne)) { None } else {
        let l_null = (match lhs { ExprV::Null => true, _ => false });
        let r_null = (match rhs { ExprV::Null => true, _ => false });
        if l_null == r_null { None } else {
            let other = if l_null { rhs } else { lhs };
            match other {
                ExprV::Ident(n) => {
                    match lookup_local_spec(p, st, n) {
                        Some(ty) => {
                            match ty.iter {
                                Some(alias) => {
                                    let o = if op == (BinOp::Ne) { " != "@ } else { " == "@ };
                                    Some((alias.it_name + o + alias.map_code + ".end()"@, bool_ty_spec()))
                                },
                                None => { None },
                            }
                        },
                        None => { None },
                    }
                },
                _ => { None },
            }
        }
    }
}

/// What [`BodyGen::this_info`] computes.
#[verifier::opaque]
pub open spec fn this_info_spec(p: Env, st: GenV) -> Option<TypeInfoV>
{
    resolve_name_spec(p.prog, p.class.name, st.mi)
}

/// What [`BodyGen::gen_global_ident`] computes.
#[verifier::opaque]
pub open spec fn gen_global_ident_spec(p: Env, st: GenV, name: Seq<char>) -> (GenV, (Seq<char>, TyV))
{
    match resolve_name_spec(p.prog, name, st.mi) {
        Some(info) => { (st, (name, info_ty_spec(name, false, Some(info)))) },
        None => {
            match global_final_ref_spec(p.prog, name, st.mi, st.ns) {
                Some(q) => { (st, (q, no_ty_spec())) },
                None => {
                    match enum_variant_ref_spec(p, st, name) {
                        Some(res) => { (st, res) },
                        None => {
                            let st = if st.nonbinding_catch_vars.contains(name) {
                                let st = fail_spec(p, st, "the value `"@ + name + "` of an untyped/`Dynamic` catch cannot be used: C++ `catch (...)` does not bind the exception — give the catch a concrete type (e.g. `catch ("@ + name + ":String)`)"@);
                                st
                            } else { st };
                            (st, (name, no_ty_spec()))
                        },
                    }
                },
            }
        },
    }
}

/// What [`BodyGen::fail_ordered_map`] computes.
#[verifier::opaque]
pub open spec fn fail_ordered_map_spec(p: Env, st: GenV, name: Seq<char>) -> GenV
{
    let st = fail_spec(p, st, "`"@ + name + "` is an @orderedMap field and has no single map value: use it via `get`/`set`/`exists`/`remove`/`keys` or a `for` loop, not as a whole value (it cannot be passed, returned, or assigned as a map)"@);
    st
}

/// What [`BodyGen::gen_own_field`] computes.
#[verifier::opaque]
pub open spec fn gen_own_field_spec(p: Env, st: GenV, f: FieldV, name: Seq<char>) -> (Seq<char>, TyV)
{
    let ty = field_ty_spec(p, st, f);
    if f.is_static {
        let call = if is_meyers_static_spec(p.prog, own_field_module_spec(p, st, name), f) { "()"@ } else { ""@ };
        (self_class_cpp_name_spec(p, st) + "::"@ + name + call, ty)
    } else {
        if (f.get == (PropAccess::Get)) && !(st.current_fn == "get_"@ + name) { ("this->get_"@ + name + "()"@, ty) } else { read_nullable_string_spec(p, st, "this->"@ + name, ty) }
    }
}

/// What [`BodyGen::gen_ident`] computes.
#[verifier::opaque]
pub open spec fn gen_ident_spec(p: Env, st: GenV, name: Seq<char>) -> (GenV, (Seq<char>, TyV))
{
    match lookup_local_spec(p, st, name) {
        Some(ty) => {
            match ty.iter {
                Some(alias) => { (st, (alias.it_name + "->second"@, alias.value_ty)) },
                None => {
                    let code = cpp_name_spec(p, st, name);
                    (st, read_nullable_string_spec(p, st, code, ty))
                },
            }
        },
        None => {
            match class_field_spec(p, st, name) {
                Some(f) => {
                    if ordered_map_kv_spec(f) is Some {
                        let st = fail_ordered_map_spec(p, st, name);
                        (st, ("this->"@ + name, no_ty_spec()))
                    } else { (st, gen_own_field_spec(p, st, f, name)) }
                },
                None => { gen_global_ident_spec(p, st, name) },
            }
        },
    }
}

/// What [`BodyGen::flag_const_param_write`] computes.
#[verifier::opaque]
pub open spec fn flag_const_param_write_spec(p: Env, st: GenV, target: ExprV) -> GenV
{
    match lvalue_root_ident_spec(target) {
        Some(root) => {
            if st.value_struct_params.contains(root) {
                let st = fail_spec(p, st, "cannot assign to `"@ + root + "` or its fields: a value-struct parameter is lowered to C++ `const&` and cannot be mutated in place. Copy it into a local first, or — if the caller should see the change — pass it as a class or `Null<T>`"@);
                st
            } else { st }
        },
        None => { st },
    }
}

/// What [`BodyGen::warn_if_param_container_mutated`] computes.
#[verifier::opaque]
pub open spec fn warn_if_param_container_mutated_spec(p: Env, st: GenV, recv: ExprV, what: Seq<char>) -> GenV
{
    match recv {
        ExprV::Ident(name) => {
            if !(st.container_params.contains(name)) { st } else {
                let kind = match lookup_local_spec(p, st, name) {
                    Some(t) => {
                        let held = deref_alias_spec(p, st, t);
                        if ("std::vector"@).is_prefix_of(held.base) { "an Array"@ } else if ("std::map"@).is_prefix_of(held.base) { "a Map"@ } else { ""@ }
                    },
                    None => { ""@ },
                };
                if ((kind).len() == 0) { st } else {
                    let st = warn_spec(p, st, "`"@ + what + "` mutates `"@ + name + "`, "@ + kind + " parameter — Haxe containers are shared by reference (the caller would see this change), but Hatchet passes containers by value (`const&`), so the mutation is lost and the generated C++ will not compile; mutate a local copy and return it, or hold the container in a class"@);
                    st
                }
            }
        },
        _ => { st },
    }
}

/// What [`BodyGen::finish_return`] computes.
#[verifier::opaque]
pub open spec fn finish_return_spec(p: Env, st: GenV, t: Seq<char>, value: Seq<char>) -> (GenV, Seq<char>)
{
    if has_owned_locals_spec(p, st) {
        let spell = decl_spelling_spec(st.current_ret);
        let (st, tmp) = fresh_spec(p, st, "ret"@);
        let deletes = all_owned_deletes_spec(p, st, t);
        (st, t + spell + " "@ + tmp + " = "@ + value + ";\n"@ + deletes + t + "return "@ + tmp + ";\n"@)
    } else {
        (st, t + "return "@ + value + ";\n"@)
    }
}

/// What [`BodyGen::value_new`] computes.
#[verifier::opaque]
pub open spec fn value_new_spec(p: Env, st: GenV, ty: TypeV) -> bool
{
    let target = resolve_alias_type_spec(p.prog, ty, st.mi);
    if is_value_new_spec(target) { true } else {
        match target {
            TypeV::Named { path, params: _, optional: _, line: _ } => { is_value_class_spec(p.prog, path, st.mi) },
            _ => { false },
        }
    }
}

/// What [`BodyGen::heap_new`] computes.
#[verifier::opaque]
pub open spec fn heap_new_spec(p: Env, st: GenV, e: ExprV) -> bool
{
    match e {
        ExprV::New(ty, _) => { !value_new_spec(p, st, ty) },
        _ => { false },
    }
}

/// What [`BodyGen::push_into_retaining_container`] computes.
#[verifier::opaque]
pub open spec fn push_into_retaining_container_spec(p: Env, st: GenV, e: ExprV) -> Option<ExprV>
{
    match e {
        ExprV::Call(target, args) => {
            match *target {
                ExprV::Field(recv, method) => {
                    let retains = match *recv {
                        ExprV::Ident(n) => { (st.owned_containers.contains(n)) || (st.escaping.contains(n)) },
                        ExprV::Field(inner, f) => {
                            (match *inner { ExprV::This => true, _ => false }) && (st.owned_containers.contains(f))
                        },
                        _ => { false },
                    };
                    if !retains { None } else {
                        if (method == "push"@) && ((args.len()) == 1) { Some(args[0]) } else {
                            if (method == "insert"@) && ((args.len()) == 2) { Some(args[1]) } else { None }
                        }
                    }
                },
                _ => { None },
            }
        },
        _ => { None },
    }
}

/// What [`BodyGen::elem_member_ty`] computes.
#[verifier::opaque]
pub open spec fn elem_member_ty_spec(p: Env, st: GenV, vec: TyV) -> TyV
{
    let e = element_ty_spec(p, st, vec);
    let e = if (e.info is None) && (!((e.base).len() == 0)) {
        let e = TyV { info: resolve_type_by_cpp_spelling_spec(p.prog, e.base, st.ns), ..e };
        e
    } else { e };
    e
}

} // verus!
