//! Declarations of a header: enums, typedefs and interfaces, and their order.

use vstd::prelude::*;

use crate::ast::{Class, Decl, Enum, EnumVariant, Function, Interface, Param, StructField, Type, Typedef, TypedefTarget};
use crate::codegen::common::{default_value, default_value_spec, enum_abstract_value, enum_abstract_value_spec, enum_member_value, enum_member_value_spec, param_list, param_list_spec};
use crate::codegen::ctypes::{is_integral_underlying, is_integral_underlying_spec, is_uint_shim, is_uint_shim_spec, map_type_base, map_type_base_spec, map_type_use, map_type_use_spec};
use crate::codegen::lookup::{is_adt, is_adt_spec};
use crate::codegen::modfns::{is_emitted_class, is_emitted_class_spec};
use crate::codegen::refs::{header_type_refs, header_type_refs_spec, type_names_in, type_names_in_spec};
use crate::lexer::{inc, inc_spec};
use crate::model::{ClassV, DeclV, EnumV, EnumVariantV, FunctionV, InterfaceV, ParamV, StructFieldV, TypeV, TypedefTargetV, TypedefV, decls_v, enum_variants_v, functions_v, params_v, struct_fields_v, types_v};
use crate::parser::types::{meta_has, meta_has_spec};
use crate::program::{Program, ProgramV};
use crate::resolve::{resolve_name, resolve_name_spec};
use crate::strings::{join, join_spec};
use crate::text::{cat2, cat3, cat4, cat5, cat6, cat7, cat8, has_text, same, texts};

verus! {

broadcast use {crate::model::group_model, crate::program::group_program, crate::text::group_texts};

/// Whether a typedef is emitted: neither an external structure nor an integer shim.
pub fn emit_typedef_wanted(td: &Typedef) -> (r: bool)
    ensures
        r == emit_typedef_wanted_spec(td.v()),
{
    !meta_has(&td.meta, "native") && !is_uint_shim(&td.name)
}

/// Whether a declaration is a type the header emits.
pub fn is_emitted_type(d: &Decl) -> (r: bool)
    ensures
        r == is_emitted_type_spec(d.v()),
{
    match d {
        Decl::Enum(e) => !e.is_extern,
        Decl::Typedef(td) => emit_typedef_wanted(td),
        Decl::Interface(it) => !it.is_extern,
        Decl::Class(c) => is_emitted_class(c),
        _ => false,
    }
}

/// The name of a type that can be declared ahead of its definition: a class, an interface or
/// an algebraic enum.
pub fn declarable_name(d: &Decl) -> (r: Option<String>)
    ensures
        (match r { Some(y) => Some(y@), None => None }) == declarable_name_spec(d.v()),
{
    match d {
        Decl::Class(c) => Some(c.name.clone()),
        Decl::Interface(it) => Some(it.name.clone()),
        Decl::Enum(e) => {
            if is_adt(e) {
                Some(e.name.clone())
            } else {
                None
            }
        },
        _ => None,
    }
}

/// The C++ name a type of this module is emitted under.
pub fn cpp_def_name(prog: &Program, mi: usize, name: &str) -> (r: String)
    ensures
        r@ == cpp_def_name_spec(prog.v(), (mi as int), name@),
{
    proof {
        reveal(cpp_def_name_spec);
    }
    match resolve_name(prog, name, mi) {
        Some(t) => t.cpp,
        None => name.to_owned(),
    }
}

/// The types to declare ahead: those mentioned before they are defined, in the order of
/// their definition. `seen` holds the names mentioned so far.
pub fn forward_names(prog: &Program, mi: usize, decls: &Vec<Decl>, i: usize, seen: Vec<String>, out: Vec<String>) -> (r: Vec<String>)
    ensures
        texts(r@) == forward_names_spec(prog.v(), (mi as int), decls_v(decls@), (i as int), texts(seen@), texts(out@)),
{
    let ghost i_0 = i;
    let ghost seen_0 = seen;
    let ghost out_0 = out;
    let mut i: usize = i;
    let mut seen: Vec<String> = seen;
    let mut out: Vec<String> = out;
    #[verifier::loop_isolation(false)]
    loop
        invariant
            forward_names_spec(prog.v(), (mi as int), decls_v(decls@), (i_0 as int), texts(seen_0@), texts(out_0@)) == forward_names_spec(prog.v(), (mi as int), decls_v(decls@), (i as int), texts(seen@), texts(out@)),
        decreases decls.len() - i,
    {
        if i >= decls.len() {
            return out;
        }
        if is_emitted_type(&decls[i]) {
            match declarable_name(&decls[i]) {
                Some(n) => {
                    if has_text(&seen, &n) {
                        out.push(cpp_def_name(prog, mi, &n));
                    }
                },
                None => {},
            }
            seen = header_type_refs(&decls[i], seen);
        }
        i = i + 1;
    }
}

/// Whether one of the declarations from `i` on defines one of the given names.
pub fn defines_any(decls: &Vec<Decl>, names: &Vec<String>, i: usize) -> (r: bool)
    ensures
        r == defines_any_spec(decls_v(decls@), texts(names@), (i as int)),
{
    let ghost i_0 = i;
    let mut i: usize = i;
    #[verifier::loop_isolation(false)]
    loop
        invariant
            defines_any_spec(decls_v(decls@), texts(names@), (i_0 as int)) == defines_any_spec(decls_v(decls@), texts(names@), (i as int)),
        decreases decls.len() - i,
    {
        if i >= decls.len() {
            return false;
        }
        if is_emitted_type(&decls[i]) {
            match declarable_name(&decls[i]) {
                Some(n) => {
                    if has_text(names, &n) {
                        return true;
                    }
                },
                None => {},
            }
        }
        i = i + 1;
    }
}

/// Where a type is defined among the declarations from `i` on.
pub fn definition_of(decls: &Vec<Decl>, name: &str, i: usize) -> (r: Option<usize>)
    ensures
        (match r { Some(y) => Some((y as int)), None => None }) == definition_of_spec(decls_v(decls@), name@, (i as int)),
{
    let ghost i_0 = i;
    let mut i: usize = i;
    #[verifier::loop_isolation(false)]
    loop
        invariant
            definition_of_spec(decls_v(decls@), name@, (i_0 as int)) == definition_of_spec(decls_v(decls@), name@, (i as int)),
        decreases decls.len() - i,
    {
        if i >= decls.len() {
            return None;
        }
        if is_emitted_type(&decls[i]) {
            match declarable_name(&decls[i]) {
                Some(n) => {
                    if same(&n, name) {
                        return Some(i);
                    }
                },
                None => {},
            }
        }
        i = i + 1;
    }
}

/// Whether a type mentions one that is defined after a class.
pub fn forwarder_deferred(decls: &Vec<Decl>, c: &Class, t: &Option<Type>) -> (r: bool)
    ensures
        r == forwarder_deferred_spec(decls_v(decls@), c.v(), (match t { Some(y) => Some(y.v()), None => None })),
{
    proof {
        reveal(forwarder_deferred_spec);
    }
    match definition_of(decls, &c.name, 0) {
        Some(here) => match t {
            Some(t) => defines_any(decls, &type_names_in(t, Vec::new()), inc(here)),
            None => false,
        },
        None => false,
    }
}

// ---- enums ------------------------------------------------------------

/// The lines of the variants from `i` on in an enum.
pub fn enum_lines(variants: &Vec<EnumVariant>, valued: bool, t: &str, i: usize, out: Vec<String>) -> (r: Vec<String>)
    ensures
        texts(r@) == enum_lines_spec(enum_variants_v(variants@), valued, t@, (i as int), texts(out@)),
{
    let ghost i_0 = i;
    let ghost out_0 = out;
    let mut i: usize = i;
    let mut out: Vec<String> = out;
    #[verifier::loop_isolation(false)]
    loop
        invariant
            enum_lines_spec(enum_variants_v(variants@), valued, t@, (i_0 as int), texts(out_0@)) == enum_lines_spec(enum_variants_v(variants@), valued, t@, (i as int), texts(out@)),
        decreases variants.len() - i,
    {
        if i >= variants.len() {
            return out;
        }
        let value = match &variants[i].value {
            Some(e) => {
                if valued {
                    enum_member_value(e)
                } else {
                    None
                }
            },
            None => None,
        };
        match value {
            Some(v) => {
                out.push(cat5(t, "\t\t", &variants[i].name, " = ", &v));
            },
            None => {
                out.push(cat3(t, "\t\t", &variants[i].name));
            },
        }
        i = i + 1;
    }
}

/// The tag of an enum of a C++ name.
pub fn enum_tag(name: &str, e: &Enum, valued: bool, t: &str) -> (r: String)
    ensures
        r@ == enum_tag_spec(name@, e.v(), valued, t@),
{
    cat5(&cat8(t, "struct ", name, "_ {\n", t, "\tenum Enum {\n", &join(&enum_lines(&e.variants, valued, t, 0, Vec::new()), ",\n"), "\n"), t, "\t};\n", t, "};\n")
}

/// The type of a payload.
pub fn payload_type(prog: &Program, mi: usize, ns: &Vec<String>, q: &Param) -> (r: String)
    ensures
        r@ == payload_type_spec(prog.v(), (mi as int), texts(ns@), q.v()),
{
    match &q.ty {
        Some(t) => map_type_use(prog, t, mi, ns),
        None => "int".to_owned(),
    }
}

/// The payload fields of a variant.
pub fn payload_fields(prog: &Program, mi: usize, ns: &Vec<String>, v: &str, params: &Vec<Param>, t: &str, i: usize, out: String) -> (r: String)
    ensures
        r@ == payload_fields_spec(prog.v(), (mi as int), texts(ns@), v@, params_v(params@), t@, (i as int), out@),
{
    let ghost i_0 = i;
    let ghost out_0 = out;
    let mut i: usize = i;
    let mut out: String = out;
    #[verifier::loop_isolation(false)]
    loop
        invariant
            payload_fields_spec(prog.v(), (mi as int), texts(ns@), v@, params_v(params@), t@, (i_0 as int), out_0@) == payload_fields_spec(prog.v(), (mi as int), texts(ns@), v@, params_v(params@), t@, (i as int), out@),
        decreases params.len() - i,
    {
        if i >= params.len() {
            return out;
        }
        out = cat2(&cat8(&out, t, "\t", &payload_type(prog, mi, ns, &params[i]), " ", v, "_", &params[i].name), ";\n");
        i = i + 1;
    }
}

/// The fields of the payloads of the variants from `i` on.
pub fn all_payload_fields(prog: &Program, mi: usize, ns: &Vec<String>, variants: &Vec<EnumVariant>, t: &str, i: usize, out: String) -> (r: String)
    ensures
        r@ == all_payload_fields_spec(prog.v(), (mi as int), texts(ns@), enum_variants_v(variants@), t@, (i as int), out@),
{
    let ghost i_0 = i;
    let ghost out_0 = out;
    let mut i: usize = i;
    let mut out: String = out;
    #[verifier::loop_isolation(false)]
    loop
        invariant
            all_payload_fields_spec(prog.v(), (mi as int), texts(ns@), enum_variants_v(variants@), t@, (i_0 as int), out_0@) == all_payload_fields_spec(prog.v(), (mi as int), texts(ns@), enum_variants_v(variants@), t@, (i as int), out@),
        decreases variants.len() - i,
    {
        if i >= variants.len() {
            return out;
        }
        out = payload_fields(prog, mi, ns, &variants[i].name, &variants[i].params, t, 0, out);
        i = i + 1;
    }
}

/// The parameters of a factory, from the one at `i` on.
pub fn payload_params(prog: &Program, mi: usize, ns: &Vec<String>, params: &Vec<Param>, i: usize, out: Vec<String>) -> (r: Vec<String>)
    ensures
        texts(r@) == payload_params_spec(prog.v(), (mi as int), texts(ns@), params_v(params@), (i as int), texts(out@)),
{
    let ghost i_0 = i;
    let ghost out_0 = out;
    let mut i: usize = i;
    let mut out: Vec<String> = out;
    #[verifier::loop_isolation(false)]
    loop
        invariant
            payload_params_spec(prog.v(), (mi as int), texts(ns@), params_v(params@), (i_0 as int), texts(out_0@)) == payload_params_spec(prog.v(), (mi as int), texts(ns@), params_v(params@), (i as int), texts(out@)),
        decreases params.len() - i,
    {
        if i >= params.len() {
            return out;
        }
        out.push(cat3(&payload_type(prog, mi, ns, &params[i]), " ", &params[i].name));
        i = i + 1;
    }
}

/// The statements that store the payload of a factory, from the one at `i` on.
pub fn payload_stores(v: &str, params: &Vec<Param>, i: usize, out: String) -> (r: String)
    ensures
        r@ == payload_stores_spec(v@, params_v(params@), (i as int), out@),
{
    let ghost i_0 = i;
    let ghost out_0 = out;
    let mut i: usize = i;
    let mut out: String = out;
    #[verifier::loop_isolation(false)]
    loop
        invariant
            payload_stores_spec(v@, params_v(params@), (i_0 as int), out_0@) == payload_stores_spec(v@, params_v(params@), (i as int), out@),
        decreases params.len() - i,
    {
        if i >= params.len() {
            return out;
        }
        out = cat8(&out, " e.", v, "_", &params[i].name, " = ", &params[i].name, ";");
        i = i + 1;
    }
}

/// The factories of the variants.
pub fn factories(prog: &Program, mi: usize, ns: &Vec<String>, name: &str, variants: &Vec<EnumVariant>, t: &str, i: usize, out: String) -> (r: String)
    ensures
        r@ == factories_spec(prog.v(), (mi as int), texts(ns@), name@, enum_variants_v(variants@), t@, (i as int), out@),
{
    let ghost i_0 = i;
    let ghost out_0 = out;
    let mut i: usize = i;
    let mut out: String = out;
    #[verifier::loop_isolation(false)]
    loop
        invariant
            factories_spec(prog.v(), (mi as int), texts(ns@), name@, enum_variants_v(variants@), t@, (i_0 as int), out_0@) == factories_spec(prog.v(), (mi as int), texts(ns@), name@, enum_variants_v(variants@), t@, (i as int), out@),
        decreases variants.len() - i,
    {
        if i >= variants.len() {
            return out;
        }
        let params = join(&payload_params(prog, mi, ns, &variants[i].params, 0, Vec::new()), ", ");
        let stores = payload_stores(&variants[i].name, &variants[i].params, 0, String::new());
        out = cat3(&cat8(&cat8(&out, t, "\tstatic ", name, " ", &variants[i].name, "(", &params), ") { ", name, " e; e.kind = ", name, "_::", &variants[i].name, ";"), &stores, " return e; }\n");
        i = i + 1;
    }
}

/// The comparisons of two payloads of a variant, from the one at `i` on.
pub fn payload_equalities(v: &str, params: &Vec<Param>, i: usize, out: Vec<String>) -> (r: Vec<String>)
    ensures
        texts(r@) == payload_equalities_spec(v@, params_v(params@), (i as int), texts(out@)),
{
    let ghost i_0 = i;
    let ghost out_0 = out;
    let mut i: usize = i;
    let mut out: Vec<String> = out;
    #[verifier::loop_isolation(false)]
    loop
        invariant
            payload_equalities_spec(v@, params_v(params@), (i_0 as int), texts(out_0@)) == payload_equalities_spec(v@, params_v(params@), (i as int), texts(out@)),
        decreases params.len() - i,
    {
        if i >= params.len() {
            return out;
        }
        out.push(cat7(v, "_", &params[i].name, " == o.", v, "_", &params[i].name));
        i = i + 1;
    }
}

/// The comparison of the payloads of equal tags.
pub fn equality_lines(name: &str, variants: &Vec<EnumVariant>, t: &str, i: usize, out: String) -> (r: String)
    ensures
        r@ == equality_lines_spec(name@, enum_variants_v(variants@), t@, (i as int), out@),
{
    let ghost i_0 = i;
    let ghost out_0 = out;
    let mut i: usize = i;
    let mut out: String = out;
    #[verifier::loop_isolation(false)]
    loop
        invariant
            equality_lines_spec(name@, enum_variants_v(variants@), t@, (i_0 as int), out_0@) == equality_lines_spec(name@, enum_variants_v(variants@), t@, (i as int), out@),
        decreases variants.len() - i,
    {
        if i >= variants.len() {
            return out;
        }
        if variants[i].params.len() > 0 {
            out = cat2(&cat8(&out, t, "\t\tif (kind == ", name, "_::", &variants[i].name, ") return ", &join(&payload_equalities(&variants[i].name, &variants[i].params, 0, Vec::new()), " && ")), ";\n");
        }
        i = i + 1;
    }
}

/// An algebraic enum: the tag, and a value class with the payload of every variant, a
/// factory for each, and equality of tag and payload.
pub fn emit_enum_adt(prog: &Program, mi: usize, ns: &Vec<String>, e: &Enum, t: &str) -> (r: String)
    ensures
        r@ == emit_enum_adt_spec(prog.v(), (mi as int), texts(ns@), e.v(), t@),
{
    proof {
        reveal(emit_enum_adt_spec);
    }
    let n = cpp_def_name(prog, mi, &e.name);
    let fields = all_payload_fields(prog, mi, ns, &e.variants, t, 0, String::new());
    let makers = factories(prog, mi, ns, &n, &e.variants, t, 0, String::new());
    let equal = equality_lines(&n, &e.variants, t, 0, String::new());
    cat2(&cat8(&cat8(&cat8(&cat8(&enum_tag(&n, e, false, t), t, "class ", &n, " {\n", t, "public:\n", t), "\t", &n, "_::Enum kind;\n", &fields, &makers, t, "\tbool operator==(const "), &n, "& o) const {\n", t, "\t\tif (kind != o.kind) return false;\n", &equal, t, "\t\treturn true;\n"), t, "\t}\n", t, "\tbool operator!=(const ", &n, "& o) const { return !(*this == o); }\n", t), "};\n")
}

/// The constants of an enum abstract, from the one at `i` on.
pub fn abstract_constants(variants: &Vec<EnumVariant>, ucpp: &str, t: &str, i: usize, out: String) -> (r: String)
    ensures
        r@ == abstract_constants_spec(enum_variants_v(variants@), ucpp@, t@, (i as int), out@),
{
    let ghost i_0 = i;
    let ghost out_0 = out;
    let mut i: usize = i;
    let mut out: String = out;
    #[verifier::loop_isolation(false)]
    loop
        invariant
            abstract_constants_spec(enum_variants_v(variants@), ucpp@, t@, (i_0 as int), out_0@) == abstract_constants_spec(enum_variants_v(variants@), ucpp@, t@, (i as int), out@),
        decreases variants.len() - i,
    {
        if i >= variants.len() {
            return out;
        }
        let value = match &variants[i].value {
            Some(e) => match enum_abstract_value(e) {
                Some(v) => v,
                None => "0".to_owned(),
            },
            None => "0".to_owned(),
        };
        out = cat2(&cat8(&out, t, "\tstatic const ", ucpp, " ", &variants[i].name, " = ", &value), ";\n");
        i = i + 1;
    }
}

/// An `enum abstract` over a string or a number with a fraction: a namespace of constants.
pub fn emit_enum_abstract(prog: &Program, mi: usize, ns: &Vec<String>, e: &Enum, underlying: &Type, t: &str) -> (r: String)
    ensures
        r@ == emit_enum_abstract_spec(prog.v(), (mi as int), texts(ns@), e.v(), underlying.v(), t@),
{
    proof {
        reveal(emit_enum_abstract_spec);
    }
    let ucpp = map_type_use(prog, underlying, mi, ns);
    cat7(t, "namespace ", &cpp_def_name(prog, mi, &e.name), "_ {\n", &abstract_constants(&e.variants, &ucpp, t, 0, String::new()), t, "}\n")
}

/// An enum.
pub fn emit_enum(prog: &Program, mi: usize, ns: &Vec<String>, e: &Enum, t: &str) -> (r: String)
    ensures
        r@ == emit_enum_spec(prog.v(), (mi as int), texts(ns@), e.v(), t@),
{
    proof {
        reveal(emit_enum_spec);
    }
    match &e.underlying {
        Some(u) => {
            if !is_integral_underlying(u) {
                return emit_enum_abstract(prog, mi, ns, e, u, t);
            }
        },
        None => {},
    }
    if is_adt(e) {
        return emit_enum_adt(prog, mi, ns, e, t);
    }
    let n = cpp_def_name(prog, mi, &e.name);
    cat7(&enum_tag(&n, e, true, t), t, "typedef ", &n, "_::Enum ", &n, ";\n")
}

// ---- typedefs and interfaces --------------------------------------------

/// The fields of a structure, from the one at `i` on.
pub fn struct_lines(prog: &Program, mi: usize, ns: &Vec<String>, fields: &Vec<StructField>, t: &str, i: usize, out: String) -> (r: String)
    ensures
        r@ == struct_lines_spec(prog.v(), (mi as int), texts(ns@), struct_fields_v(fields@), t@, (i as int), out@),
{
    let ghost i_0 = i;
    let ghost out_0 = out;
    let mut i: usize = i;
    let mut out: String = out;
    #[verifier::loop_isolation(false)]
    loop
        invariant
            struct_lines_spec(prog.v(), (mi as int), texts(ns@), struct_fields_v(fields@), t@, (i_0 as int), out_0@) == struct_lines_spec(prog.v(), (mi as int), texts(ns@), struct_fields_v(fields@), t@, (i as int), out@),
        decreases fields.len() - i,
    {
        if i >= fields.len() {
            return out;
        }
        out = cat7(&out, t, "\t", &map_type_use(prog, &fields[i].ty, mi, ns), " ", &fields[i].name, ";\n");
        i = i + 1;
    }
}

/// What the default constructor of a structure sets: its optional fields.
pub fn struct_inits(prog: &Program, mi: usize, ns: &Vec<String>, fields: &Vec<StructField>, i: usize, out: Vec<String>) -> (r: Vec<String>)
    ensures
        texts(r@) == struct_inits_spec(prog.v(), (mi as int), texts(ns@), struct_fields_v(fields@), (i as int), texts(out@)),
{
    let ghost i_0 = i;
    let ghost out_0 = out;
    let mut i: usize = i;
    let mut out: Vec<String> = out;
    #[verifier::loop_isolation(false)]
    loop
        invariant
            struct_inits_spec(prog.v(), (mi as int), texts(ns@), struct_fields_v(fields@), (i_0 as int), texts(out_0@)) == struct_inits_spec(prog.v(), (mi as int), texts(ns@), struct_fields_v(fields@), (i as int), texts(out@)),
        decreases fields.len() - i,
    {
        if i >= fields.len() {
            return out;
        }
        if fields[i].optional {
            match default_value(prog, mi, ns, &fields[i].ty) {
                Some(d) => {
                    out.push(cat4(&fields[i].name, "(", &d, ")"));
                },
                None => {},
            }
        }
        i = i + 1;
    }
}

/// A structure.
pub fn emit_struct(prog: &Program, mi: usize, ns: &Vec<String>, name: &str, fields: &Vec<StructField>, t: &str) -> (r: String)
    ensures
        r@ == emit_struct_spec(prog.v(), (mi as int), texts(ns@), name@, struct_fields_v(fields@), t@),
{
    proof {
        reveal(emit_struct_spec);
    }
    let inits = struct_inits(prog, mi, ns, fields, 0, Vec::new());
    let ctor = if inits.len() == 0 { String::new() } else { cat6(t, "\t", name, "() : ", &join(&inits, ", "), " {}\n") };
    cat8(t, "struct ", name, " {\n", &struct_lines(prog, mi, ns, fields, t, 0, String::new()), &ctor, t, "};\n")
}

/// A typedef.
pub fn emit_typedef(prog: &Program, mi: usize, ns: &Vec<String>, td: &Typedef, t: &str) -> (r: String)
    ensures
        r@ == emit_typedef_spec(prog.v(), (mi as int), texts(ns@), td.v(), t@),
{
    proof {
        reveal(emit_typedef_spec);
    }
    match &td.target {
        TypedefTarget::Alias(ty) => cat6(t, "typedef ", &map_type_base(prog, ty, mi, ns), " ", &td.name, ";\n"),
        TypedefTarget::Struct(fields) => emit_struct(prog, mi, ns, &td.name, fields, t),
    }
}

/// The spelled return type of a function.
pub fn ret_spelling(prog: &Program, mi: usize, ns: &Vec<String>, ret: &Option<Type>) -> (r: String)
    ensures
        r@ == ret_spelling_spec(prog.v(), (mi as int), texts(ns@), (match ret { Some(y) => Some(y.v()), None => None })),
{
    match ret {
        Some(t) => map_type_use(prog, t, mi, ns),
        None => "void".to_owned(),
    }
}

/// The signature of a method that returns `ret`.
pub fn method_signature(prog: &Program, mi: usize, ns: &Vec<String>, m: &Function, ret: &Option<Type>) -> (r: String)
    ensures
        r@ == method_signature_spec(prog.v(), (mi as int), texts(ns@), m.v(), (match ret { Some(y) => Some(y.v()), None => None })),
{
    proof {
        reveal(method_signature_spec);
    }
    let name = match &m.name {
        Some(n) => n.clone(),
        None => "new".to_owned(),
    };
    cat6(&ret_spelling(prog, mi, ns, ret), " ", &name, "(", &param_list(prog, mi, ns, &m.params, true), ")")
}

/// The public bases from `i` on.
pub fn base_parts(prog: &Program, mi: usize, ns: &Vec<String>, list: &Vec<Type>, i: usize, out: Vec<String>) -> (r: Vec<String>)
    ensures
        texts(r@) == base_parts_spec(prog.v(), (mi as int), texts(ns@), types_v(list@), (i as int), texts(out@)),
{
    let ghost i_0 = i;
    let ghost out_0 = out;
    let mut i: usize = i;
    let mut out: Vec<String> = out;
    #[verifier::loop_isolation(false)]
    loop
        invariant
            base_parts_spec(prog.v(), (mi as int), texts(ns@), types_v(list@), (i_0 as int), texts(out_0@)) == base_parts_spec(prog.v(), (mi as int), texts(ns@), types_v(list@), (i as int), texts(out@)),
        decreases list.len() - i,
    {
        if i >= list.len() {
            return out;
        }
        out.push(cat2("public ", &map_type_base(prog, &list[i], mi, ns)));
        i = i + 1;
    }
}

/// A list of bases, as it follows the name of a class.
pub fn base_list(parts: &Vec<String>) -> (r: String)
    ensures
        r@ == base_list_spec(texts(parts@)),
{
    if parts.len() == 0 {
        String::new()
    } else {
        cat2(" : ", &join(parts, ", "))
    }
}

/// The pure virtual methods of an interface, from the one at `i` on.
pub fn interface_lines(prog: &Program, mi: usize, ns: &Vec<String>, methods: &Vec<Function>, t: &str, i: usize, out: String) -> (r: String)
    ensures
        r@ == interface_lines_spec(prog.v(), (mi as int), texts(ns@), functions_v(methods@), t@, (i as int), out@),
{
    let ghost i_0 = i;
    let ghost out_0 = out;
    let mut i: usize = i;
    let mut out: String = out;
    #[verifier::loop_isolation(false)]
    loop
        invariant
            interface_lines_spec(prog.v(), (mi as int), texts(ns@), functions_v(methods@), t@, (i_0 as int), out_0@) == interface_lines_spec(prog.v(), (mi as int), texts(ns@), functions_v(methods@), t@, (i as int), out@),
        decreases methods.len() - i,
    {
        if i >= methods.len() {
            return out;
        }
        out = cat5(&out, t, "\tvirtual ", &method_signature(prog, mi, ns, &methods[i], &methods[i].ret), " = 0;\n");
        i = i + 1;
    }
}

/// An interface: a class of pure virtual methods.
pub fn emit_interface(prog: &Program, mi: usize, ns: &Vec<String>, it: &Interface, t: &str) -> (r: String)
    ensures
        r@ == emit_interface_spec(prog.v(), (mi as int), texts(ns@), it.v(), t@),
{
    proof {
        reveal(emit_interface_spec);
    }
    let base = base_list(&base_parts(prog, mi, ns, &it.extends, 0, Vec::new()));
    let n = cpp_def_name(prog, mi, &it.name);
    cat7(&cat8(t, "class ", &n, &base, " {\n", t, "public:\n", t), "\tvirtual ~", &n, "() {}\n", &interface_lines(prog, mi, ns, &it.methods, t, 0, String::new()), t, "};\n")
}

/// What [`emit_typedef_wanted`] computes.
pub open spec fn emit_typedef_wanted_spec(td: TypedefV) -> bool
{
    (!meta_has_spec(td.meta, "native"@)) && (!is_uint_shim_spec(td.name))
}

/// What [`is_emitted_type`] computes.
pub open spec fn is_emitted_type_spec(d: DeclV) -> bool
{
    match d {
        DeclV::Enum(e) => { !e.is_extern },
        DeclV::Typedef(td) => { emit_typedef_wanted_spec(td) },
        DeclV::Interface(it) => { !it.is_extern },
        DeclV::Class(c) => { is_emitted_class_spec(*c) },
        _ => { false },
    }
}

/// What [`declarable_name`] computes.
pub open spec fn declarable_name_spec(d: DeclV) -> Option<Seq<char>>
{
    match d {
        DeclV::Class(c) => { Some(c.name) },
        DeclV::Interface(it) => { Some(it.name) },
        DeclV::Enum(e) => {
            if is_adt_spec(e) { Some(e.name) } else { None }
        },
        _ => { None },
    }
}

/// What [`cpp_def_name`] computes.
#[verifier::opaque]
pub open spec fn cpp_def_name_spec(prog: ProgramV, mi: int, name: Seq<char>) -> Seq<char>
{
    match resolve_name_spec(prog, name, mi) {
        Some(t) => { t.cpp },
        None => { name },
    }
}

/// What [`forward_names`] computes.
pub open spec fn forward_names_spec(prog: ProgramV, mi: int, decls: Seq<DeclV>, i: int, seen: Seq<Seq<char>>, out: Seq<Seq<char>>) -> Seq<Seq<char>>
    decreases decls.len() - i,
{
    if !(0 <= i < decls.len()) { out } else {
        let (out, seen) = if is_emitted_type_spec(decls[i]) {
            let out = match declarable_name_spec(decls[i]) {
                Some(n) => {
                    if seen.contains(n) {
                        let out = out.push(cpp_def_name_spec(prog, mi, n));
                        out
                    } else { out }
                },
                None => { out },
            };
            let seen = header_type_refs_spec(decls[i], seen);
            (out, seen)
        } else { (out, seen) };
        let i = i + 1;
        forward_names_spec(prog, mi, decls, i, seen, out)
    }
}

/// What [`defines_any`] computes.
pub open spec fn defines_any_spec(decls: Seq<DeclV>, names: Seq<Seq<char>>, i: int) -> bool
    decreases decls.len() - i,
{
    if !(0 <= i < decls.len()) { false } else {
        if is_emitted_type_spec(decls[i]) {
            match declarable_name_spec(decls[i]) {
                Some(n) => {
                    if names.contains(n) { true } else {
                        let i = i + 1;
                        defines_any_spec(decls, names, i)
                    }
                },
                None => {
                    let i = i + 1;
                    defines_any_spec(decls, names, i)
                },
            }
        } else {
            let i = i + 1;
            defines_any_spec(decls, names, i)
        }
    }
}

/// What [`definition_of`] computes.
pub open spec fn definition_of_spec(decls: Seq<DeclV>, name: Seq<char>, i: int) -> Option<int>
    decreases decls.len() - i,
{
    if !(0 <= i < decls.len()) { None } else {
        if is_emitted_type_spec(decls[i]) {
            match declarable_name_spec(decls[i]) {
                Some(n) => {
                    if (n == name) { Some(i) } else {
                        let i = i + 1;
                        definition_of_spec(decls, name, i)
                    }
                },
                None => {
                    let i = i + 1;
                    definition_of_spec(decls, name, i)
                },
            }
        } else {
            let i = i + 1;
            definition_of_spec(decls, name, i)
        }
    }
}

/// What [`forwarder_deferred`] computes.
#[verifier::opaque]
pub open spec fn forwarder_deferred_spec(decls: Seq<DeclV>, c: ClassV, t: Option<TypeV>) -> bool
{
    match definition_of_spec(decls, c.name, 0int) {
        Some(here) => {
            match t {
                Some(t) => { defines_any_spec(decls, type_names_in_spec(t, Seq::empty()), inc_spec(here)) },
                None => { false },
            }
        },
        None => { false },
    }
}

/// What [`enum_lines`] computes.
pub open spec fn enum_lines_spec(variants: Seq<EnumVariantV>, valued: bool, t: Seq<char>, i: int, out: Seq<Seq<char>>) -> Seq<Seq<char>>
    decreases variants.len() - i,
{
    if !(0 <= i < variants.len()) { out } else {
        let value = match variants[i].value {
            Some(e) => {
                if valued { enum_member_value_spec(e) } else { None }
            },
            None => { None },
        };
        let out = match value {
            Some(v) => {
                let out = out.push(t + "\t\t"@ + (variants[i].name) + " = "@ + v);
                out
            },
            None => {
                let out = out.push(t + "\t\t"@ + (variants[i].name));
                out
            },
        };
        let i = i + 1;
        enum_lines_spec(variants, valued, t, i, out)
    }
}

/// What [`enum_tag`] computes.
pub open spec fn enum_tag_spec(name: Seq<char>, e: EnumV, valued: bool, t: Seq<char>) -> Seq<char>
{
    t + "struct "@ + name + "_ {\n"@ + t + "\tenum Enum {\n"@ + (join_spec(enum_lines_spec(e.variants, valued, t, 0int, Seq::empty()), ",\n"@)) + "\n"@ + t + "\t};\n"@ + t + "};\n"@
}

/// What [`payload_type`] computes.
pub open spec fn payload_type_spec(prog: ProgramV, mi: int, ns: Seq<Seq<char>>, q: ParamV) -> Seq<char>
{
    match q.ty {
        Some(t) => { map_type_use_spec(prog, t, mi, ns) },
        None => { "int"@ },
    }
}

/// What [`payload_fields`] computes.
pub open spec fn payload_fields_spec(prog: ProgramV, mi: int, ns: Seq<Seq<char>>, v: Seq<char>, params: Seq<ParamV>, t: Seq<char>, i: int, out: Seq<char>) -> Seq<char>
    decreases params.len() - i,
{
    if !(0 <= i < params.len()) { out } else {
        let out = out + t + "\t"@ + payload_type_spec(prog, mi, ns, params[i]) + " "@ + v + "_"@ + (params[i].name) + ";\n"@;
        let i = i + 1;
        payload_fields_spec(prog, mi, ns, v, params, t, i, out)
    }
}

/// What [`all_payload_fields`] computes.
pub open spec fn all_payload_fields_spec(prog: ProgramV, mi: int, ns: Seq<Seq<char>>, variants: Seq<EnumVariantV>, t: Seq<char>, i: int, out: Seq<char>) -> Seq<char>
    decreases variants.len() - i,
{
    if !(0 <= i < variants.len()) { out } else {
        let out = payload_fields_spec(prog, mi, ns, variants[i].name, variants[i].params, t, 0int, out);
        let i = i + 1;
        all_payload_fields_spec(prog, mi, ns, variants, t, i, out)
    }
}

/// What [`payload_params`] computes.
pub open spec fn payload_params_spec(prog: ProgramV, mi: int, ns: Seq<Seq<char>>, params: Seq<ParamV>, i: int, out: Seq<Seq<char>>) -> Seq<Seq<char>>
    decreases params.len() - i,
{
    if !(0 <= i < params.len()) { out } else {
        let out = out.push(payload_type_spec(prog, mi, ns, params[i]) + " "@ + (params[i].name));
        let i = i + 1;
        payload_params_spec(prog, mi, ns, params, i, out)
    }
}

/// What [`payload_stores`] computes.
pub open spec fn payload_stores_spec(v: Seq<char>, params: Seq<ParamV>, i: int, out: Seq<char>) -> Seq<char>
    decreases params.len() - i,
{
    if !(0 <= i < params.len()) { out } else {
        let out = out + " e."@ + v + "_"@ + (params[i].name) + " = "@ + (params[i].name) + ";"@;
        let i = i + 1;
        payload_stores_spec(v, params, i, out)
    }
}

/// What [`factories`] computes.
pub open spec fn factories_spec(prog: ProgramV, mi: int, ns: Seq<Seq<char>>, name: Seq<char>, variants: Seq<EnumVariantV>, t: Seq<char>, i: int, out: Seq<char>) -> Seq<char>
    decreases variants.len() - i,
{
    if !(0 <= i < variants.len()) { out } else {
        let params = join_spec(payload_params_spec(prog, mi, ns, variants[i].params, 0int, Seq::empty()), ", "@);
        let stores = payload_stores_spec(variants[i].name, variants[i].params, 0int, Seq::empty());
        let out = out + t + "\tstatic "@ + name + " "@ + (variants[i].name) + "("@ + params + ") { "@ + name + " e; e.kind = "@ + name + "_::"@ + (variants[i].name) + ";"@ + stores + " return e; }\n"@;
        let i = i + 1;
        factories_spec(prog, mi, ns, name, variants, t, i, out)
    }
}

/// What [`payload_equalities`] computes.
pub open spec fn payload_equalities_spec(v: Seq<char>, params: Seq<ParamV>, i: int, out: Seq<Seq<char>>) -> Seq<Seq<char>>
    decreases params.len() - i,
{
    if !(0 <= i < params.len()) { out } else {
        let out = out.push(v + "_"@ + (params[i].name) + " == o."@ + v + "_"@ + (params[i].name));
        let i = i + 1;
        payload_equalities_spec(v, params, i, out)
    }
}

/// What [`equality_lines`] computes.
pub open spec fn equality_lines_spec(name: Seq<char>, variants: Seq<EnumVariantV>, t: Seq<char>, i: int, out: Seq<char>) -> Seq<char>
    decreases variants.len() - i,
{
    if !(0 <= i < variants.len()) { out } else {
        let out = if (variants[i].params.len()) > 0 {
            let out = out + t + "\t\tif (kind == "@ + name + "_::"@ + (variants[i].name) + ") return "@ + (join_spec(payload_equalities_spec(variants[i].name, variants[i].params, 0int, Seq::empty()), " && "@)) + ";\n"@;
            out
        } else { out };
        let i = i + 1;
        equality_lines_spec(name, variants, t, i, out)
    }
}

/// What [`emit_enum_adt`] computes.
#[verifier::opaque]
pub open spec fn emit_enum_adt_spec(prog: ProgramV, mi: int, ns: Seq<Seq<char>>, e: EnumV, t: Seq<char>) -> Seq<char>
{
    let n = cpp_def_name_spec(prog, mi, e.name);
    let fields = all_payload_fields_spec(prog, mi, ns, e.variants, t, 0int, Seq::empty());
    let makers = factories_spec(prog, mi, ns, n, e.variants, t, 0int, Seq::empty());
    let equal = equality_lines_spec(n, e.variants, t, 0int, Seq::empty());
    enum_tag_spec(n, e, false, t) + t + "class "@ + n + " {\n"@ + t + "public:\n"@ + t + "\t"@ + n + "_::Enum kind;\n"@ + fields + makers + t + "\tbool operator==(const "@ + n + "& o) const {\n"@ + t + "\t\tif (kind != o.kind) return false;\n"@ + equal + t + "\t\treturn true;\n"@ + t + "\t}\n"@ + t + "\tbool operator!=(const "@ + n + "& o) const { return !(*this == o); }\n"@ + t + "};\n"@
}

/// What [`abstract_constants`] computes.
pub open spec fn abstract_constants_spec(variants: Seq<EnumVariantV>, ucpp: Seq<char>, t: Seq<char>, i: int, out: Seq<char>) -> Seq<char>
    decreases variants.len() - i,
{
    if !(0 <= i < variants.len()) { out } else {
        let value = match variants[i].value {
            Some(e) => {
                match enum_abstract_value_spec(e) {
                    Some(v) => { v },
                    None => { "0"@ },
                }
            },
            None => { "0"@ },
        };
        let out = out + t + "\tstatic const "@ + ucpp + " "@ + (variants[i].name) + " = "@ + value + ";\n"@;
        let i = i + 1;
        abstract_constants_spec(variants, ucpp, t, i, out)
    }
}

/// What [`emit_enum_abstract`] computes.
#[verifier::opaque]
pub open spec fn emit_enum_abstract_spec(prog: ProgramV, mi: int, ns: Seq<Seq<char>>, e: EnumV, underlying: TypeV, t: Seq<char>) -> Seq<char>
{
    let ucpp = map_type_use_spec(prog, underlying, mi, ns);
    t + "namespace "@ + cpp_def_name_spec(prog, mi, e.name) + "_ {\n"@ + (abstract_constants_spec(e.variants, ucpp, t, 0int, Seq::empty())) + t + "}\n"@
}

/// What [`emit_enum`] computes.
#[verifier::opaque]
pub open spec fn emit_enum_spec(prog: ProgramV, mi: int, ns: Seq<Seq<char>>, e: EnumV, t: Seq<char>) -> Seq<char>
{
    match e.underlying {
        Some(u) => {
            if !is_integral_underlying_spec(u) { emit_enum_abstract_spec(prog, mi, ns, e, u, t) } else {
                if is_adt_spec(e) { emit_enum_adt_spec(prog, mi, ns, e, t) } else {
                    let n = cpp_def_name_spec(prog, mi, e.name);
                    enum_tag_spec(n, e, true, t) + t + "typedef "@ + n + "_::Enum "@ + n + ";\n"@
                }
            }
        },
        None => {
            if is_adt_spec(e) { emit_enum_adt_spec(prog, mi, ns, e, t) } else {
                let n = cpp_def_name_spec(prog, mi, e.name);
                enum_tag_spec(n, e, true, t) + t + "typedef "@ + n + "_::Enum "@ + n + ";\n"@
            }
        },
    }
}

/// What [`struct_lines`] computes.
pub open spec fn struct_lines_spec(prog: ProgramV, mi: int, ns: Seq<Seq<char>>, fields: Seq<StructFieldV>, t: Seq<char>, i: int, out: Seq<char>) -> Seq<char>
    decreases fields.len() - i,
{
    if !(0 <= i < fields.len()) { out } else {
        let out = out + t + "\t"@ + map_type_use_spec(prog, fields[i].ty, mi, ns) + " "@ + (fields[i].name) + ";\n"@;
        let i = i + 1;
        struct_lines_spec(prog, mi, ns, fields, t, i, out)
    }
}

/// What [`struct_inits`] computes.
pub open spec fn struct_inits_spec(prog: ProgramV, mi: int, ns: Seq<Seq<char>>, fields: Seq<StructFieldV>, i: int, out: Seq<Seq<char>>) -> Seq<Seq<char>>
    decreases fields.len() - i,
{
    if !(0 <= i < fields.len()) { out } else {
        let out = if fields[i].optional {
            match default_value_spec(prog, mi, ns, fields[i].ty) {
                Some(d) => {
                    let out = out.push((fields[i].name) + "("@ + d + ")"@);
                    out
                },
                None => { out },
            }
        } else { out };
        let i = i + 1;
        struct_inits_spec(prog, mi, ns, fields, i, out)
    }
}

/// What [`emit_struct`] computes.
#[verifier::opaque]
pub open spec fn emit_struct_spec(prog: ProgramV, mi: int, ns: Seq<Seq<char>>, name: Seq<char>, fields: Seq<StructFieldV>, t: Seq<char>) -> Seq<char>
{
    let inits = struct_inits_spec(prog, mi, ns, fields, 0int, Seq::empty());
    let ctor = if (inits.len()) == 0 { Seq::empty() } else { t + "\t"@ + name + "() : "@ + join_spec(inits, ", "@) + " {}\n"@ };
    t + "struct "@ + name + " {\n"@ + (struct_lines_spec(prog, mi, ns, fields, t, 0int, Seq::empty())) + ctor + t + "};\n"@
}

/// What [`emit_typedef`] computes.
#[verifier::opaque]
pub open spec fn emit_typedef_spec(prog: ProgramV, mi: int, ns: Seq<Seq<char>>, td: TypedefV, t: Seq<char>) -> Seq<char>
{
    match td.target {
        TypedefTargetV::Alias(ty) => {
            t + "typedef "@ + map_type_base_spec(prog, ty, mi, ns) + " "@ + td.name + ";\n"@
        },
        TypedefTargetV::Struct(fields) => { emit_struct_spec(prog, mi, ns, td.name, fields, t) },
    }
}

/// What [`ret_spelling`] computes.
pub open spec fn ret_spelling_spec(prog: ProgramV, mi: int, ns: Seq<Seq<char>>, ret: Option<TypeV>) -> Seq<char>
{
    match ret {
        Some(t) => { map_type_use_spec(prog, t, mi, ns) },
        None => { "void"@ },
    }
}

/// What [`method_signature`] computes.
#[verifier::opaque]
pub open spec fn method_signature_spec(prog: ProgramV, mi: int, ns: Seq<Seq<char>>, m: FunctionV, ret: Option<TypeV>) -> Seq<char>
{
    let name = match m.name {
        Some(n) => { n },
        None => { "new"@ },
    };
    ret_spelling_spec(prog, mi, ns, ret) + " "@ + name + "("@ + param_list_spec(prog, mi, ns, m.params, true) + ")"@
}

/// What [`base_parts`] computes.
pub open spec fn base_parts_spec(prog: ProgramV, mi: int, ns: Seq<Seq<char>>, list: Seq<TypeV>, i: int, out: Seq<Seq<char>>) -> Seq<Seq<char>>
    decreases list.len() - i,
{
    if !(0 <= i < list.len()) { out } else {
        let out = out.push("public "@ + map_type_base_spec(prog, list[i], mi, ns));
        let i = i + 1;
        base_parts_spec(prog, mi, ns, list, i, out)
    }
}

/// What [`base_list`] computes.
pub open spec fn base_list_spec(parts: Seq<Seq<char>>) -> Seq<char>
{
    if (parts.len()) == 0 { Seq::empty() } else { " : "@ + join_spec(parts, ", "@) }
}

/// What [`interface_lines`] computes.
pub open spec fn interface_lines_spec(prog: ProgramV, mi: int, ns: Seq<Seq<char>>, methods: Seq<FunctionV>, t: Seq<char>, i: int, out: Seq<char>) -> Seq<char>
    decreases methods.len() - i,
{
    if !(0 <= i < methods.len()) { out } else {
        let out = out + t + "\tvirtual "@ + method_signature_spec(prog, mi, ns, methods[i], methods[i].ret) + " = 0;\n"@;
        let i = i + 1;
        interface_lines_spec(prog, mi, ns, methods, t, i, out)
    }
}

/// What [`emit_interface`] computes.
#[verifier::opaque]
pub open spec fn emit_interface_spec(prog: ProgramV, mi: int, ns: Seq<Seq<char>>, it: InterfaceV, t: Seq<char>) -> Seq<char>
{
    let base = base_list_spec(base_parts_spec(prog, mi, ns, it.extends, 0int, Seq::empty()));
    let n = cpp_def_name_spec(prog, mi, it.name);
    t + "class "@ + n + base + " {\n"@ + t + "public:\n"@ + t + "\tvirtual ~"@ + n + "() {}\n"@ + (interface_lines_spec(prog, mi, ns, it.methods, t, 0int, Seq::empty())) + t + "};\n"@
}

} // verus!
