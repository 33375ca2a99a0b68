//! Which types the declarations of a header mention.

use vstd::prelude::*;

use crate::ast::{Decl, EnumVariant, Field, Function, Param, StructField, Type, TypedefTarget};
use crate::codegen::scan::{with_name, with_name_spec};
use crate::model::{DeclV, EnumVariantV, FieldV, FunctionV, ParamV, StructFieldV, TypeV, TypedefTargetV, enum_variants_v, fields_v, functions_v, params_v, struct_fields_v, types_v};
use crate::resolve::{last_of, last_of_spec};
use crate::text::texts;

verus! {

broadcast use {crate::model::group_model, crate::text::group_texts};

/// The names in a type, added to `out`.
pub fn type_names_in(t: &Type, out: Vec<String>) -> (r: Vec<String>)
    ensures
        texts(r@) == type_names_in_spec(t.v(), texts(out@)),
    decreases *t, 1int, 0int,
{
    match t.node() {
        Type::Named { path, params, optional: _, line: _ } => match last_of(path) {
            Some(n) => type_names_of(params, 0, with_name(out, n)),
            None => type_names_of(params, 0, out),
        },
        Type::Anon(fields) => field_names_of(fields, 0, out),
        Type::Func { params, ret } => type_names_in(ret, type_names_of(params, 0, out)),
    }
}

/// The names in the types from `i` on.
pub fn type_names_of(types: &Vec<Type>, i: usize, out: Vec<String>) -> (r: Vec<String>)
    ensures
        texts(r@) == type_names_of_spec(types_v(types@), (i as int), texts(out@)),
    decreases types@, 0int, types.len() - i,
{
    if i >= types.len() {
        out
    } else {
        type_names_of(types, i + 1, type_names_in(&types[i], out))
    }
}

/// The names in the types of the fields from `i` on.
pub fn field_names_of(fields: &Vec<StructField>, i: usize, out: Vec<String>) -> (r: Vec<String>)
    ensures
        texts(r@) == field_names_of_spec(struct_fields_v(fields@), (i as int), texts(out@)),
    decreases fields@, 0int, fields.len() - i,
{
    if i >= fields.len() {
        out
    } else {
        field_names_of(fields, i + 1, type_names_in(&fields[i].ty, out))
    }
}

/// The names in a type, where there is one.
pub fn opt_type_names(t: &Option<Type>, out: Vec<String>) -> (r: Vec<String>)
    ensures
        texts(r@) == opt_type_names_spec((match t { Some(y) => Some(y.v()), None => None }), texts(out@)),
{
    match t {
        Some(t) => type_names_in(t, out),
        None => out,
    }
}

/// The names in the types of the parameters from `i` on.
pub fn param_type_names(params: &Vec<Param>, i: usize, out: Vec<String>) -> (r: Vec<String>)
    ensures
        texts(r@) == param_type_names_spec(params_v(params@), (i as int), texts(out@)),
{
    let ghost i_0 = i;
    let ghost out_0 = out;
    let mut i: usize = i;
    let mut out: Vec<String> = out;
    #[verifier::loop_isolation(false)]
    loop
        invariant
            param_type_names_spec(params_v(params@), (i_0 as int), texts(out_0@)) == param_type_names_spec(params_v(params@), (i as int), texts(out@)),
        decreases params.len() - i,
    {
        if i >= params.len() {
            return out;
        }
        out = opt_type_names(&params[i].ty, out);
        i = i + 1;
    }
}

/// The names in the signature of a function.
pub fn fn_type_names(f: &Function, out: Vec<String>) -> (r: Vec<String>)
    ensures
        texts(r@) == fn_type_names_spec(f.v(), texts(out@)),
{
    opt_type_names(&f.ret, param_type_names(&f.params, 0, out))
}

/// The names in the signatures of the functions from `i` on.
pub fn fns_type_names(fns: &Vec<Function>, i: usize, out: Vec<String>) -> (r: Vec<String>)
    ensures
        texts(r@) == fns_type_names_spec(functions_v(fns@), (i as int), texts(out@)),
{
    let ghost i_0 = i;
    let ghost out_0 = out;
    let mut i: usize = i;
    let mut out: Vec<String> = out;
    #[verifier::loop_isolation(false)]
    loop
        invariant
            fns_type_names_spec(functions_v(fns@), (i_0 as int), texts(out_0@)) == fns_type_names_spec(functions_v(fns@), (i as int), texts(out@)),
        decreases fns.len() - i,
    {
        if i >= fns.len() {
            return out;
        }
        out = fn_type_names(&fns[i], out);
        i = i + 1;
    }
}

/// The names in the types of the fields from `i` on.
pub fn class_field_type_names(fields: &Vec<Field>, i: usize, out: Vec<String>) -> (r: Vec<String>)
    ensures
        texts(r@) == class_field_type_names_spec(fields_v(fields@), (i as int), texts(out@)),
{
    let ghost i_0 = i;
    let ghost out_0 = out;
    let mut i: usize = i;
    let mut out: Vec<String> = out;
    #[verifier::loop_isolation(false)]
    loop
        invariant
            class_field_type_names_spec(fields_v(fields@), (i_0 as int), texts(out_0@)) == class_field_type_names_spec(fields_v(fields@), (i as int), texts(out@)),
        decreases fields.len() - i,
    {
        if i >= fields.len() {
            return out;
        }
        out = opt_type_names(&fields[i].ty, out);
        i = i + 1;
    }
}

/// The names in the payloads of the variants from `i` on.
pub fn variant_type_names(variants: &Vec<EnumVariant>, i: usize, out: Vec<String>) -> (r: Vec<String>)
    ensures
        texts(r@) == variant_type_names_spec(enum_variants_v(variants@), (i as int), texts(out@)),
{
    let ghost i_0 = i;
    let ghost out_0 = out;
    let mut i: usize = i;
    let mut out: Vec<String> = out;
    #[verifier::loop_isolation(false)]
    loop
        invariant
            variant_type_names_spec(enum_variants_v(variants@), (i_0 as int), texts(out_0@)) == variant_type_names_spec(enum_variants_v(variants@), (i as int), texts(out@)),
        decreases variants.len() - i,
    {
        if i >= variants.len() {
            return out;
        }
        out = param_type_names(&variants[i].params, 0, out);
        i = i + 1;
    }
}

/// The type names a declaration mentions in a header: in members, parameters and returns.
pub fn header_type_refs(d: &Decl, out: Vec<String>) -> (r: Vec<String>)
    ensures
        texts(r@) == header_type_refs_spec(d.v(), texts(out@)),
{
    match d {
        Decl::Class(c) => {
            let a = class_field_type_names(&c.fields, 0, out);
            let b = fns_type_names(&c.methods, 0, a);
            match &c.ctor {
                Some(f) => fn_type_names(f, b),
                None => b,
            }
        },
        Decl::Interface(it) => fns_type_names(&it.methods, 0, out),
        Decl::Enum(e) => variant_type_names(&e.variants, 0, out),
        Decl::Typedef(td) => match &td.target {
            TypedefTarget::Alias(t) => type_names_in(t, out),
            TypedefTarget::Struct(fs) => field_names_of(fs, 0, out),
        },
        _ => out,
    }
}

/// What [`type_names_in`] computes.
pub open spec fn type_names_in_spec(t: TypeV, out: Seq<Seq<char>>) -> Seq<Seq<char>>
    decreases t, 1int, 0int,
{
    match t {
        TypeV::Named { path, params, optional: _, line: _ } => {
            match last_of_spec(path) {
                Some(n) => { type_names_of_spec(params, 0int, with_name_spec(out, n)) },
                None => { type_names_of_spec(params, 0int, out) },
            }
        },
        TypeV::Anon(fields) => { field_names_of_spec(fields, 0int, out) },
        TypeV::Func { params, ret } => { type_names_in_spec(*ret, type_names_of_spec(params, 0int, out)) },
    }
}

/// What [`type_names_of`] computes.
pub open spec fn type_names_of_spec(types: Seq<TypeV>, i: int, out: Seq<Seq<char>>) -> Seq<Seq<char>>
    decreases types, 0int, types.len() - i,
{
    if !(0 <= i < types.len()) { out } else { type_names_of_spec(types, i + 1, type_names_in_spec(types[i], out)) }
}

/// What [`field_names_of`] computes.
pub open spec fn field_names_of_spec(fields: Seq<StructFieldV>, i: int, out: Seq<Seq<char>>) -> Seq<Seq<char>>
    decreases fields, 0int, fields.len() - i,
{
    if !(0 <= i < fields.len()) { out } else { field_names_of_spec(fields, i + 1, type_names_in_spec(fields[i].ty, out)) }
}

/// What [`opt_type_names`] computes.
pub open spec fn opt_type_names_spec(t: Option<TypeV>, out: Seq<Seq<char>>) -> Seq<Seq<char>>
{
    match t {
        Some(t) => { type_names_in_spec(t, out) },
        None => { out },
    }
}

/// What [`param_type_names`] computes.
pub open spec fn param_type_names_spec(params: Seq<ParamV>, i: int, out: Seq<Seq<char>>) -> Seq<Seq<char>>
    decreases params.len() - i,
{
    if !(0 <= i < params.len()) { out } else {
        let out = opt_type_names_spec(params[i].ty, out);
        let i = i + 1;
        param_type_names_spec(params, i, out)
    }
}

/// What [`fn_type_names`] computes.
pub open spec fn fn_type_names_spec(f: FunctionV, out: Seq<Seq<char>>) -> Seq<Seq<char>>
{
    opt_type_names_spec(f.ret, param_type_names_spec(f.params, 0int, out))
}

/// What [`fns_type_names`] computes.
pub open spec fn fns_type_names_spec(fns: Seq<FunctionV>, i: int, out: Seq<Seq<char>>) -> Seq<Seq<char>>
    decreases fns.len() - i,
{
    if !(0 <= i < fns.len()) { out } else {
        let out = fn_type_names_spec(fns[i], out);
        let i = i + 1;
        fns_type_names_spec(fns, i, out)
    }
}

/// What [`class_field_type_names`] computes.
pub open spec fn class_field_type_names_spec(fields: Seq<FieldV>, i: int, out: Seq<Seq<char>>) -> Seq<Seq<char>>
    decreases fields.len() - i,
{
    if !(0 <= i < fields.len()) { out } else {
        let out = opt_type_names_spec(fields[i].ty, out);
        let i = i + 1;
        class_field_type_names_spec(fields, i, out)
    }
}

/// What [`variant_type_names`] computes.
pub open spec fn variant_type_names_spec(variants: Seq<EnumVariantV>, i: int, out: Seq<Seq<char>>) -> Seq<Seq<char>>
    decreases variants.len() - i,
{
    if !(0 <= i < variants.len()) { out } else {
        let out = param_type_names_spec(variants[i].params, 0int, out);
        let i = i + 1;
        variant_type_names_spec(variants, i, out)
    }
}

/// What [`header_type_refs`] computes.
pub open spec fn header_type_refs_spec(d: DeclV, out: Seq<Seq<char>>) -> Seq<Seq<char>>
{
    match d {
        DeclV::Class(c) => {
            let a = class_field_type_names_spec(c.fields, 0int, out);
            let b = fns_type_names_spec(c.methods, 0int, a);
            match c.ctor {
                Some(f) => { fn_type_names_spec(f, b) },
                None => { b },
            }
        },
        DeclV::Interface(it) => { fns_type_names_spec(it.methods, 0int, out) },
        DeclV::Enum(e) => { variant_type_names_spec(e.variants, 0int, out) },
        DeclV::Typedef(td) => {
            match td.target {
                TypedefTargetV::Alias(t) => { type_names_in_spec(t, out) },
                TypedefTargetV::Struct(fs) => { field_names_of_spec(fs, 0int, out) },
            }
        },
        _ => { out },
    }
}

} // verus!
