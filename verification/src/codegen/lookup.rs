//! Finding fields, methods and enum variants.

use vstd::prelude::*;

use crate::ast::{Class, Decl, Enum, EnumVariant, Field, Function, Param, PropAccess, StructField, TypedefTarget};
use crate::codegen::common::{find_method, find_method_spec, has_accessor, has_accessor_spec, has_method_named, has_method_named_spec};
use crate::codegen::ctypes::{qualified, qualified_spec};
use crate::model::{ClassV, DeclV, EnumV, EnumVariantV, FieldV, FunctionV, ParamV, StructFieldV, TypedefTargetV, enum_variants_v, fields_v, functions_v, params_v, struct_fields_v};
use crate::program::{Program, ProgramV, TypeInfo, TypeInfoV, TypeKind};
use crate::resolve::{base_info, base_info_spec, class_decl, class_decl_spec, type_decl, type_decl_spec};
use crate::text::{cat2, cat3, same, texts};

verus! {

broadcast use {crate::model::group_model, crate::program::group_program, crate::text::group_texts};

/// The first field of a name from `i` on.
pub fn field_named<'a>(fields: &'a Vec<Field>, name: &str, i: usize) -> (r: Option<&'a Field>)
    ensures
        (match r { Some(y) => Some(y.v()), None => None }) == field_named_spec(fields_v(fields@), name@, (i as int)),
{
    let ghost i_0 = i;
    let mut i: usize = i;
    #[verifier::loop_isolation(false)]
    loop
        invariant
            field_named_spec(fields_v(fields@), name@, (i_0 as int)) == field_named_spec(fields_v(fields@), name@, (i as int)),
        decreases fields.len() - i,
    {
        if i >= fields.len() {
            return None;
        }
        if same(&fields[i].name, name) {
            return Some(&fields[i]);
        }
        i = i + 1;
    }
}

/// A field of a class of module `mi` or of one of the next `fuel` classes it extends.
pub fn find_field<'a>(prog: &'a Program, mi: usize, name: &str, class: &'a Class, fuel: usize) -> (r: Option<&'a Field>)
    ensures
        (match r { Some(y) => Some(y.v()), None => None }) == find_field_spec(prog.v(), (mi as int), name@, class.v(), (fuel as int)),
{
    let ghost mi_0 = mi;
    let ghost class_0 = class;
    let ghost fuel_0 = fuel;
    let mut mi: usize = mi;
    let mut class: &'a Class = class;
    let mut fuel: usize = fuel;
    #[verifier::loop_isolation(false)]
    loop
        invariant
            find_field_spec(prog.v(), (mi_0 as int), name@, class_0.v(), (fuel_0 as int)) == find_field_spec(prog.v(), (mi as int), name@, class.v(), (fuel as int)),
        decreases fuel,
    {
        match field_named(&class.fields, name, 0) {
            Some(f) => {
                return Some(f);
            },
            None => {},
        }
        if fuel < 1 {
            return None;
        }
        match base_info(prog, class, mi) {
            Some(info) => match class_decl(prog, info) {
                Some(b) => {
                    class = b;
                    mi = info.module_index;
                    fuel = fuel - 1;
                },
                None => {
                    return None;
                },
            },
            None => {
                return None;
            },
        }
    }
}

/// The module of the class that `find_field` finds a field in, `mi` being that of the class.
pub fn field_module_from<'a>(prog: &'a Program, mi: usize, name: &str, class: &'a Class, fuel: usize) -> (r: usize)
    ensures
        (r as int) == field_module_from_spec(prog.v(), (mi as int), name@, class.v(), (fuel as int)),
{
    let ghost mi_0 = mi;
    let ghost class_0 = class;
    let ghost fuel_0 = fuel;
    let mut mi: usize = mi;
    let mut class: &'a Class = class;
    let mut fuel: usize = fuel;
    #[verifier::loop_isolation(false)]
    loop
        invariant
            field_module_from_spec(prog.v(), (mi_0 as int), name@, class_0.v(), (fuel_0 as int)) == field_module_from_spec(prog.v(), (mi as int), name@, class.v(), (fuel as int)),
        decreases fuel,
    {
        if field_named(&class.fields, name, 0).is_some() || fuel < 1 {
            return mi;
        }
        match base_info(prog, class, mi) {
            Some(info) => match class_decl(prog, info) {
                Some(b) => {
                    class = b;
                    mi = info.module_index;
                    fuel = fuel - 1;
                },
                None => {
                    return mi;
                },
            },
            None => {
                return mi;
            },
        }
    }
}

/// The module that declares a field of a class of module `mi`, itself or through a base.
pub fn field_module<'a>(prog: &'a Program, mi: usize, class: &'a Class, name: &str) -> (r: usize)
    ensures
        (r as int) == field_module_spec(prog.v(), (mi as int), class.v(), name@),
{
    proof {
        reveal(field_module_spec);
    }
    field_module_from(prog, mi, name, class, prog.types.len())
}

/// A field of a class or of any of its base classes; there are no more of those than types.
pub fn inherited_field<'a>(prog: &'a Program, mi: usize, class: &'a Class, name: &str) -> (r: Option<&'a Field>)
    ensures
        (match r { Some(y) => Some(y.v()), None => None }) == inherited_field_spec(prog.v(), (mi as int), class.v(), name@),
{
    proof {
        reveal(inherited_field_spec);
    }
    find_field(prog, mi, name, class, prog.types.len())
}

/// Whether a class or one of the next `fuel` classes it extends defines a method.
pub fn defines_method<'a>(prog: &'a Program, mi: usize, name: &str, class: &'a Class, fuel: usize) -> (r: bool)
    ensures
        r == defines_method_spec(prog.v(), (mi as int), name@, class.v(), (fuel as int)),
{
    let ghost mi_0 = mi;
    let ghost class_0 = class;
    let ghost fuel_0 = fuel;
    let mut mi: usize = mi;
    let mut class: &'a Class = class;
    let mut fuel: usize = fuel;
    #[verifier::loop_isolation(false)]
    loop
        invariant
            defines_method_spec(prog.v(), (mi_0 as int), name@, class_0.v(), (fuel_0 as int)) == defines_method_spec(prog.v(), (mi as int), name@, class.v(), (fuel as int)),
        decreases fuel,
    {
        if has_method_named(&class.methods, name) {
            return true;
        }
        if fuel < 1 {
            return false;
        }
        match base_info(prog, class, mi) {
            Some(info) => match class_decl(prog, info) {
                Some(b) => {
                    class = b;
                    mi = info.module_index;
                    fuel = fuel - 1;
                },
                None => {
                    return false;
                },
            },
            None => {
                return false;
            },
        }
    }
}

/// Does a class (or a base) define a method of this name?
pub fn class_defines_method<'a>(prog: &'a Program, mi: usize, class: &'a Class, name: &str) -> (r: bool)
    ensures
        r == class_defines_method_spec(prog.v(), (mi as int), class.v(), name@),
{
    proof {
        reveal(class_defines_method_spec);
    }
    defines_method(prog, mi, name, class, prog.types.len())
}

/// Whether a method of a class overrides one of a base class.
pub fn method_overrides_base<'a>(prog: &'a Program, class: &'a Class, mi: usize, name: &str) -> (r: bool)
    ensures
        r == method_overrides_base_spec(prog.v(), class.v(), (mi as int), name@),
{
    proof {
        reveal(method_overrides_base_spec);
    }
    match base_info(prog, class, mi) {
        Some(info) => match class_decl(prog, info) {
            Some(b) => class_defines_method(prog, info.module_index, b, name),
            None => false,
        },
        None => false,
    }
}

/// Whether a class of module `mi` extends, in no more than `fuel` steps, the class `name` of
/// module `home`.
pub fn extends_class<'a>(prog: &'a Program, mi: usize, name: &str, home: usize, class: &'a Class, fuel: usize) -> (r: bool)
    ensures
        r == extends_class_spec(prog.v(), (mi as int), name@, (home as int), class.v(), (fuel as int)),
{
    let ghost mi_0 = mi;
    let ghost class_0 = class;
    let ghost fuel_0 = fuel;
    let mut mi: usize = mi;
    let mut class: &'a Class = class;
    let mut fuel: usize = fuel;
    #[verifier::loop_isolation(false)]
    loop
        invariant
            extends_class_spec(prog.v(), (mi_0 as int), name@, (home as int), class_0.v(), (fuel_0 as int)) == extends_class_spec(prog.v(), (mi as int), name@, (home as int), class.v(), (fuel as int)),
        decreases fuel,
    {
        if fuel < 1 {
            return false;
        }
        match base_info(prog, class, mi) {
            Some(info) => match class_decl(prog, info) {
                Some(b) => {
                    if same(&b.name, name) && info.module_index == home {
                        return true;
                    }
                    class = b;
                    mi = info.module_index;
                    fuel = fuel - 1;
                },
                None => {
                    return false;
                },
            },
            None => {
                return false;
            },
        }
    }
}

/// Whether one of the types from `i` on is a class that extends the class `name` of module
/// `home` and defines `method`.
pub fn overridden_from(prog: &Program, name: &str, home: usize, method: &str, i: usize) -> (r: bool)
    ensures
        r == overridden_from_spec(prog.v(), name@, (home as int), method@, (i as int)),
{
    let ghost i_0 = i;
    let mut i: usize = i;
    #[verifier::loop_isolation(false)]
    loop
        invariant
            overridden_from_spec(prog.v(), name@, (home as int), method@, (i_0 as int)) == overridden_from_spec(prog.v(), name@, (home as int), method@, (i as int)),
        decreases prog.types.len() - i,
    {
        if i >= prog.types.len() {
            return false;
        }
        match class_decl(prog, &prog.types[i]) {
            Some(c) => {
                if has_method_named(&c.methods, method)
                    && extends_class(prog, prog.types[i].module_index, name, home, c, prog.types.len()) {
                    return true;
                }
            },
            None => {},
        }
        i = i + 1;
    }
}

/// Whether a subclass of a class of module `mi` overrides one of its methods.
pub fn method_overridden_in_subclass(prog: &Program, class: &Class, mi: usize, name: &str) -> (r: bool)
    ensures
        r == method_overridden_in_subclass_spec(prog.v(), class.v(), (mi as int), name@),
{
    proof {
        reveal(method_overridden_in_subclass_spec);
    }
    overridden_from(prog, &class.name, mi, name, 0)
}

/// The methods of a class or an interface.
pub fn methods_of<'a>(prog: &'a Program, info: &TypeInfo) -> (r: Option<&'a Vec<Function>>)
    ensures
        (match r { Some(y) => Some(functions_v(y@)), None => None }) == methods_of_spec(prog.v(), info.v()),
{
    proof {
        reveal(methods_of_spec);
    }
    match type_decl(prog, info) {
        Some(Decl::Class(c)) => Some(&c.methods),
        Some(Decl::Interface(i)) => Some(&i.methods),
        _ => None,
    }
}

/// The method of a name a class or an interface declares itself.
pub fn method_of<'a>(prog: &'a Program, info: &TypeInfo, name: &str) -> (r: Option<&'a Function>)
    ensures
        (match r { Some(y) => Some(y.v()), None => None }) == method_of_spec(prog.v(), info.v(), name@),
{
    proof {
        reveal(method_of_spec);
    }
    match methods_of(prog, info) {
        Some(ms) => find_method(ms, name, 0),
        None => None,
    }
}

/// The first field of a structure of a name from `i` on.
pub fn struct_field_named<'a>(fields: &'a Vec<StructField>, name: &str, i: usize) -> (r: Option<&'a StructField>)
    ensures
        (match r { Some(y) => Some(y.v()), None => None }) == struct_field_named_spec(struct_fields_v(fields@), name@, (i as int)),
{
    let ghost i_0 = i;
    let mut i: usize = i;
    #[verifier::loop_isolation(false)]
    loop
        invariant
            struct_field_named_spec(struct_fields_v(fields@), name@, (i_0 as int)) == struct_field_named_spec(struct_fields_v(fields@), name@, (i as int)),
        decreases fields.len() - i,
    {
        if i >= fields.len() {
            return None;
        }
        if same(&fields[i].name, name) {
            return Some(&fields[i]);
        }
        i = i + 1;
    }
}

/// The fields of a structure typedef.
pub fn struct_fields_of<'a>(prog: &'a Program, info: &TypeInfo) -> (r: Option<&'a Vec<StructField>>)
    ensures
        (match r { Some(y) => Some(struct_fields_v(y@)), None => None }) == struct_fields_of_spec(prog.v(), info.v()),
{
    proof {
        reveal(struct_fields_of_spec);
    }
    match type_decl(prog, info) {
        Some(Decl::Typedef(td)) => match &td.target {
            TypedefTarget::Struct(fs) => Some(fs),
            _ => None,
        },
        _ => None,
    }
}

/// The first variant of a name from `i` on.
pub fn variant_named<'a>(variants: &'a Vec<EnumVariant>, name: &str, i: usize) -> (r: Option<&'a EnumVariant>)
    ensures
        (match r { Some(y) => Some(y.v()), None => None }) == variant_named_spec(enum_variants_v(variants@), name@, (i as int)),
{
    let ghost i_0 = i;
    let mut i: usize = i;
    #[verifier::loop_isolation(false)]
    loop
        invariant
            variant_named_spec(enum_variants_v(variants@), name@, (i_0 as int)) == variant_named_spec(enum_variants_v(variants@), name@, (i as int)),
        decreases variants.len() - i,
    {
        if i >= variants.len() {
            return None;
        }
        if same(&variants[i].name, name) {
            return Some(&variants[i]);
        }
        i = i + 1;
    }
}

/// Whether one of the variants from `i` on has parameters.
pub fn any_params(variants: &Vec<EnumVariant>, i: usize) -> (r: bool)
    ensures
        r == any_params_spec(enum_variants_v(variants@), (i as int)),
{
    let ghost i_0 = i;
    let mut i: usize = i;
    #[verifier::loop_isolation(false)]
    loop
        invariant
            any_params_spec(enum_variants_v(variants@), (i_0 as int)) == any_params_spec(enum_variants_v(variants@), (i as int)),
        decreases variants.len() - i,
    {
        if i >= variants.len() {
            return false;
        }
        if variants[i].params.len() > 0 {
            return true;
        }
        i = i + 1;
    }
}

/// Whether an enum is algebraic: a plain one with a parameterized variant.
pub fn is_adt(e: &Enum) -> (r: bool)
    ensures
        r == is_adt_spec(e.v()),
{
    e.underlying.is_none() && any_params(&e.variants, 0)
}

/// The enum a type is, if it is one.
pub fn enum_decl<'a>(prog: &'a Program, info: &TypeInfo) -> (r: Option<&'a Enum>)
    ensures
        (match r { Some(y) => Some(y.v()), None => None }) == enum_decl_spec(prog.v(), info.v()),
{
    proof {
        reveal(enum_decl_spec);
    }
    match type_decl(prog, info) {
        Some(Decl::Enum(e)) => Some(e),
        _ => None,
    }
}

/// The algebraic enum a type is, if it is one.
pub fn adt_enum<'a>(prog: &'a Program, info: &TypeInfo) -> (r: Option<&'a Enum>)
    ensures
        (match r { Some(y) => Some(y.v()), None => None }) == adt_enum_spec(prog.v(), info.v()),
{
    proof {
        reveal(adt_enum_spec);
    }
    match info.kind {
        TypeKind::Enum => match enum_decl(prog, info) {
            Some(e) => {
                if is_adt(e) {
                    Some(e)
                } else {
                    None
                }
            },
            None => None,
        },
        _ => None,
    }
}

/// Whether an enum declares a variant of this name.
pub fn enum_has_variant(prog: &Program, info: &TypeInfo, name: &str) -> (r: bool)
    ensures
        r == enum_has_variant_spec(prog.v(), info.v(), name@),
{
    proof {
        reveal(enum_has_variant_spec);
    }
    match enum_decl(prog, info) {
        Some(e) => variant_named(&e.variants, name, 0).is_some(),
        None => false,
    }
}

/// Whether a type is an enum or an enum abstract.
pub fn is_enumish(k: TypeKind) -> (r: bool)
    ensures
        r == is_enumish_spec(k),
{
    match k {
        TypeKind::Enum | TypeKind::EnumAbstract => true,
        _ => false,
    }
}

/// The first enum from `i` on that declares a variant of this name.
pub fn enum_with_variant<'a>(prog: &'a Program, name: &str, i: usize) -> (r: Option<&'a TypeInfo>)
    ensures
        (match r { Some(y) => Some(y.v()), None => None }) == enum_with_variant_spec(prog.v(), name@, (i as int)),
{
    let ghost i_0 = i;
    let mut i: usize = i;
    #[verifier::loop_isolation(false)]
    loop
        invariant
            enum_with_variant_spec(prog.v(), name@, (i_0 as int)) == enum_with_variant_spec(prog.v(), name@, (i as int)),
        decreases prog.types.len() - i,
    {
        if i >= prog.types.len() {
            return None;
        }
        if is_enumish(prog.types[i].kind) && enum_has_variant(prog, &prog.types[i], name) {
            return Some(&prog.types[i]);
        }
        i = i + 1;
    }
}

/// The spelling of an algebraic variant's factory: it belongs to the value class.
pub fn enum_value_ctor(info: &TypeInfo, variant: &str, ns: &Vec<String>) -> (r: String)
    ensures
        r@ == enum_value_ctor_spec(info.v(), variant@, texts(ns@)),
{
    cat3(&qualified(info, ns), "::", variant)
}

/// The spelling of an enum constant: it belongs to the tag.
pub fn enum_constant(info: &TypeInfo, variant: &str, ns: &Vec<String>) -> (r: String)
    ensures
        r@ == enum_constant_spec(info.v(), variant@, texts(ns@)),
{
    cat3(&qualified(info, ns), "_::", variant)
}

/// Whether a parameter of the constructor of this name is optional, from `i` on.
pub fn has_optional_param(params: &Vec<Param>, name: &str, i: usize) -> (r: bool)
    ensures
        r == has_optional_param_spec(params_v(params@), name@, (i as int)),
{
    let ghost i_0 = i;
    let mut i: usize = i;
    #[verifier::loop_isolation(false)]
    loop
        invariant
            has_optional_param_spec(params_v(params@), name@, (i_0 as int)) == has_optional_param_spec(params_v(params@), name@, (i as int)),
        decreases params.len() - i,
    {
        if i >= params.len() {
            return false;
        }
        if params[i].optional && same(&params[i].name, name) {
            return true;
        }
        i = i + 1;
    }
}

/// Whether a field can be null: an optional constructor parameter has its name.
pub fn is_nullable_field(class: &Class, name: &str) -> (r: bool)
    ensures
        r == is_nullable_field_spec(class.v(), name@),
{
    proof {
        reveal(is_nullable_field_spec);
    }
    match &class.ctor {
        Some(c) => has_optional_param(&c.params, name, 0),
        None => false,
    }
}

/// Whether a method of a class is replaced by the generated accessor of a property. A custom
/// accessor is the user's implementation and is not.
pub fn replaced_by(class: &Class, f: &Field, name: &str) -> (r: bool)
    ensures
        r == replaced_by_spec(class.v(), f.v(), name@),
{
    if !has_accessor(f) {
        return false;
    }
    if f.get != PropAccess::Get && same(name, &cat2("get_", &f.name)) {
        return true;
    }
    same(name, &cat2("set_", &f.name)) && !(f.set == PropAccess::Setter && has_method_named(&class.methods, name))
}

/// Whether a method is an accessor of a property from `i` on.
pub fn is_accessor_from(class: &Class, name: &str, i: usize) -> (r: bool)
    ensures
        r == is_accessor_from_spec(class.v(), name@, (i as int)),
{
    let ghost i_0 = i;
    let mut i: usize = i;
    #[verifier::loop_isolation(false)]
    loop
        invariant
            is_accessor_from_spec(class.v(), name@, (i_0 as int)) == is_accessor_from_spec(class.v(), name@, (i as int)),
        decreases class.fields.len() - i,
    {
        if i >= class.fields.len() {
            return false;
        }
        if replaced_by(class, &class.fields[i], name) {
            return true;
        }
        i = i + 1;
    }
}

/// Whether a method is replaced by a generated accessor, and so not emitted.
pub fn is_accessor_method(class: &Class, name: &str) -> (r: bool)
    ensures
        r == is_accessor_method_spec(class.v(), name@),
{
    proof {
        reveal(is_accessor_method_spec);
    }
    is_accessor_from(class, name, 0)
}

/// What [`field_named`] computes.
pub open spec fn field_named_spec(fields: Seq<FieldV>, name: Seq<char>, i: int) -> Option<FieldV>
    decreases fields.len() - i,
{
    if !(0 <= i < fields.len()) { None } else {
        if (fields[i].name == name) { Some(fields[i]) } else {
            let i = i + 1;
            field_named_spec(fields, name, i)
        }
    }
}

/// What [`find_field`] computes.
pub open spec fn find_field_spec(prog: ProgramV, mi: int, name: Seq<char>, class: ClassV, fuel: int) -> Option<FieldV>
    decreases fuel,
{
    match field_named_spec(class.fields, name, 0int) {
        Some(f) => { Some(f) },
        None => {
            if fuel < 1 { None } else {
                match base_info_spec(prog, class, mi) {
                    Some(info) => {
                        match class_decl_spec(prog, info) {
                            Some(b) => {
                                let class = b;
                                let mi = info.module_index;
                                let fuel = fuel - 1;
                                find_field_spec(prog, mi, name, class, fuel)
                            },
                            None => { None },
                        }
                    },
                    None => { None },
                }
            }
        },
    }
}

/// What [`field_module_from`] computes.
pub open spec fn field_module_from_spec(prog: ProgramV, mi: int, name: Seq<char>, class: ClassV, fuel: int) -> int
    decreases fuel,
{
    if (field_named_spec(class.fields, name, 0int) is Some) || (fuel < 1) { mi } else {
        match base_info_spec(prog, class, mi) {
            Some(info) => {
                match class_decl_spec(prog, info) {
                    Some(b) => {
                        let class = b;
                        let mi = info.module_index;
                        let fuel = fuel - 1;
                        field_module_from_spec(prog, mi, name, class, fuel)
                    },
                    None => { mi },
                }
            },
            None => { mi },
        }
    }
}

/// What [`field_module`] computes.
#[verifier::opaque]
pub open spec fn field_module_spec(prog: ProgramV, mi: int, class: ClassV, name: Seq<char>) -> int
{
    field_module_from_spec(prog, mi, name, class, prog.types.len() as int)
}

/// What [`inherited_field`] computes.
#[verifier::opaque]
pub open spec fn inherited_field_spec(prog: ProgramV, mi: int, class: ClassV, name: Seq<char>) -> Option<FieldV>
{
    find_field_spec(prog, mi, name, class, prog.types.len() as int)
}

/// What [`defines_method`] computes.
pub open spec fn defines_method_spec(prog: ProgramV, mi: int, name: Seq<char>, class: ClassV, fuel: int) -> bool
    decreases fuel,
{
    if has_method_named_spec(class.methods, name) { true } else {
        if fuel < 1 { false } else {
            match base_info_spec(prog, class, mi) {
                Some(info) => {
                    match class_decl_spec(prog, info) {
                        Some(b) => {
                            let class = b;
                            let mi = info.module_index;
                            let fuel = fuel - 1;
                            defines_method_spec(prog, mi, name, class, fuel)
                        },
                        None => { false },
                    }
                },
                None => { false },
            }
        }
    }
}

/// What [`class_defines_method`] computes.
#[verifier::opaque]
pub open spec fn class_defines_method_spec(prog: ProgramV, mi: int, class: ClassV, name: Seq<char>) -> bool
{
    defines_method_spec(prog, mi, name, class, prog.types.len() as int)
}

/// What [`method_overrides_base`] computes.
#[verifier::opaque]
pub open spec fn method_overrides_base_spec(prog: ProgramV, class: ClassV, mi: int, name: Seq<char>) -> bool
{
    match base_info_spec(prog, class, mi) {
        Some(info) => {
            match class_decl_spec(prog, info) {
                Some(b) => { class_defines_method_spec(prog, info.module_index, b, name) },
                None => { false },
            }
        },
        None => { false },
    }
}

/// What [`extends_class`] computes.
pub open spec fn extends_class_spec(prog: ProgramV, mi: int, name: Seq<char>, home: int, class: ClassV, fuel: int) -> bool
    decreases fuel,
{
    if fuel < 1 { false } else {
        match base_info_spec(prog, class, mi) {
            Some(info) => {
                match class_decl_spec(prog, info) {
                    Some(b) => {
                        if (b.name == name) && (info.module_index == home) { true } else {
                            let class = b;
                            let mi = info.module_index;
                            let fuel = fuel - 1;
                            extends_class_spec(prog, mi, name, home, class, fuel)
                        }
                    },
                    None => { false },
                }
            },
            None => { false },
        }
    }
}

/// What [`overridden_from`] computes.
pub open spec fn overridden_from_spec(prog: ProgramV, name: Seq<char>, home: int, method: Seq<char>, i: int) -> bool
    decreases prog.types.len() - i,
{
    if !(0 <= i < prog.types.len()) { false } else {
        match class_decl_spec(prog, prog.types[i]) {
            Some(c) => {
                if has_method_named_spec(c.methods, method) && (extends_class_spec(prog, prog.types[i].module_index, name, home, c, prog.types.len() as int)) { true } else {
                    let i = i + 1;
                    overridden_from_spec(prog, name, home, method, i)
                }
            },
            None => {
                let i = i + 1;
                overridden_from_spec(prog, name, home, method, i)
            },
        }
    }
}

/// What [`method_overridden_in_subclass`] computes.
#[verifier::opaque]
pub open spec fn method_overridden_in_subclass_spec(prog: ProgramV, class: ClassV, mi: int, name: Seq<char>) -> bool
{
    overridden_from_spec(prog, class.name, mi, name, 0int)
}

/// What [`methods_of`] computes.
#[verifier::opaque]
pub open spec fn methods_of_spec(prog: ProgramV, info: TypeInfoV) -> Option<Seq<FunctionV>>
{
    match type_decl_spec(prog, info) {
        Some(DeclV::Class(c)) => { Some(c.methods) },
        Some(DeclV::Interface(i)) => { Some(i.methods) },
        _ => { None },
    }
}

/// What [`method_of`] computes.
#[verifier::opaque]
pub open spec fn method_of_spec(prog: ProgramV, info: TypeInfoV, name: Seq<char>) -> Option<FunctionV>
{
    match methods_of_spec(prog, info) {
        Some(ms) => { find_method_spec(ms, name, 0int) },
        None => { None },
    }
}

/// What [`struct_field_named`] computes.
pub open spec fn struct_field_named_spec(fields: Seq<StructFieldV>, name: Seq<char>, i: int) -> Option<StructFieldV>
    decreases fields.len() - i,
{
    if !(0 <= i < fields.len()) { None } else {
        if (fields[i].name == name) { Some(fields[i]) } else {
            let i = i + 1;
            struct_field_named_spec(fields, name, i)
        }
    }
}

/// What [`struct_fields_of`] computes.
#[verifier::opaque]
pub open spec fn struct_fields_of_spec(prog: ProgramV, info: TypeInfoV) -> Option<Seq<StructFieldV>>
{
    match type_decl_spec(prog, info) {
        Some(DeclV::Typedef(td)) => {
            match td.target {
                TypedefTargetV::Struct(fs) => { Some(fs) },
                _ => { None },
            }
        },
        _ => { None },
    }
}

/// What [`variant_named`] computes.
pub open spec fn variant_named_spec(variants: Seq<EnumVariantV>, name: Seq<char>, i: int) -> Option<EnumVariantV>
    decreases variants.len() - i,
{
    if !(0 <= i < variants.len()) { None } else {
        if (variants[i].name == name) { Some(variants[i]) } else {
            let i = i + 1;
            variant_named_spec(variants, name, i)
        }
    }
}

/// What [`any_params`] computes.
pub open spec fn any_params_spec(variants: Seq<EnumVariantV>, i: int) -> bool
    decreases variants.len() - i,
{
    if !(0 <= i < variants.len()) { false } else {
        if (variants[i].params.len()) > 0 { true } else {
            let i = i + 1;
            any_params_spec(variants, i)
        }
    }
}

/// What [`is_adt`] computes.
pub open spec fn is_adt_spec(e: EnumV) -> bool
{
    (e.underlying is None) && any_params_spec(e.variants, 0int)
}

/// What [`enum_decl`] computes.
#[verifier::opaque]
pub open spec fn enum_decl_spec(prog: ProgramV, info: TypeInfoV) -> Option<EnumV>
{
    match type_decl_spec(prog, info) {
        Some(DeclV::Enum(e)) => { Some(e) },
        _ => { None },
    }
}

/// What [`adt_enum`] computes.
#[verifier::opaque]
pub open spec fn adt_enum_spec(prog: ProgramV, info: TypeInfoV) -> Option<EnumV>
{
    match info.kind {
        TypeKind::Enum => {
            match enum_decl_spec(prog, info) {
                Some(e) => {
                    if is_adt_spec(e) { Some(e) } else { None }
                },
                None => { None },
            }
        },
        _ => { None },
    }
}

/// What [`enum_has_variant`] computes.
#[verifier::opaque]
pub open spec fn enum_has_variant_spec(prog: ProgramV, info: TypeInfoV, name: Seq<char>) -> bool
{
    match enum_decl_spec(prog, info) {
        Some(e) => { variant_named_spec(e.variants, name, 0int) is Some },
        None => { false },
    }
}

/// What [`is_enumish`] computes.
pub open spec fn is_enumish_spec(k: TypeKind) -> bool
{
    match k {
        TypeKind::Enum | TypeKind::EnumAbstract => { true },
        _ => { false },
    }
}

/// What [`enum_with_variant`] computes.
pub open spec fn enum_with_variant_spec(prog: ProgramV, name: Seq<char>, i: int) -> Option<TypeInfoV>
    decreases prog.types.len() - i,
{
    if !(0 <= i < prog.types.len()) { None } else {
        if is_enumish_spec(prog.types[i].kind) && enum_has_variant_spec(prog, prog.types[i], name) { Some(prog.types[i]) } else {
            let i = i + 1;
            enum_with_variant_spec(prog, name, i)
        }
    }
}

/// What [`enum_value_ctor`] computes.
pub open spec fn enum_value_ctor_spec(info: TypeInfoV, variant: Seq<char>, ns: Seq<Seq<char>>) -> Seq<char>
{
    qualified_spec(info, ns) + "::"@ + variant
}

/// What [`enum_constant`] computes.
pub open spec fn enum_constant_spec(info: TypeInfoV, variant: Seq<char>, ns: Seq<Seq<char>>) -> Seq<char>
{
    qualified_spec(info, ns) + "_::"@ + variant
}

/// What [`has_optional_param`] computes.
pub open spec fn has_optional_param_spec(params: Seq<ParamV>, name: Seq<char>, i: int) -> bool
    decreases params.len() - i,
{
    if !(0 <= i < params.len()) { false } else {
        if (params[i].optional) && (params[i].name == name) { true } else {
            let i = i + 1;
            has_optional_param_spec(params, name, i)
        }
    }
}

/// What [`is_nullable_field`] computes.
#[verifier::opaque]
pub open spec fn is_nullable_field_spec(class: ClassV, name: Seq<char>) -> bool
{
    match class.ctor {
        Some(c) => { has_optional_param_spec(c.params, name, 0int) },
        None => { false },
    }
}

/// What [`replaced_by`] computes.
pub open spec fn replaced_by_spec(class: ClassV, f: FieldV, name: Seq<char>) -> bool
{
    if !has_accessor_spec(f) { false } else {
        if (f.get != (PropAccess::Get)) && (name == "get_"@ + f.name) { true } else {
            (name == "set_"@ + f.name) && (!((f.set == (PropAccess::Setter)) && has_method_named_spec(class.methods, name)))
        }
    }
}

/// What [`is_accessor_from`] computes.
pub open spec fn is_accessor_from_spec(class: ClassV, name: Seq<char>, i: int) -> bool
    decreases class.fields.len() - i,
{
    if !(0 <= i < class.fields.len()) { false } else {
        if replaced_by_spec(class, class.fields[i], name) { true } else {
            let i = i + 1;
            is_accessor_from_spec(class, name, i)
        }
    }
}

/// What [`is_accessor_method`] computes.
#[verifier::opaque]
pub open spec fn is_accessor_method_spec(class: ClassV, name: Seq<char>) -> bool
{
    is_accessor_from_spec(class, name, 0int)
}

} // verus!
