//! How Haxe types are spelled in C++.

use vstd::prelude::*;

use crate::ast::{Class, Decl, Type, TypedefTarget};
use crate::model::{ClassV, DeclV, TypeV, TypedefTargetV};
use crate::parser::types::{meta_has, meta_has_spec};
use crate::program::{Program, ProgramV, TypeInfo, TypeInfoV, TypeKind};
use crate::resolve::{class_decl, class_decl_spec, last_is, last_is_spec, last_of, last_of_spec, resolve_type, resolve_type_spec, resolved, resolved_spec, same_path, same_path_spec, type_decl, type_decl_spec};
use crate::strings::{ends_with, join, join_spec};
use crate::text::{cat2, cat3, cat5, same, texts};

verus! {

broadcast use {crate::model::group_model, crate::program::group_program, crate::text::group_texts};

/// The C++ spelling of a built-in type.
pub fn builtin_cpp(name: &str) -> (r: Option<String>)
    ensures
        (match r { Some(y) => Some(y@), None => None }) == builtin_cpp_spec(name@),
{
    proof {
        reveal(builtin_cpp_spec);
    }
    if same(name, "Int") {
        Some("int".to_owned())
    } else if same(name, "UInt") {
        Some("unsigned int".to_owned())
    } else if same(name, "Float") || same(name, "Float64") {
        Some("double".to_owned())
    } else if same(name, "Bool") {
        Some("bool".to_owned())
    } else if same(name, "String") || same(name, "StdString") || same(name, "StringBuf") {
        Some("std::string".to_owned())
    } else if same(name, "Void") {
        Some("void".to_owned())
    } else if same(name, "Dynamic") || same(name, "Any") {
        Some("void*".to_owned())
    } else if same(name, "Float32") || same(name, "Single") {
        Some("float".to_owned())
    } else if same(name, "UInt8") {
        Some("uint8_t".to_owned())
    } else if same(name, "UInt16") {
        Some("uint16_t".to_owned())
    } else if same(name, "UInt32") {
        Some("uint32_t".to_owned())
    } else if same(name, "Int8") || same(name, "Char") {
        Some("char".to_owned())
    } else if same(name, "Int16") {
        Some("short".to_owned())
    } else if same(name, "Int32") {
        Some("int".to_owned())
    } else if same(name, "ConstCharStar") {
        Some("const char*".to_owned())
    } else {
        None
    }
}

/// Whether a name is one of the fixed-width unsigned shims, which no header declares.
pub fn is_uint_shim(name: &str) -> (r: bool)
    ensures
        r == is_uint_shim_spec(name@),
{
    same(name, "UInt8") || same(name, "UInt16") || same(name, "UInt32")
}

/// The path with `::` between its parts, in front of a name, where it is not the current
/// namespace.
pub fn namespace_prefix(namespace: &Vec<String>, ns: &Vec<String>) -> (r: String)
    ensures
        r@ == namespace_prefix_spec(texts(namespace@), texts(ns@)),
{
    if namespace.len() == 0 || same_path(namespace, ns) {
        String::new()
    } else {
        cat2(&join(namespace, "::"), "::")
    }
}

/// The name of a type as seen from the namespace `ns`.
pub fn qualified(info: &TypeInfo, ns: &Vec<String>) -> (r: String)
    ensures
        r@ == qualified_spec(info.v(), texts(ns@)),
{
    cat2(&namespace_prefix(&info.namespace, ns), &info.cpp)
}

/// The class a path names, if it is one.
pub fn class_at<'a>(prog: &'a Program, path: &Vec<String>, mi: usize) -> (r: Option<&'a Class>)
    ensures
        (match r { Some(y) => Some(y.v()), None => None }) == class_at_spec(prog.v(), texts(path@), (mi as int)),
{
    match resolve_type(prog, path, mi) {
        Some(info) => class_decl(prog, info),
        None => None,
    }
}

/// Whether a class is a value type: marked `@:stackOnly`, or made from an `abstract`.
pub fn is_value(c: &Class) -> (r: bool)
    ensures
        r == is_value_spec(c.v()),
{
    meta_has(&c.meta, "stackOnly") || c.abstract_underlying.is_some()
}

/// Whether a path names a value class.
pub fn is_value_class(prog: &Program, path: &Vec<String>, mi: usize) -> (r: bool)
    ensures
        r == is_value_class_spec(prog.v(), texts(path@), (mi as int)),
{
    proof {
        reveal(is_value_class_spec);
    }
    match class_at(prog, path, mi) {
        Some(c) => is_value(c),
        None => false,
    }
}

/// The target of an alias typedef.
pub fn alias_target<'a>(prog: &'a Program, info: &TypeInfo) -> (r: Option<&'a Type>)
    ensures
        (match r { Some(y) => Some(y.v()), None => None }) == alias_target_spec(prog.v(), info.v()),
{
    proof {
        reveal(alias_target_spec);
    }
    match type_decl(prog, info) {
        Some(Decl::Typedef(td)) => match &td.target {
            TypedefTarget::Alias(t) => Some(t),
            _ => None,
        },
        _ => None,
    }
}

/// What a type stands for once its aliases are followed, and the module that is said in.
/// No more than `fuel` aliases are followed, so that a cycle ends too.
pub fn follow_alias(prog: &Program, t: Type, ctx: usize, fuel: usize) -> (r: (Type, usize))
    ensures
        (r.0.v(), (r.1 as int)) == follow_alias_spec(prog.v(), t.v(), (ctx as int), (fuel as int)),
{
    let ghost t_0 = t;
    let ghost ctx_0 = ctx;
    let ghost fuel_0 = fuel;
    let mut t: Type = t;
    let mut ctx: usize = ctx;
    let mut fuel: usize = fuel;
    #[verifier::loop_isolation(false)]
    loop
        invariant
            follow_alias_spec(prog.v(), t_0.v(), (ctx_0 as int), (fuel_0 as int)) == follow_alias_spec(prog.v(), t.v(), (ctx as int), (fuel as int)),
        decreases fuel,
    {
        if fuel < 1 {
            return (t, ctx);
        }
        let step = match t.node() {
            Type::Named { path, params, optional: _, line: _ } => {
                if params.len() > 0 {
                    None
                } else {
                    match resolve_type(prog, path, ctx) {
                        Some(info) => match alias_target(prog, info) {
                            Some(u) => Some((u.dup(), info.module_index)),
                            None => None,
                        },
                        None => None,
                    }
                }
            },
            _ => None,
        };
        match step {
            None => {
                return (t, ctx);
            },
            Some((u, c)) => {
                t = u;
                ctx = c;
                fuel = fuel - 1;
            },
        }
    }
}

/// A type with its aliases followed, and the module that the result is seen from.
pub fn resolve_alias_type_ctx(prog: &Program, t: &Type, ctx: usize) -> (r: (Type, usize))
    ensures
        (r.0.v(), (r.1 as int)) == resolve_alias_type_ctx_spec(prog.v(), t.v(), (ctx as int)),
{
    proof {
        reveal(resolve_alias_type_ctx_spec);
    }
    follow_alias(prog, t.dup(), ctx, 16)
}

/// A type with its aliases followed.
pub fn resolve_alias_type(prog: &Program, t: &Type, ctx: usize) -> (r: Type)
    ensures
        r.v() == resolve_alias_type_spec(prog.v(), t.v(), (ctx as int)),
{
    resolve_alias_type_ctx(prog, t, ctx).0
}

/// Whether a value of this type is a reference: a class that is no value class, or an
/// interface.
pub fn is_reference(prog: &Program, t: &Type, ctx: usize) -> (r: bool)
    ensures
        r == is_reference_spec(prog.v(), t.v(), (ctx as int)),
{
    proof {
        reveal(is_reference_spec);
    }
    let (target, at) = resolve_alias_type_ctx(prog, t, ctx);
    match target.node() {
        Type::Named { path, params: _, optional: _, line: _ } => match resolve_type(prog, path, at) {
            Some(info) => match info.kind {
                TypeKind::Class => !is_value_class(prog, path, at),
                TypeKind::Interface => true,
                _ => false,
            },
            None => false,
        },
        _ => false,
    }
}

/// Whether a type is a structure held by value.
pub fn is_value_struct(prog: &Program, ctx: usize, t: &Type) -> (r: bool)
    ensures
        r == is_value_struct_spec(prog.v(), (ctx as int), t.v()),
{
    proof {
        reveal(is_value_struct_spec);
    }
    let (target, at) = resolve_alias_type_ctx(prog, t, ctx);
    match target.node() {
        Type::Named { path, params: _, optional: _, line: _ } => match resolve_type(prog, path, at) {
            Some(info) => match info.kind {
                TypeKind::StructTypedef => true,
                _ => false,
            },
            None => false,
        },
        Type::Anon(_) => true,
        _ => false,
    }
}

/// Whether an `enum abstract` over this type becomes a C++ `enum`.
pub fn is_integral_underlying(t: &Type) -> (r: bool)
    ensures
        r == is_integral_underlying_spec(t.v()),
{
    match t.node() {
        Type::Named { path, params: _, optional: _, line: _ } => {
            last_is(path, "Int") || last_is(path, "UInt") || last_is(path, "UInt8") || last_is(path, "UInt16")
                || last_is(path, "UInt32")
        },
        _ => false,
    }
}

/// The underlying type of an `enum abstract`.
pub fn enum_abstract_underlying(prog: &Program, info: &TypeInfo) -> (r: Option<Type>)
    ensures
        (match r { Some(y) => Some(y.v()), None => None }) == enum_abstract_underlying_spec(prog.v(), info.v()),
{
    proof {
        reveal(enum_abstract_underlying_spec);
    }
    match type_decl(prog, info) {
        Some(Decl::Enum(e)) => match &e.underlying {
            Some(u) => Some(u.dup()),
            None => None,
        },
        _ => None,
    }
}

/// The spelling of a type some module declares.
pub fn declared_cpp(prog: &Program, info: &TypeInfo, ns: &Vec<String>) -> (r: String)
    ensures
        r@ == declared_cpp_spec(prog.v(), info.v(), texts(ns@)),
{
    proof {
        reveal(declared_cpp_spec);
    }
    match info.kind {
        TypeKind::EnumAbstract => match enum_abstract_underlying(prog, info) {
            Some(u) => {
                if is_integral_underlying(&u) {
                    qualified(info, ns)
                } else {
                    match u.node() {
                        Type::Named { path, params: _, optional: _, line: _ } => match last_of(path) {
                            Some(l) => match builtin_cpp(l) {
                                Some(b) => b,
                                None => qualified(info, ns),
                            },
                            None => qualified(info, ns),
                        },
                        _ => qualified(info, ns),
                    }
                }
            },
            None => qualified(info, ns),
        },
        _ => qualified(info, ns),
    }
}

/// Whether a path with this many parameters names one of the raw-pointer interop types.
pub fn is_raw_pointer(path: &Vec<String>) -> (r: bool)
    ensures
        r == is_raw_pointer_spec(texts(path@)),
{
    last_is(path, "Pointer") || last_is(path, "RawPointer") || last_is(path, "Star") || last_is(path, "ConstStar")
}

/// The C++ spelling of a type without the `*` of a reference.
pub fn map_type_base(prog: &Program, t: &Type, ctx: usize, ns: &Vec<String>) -> (r: String)
    ensures
        r@ == map_type_base_spec(prog.v(), t.v(), (ctx as int), texts(ns@)),
    decreases *t, 0int,
{
    match t.node() {
        Type::Named { path, params, optional: _, line: _ } => {
            if params.len() == 1 {
                if last_is(path, "Array") || last_is(path, "Vector") {
                    return cat3("std::vector<", &map_type_use(prog, &params[0], ctx, ns), " >");
                }
                if last_is(path, "Null") {
                    let inner = map_type_use(prog, &params[0], ctx, ns);
                    if ends_with(&inner, "*") {
                        return inner;
                    }
                    return cat2(&inner, "*");
                }
                if last_is(path, "ConstStar") {
                    return cat3("const ", &map_type_base(prog, &params[0], ctx, ns), "*");
                }
                if is_raw_pointer(path) {
                    return cat2(&map_type_base(prog, &params[0], ctx, ns), "*");
                }
            }
            if params.len() == 2 && last_is(path, "Map") {
                return cat5("std::map<", &map_type_use(prog, &params[0], ctx, ns), ", ", &map_type_use(prog, &params[1], ctx, ns), " >");
            }
            named_cpp(prog, path, ctx, ns)
        },
        _ => "void*".to_owned(),
    }
}

/// The spelling of a plain name: a built-in, a declared type, or the name as it stands.
pub fn named_cpp(prog: &Program, path: &Vec<String>, ctx: usize, ns: &Vec<String>) -> (r: String)
    ensures
        r@ == named_cpp_spec(prog.v(), texts(path@), (ctx as int), texts(ns@)),
{
    proof {
        reveal(named_cpp_spec);
    }
    match last_of(path) {
        None => String::new(),
        Some(l) => match builtin_cpp(l) {
            Some(b) => b,
            None => match resolve_type(prog, path, ctx) {
                Some(info) => declared_cpp(prog, info, ns),
                None => join(path, "::"),
            },
        },
    }
}

/// The C++ spelling of a type where a value of it is held: a reference is a pointer.
pub fn map_type_use(prog: &Program, t: &Type, ctx: usize, ns: &Vec<String>) -> (r: String)
    ensures
        r@ == map_type_use_spec(prog.v(), t.v(), (ctx as int), texts(ns@)),
    decreases *t, 1int,
{
    let base = map_type_base(prog, t, ctx, ns);
    if is_reference(prog, t, ctx) {
        cat2(&base, "*")
    } else {
        base
    }
}

/// The first type from `i` on that is spelled like `base` in a namespace.
pub fn spelled_type<'a>(prog: &'a Program, base: &str, ns: &Vec<String>, i: usize) -> (r: Option<&'a TypeInfo>)
    ensures
        (match r { Some(y) => Some(y.v()), None => None }) == spelled_type_spec(prog.v(), base@, texts(ns@), (i as int)),
{
    let ghost i_0 = i;
    let mut i: usize = i;
    #[verifier::loop_isolation(false)]
    loop
        invariant
            spelled_type_spec(prog.v(), base@, texts(ns@), (i_0 as int)) == spelled_type_spec(prog.v(), base@, texts(ns@), (i as int)),
        decreases prog.types.len() - i,
    {
        if i >= prog.types.len() {
            return None;
        }
        if same(&qualified(&prog.types[i], ns), base) {
            return Some(&prog.types[i]);
        }
        i = i + 1;
    }
}

/// The declared type a C++ spelling names as seen from the namespace `ns`.
pub fn resolve_type_by_cpp_spelling(prog: &Program, base: &str, ns: &Vec<String>) -> (r: Option<TypeInfo>)
    ensures
        (match r { Some(y) => Some(y.v()), None => None }) == resolve_type_by_cpp_spelling_spec(prog.v(), base@, texts(ns@)),
{
    proof {
        reveal(resolve_type_by_cpp_spelling_spec);
    }
    match spelled_type(prog, base, ns, 0) {
        Some(t) => Some(t.dup()),
        None => None,
    }
}

/// What a named type resolves to.
pub fn ty_named_info(prog: &Program, mi: usize, t: &Type) -> (r: Option<TypeInfo>)
    ensures
        (match r { Some(y) => Some(y.v()), None => None }) == ty_named_info_spec(prog.v(), (mi as int), t.v()),
{
    match t.node() {
        Type::Named { path, params, optional: _, line: _ } => {
            if params.len() == 0 {
                resolved(prog, path, mi)
            } else {
                None
            }
        },
        _ => None,
    }
}

/// What [`builtin_cpp`] computes.
#[verifier::opaque]
pub open spec fn builtin_cpp_spec(name: Seq<char>) -> Option<Seq<char>>
{
    if (name == "Int"@) { Some("int"@) } else if (name == "UInt"@) { Some("unsigned int"@) } else if (name == "Float"@) || (name == "Float64"@) { Some("double"@) } else if (name == "Bool"@) { Some("bool"@) } else if (name == "String"@) || (name == "StdString"@) || (name == "StringBuf"@) { Some("std::string"@) } else if (name == "Void"@) { Some("void"@) } else if (name == "Dynamic"@) || (name == "Any"@) { Some("void*"@) } else if (name == "Float32"@) || (name == "Single"@) { Some("float"@) } else if (name == "UInt8"@) { Some("uint8_t"@) } else if (name == "UInt16"@) { Some("uint16_t"@) } else if (name == "UInt32"@) { Some("uint32_t"@) } else if (name == "Int8"@) || (name == "Char"@) { Some("char"@) } else if (name == "Int16"@) { Some("short"@) } else if (name == "Int32"@) { Some("int"@) } else if (name == "ConstCharStar"@) { Some("const char*"@) } else { None }
}

/// What [`is_uint_shim`] computes.
pub open spec fn is_uint_shim_spec(name: Seq<char>) -> bool
{
    (name == "UInt8"@) || (name == "UInt16"@) || (name == "UInt32"@)
}

/// What [`namespace_prefix`] computes.
pub open spec fn namespace_prefix_spec(namespace: Seq<Seq<char>>, ns: Seq<Seq<char>>) -> Seq<char>
{
    if ((namespace.len()) == 0) || same_path_spec(namespace, ns) { Seq::empty() } else { join_spec(namespace, "::"@) + "::"@ }
}

/// What [`qualified`] computes.
pub open spec fn qualified_spec(info: TypeInfoV, ns: Seq<Seq<char>>) -> Seq<char>
{
    namespace_prefix_spec(info.namespace, ns) + info.cpp
}

/// What [`class_at`] computes.
pub open spec fn class_at_spec(prog: ProgramV, path: Seq<Seq<char>>, mi: int) -> Option<ClassV>
{
    match resolve_type_spec(prog, path, mi) {
        Some(info) => { class_decl_spec(prog, info) },
        None => { None },
    }
}

/// What [`is_value`] computes.
pub open spec fn is_value_spec(c: ClassV) -> bool
{
    meta_has_spec(c.meta, "stackOnly"@) || (c.abstract_underlying is Some)
}

/// What [`is_value_class`] computes.
#[verifier::opaque]
pub open spec fn is_value_class_spec(prog: ProgramV, path: Seq<Seq<char>>, mi: int) -> bool
{
    match class_at_spec(prog, path, mi) {
        Some(c) => { is_value_spec(c) },
        None => { false },
    }
}

/// What [`alias_target`] computes.
#[verifier::opaque]
pub open spec fn alias_target_spec(prog: ProgramV, info: TypeInfoV) -> Option<TypeV>
{
    match type_decl_spec(prog, info) {
        Some(DeclV::Typedef(td)) => {
            match td.target {
                TypedefTargetV::Alias(t) => { Some(t) },
                _ => { None },
            }
        },
        _ => { None },
    }
}

/// What [`follow_alias`] computes.
pub open spec fn follow_alias_spec(prog: ProgramV, t: TypeV, ctx: int, fuel: int) -> (TypeV, int)
    decreases fuel,
{
    if fuel < 1 { (t, ctx) } else {
        let step = match t {
            TypeV::Named { path, params, optional: _, line: _ } => {
                if (params.len()) > 0 { None } else {
                    match resolve_type_spec(prog, path, ctx) {
                        Some(info) => {
                            match alias_target_spec(prog, info) {
                                Some(u) => { Some((u, info.module_index)) },
                                None => { None },
                            }
                        },
                        None => { None },
                    }
                }
            },
            _ => { None },
        };
        match step {
            None => { (t, ctx) },
            Some((u, c)) => {
                let t = u;
                let ctx = c;
                let fuel = fuel - 1;
                follow_alias_spec(prog, t, ctx, fuel)
            },
        }
    }
}

/// What [`resolve_alias_type_ctx`] computes.
#[verifier::opaque]
pub open spec fn resolve_alias_type_ctx_spec(prog: ProgramV, t: TypeV, ctx: int) -> (TypeV, int)
{
    follow_alias_spec(prog, t, ctx, 16int)
}

/// What [`resolve_alias_type`] computes.
pub open spec fn resolve_alias_type_spec(prog: ProgramV, t: TypeV, ctx: int) -> TypeV
{
    resolve_alias_type_ctx_spec(prog, t, ctx).0
}

/// What [`is_reference`] computes.
#[verifier::opaque]
pub open spec fn is_reference_spec(prog: ProgramV, t: TypeV, ctx: int) -> bool
{
    let (target, at) = resolve_alias_type_ctx_spec(prog, t, ctx);
    match target {
        TypeV::Named { path, params: _, optional: _, line: _ } => {
            match resolve_type_spec(prog, path, at) {
                Some(info) => {
                    match info.kind {
                        TypeKind::Class => { !is_value_class_spec(prog, path, at) },
                        TypeKind::Interface => { true },
                        _ => { false },
                    }
                },
                None => { false },
            }
        },
        _ => { false },
    }
}

/// What [`is_value_struct`] computes.
#[verifier::opaque]
pub open spec fn is_value_struct_spec(prog: ProgramV, ctx: int, t: TypeV) -> bool
{
    let (target, at) = resolve_alias_type_ctx_spec(prog, t, ctx);
    match target {
        TypeV::Named { path, params: _, optional: _, line: _ } => {
            match resolve_type_spec(prog, path, at) {
                Some(info) => {
                    match info.kind {
                        TypeKind::StructTypedef => { true },
                        _ => { false },
                    }
                },
                None => { false },
            }
        },
        TypeV::Anon(_) => { true },
        _ => { false },
    }
}

/// What [`is_integral_underlying`] computes.
pub open spec fn is_integral_underlying_spec(t: TypeV) -> bool
{
    match t {
        TypeV::Named { path, params: _, optional: _, line: _ } => {
            last_is_spec(path, "Int"@) || last_is_spec(path, "UInt"@) || last_is_spec(path, "UInt8"@) || last_is_spec(path, "UInt16"@) || last_is_spec(path, "UInt32"@)
        },
        _ => { false },
    }
}

/// What [`enum_abstract_underlying`] computes.
#[verifier::opaque]
pub open spec fn enum_abstract_underlying_spec(prog: ProgramV, info: TypeInfoV) -> Option<TypeV>
{
    match type_decl_spec(prog, info) {
        Some(DeclV::Enum(e)) => {
            match e.underlying {
                Some(u) => { Some(u) },
                None => { None },
            }
        },
        _ => { None },
    }
}

/// What [`declared_cpp`] computes.
#[verifier::opaque]
pub open spec fn declared_cpp_spec(prog: ProgramV, info: TypeInfoV, ns: Seq<Seq<char>>) -> Seq<char>
{
    match info.kind {
        TypeKind::EnumAbstract => {
            match enum_abstract_underlying_spec(prog, info) {
                Some(u) => {
                    if is_integral_underlying_spec(u) { qualified_spec(info, ns) } else {
                        match u {
                            TypeV::Named { path, params: _, optional: _, line: _ } => {
                                match last_of_spec(path) {
                                    Some(l) => {
                                        match builtin_cpp_spec(l) {
                                            Some(b) => { b },
                                            None => { qualified_spec(info, ns) },
                                        }
                                    },
                                    None => { qualified_spec(info, ns) },
                                }
                            },
                            _ => { qualified_spec(info, ns) },
                        }
                    }
                },
                None => { qualified_spec(info, ns) },
            }
        },
        _ => { qualified_spec(info, ns) },
    }
}

/// What [`is_raw_pointer`] computes.
pub open spec fn is_raw_pointer_spec(path: Seq<Seq<char>>) -> bool
{
    last_is_spec(path, "Pointer"@) || last_is_spec(path, "RawPointer"@) || last_is_spec(path, "Star"@) || last_is_spec(path, "ConstStar"@)
}

/// What [`map_type_base`] computes.
pub open spec fn map_type_base_spec(prog: ProgramV, t: TypeV, ctx: int, ns: Seq<Seq<char>>) -> Seq<char>
    decreases t, 0int,
{
    match t {
        TypeV::Named { path, params, optional: _, line: _ } => {
            if (params.len()) == 1 {
                if last_is_spec(path, "Array"@) || last_is_spec(path, "Vector"@) { "std::vector<"@ + map_type_use_spec(prog, params[0], ctx, ns) + " >"@ } else {
                    if last_is_spec(path, "Null"@) {
                        let inner = map_type_use_spec(prog, params[0], ctx, ns);
                        if ("*"@).is_suffix_of(inner) { inner } else { inner + "*"@ }
                    } else {
                        if last_is_spec(path, "ConstStar"@) { "const "@ + map_type_base_spec(prog, params[0], ctx, ns) + "*"@ } else {
                            if is_raw_pointer_spec(path) { map_type_base_spec(prog, params[0], ctx, ns) + "*"@ } else {
                                if ((params.len()) == 2) && last_is_spec(path, "Map"@) {
                                    "std::map<"@ + map_type_use_spec(prog, params[0], ctx, ns) + ", "@ + map_type_use_spec(prog, params[1], ctx, ns) + " >"@
                                } else { named_cpp_spec(prog, path, ctx, ns) }
                            }
                        }
                    }
                }
            } else {
                if ((params.len()) == 2) && last_is_spec(path, "Map"@) {
                    "std::map<"@ + map_type_use_spec(prog, params[0], ctx, ns) + ", "@ + map_type_use_spec(prog, params[1], ctx, ns) + " >"@
                } else { named_cpp_spec(prog, path, ctx, ns) }
            }
        },
        _ => { "void*"@ },
    }
}

/// What [`named_cpp`] computes.
#[verifier::opaque]
pub open spec fn named_cpp_spec(prog: ProgramV, path: Seq<Seq<char>>, ctx: int, ns: Seq<Seq<char>>) -> Seq<char>
{
    match last_of_spec(path) {
        None => { Seq::empty() },
        Some(l) => {
            match builtin_cpp_spec(l) {
                Some(b) => { b },
                None => {
                    match resolve_type_spec(prog, path, ctx) {
                        Some(info) => { declared_cpp_spec(prog, info, ns) },
                        None => { join_spec(path, "::"@) },
                    }
                },
            }
        },
    }
}

/// What [`map_type_use`] computes.
pub open spec fn map_type_use_spec(prog: ProgramV, t: TypeV, ctx: int, ns: Seq<Seq<char>>) -> Seq<char>
    decreases t, 1int,
{
    let base = map_type_base_spec(prog, t, ctx, ns);
    if is_reference_spec(prog, t, ctx) { base + "*"@ } else { base }
}

/// What [`spelled_type`] computes.
pub open spec fn spelled_type_spec(prog: ProgramV, base: Seq<char>, ns: Seq<Seq<char>>, i: int) -> Option<TypeInfoV>
    decreases prog.types.len() - i,
{
    if !(0 <= i < prog.types.len()) { None } else {
        if (qualified_spec(prog.types[i], ns) == base) { Some(prog.types[i]) } else {
            let i = i + 1;
            spelled_type_spec(prog, base, ns, i)
        }
    }
}

/// What [`resolve_type_by_cpp_spelling`] computes.
#[verifier::opaque]
pub open spec fn resolve_type_by_cpp_spelling_spec(prog: ProgramV, base: Seq<char>, ns: Seq<Seq<char>>) -> Option<TypeInfoV>
{
    match spelled_type_spec(prog, base, ns, 0int) {
        Some(t) => { Some(t) },
        None => { None },
    }
}

/// What [`ty_named_info`] computes.
pub open spec fn ty_named_info_spec(prog: ProgramV, mi: int, t: TypeV) -> Option<TypeInfoV>
{
    match t {
        TypeV::Named { path, params, optional: _, line: _ } => {
            if (params.len()) == 0 { resolved_spec(prog, path, mi) } else { None }
        },
        _ => { None },
    }
}

} // verus!
