//! What the types of a program become.

use vstd::prelude::*;

use crate::codegen::ctypes::{builtin_cpp_spec, declared_cpp_spec, is_reference_spec, is_value_class_spec, is_value_spec, map_type_base_spec, map_type_use_spec, named_cpp_spec, namespace_prefix_spec, qualified_spec, resolve_alias_type_ctx_spec};
use crate::model::{ClassV, TypeV};
use crate::parser::types::meta_has_spec;
use crate::program::{ProgramV, TypeInfoV, TypeKind};
use crate::resolve::{last_is_spec, last_of_spec, resolve_type_spec};
use crate::strings::join_spec;

verus! {

broadcast use {crate::model::group_model, crate::program::group_program, crate::text::group_texts};

proof fn type_words()
    ensures
        "Array"@.len() == 5,
        "Null"@.len() == 4,
        "Map"@.len() == 3,
        "ConstStar"@.len() == 9,
        "Pointer"@.len() == 7,
        "RawPointer"@.len() == 10,
        "Star"@.len() == 4,
        "Vector"@.len() == 6,
        "Star"@[0] == 'S',
        "Null"@[0] == 'N',
{
    reveal_strlit("Array");
    reveal_strlit("Null");
    reveal_strlit("Map");
    reveal_strlit("ConstStar");
    reveal_strlit("Pointer");
    reveal_strlit("RawPointer");
    reveal_strlit("Star");
    reveal_strlit("Vector");
}

/// A type by its last name and its parameters.
pub open spec fn generic(name: Seq<char>, params: Seq<TypeV>, optional: bool, line: int) -> TypeV {
    TypeV::Named { path: seq![name], params, optional, line }
}

/// Arrays become vectors, maps become maps of the same keys and values, and what may be null
/// and the raw pointers become pointers, of which there is never one to a pointer.
pub proof fn law_generic_types(prog: ProgramV, a: TypeV, b: TypeV, optional: bool, line: int, ctx: int, ns: Seq<Seq<char>>)
    ensures
        ({
            let x = map_type_use_spec(prog, a, ctx, ns);
            let y = map_type_use_spec(prog, b, ctx, ns);
            let bare = map_type_base_spec(prog, a, ctx, ns);
            &&& map_type_base_spec(prog, generic("Array"@, seq![a], optional, line), ctx, ns) == "std::vector<"@ + x + " >"@
            &&& map_type_base_spec(prog, generic("Vector"@, seq![a], optional, line), ctx, ns) == "std::vector<"@ + x + " >"@
            &&& map_type_base_spec(prog, generic("Map"@, seq![a, b], optional, line), ctx, ns) == "std::map<"@ + x + ", "@ + y + " >"@
            &&& map_type_base_spec(prog, generic("Null"@, seq![a], optional, line), ctx, ns) == if "*"@.is_suffix_of(x) { x } else { x + "*"@ }
            &&& map_type_base_spec(prog, generic("Pointer"@, seq![a], optional, line), ctx, ns) == bare + "*"@
            &&& map_type_base_spec(prog, generic("RawPointer"@, seq![a], optional, line), ctx, ns) == bare + "*"@
            &&& map_type_base_spec(prog, generic("Star"@, seq![a], optional, line), ctx, ns) == bare + "*"@
            &&& map_type_base_spec(prog, generic("ConstStar"@, seq![a], optional, line), ctx, ns) == "const "@ + bare + "*"@
        }),
{
    type_words();
    reveal(map_type_base_spec);
    reveal(map_type_use_spec);
    reveal(last_is_spec);
    assert(seq![a][0] == a);
    assert(seq![a, b][0] == a && seq![a, b][1] == b);
    by_last_name("Array"@);
    by_last_name("Vector"@);
    by_last_name("Map"@);
    by_last_name("Null"@);
    by_last_name("Pointer"@);
    by_last_name("RawPointer"@);
    by_last_name("Star"@);
    by_last_name("ConstStar"@);
}

proof fn by_last_name(name: Seq<char>)
    ensures
        forall|other: Seq<char>| #[trigger] last_is_spec(seq![name], other) <==> name == other,
{
    reveal(last_is_spec);
    assert(seq![name].last() == name);
}

/// A value of a class is held by a pointer, a value of any other type as it is. A class is held
/// as a value where it is marked so or wraps one.
pub proof fn law_references_are_pointers(prog: ProgramV, t: TypeV, ctx: int, ns: Seq<Seq<char>>, path: Seq<Seq<char>>, at: int, params: Seq<TypeV>, optional: bool, line: int, info: TypeInfoV)
    ensures
        map_type_use_spec(prog, t, ctx, ns) == if is_reference_spec(prog, t, ctx) {
            map_type_base_spec(prog, t, ctx, ns) + "*"@
        } else {
            map_type_base_spec(prog, t, ctx, ns)
        },
        resolve_alias_type_ctx_spec(prog, t, ctx) == (TypeV::Named { path, params, optional, line }, at) && resolve_type_spec(prog, path, at) == Some(info)
            ==> (is_reference_spec(prog, t, ctx) <==> info.kind == TypeKind::Interface || info.kind == TypeKind::Class && !is_value_class_spec(
            prog,
            path,
            at,
        )),
{
    reveal(map_type_use_spec);
    reveal(is_reference_spec);
}

/// Which classes are values.
pub proof fn law_value_classes(c: ClassV)
    ensures
        is_value_spec(c) <==> meta_has_spec(c.meta, "stackOnly"@) || c.abstract_underlying is Some,
{
    reveal(is_value_spec);
}

/// A name of another package is written with that package in front; one of the same package,
/// or of none, stands alone.
pub proof fn law_qualified_names(info: TypeInfoV, ns: Seq<Seq<char>>)
    ensures
        info.namespace.len() == 0 || info.namespace == ns ==> qualified_spec(info, ns) == info.cpp,
        info.namespace.len() > 0 && info.namespace != ns ==> qualified_spec(info, ns) == join_spec(info.namespace, "::"@) + "::"@ + info.cpp,
{
    reveal(qualified_spec);
    reveal(namespace_prefix_spec);
    assert(Seq::<char>::empty() + info.cpp =~= info.cpp);
}

/// A plain name is that of a built-in type, of a declared one, or stands with `::` between its
/// parts.
pub proof fn law_plain_names(prog: ProgramV, path: Seq<Seq<char>>, optional: bool, line: int, ctx: int, ns: Seq<Seq<char>>)
    requires
        path.len() > 0,
    ensures
        ({
            let r = map_type_base_spec(prog, TypeV::Named { path, params: Seq::empty(), optional, line }, ctx, ns);
            &&& builtin_cpp_spec(path.last()) matches Some(b) ==> r == b
            &&& builtin_cpp_spec(path.last()) is None ==> {
                &&& resolve_type_spec(prog, path, ctx) is None ==> r == join_spec(path, "::"@)
                &&& resolve_type_spec(prog, path, ctx) matches Some(info) ==> (info.kind != TypeKind::EnumAbstract ==> r == qualified_spec(info, ns))
            }
        }),
{
    reveal(map_type_base_spec);
    reveal(named_cpp_spec);
    reveal(declared_cpp_spec);
    reveal(last_of_spec);
}

} // verus!
