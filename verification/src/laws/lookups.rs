//! What holds of the types, fields, methods and variants that a name finds.

use vstd::prelude::*;

use crate::codegen::common::{find_method_spec, is_named_spec};
use crate::codegen::lookup::{field_named_spec, variant_named_spec};
use crate::model::{EnumVariantV, FieldV, FunctionV};
use crate::program::{ProgramV, TypeInfoV};
use crate::resolve::{Nearness, answers_spec, find_type_spec, last_is_spec, resolve_type_spec};

verus! {

broadcast use {crate::model::group_model, crate::program::group_program, crate::text::group_texts};

proof fn first_type(prog: ProgramV, path: Seq<Seq<char>>, mi: int, how: Nearness, i: int)
    requires
        0 <= i <= prog.types.len(),
        forall|j: int| 0 <= j < i ==> !answers_spec(prog, #[trigger] prog.types[j], path, mi, how),
    ensures
        match find_type_spec(prog, path, mi, how, i) {
            Some(t) => is_first_type(prog, path, mi, how, t),
            None => forall|j: int| 0 <= j < prog.types.len() ==> !answers_spec(prog, #[trigger] prog.types[j], path, mi, how),
        },
    decreases prog.types.len() - i,
{
    if i < prog.types.len() {
        if answers_spec(prog, prog.types[i], path, mi, how) {
            assert(first_at(prog, path, mi, how, i));
        } else {
            first_type(prog, path, mi, how, i + 1);
        }
    }
}

/// Whether the type at `k` is the first that answers to a path at the given nearness.
pub open spec fn first_at(prog: ProgramV, path: Seq<Seq<char>>, mi: int, how: Nearness, k: int) -> bool {
    &&& 0 <= k < prog.types.len()
    &&& answers_spec(prog, prog.types[k], path, mi, how)
    &&& forall|j: int| 0 <= j < k ==> !answers_spec(prog, #[trigger] prog.types[j], path, mi, how)
}

/// Whether `t` is the first type that answers to a path at the given nearness.
pub open spec fn is_first_type(prog: ProgramV, path: Seq<Seq<char>>, mi: int, how: Nearness, t: TypeInfoV) -> bool {
    exists|k: int| #[trigger] first_at(prog, path, mi, how, k) && prog.types[k] == t
}

/// Whether some type answers to a path at the given nearness.
pub open spec fn some_answers(prog: ProgramV, path: Seq<Seq<char>>, mi: int, how: Nearness) -> bool {
    exists|j: int| 0 <= j < prog.types.len() && answers_spec(prog, #[trigger] prog.types[j], path, mi, how)
}

/// A path names the first of the types that answer to it at the nearest level at which any
/// does: written out in full, in the same module, imported, in the same package, anywhere.
pub proof fn law_nearest_type_is_named(prog: ProgramV, path: Seq<Seq<char>>, mi: int)
    ensures
        ({
            let r = resolve_type_spec(prog, path, mi);
            if some_answers(prog, path, mi, Nearness::Written) {
                (r matches Some(t) && is_first_type(prog, path, mi, Nearness::Written, t))
            } else if some_answers(prog, path, mi, Nearness::SameModule) {
                (r matches Some(t) && is_first_type(prog, path, mi, Nearness::SameModule, t))
            } else if some_answers(prog, path, mi, Nearness::Imported) {
                (r matches Some(t) && is_first_type(prog, path, mi, Nearness::Imported, t))
            } else if some_answers(prog, path, mi, Nearness::SamePackage) {
                (r matches Some(t) && is_first_type(prog, path, mi, Nearness::SamePackage, t))
            } else if some_answers(prog, path, mi, Nearness::Anywhere) {
                (r matches Some(t) && is_first_type(prog, path, mi, Nearness::Anywhere, t))
            } else {
                r is None
            }
        }),
{
    reveal(resolve_type_spec);
    first_type(prog, path, mi, Nearness::Written, 0);
    first_type(prog, path, mi, Nearness::SameModule, 0);
    first_type(prog, path, mi, Nearness::Imported, 0);
    first_type(prog, path, mi, Nearness::SamePackage, 0);
    first_type(prog, path, mi, Nearness::Anywhere, 0);
}

/// A path names a type exactly where one is declared under its last part, and the type it
/// names is one of those.
pub proof fn law_named_type_has_the_name(prog: ProgramV, path: Seq<Seq<char>>, mi: int)
    ensures
        resolve_type_spec(prog, path, mi) is None <==> forall|j: int|
            0 <= j < prog.types.len() ==> !last_is_spec(path, (#[trigger] prog.types[j]).name),
        resolve_type_spec(prog, path, mi) matches Some(t) ==> last_is_spec(path, t.name) && prog.types.contains(t),
{
    law_nearest_type_is_named(prog, path, mi);
    reveal(answers_spec);
    match resolve_type_spec(prog, path, mi) {
        Some(t) => {
            let how = choose|how: Nearness| #[trigger] is_first_type(prog, path, mi, how, t);
            assert(is_first_type(prog, path, mi, how, t));
            let k = choose|k: int| #[trigger] first_at(prog, path, mi, how, k) && prog.types[k] == t;
            assert(prog.types[k] == t);
        },
        None => {
            assert forall|j: int| 0 <= j < prog.types.len() implies !last_is_spec(path, (#[trigger] prog.types[j]).name) by {
                assert(!some_answers(prog, path, mi, Nearness::Anywhere));
                reveal(answers_spec);
            }
        },
    }
}

/// Whether the field at `k` is the first from `i` on that has the name.
pub open spec fn first_field_at(fields: Seq<FieldV>, name: Seq<char>, i: int, k: int) -> bool {
    i <= k < fields.len() && fields[k].name == name && forall|j: int| i <= j < k ==> (#[trigger] fields[j]).name != name
}

/// A name finds the first field that has it, and none exactly where no field has it.
pub proof fn law_first_field_is_found(fields: Seq<FieldV>, name: Seq<char>, i: int)
    requires
        0 <= i,
    ensures
        forall|k: int| #[trigger] first_field_at(fields, name, i, k) ==> field_named_spec(fields, name, i) == Some(fields[k]),
        field_named_spec(fields, name, i) is None <==> forall|j: int| i <= j < fields.len() ==> (#[trigger] fields[j]).name != name,
    decreases fields.len() - i,
{
    if i < fields.len() && fields[i].name != name {
        law_first_field_is_found(fields, name, i + 1);
        assert forall|k: int| #[trigger] first_field_at(fields, name, i, k) implies field_named_spec(fields, name, i) == Some(fields[k]) by {
            assert(first_field_at(fields, name, i + 1, k));
        }
    }
}

/// Whether the method at `k` is the first from `i` on that has the name.
pub open spec fn first_method_at(methods: Seq<FunctionV>, name: Seq<char>, i: int, k: int) -> bool {
    i <= k < methods.len() && is_named_spec(methods[k], name) && forall|j: int| i <= j < k ==> !is_named_spec(#[trigger] methods[j], name)
}

/// A name finds the first method that has it, and none exactly where no method has it.
pub proof fn law_first_method_is_found(methods: Seq<FunctionV>, name: Seq<char>, i: int)
    requires
        0 <= i,
    ensures
        forall|k: int| #[trigger] first_method_at(methods, name, i, k) ==> find_method_spec(methods, name, i) == Some(methods[k]),
        find_method_spec(methods, name, i) is None <==> forall|j: int| i <= j < methods.len() ==> !is_named_spec(#[trigger] methods[j], name),
    decreases methods.len() - i,
{
    if i < methods.len() && !is_named_spec(methods[i], name) {
        law_first_method_is_found(methods, name, i + 1);
        assert forall|k: int| #[trigger] first_method_at(methods, name, i, k) implies find_method_spec(methods, name, i) == Some(methods[k]) by {
            assert(first_method_at(methods, name, i + 1, k));
        }
    }
}

/// Whether the variant at `k` is the first from `i` on that has the name.
pub open spec fn first_variant_at(variants: Seq<EnumVariantV>, name: Seq<char>, i: int, k: int) -> bool {
    i <= k < variants.len() && variants[k].name == name && forall|j: int| i <= j < k ==> (#[trigger] variants[j]).name != name
}

/// A name finds the first variant that has it, and none exactly where no variant has it.
pub proof fn law_first_variant_is_found(variants: Seq<EnumVariantV>, name: Seq<char>, i: int)
    requires
        0 <= i,
    ensures
        forall|k: int| #[trigger] first_variant_at(variants, name, i, k) ==> variant_named_spec(variants, name, i) == Some(variants[k]),
        variant_named_spec(variants, name, i) is None <==> forall|j: int| i <= j < variants.len() ==> (#[trigger] variants[j]).name != name,
    decreases variants.len() - i,
{
    if i < variants.len() && variants[i].name != name {
        law_first_variant_is_found(variants, name, i + 1);
        assert forall|k: int| #[trigger] first_variant_at(variants, name, i, k) implies variant_named_spec(variants, name, i) == Some(variants[k]) by {
            assert(first_variant_at(variants, name, i + 1, k));
        }
    }
}

} // verus!
