//! What the declarations of a header say.

use vstd::prelude::*;

use crate::codegen::common::{custom_setter_spec, enum_member_value_spec, generated_getter_spec, method_access_spec, param_list_spec};
use crate::codegen::ctypes::map_type_use_spec;
use crate::codegen::hclass::{accessor_lines_spec, class_bases_spec, dtor_text_spec, effective_ret_spec, emit_accessors_spec, emit_class_spec, field_line_spec, field_lines_spec, field_type_spec, forwarders_spec, getter_type_spec, is_shared_value_spec, method_line_spec, method_lines_spec, ordered_map_lines_spec};
use crate::codegen::hdecls::{all_payload_fields_spec, cpp_def_name_spec, emit_enum_adt_spec, emit_enum_spec, enum_lines_spec, enum_tag_spec, equality_lines_spec, factories_spec, interface_lines_spec, method_signature_spec, payload_equalities_spec, payload_params_spec, payload_stores_spec, payload_type_spec, ret_spelling_spec, struct_lines_spec};
use crate::codegen::lookup::{any_params_spec, is_accessor_method_spec, is_adt_spec, method_overridden_in_subclass_spec, method_overrides_base_spec};
use crate::model::{ClassV, DeclV, EnumV, EnumVariantV, FieldV, FunctionV, ParamV, StructFieldV, TypeV};
use crate::parser::types::meta_has_spec;
use crate::program::ProgramV;
use crate::resolve::facts_of_spec;
use crate::strings::{cap_spec, join_from_spec, join_spec};

verus! {

broadcast use {crate::model::group_model, crate::program::group_program, crate::text::group_texts};

/// Texts one behind the other.
pub open spec fn glued(parts: Seq<Seq<char>>) -> Seq<char>
    decreases parts.len(),
{
    if parts.len() == 0 {
        Seq::empty()
    } else {
        parts[0] + glued(parts.skip(1))
    }
}

/// Texts with a separator between each two of them.
pub open spec fn separated(parts: Seq<Seq<char>>, sep: Seq<char>) -> Seq<char>
    decreases parts.len(),
{
    if parts.len() == 0 {
        Seq::empty()
    } else if parts.len() == 1 {
        parts[0]
    } else {
        separated(parts.drop_last(), sep) + sep + parts.last()
    }
}

proof fn joined_so_far(v: Seq<Seq<char>>, sep: Seq<char>, i: int)
    requires
        0 <= i <= v.len(),
    ensures
        join_from_spec(v, sep, i, separated(v.take(i), sep)) == separated(v, sep),
    decreases v.len() - i,
{
    if i < v.len() {
        let more = v.take(i + 1);
        assert(more.drop_last() =~= v.take(i));
        assert(more.last() == v[i]);
        if i == 0 {
            assert(Seq::<char>::empty() + v[0] =~= v[0]);
        }
        joined_so_far(v, sep, i + 1);
    } else {
        assert(v.take(i) =~= v);
    }
}

/// A joined list has its separator between each two of its texts and nowhere else.
pub proof fn law_joined_list(v: Seq<Seq<char>>, sep: Seq<char>)
    ensures
        join_spec(v, sep) == separated(v, sep),
{
    joined_so_far(v, sep, 0);
    assert(v.take(0) =~= Seq::empty());
}

// ---- enums ------------------------------------------------------------

/// That two values agree in an argument of a variant.
pub open spec fn agrees(variant: Seq<char>, arg: ParamV) -> Seq<char> {
    variant + "_"@ + arg.name + " == o."@ + variant + "_"@ + arg.name
}

/// That two values agree in every argument of a variant.
pub open spec fn agree_in_all(variant: Seq<char>, args: Seq<ParamV>) -> Seq<char>
    decreases args.len(),
{
    if args.len() == 0 {
        Seq::empty()
    } else if args.len() == 1 {
        agrees(variant, args[0])
    } else {
        agree_in_all(variant, args.drop_last()) + " && "@ + agrees(variant, args.last())
    }
}

proof fn equalities_listed(v: Seq<char>, params: Seq<ParamV>, i: int, out: Seq<Seq<char>>)
    requires
        0 <= i <= params.len(),
        out == Seq::new(i as nat, |k: int| agrees(v, params[k])),
    ensures
        payload_equalities_spec(v, params, i, out) == Seq::new(params.len(), |k: int| agrees(v, params[k])),
    decreases params.len() - i,
{
    if i < params.len() {
        assert(out.push(agrees(v, params[i])) =~= Seq::new((i + 1) as nat, |k: int| agrees(v, params[k])));
        equalities_listed(v, params, i + 1, out.push(agrees(v, params[i])));
    }
}

proof fn conjunction_of(v: Seq<char>, params: Seq<ParamV>)
    ensures
        separated(Seq::new(params.len(), |k: int| agrees(v, params[k])), " && "@) == agree_in_all(v, params),
    decreases params.len(),
{
    let list = Seq::new(params.len(), |k: int| agrees(v, params[k]));
    if params.len() > 1 {
        let less = params.drop_last();
        conjunction_of(v, less);
        assert(list.drop_last() =~= Seq::new(less.len(), |k: int| agrees(v, less[k])));
    }
}

/// The line that compares the arguments of a variant; none where it has no argument.
pub open spec fn comparison_line(name: Seq<char>, v: EnumVariantV, t: Seq<char>) -> Seq<char> {
    if v.params.len() == 0 {
        Seq::empty()
    } else {
        t + "\t\tif (kind == "@ + name + "_::"@ + v.name + ") return "@ + agree_in_all(v.name, v.params) + ";\n"@
    }
}

proof fn comparisons(name: Seq<char>, variants: Seq<EnumVariantV>, t: Seq<char>, i: int, out: Seq<char>)
    requires
        0 <= i <= variants.len(),
    ensures
        equality_lines_spec(name, variants, t, i, out) == out + glued(Seq::new((variants.len() - i) as nat, |k: int| comparison_line(name, variants[i + k], t))),
    decreases variants.len() - i,
{
    let rest = Seq::new((variants.len() - i) as nat, |k: int| comparison_line(name, variants[i + k], t));
    if i < variants.len() {
        let v = variants[i];
        assert(Seq::<Seq<char>>::empty() =~= Seq::new(0, |k: int| agrees(v.name, v.params[k])));
        equalities_listed(v.name, v.params, 0, Seq::empty());
        law_joined_list(payload_equalities_spec(v.name, v.params, 0, Seq::empty()), " && "@);
        conjunction_of(v.name, v.params);
        let line = comparison_line(name, v, t);
        let next = if v.params.len() > 0 {
            out + t + "\t\tif (kind == "@ + name + "_::"@ + v.name + ") return "@ + agree_in_all(v.name, v.params) + ";\n"@
        } else {
            out
        };
        assert(next =~= out + line);
        comparisons(name, variants, t, i + 1, next);
        let others = Seq::new((variants.len() - (i + 1)) as nat, |k: int| comparison_line(name, variants[i + 1 + k], t));
        assert(rest.skip(1) =~= others);
        assert(rest[0] == line);
        assert((out + line) + glued(others) =~= out + (line + glued(others)));
    } else {
        assert(out + glued(rest) =~= out);
    }
}

/// Two values of an enum with arguments are equal where their tags are and, in a variant with
/// arguments, every one of these is; they are unequal where they are not equal. The class of
/// the values follows its tag, and holds the arguments and the functions that make values.
pub proof fn law_equal_values(prog: ProgramV, mi: int, ns: Seq<Seq<char>>, e: EnumV, t: Seq<char>)
    ensures
        ({
            let n = cpp_def_name_spec(prog, mi, e.name);
            let fields = all_payload_fields_spec(prog, mi, ns, e.variants, t, 0, Seq::empty());
            let makers = factories_spec(prog, mi, ns, n, e.variants, t, 0, Seq::empty());
            let comparisons = glued(Seq::new(e.variants.len(), |k: int| comparison_line(n, e.variants[k], t)));
            emit_enum_adt_spec(prog, mi, ns, e, t) == enum_tag_spec(n, e, false, t) + t + "class "@ + n + " {\n"@ + t + "public:\n"@ + t + "\t"@ + n + "_::Enum kind;\n"@ + fields + makers
                + t + "\tbool operator==(const "@ + n + "& o) const {\n"@ + t + "\t\tif (kind != o.kind) return false;\n"@ + comparisons + t + "\t\treturn true;\n"@ + t + "\t}\n"@
                + t + "\tbool operator!=(const "@ + n + "& o) const { return !(*this == o); }\n"@ + t + "};\n"@
        }),
{
    reveal(emit_enum_adt_spec);
    let n = cpp_def_name_spec(prog, mi, e.name);
    comparisons(n, e.variants, t, 0, Seq::empty());
    let lines = glued(Seq::new(e.variants.len(), |k: int| comparison_line(n, e.variants[k], t)));
    assert(Seq::new((e.variants.len() - 0) as nat, |k: int| comparison_line(n, e.variants[0 + k], t)) =~= Seq::new(e.variants.len(), |k: int| comparison_line(n, e.variants[k], t)));
    assert(Seq::<char>::empty() + lines =~= lines);
}

/// What stores the arguments of a variant in a value.
pub open spec fn stored_args(variant: Seq<char>, args: Seq<ParamV>) -> Seq<char>
    decreases args.len(),
{
    if args.len() == 0 {
        Seq::empty()
    } else {
        stored_args(variant, args.drop_last()) + (" e."@ + variant + "_"@ + args.last().name + " = "@ + args.last().name + ";"@)
    }
}

proof fn arguments_are_stored(v: Seq<char>, params: Seq<ParamV>, i: int)
    requires
        0 <= i <= params.len(),
    ensures
        payload_stores_spec(v, params, i, stored_args(v, params.take(i))) == stored_args(v, params),
    decreases params.len() - i,
{
    if i < params.len() {
        let more = params.take(i + 1);
        assert(more.drop_last() =~= params.take(i));
        assert(more.last() == params[i]);
        let out = stored_args(v, params.take(i));
        assert(out + " e."@ + v + "_"@ + params[i].name + " = "@ + params[i].name + ";"@ =~= out + (" e."@ + v + "_"@ + params[i].name + " = "@ + params[i].name + ";"@));
        arguments_are_stored(v, params, i + 1);
    } else {
        assert(params.take(i) =~= params);
    }
}

/// The function that makes a value of a variant.
pub open spec fn factory_line(prog: ProgramV, mi: int, ns: Seq<Seq<char>>, name: Seq<char>, v: EnumVariantV, t: Seq<char>) -> Seq<char> {
    t + "\tstatic "@ + name + " "@ + v.name + "("@ + separated(Seq::new(v.params.len(), |k: int| payload_type_spec(prog, mi, ns, v.params[k]) + " "@ + v.params[k].name), ", "@) + ") { "@
        + name + " e; e.kind = "@ + name + "_::"@ + v.name + ";"@ + stored_args(v.name, v.params) + " return e; }\n"@
}

proof fn parameters_listed(prog: ProgramV, mi: int, ns: Seq<Seq<char>>, params: Seq<ParamV>, i: int, out: Seq<Seq<char>>)
    requires
        0 <= i <= params.len(),
        out == Seq::new(i as nat, |k: int| payload_type_spec(prog, mi, ns, params[k]) + " "@ + params[k].name),
    ensures
        payload_params_spec(prog, mi, ns, params, i, out) == Seq::new(params.len(), |k: int| payload_type_spec(prog, mi, ns, params[k]) + " "@ + params[k].name),
    decreases params.len() - i,
{
    if i < params.len() {
        let more = out.push(payload_type_spec(prog, mi, ns, params[i]) + " "@ + params[i].name);
        assert(more =~= Seq::new((i + 1) as nat, |k: int| payload_type_spec(prog, mi, ns, params[k]) + " "@ + params[k].name));
        parameters_listed(prog, mi, ns, params, i + 1, more);
    }
}

/// There is one function for each variant: it takes the variant's arguments, and the value it
/// makes has the variant's tag and holds each argument in its own field.
pub proof fn law_factories(prog: ProgramV, mi: int, ns: Seq<Seq<char>>, name: Seq<char>, variants: Seq<EnumVariantV>, t: Seq<char>, i: int, out: Seq<char>)
    requires
        0 <= i <= variants.len(),
    ensures
        factories_spec(prog, mi, ns, name, variants, t, i, out)
            == out + glued(Seq::new((variants.len() - i) as nat, |k: int| factory_line(prog, mi, ns, name, variants[i + k], t))),
    decreases variants.len() - i,
{
    let rest = Seq::new((variants.len() - i) as nat, |k: int| factory_line(prog, mi, ns, name, variants[i + k], t));
    if i < variants.len() {
        let v = variants[i];
        arguments_are_stored(v.name, v.params, 0);
        assert(v.params.take(0) =~= Seq::empty());
        assert(Seq::<Seq<char>>::empty() =~= Seq::new(0, |k: int| payload_type_spec(prog, mi, ns, v.params[k]) + " "@ + v.params[k].name));
        parameters_listed(prog, mi, ns, v.params, 0, Seq::empty());
        law_joined_list(payload_params_spec(prog, mi, ns, v.params, 0, Seq::empty()), ", "@);
        let line = factory_line(prog, mi, ns, name, v, t);
        let params = join_spec(payload_params_spec(prog, mi, ns, v.params, 0, Seq::empty()), ", "@);
        let next = out + t + "\tstatic "@ + name + " "@ + v.name + "("@ + params + ") { "@ + name + " e; e.kind = "@ + name + "_::"@ + v.name + ";"@ + stored_args(v.name, v.params) + " return e; }\n"@;
        assert(next =~= out + line);
        law_factories(prog, mi, ns, name, variants, t, i + 1, next);
        let others = Seq::new((variants.len() - (i + 1)) as nat, |k: int| factory_line(prog, mi, ns, name, variants[i + 1 + k], t));
        assert(rest.skip(1) =~= others);
        assert(rest[0] == line);
        assert((out + line) + glued(others) =~= out + (line + glued(others)));
    } else {
        assert(out + glued(rest) =~= out);
    }
}

/// A constant of an enum, with its value where it has one.
pub open spec fn constant_line(v: EnumVariantV, valued: bool, t: Seq<char>) -> Seq<char> {
    let bare = t + "\t\t"@ + v.name;
    if valued && (v.value matches Some(e) && enum_member_value_spec(e) is Some) {
        bare + " = "@ + enum_member_value_spec(v.value->Some_0)->Some_0
    } else {
        bare
    }
}

proof fn constants_listed(variants: Seq<EnumVariantV>, valued: bool, t: Seq<char>, i: int, out: Seq<Seq<char>>)
    requires
        0 <= i <= variants.len(),
        out == Seq::new(i as nat, |k: int| constant_line(variants[k], valued, t)),
    ensures
        enum_lines_spec(variants, valued, t, i, out) == Seq::new(variants.len(), |k: int| constant_line(variants[k], valued, t)),
    decreases variants.len() - i,
{
    if i < variants.len() {
        let more = out.push(constant_line(variants[i], valued, t));
        assert(more =~= Seq::new((i + 1) as nat, |k: int| constant_line(variants[k], valued, t)));
        constants_listed(variants, valued, t, i + 1, more);
    }
}

/// The constants of an enum are its variants in their order, with the values that they have;
/// an enum without arguments is the type of these constants.
pub proof fn law_enum_constants(prog: ProgramV, mi: int, ns: Seq<Seq<char>>, e: EnumV, t: Seq<char>, name: Seq<char>, valued: bool)
    ensures
        enum_tag_spec(name, e, valued, t) == (t + "struct "@ + name + "_ {\n"@ + t + "\tenum Enum {\n"@)
            + separated(Seq::new(e.variants.len(), |k: int| constant_line(e.variants[k], valued, t)), ",\n"@) + ("\n"@ + t + "\t};\n"@ + t + "};\n"@),
        e.underlying is None && !is_adt_spec(e) ==> ({
            let n = cpp_def_name_spec(prog, mi, e.name);
            emit_enum_spec(prog, mi, ns, e, t) == enum_tag_spec(n, e, true, t) + (t + "typedef "@ + n + "_::Enum "@ + n + ";\n"@)
        }),
        e.underlying is None && is_adt_spec(e) ==> emit_enum_spec(prog, mi, ns, e, t) == emit_enum_adt_spec(prog, mi, ns, e, t),
        is_adt_spec(e) <==> e.underlying is None && exists|k: int| 0 <= k < e.variants.len() && (#[trigger] e.variants[k]).params.len() > 0,
{
    reveal(emit_enum_spec);
    reveal(enum_tag_spec);
    assert(Seq::<Seq<char>>::empty() =~= Seq::new(0, |k: int| constant_line(e.variants[k], valued, t)));
    constants_listed(e.variants, valued, t, 0, Seq::empty());
    law_joined_list(enum_lines_spec(e.variants, valued, t, 0, Seq::empty()), ",\n"@);
    let list = separated(Seq::new(e.variants.len(), |k: int| constant_line(e.variants[k], valued, t)), ",\n"@);
    assert(t + "struct "@ + name + "_ {\n"@ + t + "\tenum Enum {\n"@ + list + "\n"@ + t + "\t};\n"@ + t + "};\n"@
        =~= (t + "struct "@ + name + "_ {\n"@ + t + "\tenum Enum {\n"@) + list + ("\n"@ + t + "\t};\n"@ + t + "};\n"@));
    let n = cpp_def_name_spec(prog, mi, e.name);
    assert(enum_tag_spec(n, e, true, t) + t + "typedef "@ + n + "_::Enum "@ + n + ";\n"@ =~= enum_tag_spec(n, e, true, t) + (t + "typedef "@ + n + "_::Enum "@ + n + ";\n"@));
    some_arguments(e.variants, 0);
}

proof fn some_arguments(variants: Seq<EnumVariantV>, i: int)
    requires
        0 <= i <= variants.len(),
    ensures
        any_params_spec(variants, i) <==> exists|k: int| i <= k < variants.len() && (#[trigger] variants[k]).params.len() > 0,
    decreases variants.len() - i,
{
    if i < variants.len() {
        some_arguments(variants, i + 1);
        if variants[i].params.len() > 0 {
            assert(variants[i].params.len() > 0);
        }
    }
}

// ---- structures and interfaces ------------------------------------------

/// A structure has a line for each of its fields, in their order, with its type.
pub proof fn law_structure_fields(prog: ProgramV, mi: int, ns: Seq<Seq<char>>, fields: Seq<StructFieldV>, t: Seq<char>, i: int, out: Seq<char>)
    requires
        0 <= i <= fields.len(),
    ensures
        struct_lines_spec(prog, mi, ns, fields, t, i, out)
            == out + glued(Seq::new((fields.len() - i) as nat, |k: int| t + "\t"@ + map_type_use_spec(prog, fields[i + k].ty, mi, ns) + " "@ + fields[i + k].name + ";\n"@)),
    decreases fields.len() - i,
{
    let rest = Seq::new((fields.len() - i) as nat, |k: int| t + "\t"@ + map_type_use_spec(prog, fields[i + k].ty, mi, ns) + " "@ + fields[i + k].name + ";\n"@);
    if i < fields.len() {
        let f = fields[i];
        let line = t + "\t"@ + map_type_use_spec(prog, f.ty, mi, ns) + " "@ + f.name + ";\n"@;
        let next = out + t + "\t"@ + map_type_use_spec(prog, f.ty, mi, ns) + " "@ + f.name + ";\n"@;
        assert(next =~= out + line);
        law_structure_fields(prog, mi, ns, fields, t, i + 1, next);
        let others = Seq::new((fields.len() - (i + 1)) as nat, |k: int| t + "\t"@ + map_type_use_spec(prog, fields[i + 1 + k].ty, mi, ns) + " "@ + fields[i + 1 + k].name + ";\n"@);
        assert(rest.skip(1) =~= others);
        assert(rest[0] == line);
        assert((out + line) + glued(others) =~= out + (line + glued(others)));
    } else {
        assert(out + glued(rest) =~= out);
    }
}

/// An interface has a pure virtual method for each of its methods, in their order.
pub proof fn law_interface_methods(prog: ProgramV, mi: int, ns: Seq<Seq<char>>, methods: Seq<FunctionV>, t: Seq<char>, i: int, out: Seq<char>)
    requires
        0 <= i <= methods.len(),
    ensures
        interface_lines_spec(prog, mi, ns, methods, t, i, out)
            == out + glued(Seq::new((methods.len() - i) as nat, |k: int| t + "\tvirtual "@ + method_signature_spec(prog, mi, ns, methods[i + k], methods[i + k].ret) + " = 0;\n"@)),
    decreases methods.len() - i,
{
    let rest = Seq::new((methods.len() - i) as nat, |k: int| t + "\tvirtual "@ + method_signature_spec(prog, mi, ns, methods[i + k], methods[i + k].ret) + " = 0;\n"@);
    if i < methods.len() {
        let line = t + "\tvirtual "@ + method_signature_spec(prog, mi, ns, methods[i], methods[i].ret) + " = 0;\n"@;
        let next = out + t + "\tvirtual "@ + method_signature_spec(prog, mi, ns, methods[i], methods[i].ret) + " = 0;\n"@;
        assert(next =~= out + line);
        law_interface_methods(prog, mi, ns, methods, t, i + 1, next);
        let others = Seq::new((methods.len() - (i + 1)) as nat, |k: int| t + "\tvirtual "@ + method_signature_spec(prog, mi, ns, methods[i + 1 + k], methods[i + 1 + k].ret) + " = 0;\n"@);
        assert(rest.skip(1) =~= others);
        assert(rest[0] == line);
        assert((out + line) + glued(others) =~= out + (line + glued(others)));
    } else {
        assert(out + glued(rest) =~= out);
    }
}

// ---- classes -------------------------------------------------------------

/// A method is virtual exactly where it overrides one, is overridden or is abstract, and pure
/// where it is abstract; a static one is neither.
pub proof fn law_method_declaration(prog: ProgramV, mi: int, ns: Seq<Seq<char>>, c: ClassV, m: FunctionV, name: Seq<char>, ret: Option<TypeV>, t: Seq<char>)
    ensures
        ({
            let line = method_line_spec(prog, mi, ns, c, m, name, ret, t);
            let sig = method_signature_spec(prog, mi, ns, m, ret);
            let dispatched = m.modifiers.is_override || method_overrides_base_spec(prog, c, mi, name) || method_overridden_in_subclass_spec(prog, c, mi, name);
            &&& m.modifiers.is_abstract ==> line == t + "\t"@ + "virtual "@ + sig + " = 0;\n"@
            &&& !m.modifiers.is_abstract && m.modifiers.is_static ==> line == t + "\t"@ + "static "@ + sig + ";\n"@
            &&& !m.modifiers.is_abstract && !m.modifiers.is_static && dispatched ==> line == t + "\t"@ + "virtual "@ + sig + ";\n"@
            &&& !m.modifiers.is_abstract && !m.modifiers.is_static && !dispatched ==> line == t + "\t"@ + sig + ";\n"@
        }),
{
    reveal(method_line_spec);
    let sig = method_signature_spec(prog, mi, ns, m, ret);
    reveal_strlit("\tvirtual ");
    reveal_strlit("\tstatic ");
    reveal_strlit("virtual ");
    reveal_strlit("static ");
    reveal_strlit("\t");
    reveal_strlit("");
    assert(t + "\tvirtual "@ + sig + " = 0;\n"@ =~= t + "\t"@ + "virtual "@ + sig + " = 0;\n"@);
    assert(t + "\tstatic "@ + sig + ";\n"@ =~= t + "\t"@ + "static "@ + sig + ";\n"@);
    assert(t + "\t"@ + ""@ + sig + ";\n"@ =~= t + "\t"@ + sig + ";\n"@);
}

/// A signature names what the method returns, its name and its parameters; one without a type
/// returns nothing.
pub proof fn law_signature(prog: ProgramV, mi: int, ns: Seq<Seq<char>>, m: FunctionV, ret: Option<TypeV>)
    ensures
        m.name matches Some(n) ==> method_signature_spec(prog, mi, ns, m, ret)
            == (match ret { Some(x) => map_type_use_spec(prog, x, mi, ns), None => "void"@ }) + " "@ + n + "("@ + param_list_spec(prog, mi, ns, m.params, true) + ")"@,
{
    reveal(method_signature_spec);
    reveal(ret_spelling_spec);
}

/// A method that is public, or an accessor of a public property, is declared among the public
/// members, any other among the hidden ones; so is a field, whose backing is hidden where its
/// writes are not free.
pub proof fn law_member_visibility(prog: ProgramV, mi: int, ns: Seq<Seq<char>>, decls: Seq<DeclV>, c: ClassV, cpp: Seq<char>, t: Seq<char>, i: int, shown: Seq<char>, hidden: Seq<char>, later: Seq<char>)
    ensures
        0 <= i < c.methods.len() ==> (c.methods[i].name matches Some(name) ==> !is_accessor_method_spec(c, name) ==> ({
            let m = c.methods[i];
            let ret = effective_ret_spec(c, name, m.ret);
            let line = method_line_spec(prog, mi, ns, c, m, name, ret, t);
            let (fwd, def) = forwarders_spec(prog, mi, ns, decls, c, cpp, m, ret, t);
            method_lines_spec(prog, mi, ns, decls, c, cpp, t, i, shown, hidden, later) == (if method_access_spec(c, m) is Public {
                method_lines_spec(prog, mi, ns, decls, c, cpp, t, i + 1, shown + line + fwd, hidden, later + def)
            } else {
                method_lines_spec(prog, mi, ns, decls, c, cpp, t, i + 1, shown + fwd, hidden + line, later + def)
            })
        })),
        0 <= i < c.fields.len() ==> ({
            let f = c.fields[i];
            let (line, public) = field_line_spec(prog, mi, ns, c, f, t);
            &&& public ==> f.access is Public
            &&& f.is_static ==> public == (f.access is Public)
            &&& !f.is_static && ordered_map_lines_spec(prog, mi, ns, f, t) is None && !(f.get is Get && f.set is Never) ==>
                public == (f.access is Public && !(f.get is Get) && f.set is Default)
            &&& field_lines_spec(prog, mi, ns, c, t, i, shown, hidden) == (if public {
                field_lines_spec(prog, mi, ns, c, t, i + 1, shown + line, hidden)
            } else {
                field_lines_spec(prog, mi, ns, c, t, i + 1, shown, hidden + line)
            })
        }),
{
    reveal(field_line_spec);
}

/// The class stands in a header with its public members first and its hidden ones behind
/// `protected:`, which is left out where there are none.
pub proof fn law_class_frame(prog: ProgramV, mi: int, ns: Seq<Seq<char>>, decls: Seq<DeclV>, c: ClassV, t: Seq<char>)
    requires
        facts_of_spec(prog, c.name, mi) is None,
        !meta_has_spec(c.meta, "libexport"@),
    ensures
        ({
            let cpp = cpp_def_name_spec(prog, mi, c.name);
            let made = match c.ctor {
                Some(f) => t + "\t"@ + cpp + "("@ + param_list_spec(prog, mi, ns, f.params, true) + ");\n"@,
                None => Seq::empty(),
            };
            let (s1, h1, later) = method_lines_spec(prog, mi, ns, decls, c, cpp, t, 0, made + dtor_text_spec(c, cpp, Seq::empty(), t), Seq::empty(), Seq::empty());
            let (shown, hidden) = field_lines_spec(prog, mi, ns, c, t, 0, accessor_lines_spec(prog, mi, ns, c, t, 0, s1), h1);
            let (text, out_of_line) = emit_class_spec(prog, mi, ns, decls, c, t);
            &&& out_of_line == later
            &&& hidden.len() == 0 ==> text == (t + "class "@ + cpp + class_bases_spec(prog, mi, ns, c) + " {\n"@) + (t + "public:\n"@) + shown + (t + "};\n"@)
            &&& hidden.len() > 0 ==> text == (t + "class "@ + cpp + class_bases_spec(prog, mi, ns, c) + " {\n"@) + (t + "public:\n"@) + shown + (t + "protected:\n"@) + hidden + (t + "};\n"@)
        }),
{
    reveal(emit_class_spec);
    let cpp = cpp_def_name_spec(prog, mi, c.name);
    let none = Seq::<char>::empty();
    let made = match c.ctor {
        Some(f) => t + "\t"@ + cpp + "("@ + param_list_spec(prog, mi, ns, f.params, true) + ");\n"@,
        None => none,
    };
    let (s1, h1, later) = method_lines_spec(prog, mi, ns, decls, c, cpp, t, 0, made + dtor_text_spec(c, cpp, Seq::empty(), t), Seq::empty(), Seq::empty());
    let (shown, hidden) = field_lines_spec(prog, mi, ns, c, t, 0, accessor_lines_spec(prog, mi, ns, c, t, 0, s1), h1);
    let base = class_bases_spec(prog, mi, ns, c);
    let protected = if hidden.len() == 0 { none } else { t + "protected:\n"@ + hidden };
    assert(none + t + "class "@ + none + cpp + base + " {\n"@ + t + "public:\n"@ + shown + protected + t + "};\n"@
        =~= (t + "class "@ + cpp + base + " {\n"@) + (t + "public:\n"@) + shown + protected + (t + "};\n"@));
    assert(hidden.len() > 0 ==> (t + "class "@ + cpp + base + " {\n"@) + (t + "public:\n"@) + shown + protected + (t + "};\n"@)
        =~= (t + "class "@ + cpp + base + " {\n"@) + (t + "public:\n"@) + shown + (t + "protected:\n"@) + hidden + (t + "};\n"@));
    assert(hidden.len() == 0 ==> (t + "class "@ + cpp + base + " {\n"@) + (t + "public:\n"@) + shown + protected + (t + "};\n"@)
        =~= (t + "class "@ + cpp + base + " {\n"@) + (t + "public:\n"@) + shown + (t + "};\n"@));
}

/// A property whose reads are free and whose writes are not is read through a generated getter,
/// which gives the field; one with a setter of its own kind is written through a generated
/// setter, which stores its argument in the field.
pub proof fn law_generated_accessors(prog: ProgramV, mi: int, ns: Seq<Seq<char>>, c: ClassV, f: FieldV, t: Seq<char>)
    ensures
        ({
            let fty = field_type_spec(prog, mi, ns, c, f);
            let shared = f.ty matches Some(x) && is_shared_value_spec(prog, mi, ns, x);
            let read = if "*"@.is_suffix_of(fty) { fty } else if shared { fty + "&"@ } else { "const "@ + fty };
            let getter = t + "\t"@ + read + " Get"@ + cap_spec(f.name) + "() { return "@ + f.name + "; }\n"@;
            let setter = t + "\tvoid Set"@ + cap_spec(f.name) + "("@ + fty + " "@ + f.name + ") { this->"@ + f.name + " = "@ + f.name + "; }\n"@;
            let reads = f.get is Default && !(f.set is Default);
            let writes = f.set is Setter && !custom_setter_spec(c, f);
            emit_accessors_spec(prog, mi, ns, c, f, t) == (if reads { getter } else { Seq::empty() }) + (if writes { setter } else { Seq::empty() })
        }),
{
    reveal(emit_accessors_spec);
    reveal(getter_type_spec);
    let fty = field_type_spec(prog, mi, ns, c, f);
    let none = Seq::<char>::empty();
    let setter = t + "\tvoid Set"@ + cap_spec(f.name) + "("@ + fty + " "@ + f.name + ") { this->"@ + f.name + " = "@ + f.name + "; }\n"@;
    let getter = if generated_getter_spec(f) {
        t + "\t"@ + getter_type_spec(prog, mi, ns, f, fty) + " Get"@ + cap_spec(f.name) + "() { return "@ + f.name + "; }\n"@
    } else {
        none
    };
    assert(getter + none =~= getter);
    assert(getter + t + "\tvoid Set"@ + cap_spec(f.name) + "("@ + fty + " "@ + f.name + ") { this->"@ + f.name + " = "@ + f.name + "; }\n"@ =~= getter + setter);
}

} // verus!
