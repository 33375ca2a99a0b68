//! What holds of a program that is put together from parsed files.

use vstd::prelude::*;

use crate::assemble::{any_header_decl_spec, build_program_spec, header_includes_spec, modules_of_spec, with_includes_spec};
use crate::model::DeclV;
use crate::program::{ModuleV, ProgramV, TypeInfoV, UnitV};
use crate::resolve::{collect_types_spec, find_decl_spec, info_of_spec, infos_of_spec, is_decl_of_spec, module_at_spec, type_decl_spec};

verus! {

broadcast use {crate::model::group_model, crate::program::group_program, crate::text::group_texts};

/// Whether a module is made from a unit.
pub open spec fn is_made_from(m: ModuleV, u: UnitV, stdafx_stem: Seq<char>) -> bool {
    &&& m.stem == u.stem
    &&& m.dir == u.dir
    &&& m.file == u.file
    &&& m.package == u.file.package
    &&& m.is_include == u.is_include
    &&& m.is_stdafx == (u.stem == stdafx_stem)
    &&& m.has_header == (u.stem != stdafx_stem && any_header_decl_spec(u.file.decls, 0))
}

proof fn modules_are_made(units: Seq<UnitV>, stdafx_stem: Seq<char>, i: int, out: Seq<ModuleV>)
    requires
        0 <= i <= units.len(),
        out.len() == i,
        forall|k: int| 0 <= k < i ==> is_made_from(#[trigger] out[k], units[k], stdafx_stem),
    ensures
        modules_of_spec(units, stdafx_stem, i, out).len() == units.len(),
        forall|k: int| 0 <= k < units.len() ==> is_made_from(#[trigger] modules_of_spec(units, stdafx_stem, i, out)[k], units[k], stdafx_stem),
    decreases units.len() - i,
{
    if i < units.len() {
        let is_stdafx = units[i].stem == stdafx_stem;
        let more = out.push(ModuleV {
            stem: units[i].stem,
            dir: units[i].dir,
            package: units[i].file.package,
            file: units[i].file,
            is_stdafx,
            is_include: units[i].is_include,
            has_header: !is_stdafx && any_header_decl_spec(units[i].file.decls, 0int),
            includes: Seq::empty(),
        });
        assert forall|k: int| 0 <= k < i + 1 implies is_made_from(#[trigger] more[k], units[k], stdafx_stem) by {
            if k < i {
                assert(more[k] == out[k]);
            }
        }
        modules_are_made(units, stdafx_stem, i + 1, more);
    }
}

proof fn modules_are_kept(prog: ProgramV, units: Seq<UnitV>, stdafx_stem: Seq<char>, i: int, out: Seq<ModuleV>)
    requires
        prog.modules.len() == units.len(),
        forall|k: int| 0 <= k < units.len() ==> is_made_from(#[trigger] prog.modules[k], units[k], stdafx_stem),
        0 <= i <= units.len(),
        out.len() == i,
        forall|k: int| 0 <= k < i ==> is_made_from(#[trigger] out[k], units[k], stdafx_stem),
    ensures
        with_includes_spec(prog, i, out).len() == units.len(),
        forall|k: int| 0 <= k < units.len() ==> is_made_from(#[trigger] with_includes_spec(prog, i, out)[k], units[k], stdafx_stem),
    decreases units.len() - i,
{
    if i < units.len() {
        let m = prog.modules[i];
        let more = out.push(ModuleV { includes: header_includes_spec(prog, i, m), ..m });
        assert forall|k: int| 0 <= k < i + 1 implies is_made_from(#[trigger] more[k], units[k], stdafx_stem) by {
            if k < i {
                assert(more[k] == out[k]);
            } else {
                assert(is_made_from(prog.modules[i], units[i], stdafx_stem));
            }
        }
        modules_are_kept(prog, units, stdafx_stem, i + 1, more);
    }
}

/// A program has one module for each unit, in their order. The module of the prelude stem is
/// the prelude, and a module has a header where it declares something that a header shows and
/// is not the prelude.
pub proof fn law_program_holds_its_units(units: Seq<UnitV>, stdafx_stem: Seq<char>, export_macro: Seq<char>, no_trace: bool, extract_depth: int)
    ensures
        ({
            let prog = build_program_spec(units, stdafx_stem, export_macro, no_trace, extract_depth);
            &&& prog.modules.len() == units.len()
            &&& forall|k: int| 0 <= k < units.len() ==> is_made_from(#[trigger] prog.modules[k], units[k], stdafx_stem)
        }),
{
    reveal(build_program_spec);
    modules_are_made(units, stdafx_stem, 0, Seq::empty());
    let modules = modules_of_spec(units, stdafx_stem, 0, Seq::empty());
    let types = collect_types_spec(modules, 0, Seq::empty());
    let bare = ProgramV { modules, types, facts: Seq::empty(), stdafx_stem, export_macro, no_trace, extract_depth };
    modules_are_kept(bare, units, stdafx_stem, 0, Seq::empty());
}

/// Whether the declaration at `d` of its module is the one a type was made from.
pub open spec fn is_declared_at(modules: Seq<ModuleV>, t: TypeInfoV, d: int) -> bool {
    &&& 0 <= t.module_index < modules.len()
    &&& 0 <= d < modules[t.module_index].file.decls.len()
    &&& is_decl_of_spec(modules[t.module_index].file.decls[d], t)
}

/// Whether a type was made from a declaration of its module.
pub open spec fn is_declared(modules: Seq<ModuleV>, t: TypeInfoV) -> bool {
    exists|d: int| #[trigger] is_declared_at(modules, t, d)
}

/// Whether each of the types was made from a declaration of its module.
pub open spec fn all_declared(modules: Seq<ModuleV>, types: Seq<TypeInfoV>) -> bool {
    forall|k: int| 0 <= k < types.len() ==> is_declared(modules, #[trigger] types[k])
}

proof fn infos_are_declared(modules: Seq<ModuleV>, mi: int, i: int, out: Seq<TypeInfoV>)
    requires
        0 <= mi < modules.len(),
        0 <= i,
        all_declared(modules, out),
    ensures
        all_declared(modules, infos_of_spec(modules[mi].file.decls, mi, modules[mi].package, i, out)),
    decreases modules[mi].file.decls.len() - i,
{
    let decls = modules[mi].file.decls;
    if i < decls.len() {
        match info_of_spec(decls[i], mi, modules[mi].package) {
            Some(t) => {
                let more = out.push(t);
                assert(is_declared_at(modules, t, i));
                assert forall|k: int| 0 <= k < more.len() implies is_declared(modules, #[trigger] more[k]) by {
                    if k < out.len() {
                        assert(more[k] == out[k]);
                    }
                }
                infos_are_declared(modules, mi, i + 1, more);
            },
            None => {
                infos_are_declared(modules, mi, i + 1, out);
            },
        }
    }
}

proof fn types_are_declared(modules: Seq<ModuleV>, mi: int, out: Seq<TypeInfoV>)
    requires
        0 <= mi,
        all_declared(modules, out),
    ensures
        all_declared(modules, collect_types_spec(modules, mi, out)),
    decreases modules.len() - mi,
{
    if mi < modules.len() {
        infos_are_declared(modules, mi, 0, out);
        types_are_declared(modules, mi + 1, infos_of_spec(modules[mi].file.decls, mi, modules[mi].package, 0, out));
    }
}

proof fn declaration_is_found(decls: Seq<DeclV>, info: TypeInfoV, i: int, d: int)
    requires
        0 <= i <= d < decls.len(),
        is_decl_of_spec(decls[d], info),
    ensures
        find_decl_spec(decls, info, i) matches Some(x) && is_decl_of_spec(x, info),
    decreases d - i,
{
    if !is_decl_of_spec(decls[i], info) {
        declaration_is_found(decls, info, i + 1, d);
    }
}

/// Every type of a program has a declaration, of the same kind and under the same name.
pub proof fn law_every_type_has_its_declaration(units: Seq<UnitV>, stdafx_stem: Seq<char>, export_macro: Seq<char>, no_trace: bool, extract_depth: int)
    ensures
        ({
            let prog = build_program_spec(units, stdafx_stem, export_macro, no_trace, extract_depth);
            forall|k: int| 0 <= k < prog.types.len() ==> has_declaration(prog, #[trigger] prog.types[k])
        }),
{
    reveal(build_program_spec);
    reveal(type_decl_spec);
    reveal(module_at_spec);
    let prog = build_program_spec(units, stdafx_stem, export_macro, no_trace, extract_depth);
    law_program_holds_its_units(units, stdafx_stem, export_macro, no_trace, extract_depth);
    modules_are_made(units, stdafx_stem, 0, Seq::empty());
    let modules = modules_of_spec(units, stdafx_stem, 0, Seq::empty());
    types_are_declared(modules, 0, Seq::empty());
    assert forall|k: int| 0 <= k < prog.types.len() implies has_declaration(prog, #[trigger] prog.types[k]) by {
        let t = prog.types[k];
        assert(is_declared(modules, t));
        let d = choose|d: int| #[trigger] is_declared_at(modules, t, d);
        assert(is_made_from(modules[t.module_index], units[t.module_index], stdafx_stem));
        assert(is_made_from(prog.modules[t.module_index], units[t.module_index], stdafx_stem));
        declaration_is_found(prog.modules[t.module_index].file.decls, t, 0, d);
    }
}

/// Whether a type's declaration can be found, and declares what the type says.
pub open spec fn has_declaration(prog: ProgramV, t: TypeInfoV) -> bool {
    type_decl_spec(prog, t) matches Some(d) && is_decl_of_spec(d, t)
}

} // verus!
