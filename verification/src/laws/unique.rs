//! What holds of the functions that a single header defines.

use vstd::prelude::*;

use crate::cli::ConfigV;
use crate::codegen::modfns::{Sort, is_sort_spec};
use crate::driver::{add_errors_spec, amalgamated_spec, check_modules_spec, clashes_spec, free_fn_name_spec, plan_single_spec, seen_in_spec, warn_steps_spec};
use crate::laws::runs::law_errors_are_added;
use crate::program::{ModuleV, ProgramV};
use crate::report::{DiagnosticV, FindingsV, PlanV, SeenFnV, StepV};
use crate::resolve::module_at_spec;
use crate::text::dec;

verus! {

broadcast use {crate::program::group_program, crate::report::group_report, crate::text::group_texts};

/// The name of the free function that a declaration of a module defines, if it defines one.
pub open spec fn fn_at(m: ModuleV, d: int) -> Option<Seq<char>> {
    if 0 <= d < m.file.decls.len() && !is_sort_spec(m.file.decls[d], Sort::Export) {
        free_fn_name_spec(m.file.decls[d])
    } else {
        None
    }
}

/// Whether the function at `k` of those seen is of the package and the name.
pub open spec fn seen_at(seen: Seq<SeenFnV>, package: Seq<Seq<char>>, name: Seq<char>, k: int) -> bool {
    0 <= k < seen.len() && seen[k].package == package && seen[k].name == name
}

/// Whether a function of the package and the name was seen.
pub open spec fn is_seen(seen: Seq<SeenFnV>, package: Seq<Seq<char>>, name: Seq<char>) -> bool {
    exists|k: int| #[trigger] seen_at(seen, package, name, k)
}

proof fn looked_up(seen: Seq<SeenFnV>, package: Seq<Seq<char>>, name: Seq<char>, i: int)
    requires
        0 <= i <= seen.len(),
        forall|k: int| 0 <= k < i ==> !#[trigger] seen_at(seen, package, name, k),
    ensures
        seen_in_spec(seen, package, name, i) is Some <==> is_seen(seen, package, name),
    decreases seen.len() - i,
{
    if i < seen.len() {
        if seen[i].package == package && seen[i].name == name {
            assert(seen_at(seen, package, name, i));
        } else {
            assert(!seen_at(seen, package, name, i));
            looked_up(seen, package, name, i + 1);
        }
    }
}

proof fn still_seen(seen: Seq<SeenFnV>, new: SeenFnV, package: Seq<Seq<char>>, name: Seq<char>)
    ensures
        is_seen(seen.push(new), package, name) <==> is_seen(seen, package, name) || (new.package == package && new.name == name),
{
    let more = seen.push(new);
    if is_seen(seen, package, name) {
        let k = choose|k: int| #[trigger] seen_at(seen, package, name, k);
        assert(seen_at(more, package, name, k));
    }
    if new.package == package && new.name == name {
        assert(seen_at(more, package, name, seen.len() as int));
    }
    if is_seen(more, package, name) {
        let k = choose|k: int| #[trigger] seen_at(more, package, name, k);
        if k < seen.len() {
            assert(seen_at(seen, package, name, k));
        }
    }
}

/// Whether no error was added, and then the functions of a module from the declaration at `i`
/// on are new, differ from each other, and are seen from then on.
spec fn are_new(m: ModuleV, i: int, seen: Seq<SeenFnV>, errors: Seq<DiagnosticV>, after: (Seq<SeenFnV>, Seq<DiagnosticV>)) -> bool {
    &&& after.1.len() >= errors.len()
    &&& after.1.len() == errors.len() ==> {
        &&& forall|p: Seq<Seq<char>>, n: Seq<char>| is_seen(seen, p, n) ==> #[trigger] is_seen(after.0, p, n)
        &&& forall|d: int| i <= d && (#[trigger] fn_at(m, d)) is Some ==> !is_seen(seen, m.package, fn_at(m, d).unwrap())
            && is_seen(after.0, m.package, fn_at(m, d).unwrap())
        &&& forall|d: int, e: int| i <= d < e && (#[trigger] fn_at(m, d)) is Some ==> #[trigger] fn_at(m, e) != fn_at(m, d)
    }
}

proof fn functions_are_new(m: ModuleV, i: int, seen: Seq<SeenFnV>, errors: Seq<DiagnosticV>)
    requires
        0 <= i,
    ensures
        are_new(m, i, seen, errors, clashes_spec(m, i, seen, errors)),
    decreases m.file.decls.len() - i,
{
    let after = clashes_spec(m, i, seen, errors);
    if i < m.file.decls.len() {
        let file = m.stem + ".hx"@;
        if is_sort_spec(m.file.decls[i], Sort::Export) {
            let more = errors.push(DiagnosticV { file, line: 0int, message: "@cexport extern \"C\" exports are not supported in --header-only mode (an exported symbol needs a .cpp/object file)"@ });
            functions_are_new(m, i + 1, seen, more);
        } else {
            match free_fn_name_spec(m.file.decls[i]) {
                Some(name) => {
                    assert(fn_at(m, i) == Some(name));
                    looked_up(seen, m.package, name, 0);
                    match seen_in_spec(seen, m.package, name, 0int) {
                        Some(prev) => {
                            let more = errors.push(DiagnosticV { file, line: 0int, message: "module-level function `"@ + name + "` clashes with one already defined in `"@ + prev + "`: in --header-only mode every module in a package shares one C++ namespace, so free-function names must be unique across the package"@ });
                            functions_are_new(m, i + 1, seen, more);
                        },
                        None => {
                            let new = SeenFnV { package: m.package, name, file };
                            let more = seen.push(new);
                            functions_are_new(m, i + 1, more, errors);
                            assert(after == clashes_spec(m, i + 1, more, errors));
                            if after.1.len() == errors.len() {
                                assert forall|p: Seq<Seq<char>>, n: Seq<char>| is_seen(seen, p, n) implies #[trigger] is_seen(after.0, p, n) by {
                                    still_seen(seen, new, p, n);
                                }
                                assert forall|d: int| i <= d && (#[trigger] fn_at(m, d)) is Some implies !is_seen(seen, m.package, fn_at(m, d).unwrap())
                                    && is_seen(after.0, m.package, fn_at(m, d).unwrap()) by {
                                    still_seen(seen, new, m.package, fn_at(m, d).unwrap());
                                }
                                assert forall|d: int, e: int| i <= d < e && (#[trigger] fn_at(m, d)) is Some implies #[trigger] fn_at(m, e) != fn_at(m, d) by {
                                    if d == i && fn_at(m, e) is Some {
                                        still_seen(seen, new, m.package, fn_at(m, e).unwrap());
                                    }
                                }
                            }
                        },
                    }
                },
                None => {
                    functions_are_new(m, i + 1, seen, errors);
                    assert(fn_at(m, i) is None);
                },
            }
        }
    } else {
        assert forall|d: int| i <= d implies (#[trigger] fn_at(m, d)) is None by {}
    }
}

/// Whether two places of a header, by module and declaration, define a function of the same
/// package and name.
pub open spec fn clash(prog: ProgramV, indices: Seq<int>, a: int, d: int, b: int, e: int) -> bool {
    &&& 0 <= a < indices.len() && 0 <= b < indices.len()
    &&& 0 <= indices[a] < prog.modules.len() && 0 <= indices[b] < prog.modules.len()
    &&& a < b || (a == b && d < e)
    &&& prog.modules[indices[a]].package == prog.modules[indices[b]].package
    &&& fn_at(prog.modules[indices[a]], d) is Some
    &&& fn_at(prog.modules[indices[a]], d) == fn_at(prog.modules[indices[b]], e)
}

proof fn modules_are_checked(prog: ProgramV, findings: Seq<FindingsV>, indices: Seq<int>, i: int, seen: Seq<SeenFnV>, plan: PlanV, a: int, d: int, b: int, e: int)
    requires
        0 <= i <= indices.len(),
        0 <= b < indices.len(),
        check_modules_spec(prog, findings, indices, i, seen, plan).errors.len() == 0,
    ensures
        plan.errors.len() == 0,
        i <= a ==> !clash(prog, indices, a, d, b, e),
        i <= b && 0 <= indices[b] < prog.modules.len() && fn_at(prog.modules[indices[b]], e) is Some
            ==> !is_seen(seen, prog.modules[indices[b]].package, fn_at(prog.modules[indices[b]], e).unwrap()),
    decreases indices.len() - i,
{
    reveal(module_at_spec);
    if i < indices.len() {
        let k: int = indices[i];
        match module_at_spec(prog, k) {
            Some(m) => {
                let told = if k < findings.len() {
                    law_errors_are_added(findings[k].errors, 0, plan.errors);
                    PlanV {
                        steps: warn_steps_spec(findings[k].deprecations, m.stem + ".hx"@, 0int, plan.steps),
                        errors: add_errors_spec(findings[k].errors, 0int, plan.errors),
                        ..plan
                    }
                } else {
                    plan
                };
                functions_are_new(m, 0, seen, told.errors);
                let (s, er) = clashes_spec(m, 0int, seen, told.errors);
                modules_are_checked(prog, findings, indices, i + 1, s, PlanV { errors: er, ..told }, a, d, b, e);
                assert(er.len() == 0);
                if i <= a && clash(prog, indices, a, d, b, e) {
                    let name = fn_at(prog.modules[indices[a]], d).unwrap();
                    assert(0 <= d && 0 <= e);
                    if a == i && b > i {
                        assert(is_seen(s, m.package, name));
                    }
                }
            },
            None => {
                modules_are_checked(prog, findings, indices, i + 1, seen, plan, a, d, b, e);
            },
        }
    }
}

/// No two functions of a single header have the same package and name: where two would, the
/// run fails.
pub proof fn law_single_header_has_no_clash(prog: ProgramV, cfg: ConfigV, findings: Seq<FindingsV>, stem: Seq<char>, plan: PlanV, a: int, d: int, b: int, e: int)
    requires
        clash(prog, amalgamated_spec(prog.modules, 0, Seq::empty()), a, d, b, e),
    ensures
        plan_single_spec(prog, cfg, findings, stem, plan).errors.len() > 0,
{
    reveal(plan_single_spec);
    let indices = amalgamated_spec(prog.modules, 0int, Seq::empty());
    let said = PlanV { steps: plan.steps.push(StepV::Info("Amalgamating "@ + (dec((indices.len() as int) as nat)) + " module(s) into "@ + (stem + ".h"@) + "."@)), ..plan };
    let out = check_modules_spec(prog, findings, indices, 0int, Seq::empty(), said);
    if out.errors.len() == 0 {
        modules_are_checked(prog, findings, indices, 0, Seq::empty(), said, a, d, b, e);
    }
}

} // verus!
