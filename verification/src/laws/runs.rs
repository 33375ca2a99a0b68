//! What holds of a whole run.

use vstd::prelude::*;

use crate::cli::ConfigV;
use crate::codegen::amalgam::generate_amalgamation_spec;
use crate::codegen::modfns::{Sort, is_sort_spec};
use crate::codegen::source::generate_source_diagnostics_spec;
use crate::driver::{add_errors_spec, advance_spec, amalgamated_spec, check_modules_spec, clashes_spec, count_transpiled_spec, file_errors_spec, first_prelude_code_spec, free_fn_name_spec, is_transpiled_spec, module_rel_spec, opening_spec, outcome_spec, plan_clean_module_spec, plan_module_spec, plan_modules_spec, plan_preludes_spec, plan_run_spec, plan_single_spec, report_line_spec, seen_in_spec, start_run_spec, warn_steps_spec, written_artifact_spec};
use crate::laws::{law_line_feeds, plain_feeds};
use crate::lexer::inc_spec;
use crate::prelude::prelude_body_spec;
use crate::program::{ModuleV, ProgramV};
use crate::report::{DiagnosticV, FindingsV, PlanV, RunV, SeenFnV, StepV};
use crate::resolve::module_at_spec;
use crate::text::dec;

verus! {

broadcast use {crate::program::group_program, crate::report::group_report, crate::text::group_texts};

/// A run fails just where there is an error.
pub proof fn law_run_fails_on_errors(errors: Seq<DiagnosticV>)
    ensures
        outcome_spec(errors) is Err <==> errors.len() > 0,
{
    reveal(outcome_spec);
}

/// Whether nothing is emitted from a step on.
pub open spec fn emits_nothing(steps: Seq<StepV>, from: int) -> bool {
    forall|k: int| from <= k < steps.len() ==> !(#[trigger] steps[k] is Emit)
}

proof fn warnings_emit_nothing(reports: Seq<(int, Seq<char>)>, file: Seq<char>, i: int, out: Seq<StepV>, from: int)
    requires
        0 <= i,
        0 <= from <= out.len(),
        emits_nothing(out, from),
    ensures
        emits_nothing(warn_steps_spec(reports, file, i, out), from),
        warn_steps_spec(reports, file, i, out).len() >= out.len(),
        warn_steps_spec(reports, file, i, out).subrange(0, out.len() as int) == out,
    decreases reports.len() - i,
{
    if i < reports.len() {
        let more = out.push(StepV::Warn(report_line_spec("warning"@, file, reports[i].0, reports[i].1)));
        warnings_emit_nothing(reports, file, i + 1, more, from);
        let r = warn_steps_spec(reports, file, i + 1, more);
        assert(r.subrange(0, out.len() as int) =~= r.subrange(0, more.len() as int).subrange(0, out.len() as int));
        assert(more.subrange(0, out.len() as int) =~= out);
    } else {
        assert(out.subrange(0, out.len() as int) =~= out);
    }
}

/// A module an error was found in is not generated: nothing is emitted for it, and its
/// errors are reported.
pub proof fn law_faulty_module_is_not_generated(prog: ProgramV, cfg: ConfigV, findings: Seq<FindingsV>, i: int, m: ModuleV, nth: int, total: int, plan: PlanV)
    requires
        0 <= i < findings.len(),
        findings[i].errors.len() > 0,
    ensures
        emits_nothing(plan_module_spec(prog, cfg, findings, i, m, nth, total, plan).steps, plan.steps.len() as int),
        plan_module_spec(prog, cfg, findings, i, m, nth, total, plan).dirs == plan.dirs,
        plan_module_spec(prog, cfg, findings, i, m, nth, total, plan).errors == add_errors_spec(findings[i].errors, 0, plan.errors),
{
    reveal(plan_module_spec);
    let said = plan.steps.push(StepV::Info("["@ + dec(nth as nat) + "/"@ + dec(total as nat) + "] "@ + module_rel_spec(m, "hx"@)));
    warnings_emit_nothing(findings[i].deprecations, m.stem + ".hx"@, 0, said, plan.steps.len() as int);
}

/// A body with an error keeps the whole module, header included, from being emitted.
pub proof fn law_faulty_body_is_not_emitted(prog: ProgramV, cfg: ConfigV, i: int, m: ModuleV, plan: PlanV)
    requires
        (match generate_source_diagnostics_spec(prog, i, cfg.extract_depth, cfg.no_traces) {
            Some(out) => out.2.len() > 0,
            None => false,
        }),
    ensures
        plan_clean_module_spec(prog, cfg, i, m, plan).steps == plan.steps,
        plan_clean_module_spec(prog, cfg, i, m, plan).dirs == plan.dirs,
{
    reveal(plan_clean_module_spec);
}

// ---- errors ----------------------------------------------------------------------------

/// Errors come behind those that are there already, in their order.
pub proof fn law_errors_are_added(more: Seq<DiagnosticV>, i: int, out: Seq<DiagnosticV>)
    requires
        0 <= i <= more.len(),
    ensures
        add_errors_spec(more, i, out) == out + more.skip(i),
    decreases more.len() - i,
{
    if i < more.len() {
        law_errors_are_added(more, i + 1, out.push(more[i]));
        assert(out.push(more[i]) + more.skip(i + 1) =~= out + more.skip(i));
    } else {
        assert(out + more.skip(i) =~= out);
    }
}

proof fn file_errors_are_added(reports: Seq<(int, Seq<char>)>, file: Seq<char>, i: int, out: Seq<DiagnosticV>)
    requires
        0 <= i <= reports.len(),
    ensures
        file_errors_spec(reports, file, i, out).len() == out.len() + reports.len() - i,
    decreases reports.len() - i,
{
    if i < reports.len() {
        file_errors_are_added(reports, file, i + 1, out.push(DiagnosticV { file, line: reports[i].0, message: reports[i].1 }));
    }
}

proof fn module_adds_errors(prog: ProgramV, cfg: ConfigV, findings: Seq<FindingsV>, i: int, m: ModuleV, nth: int, total: int, plan: PlanV)
    requires
        0 <= i,
    ensures
        plan_module_spec(prog, cfg, findings, i, m, nth, total, plan).errors.len() >= plan.errors.len()
            + (if i < findings.len() { findings[i].errors.len() as int } else { 0 }),
{
    reveal(plan_module_spec);
    reveal(plan_clean_module_spec);
    if i < findings.len() {
        law_errors_are_added(findings[i].errors, 0, plan.errors);
    }
    match generate_source_diagnostics_spec(prog, i, cfg.extract_depth, cfg.no_traces) {
        Some(out) => {
            file_errors_are_added(out.2, m.stem + ".hx"@, 0, plan.errors);
        },
        None => {},
    }
}

proof fn modules_add_errors(prog: ProgramV, cfg: ConfigV, findings: Seq<FindingsV>, total: int, i: int, done: int, plan: PlanV, k: int)
    requires
        0 <= i <= prog.modules.len(),
    ensures
        plan_modules_spec(prog, cfg, findings, total, i, done, plan).errors.len() >= plan.errors.len(),
        i <= k < prog.modules.len() && k < findings.len() && is_transpiled_spec(prog.modules[k]) && findings[k].errors.len() > 0
            ==> plan_modules_spec(prog, cfg, findings, total, i, done, plan).errors.len() > 0,
    decreases prog.modules.len() - i,
{
    if i < prog.modules.len() {
        if is_transpiled_spec(prog.modules[i]) {
            let nth = inc_spec(done);
            module_adds_errors(prog, cfg, findings, i, prog.modules[i], nth, total, plan);
            let next = plan_module_spec(prog, cfg, findings, i, prog.modules[i], nth, total, plan);
            modules_add_errors(prog, cfg, findings, total, i + 1, nth, next, k);
        } else {
            modules_add_errors(prog, cfg, findings, total, i + 1, done, plan, k);
        }
    }
}

proof fn clashes_add_errors(m: ModuleV, i: int, seen: Seq<SeenFnV>, errors: Seq<DiagnosticV>)
    requires
        0 <= i,
    ensures
        clashes_spec(m, i, seen, errors).1.len() >= errors.len(),
    decreases m.file.decls.len() - i,
{
    if i < m.file.decls.len() {
        let file = m.stem + ".hx"@;
        if is_sort_spec(m.file.decls[i], Sort::Export) {
            let more = errors.push(DiagnosticV { file, line: 0int, message: "@cexport extern \"C\" exports are not supported in --header-only mode (an exported symbol needs a .cpp/object file)"@ });
            clashes_add_errors(m, i + 1, seen, more);
        } else {
            match free_fn_name_spec(m.file.decls[i]) {
                Some(name) => {
                    match seen_in_spec(seen, m.package, name, 0int) {
                        Some(prev) => {
                            let more = errors.push(DiagnosticV { file, line: 0int, message: "module-level function `"@ + name + "` clashes with one already defined in `"@ + prev + "`: in --header-only mode every module in a package shares one C++ namespace, so free-function names must be unique across the package"@ });
                            clashes_add_errors(m, i + 1, seen, more);
                        },
                        None => {
                            clashes_add_errors(m, i + 1, seen.push(SeenFnV { package: m.package, name, file }), errors);
                        },
                    }
                },
                None => {
                    clashes_add_errors(m, i + 1, seen, errors);
                },
            }
        }
    }
}

proof fn checks_add_errors(prog: ProgramV, findings: Seq<FindingsV>, indices: Seq<int>, i: int, seen: Seq<SeenFnV>, plan: PlanV, n: int)
    requires
        0 <= i <= indices.len(),
        0 <= n < indices.len(),
    ensures
        check_modules_spec(prog, findings, indices, i, seen, plan).errors.len() >= plan.errors.len(),
        i <= n && 0 <= indices[n] < prog.modules.len() && indices[n] < findings.len() && findings[indices[n]].errors.len() > 0
            ==> check_modules_spec(prog, findings, indices, i, seen, plan).errors.len() > 0,
    decreases indices.len() - i,
{
    reveal(module_at_spec);
    if i < indices.len() {
        let k: int = indices[i];
        match module_at_spec(prog, k) {
            Some(m) => {
                let told = if k < findings.len() {
                    law_errors_are_added(findings[k].errors, 0, plan.errors);
                    PlanV {
                        steps: warn_steps_spec(findings[k].deprecations, m.stem + ".hx"@, 0int, plan.steps),
                        errors: add_errors_spec(findings[k].errors, 0int, plan.errors),
                        ..plan
                    }
                } else {
                    plan
                };
                clashes_add_errors(m, 0, seen, told.errors);
                let (s, e) = clashes_spec(m, 0int, seen, told.errors);
                checks_add_errors(prog, findings, indices, i + 1, s, PlanV { errors: e, ..told }, n);
            },
            None => {
                checks_add_errors(prog, findings, indices, i + 1, seen, plan, n);
            },
        }
    }
}

proof fn amalgamated_holds(modules: Seq<ModuleV>, i: int, out: Seq<int>, k: int)
    requires
        0 <= i <= modules.len(),
        i <= k < modules.len() || out.contains(k),
        i <= k ==> is_transpiled_spec(modules[k]) && modules[k].has_header,
    ensures
        amalgamated_spec(modules, i, out).contains(k),
    decreases modules.len() - i,
{
    if i < modules.len() {
        let more = if is_transpiled_spec(modules[i]) && modules[i].has_header { out.push(i) } else { out };
        if out.contains(k) {
            let at = choose|at: int| 0 <= at < out.len() && out[at] == k;
            assert(more[at] == k);
        } else if k == i {
            assert(more[out.len() as int] == k);
        }
        amalgamated_holds(modules, i + 1, more, k);
    }
}

/// A run fails where an error was found in a module that it generates.
pub proof fn law_found_error_fails_the_run(prog: ProgramV, cfg: ConfigV, findings: Seq<FindingsV>, k: int)
    requires
        0 <= k < prog.modules.len(),
        k < findings.len(),
        findings[k].errors.len() > 0,
        is_transpiled_spec(prog.modules[k]),
        cfg.header_only is Some ==> prog.modules[k].has_header,
    ensures
        outcome_spec(plan_run_spec(prog, cfg, findings).errors) is Err,
{
    reveal(plan_run_spec);
    reveal(outcome_spec);
    let start = PlanV { steps: opening_spec(cfg), errors: Seq::empty(), dirs: Seq::empty() };
    match cfg.header_only {
        Some(stem) => {
            reveal(plan_single_spec);
            let indices = amalgamated_spec(prog.modules, 0int, Seq::empty());
            amalgamated_holds(prog.modules, 0, Seq::empty(), k);
            let n = choose|n: int| 0 <= n < indices.len() && indices[n] == k;
            let said = PlanV { steps: start.steps.push(StepV::Info("Amalgamating "@ + (dec((indices.len() as int) as nat)) + " module(s) into "@ + (stem + ".h"@) + "."@)), ..start };
            checks_add_errors(prog, findings, indices, 0, Seq::empty(), said, n);
        },
        None => {
            let total: int = count_transpiled_spec(prog.modules, 0int, 0int);
            modules_add_errors(prog, cfg, findings, total, 0, 0, start, k);
        },
    }
}

// ---- the single header -----------------------------------------------------------------

proof fn checks_emit_nothing(prog: ProgramV, findings: Seq<FindingsV>, indices: Seq<int>, i: int, seen: Seq<SeenFnV>, plan: PlanV, n: int)
    requires
        0 <= i,
        0 <= n <= plan.steps.len(),
        emits_nothing(plan.steps, n),
    ensures
        emits_nothing(check_modules_spec(prog, findings, indices, i, seen, plan).steps, n),
        check_modules_spec(prog, findings, indices, i, seen, plan).steps.len() >= plan.steps.len(),
    decreases indices.len() - i,
{
    if i < indices.len() {
        let k: int = indices[i];
        match module_at_spec(prog, k) {
            Some(m) => {
                let told = if k < findings.len() {
                    warnings_emit_nothing(findings[k].deprecations, m.stem + ".hx"@, 0, plan.steps, n);
                    PlanV {
                        steps: warn_steps_spec(findings[k].deprecations, m.stem + ".hx"@, 0int, plan.steps),
                        errors: add_errors_spec(findings[k].errors, 0int, plan.errors),
                        ..plan
                    }
                } else {
                    plan
                };
                let (s, e) = clashes_spec(m, 0int, seen, told.errors);
                checks_emit_nothing(prog, findings, indices, i + 1, s, PlanV { errors: e, ..told }, n);
            },
            None => {
                checks_emit_nothing(prog, findings, indices, i + 1, seen, plan, n);
            },
        }
    }
}

/// A single header is written whole or not at all: with an error nothing is written, without
/// one the header is, and no other file.
pub proof fn law_single_header_is_all_or_nothing(prog: ProgramV, cfg: ConfigV, findings: Seq<FindingsV>, stem: Seq<char>, plan: PlanV)
    ensures
        ({
            let out = plan_single_spec(prog, cfg, findings, stem, plan);
            let n = plan.steps.len() as int;
            if out.errors.len() > 0 {
                emits_nothing(out.steps, n)
            } else {
                exists|k: int| n <= k < out.steps.len() && only_file(out.steps, n, stem + ".h"@, k)
            }
        }),
{
    reveal(plan_single_spec);
    let n = plan.steps.len() as int;
    let indices = amalgamated_spec(prog.modules, 0int, Seq::empty());
    let label = stem + ".h"@;
    let said = PlanV { steps: plan.steps.push(StepV::Info("Amalgamating "@ + (dec((indices.len() as int) as nat)) + " module(s) into "@ + label + "."@)), ..plan };
    checks_emit_nothing(prog, findings, indices, 0, Seq::empty(), said, n);
    let out = check_modules_spec(prog, findings, indices, 0int, Seq::empty(), said);
    if out.errors.len() == 0 {
        let prelude = prelude_body_spec(first_prelude_code_spec(prog.modules, 0int), cfg.export_macro);
        let (text, warnings, errors) = generate_amalgamation_spec(prog, stem, indices, prelude);
        if errors.len() > 0 {
            file_errors_are_added(errors, label, 0, out.errors);
        } else {
            let k = out.steps.len() as int;
            let emitted = out.steps.push(StepV::Emit { dir: Seq::empty(), file: label, text });
            warnings_emit_nothing(warnings, label, 0, emitted, k + 1);
            let all = warn_steps_spec(warnings, label, 0int, emitted);
            assert(all.subrange(0, emitted.len() as int) == emitted);
            assert(all[k] == emitted[k]);
            assert forall|j: int| n <= j < all.len() && j != k implies !((#[trigger] all[j]) is Emit) by {
                if j < k {
                    assert(all[j] == emitted[j]);
                    assert(emitted[j] == out.steps[j]);
                }
            }
            assert(plan_single_spec(prog, cfg, findings, stem, plan).steps == all);
            assert(only_file(all, n, label, k));
        }
    }
}

/// Whether the step at `k` writes the file, and no other step from `n` on writes one.
pub open spec fn only_file(steps: Seq<StepV>, n: int, file: Seq<char>, k: int) -> bool {
    &&& 0 <= k < steps.len()
    &&& steps[k] matches StepV::Emit { file: f, .. } && f == file
    &&& forall|j: int| n <= j < steps.len() && j != k ==> !((#[trigger] steps[j]) is Emit)
}

// ---- written files ---------------------------------------------------------------------

/// A file that exists is replaced only by force, and what is written has plain line feeds.
pub proof fn law_written_file(path: Seq<char>, banner: Seq<char>, text: Seq<char>, exists_: bool, force: bool)
    ensures
        written_artifact_spec(path, banner, text, exists_, force) is Err <==> exists_ && !force,
        written_artifact_spec(path, banner, text, exists_, force) matches Ok(out) ==> plain_feeds(out),
{
    reveal(written_artifact_spec);
    law_line_feeds(banner + text);
}

/// The plan of a run that is advanced until it is over.
pub open spec fn run_on(prog: ProgramV, cfg: ConfigV, findings: Seq<FindingsV>, run: RunV) -> PlanV
    decreases (if run.over { 0int } else { 1 }), prog.modules.len() - run.at, (if run.announced { 0int } else { 1 }),
{
    if run.over {
        run.plan
    } else {
        run_on(prog, cfg, findings, advance_spec(prog, cfg, findings, run))
    }
}

/// What advancing makes of the modules that are left.
proof fn run_on_modules(prog: ProgramV, cfg: ConfigV, findings: Seq<FindingsV>, run: RunV)
    requires
        cfg.header_only is None,
        !run.over,
        !run.announced,
        0 <= run.at <= prog.modules.len(),
    ensures
        run_on(prog, cfg, findings, run) == ({
            let total = count_transpiled_spec(prog.modules, 0int, 0int);
            plan_preludes_spec(prog, cfg, plan_modules_spec(prog, cfg, findings, total, run.at, run.done, run.plan))
        }),
    decreases prog.modules.len() - run.at,
{
    let next = advance_spec(prog, cfg, findings, run);
    if run.at >= prog.modules.len() {
        assert(next.over);
        assert(run_on(prog, cfg, findings, next) == next.plan);
    } else if is_transpiled_spec(prog.modules[run.at]) {
        reveal(plan_module_spec);
        let after = advance_spec(prog, cfg, findings, next);
        assert(!after.over && !after.announced && after.at == run.at + 1);
        assert(run_on(prog, cfg, findings, next) == run_on(prog, cfg, findings, after));
        run_on_modules(prog, cfg, findings, after);
    } else {
        run_on_modules(prog, cfg, findings, next);
    }
}

/// A run that is advanced to its end, each module announced before it is generated, does what
/// was planned for the whole of it.
pub proof fn law_advancing_carries_out_the_plan(prog: ProgramV, cfg: ConfigV, findings: Seq<FindingsV>)
    ensures
        run_on(prog, cfg, findings, start_run_spec(cfg)) == plan_run_spec(prog, cfg, findings),
{
    reveal(plan_run_spec);
    let start = start_run_spec(cfg);
    match cfg.header_only {
        Some(stem) => {
            reveal(plan_single_spec);
            let said = advance_spec(prog, cfg, findings, start);
            let made = advance_spec(prog, cfg, findings, said);
            assert(made.over);
            assert(run_on(prog, cfg, findings, made) == made.plan);
            assert(run_on(prog, cfg, findings, said) == made.plan);
        },
        None => {
            run_on_modules(prog, cfg, findings, start);
        },
    }
}

} // verus!
