//! What a command line asks for.

use vstd::prelude::*;

use crate::cli::{ArgsV, ConfigV, OutputMode, glob_at_spec, header_only_stem_spec, name_or_spec, output_mode_spec, resolve_config_spec};
use crate::codegen::header::{HeaderOptsV, generate_header_with_spec};
use crate::codegen::source::generate_source_diagnostics_spec;
use crate::driver::{file_errors_spec, is_transpiled_spec, plan_clean_module_spec, report_line_spec};
use crate::parser::pp::trim_spec;
use crate::prelude::header_code_of_spec;
use crate::program::{ModuleV, ProgramV, SourceFileV};
use crate::report::{DiagnosticV, PlanV, StepV};
use crate::text::dec;

verus! {

broadcast use {crate::program::group_program, crate::report::group_report, crate::text::group_texts};

/// A dry run comes first, then printing; otherwise files are written.
pub proof fn law_output_mode(args: ArgsV)
    ensures
        args.dry_run ==> output_mode_spec(args) == OutputMode::DryRun,
        !args.dry_run && args.stdout ==> output_mode_spec(args) == OutputMode::Stdout,
        !args.dry_run && !args.stdout ==> output_mode_spec(args) == OutputMode::Files,
{
}

/// A name that is left blank is the usual one; any other is taken without the blanks around it.
pub proof fn law_names_by_default(name: Seq<char>, usual: Seq<char>)
    ensures
        trim_spec(name).len() == 0 ==> name_or_spec(name, usual) == usual,
        trim_spec(name).len() > 0 ==> name_or_spec(name, usual) == trim_spec(name),
{
}

/// A run does what its options say: an accepted request carries each of them over.
pub proof fn law_options_are_kept(args: ArgsV, found: Seq<SourceFileV>, included: Seq<Seq<char>>, out_dir: Seq<char>)
    ensures
        resolve_config_spec(args, found, included, out_dir) matches Ok(c) ==> {
            &&& c.mode == output_mode_spec(args)
            &&& c.force == args.force
            &&& c.no_traces == args.no_traces
            &&& c.extract_depth == if args.depth < 1 { 1 } else { args.depth }
            &&& c.out_dir == if c.mode == OutputMode::Files { out_dir } else { Seq::empty() }
            &&& c.stdafx_stem == name_or_spec(args.stdafx, "StdAfx"@)
            &&& c.export_macro == name_or_spec(args.export_macro, "HATCHET"@)
            &&& c.header_only == header_only_stem_spec(args.header_only)
        },
{
    reveal(resolve_config_spec);
}

/// A character of a pattern that is no wildcard stands for itself, and `?` for any character
/// but a separator. A pattern that is at its end fits nothing more.
pub proof fn law_pattern_characters(pat: Seq<char>, path: Seq<char>, i: int, j: int)
    requires
        0 <= i <= pat.len(),
        0 <= j <= path.len(),
    ensures
        i == pat.len() ==> (glob_at_spec(pat, path, i, j) <==> j == path.len()),
        i < pat.len() && pat[i] != '*' && pat[i] != '?' ==> (glob_at_spec(pat, path, i, j) <==> j < path.len() && path[j] == pat[i] && glob_at_spec(
            pat,
            path,
            i + 1,
            j + 1,
        )),
        i < pat.len() && pat[i] == '?' ==> (glob_at_spec(pat, path, i, j) <==> j < path.len() && path[j] != '/' && glob_at_spec(
            pat,
            path,
            i + 1,
            j + 1,
        )),
{
    reveal(glob_at_spec);
}

/// A `*` stands for any run of characters within one part of a path.
pub proof fn law_star_in_patterns(pat: Seq<char>, path: Seq<char>, i: int, j: int)
    requires
        0 <= i < pat.len(),
        pat[i] == '*',
        i + 1 < pat.len() ==> pat[i + 1] != '*',
        0 <= j <= path.len(),
    ensures
        glob_at_spec(pat, path, i, j) <==> exists|k: int|
            j <= k <= path.len() && (forall|x: int| j <= x < k ==> path[x] != '/') && #[trigger] glob_at_spec(pat, path, i + 1, k),
    decreases path.len() - j,
{
    reveal(glob_at_spec);
    if glob_at_spec(pat, path, i + 1, j) {
    } else if j < path.len() {
        law_star_in_patterns(pat, path, i, j + 1);
        if glob_at_spec(pat, path, i, j) {
            let k = choose|k: int|
                j + 1 <= k <= path.len() && (forall|x: int| j + 1 <= x < k ==> path[x] != '/') && #[trigger] glob_at_spec(pat, path, i + 1, k);
            assert(forall|x: int| j <= x < k ==> path[x] != '/');
        }
        if exists|k: int| j <= k <= path.len() && (forall|x: int| j <= x < k ==> path[x] != '/') && #[trigger] glob_at_spec(pat, path, i + 1, k) {
            let k = choose|k: int|
                j <= k <= path.len() && (forall|x: int| j <= x < k ==> path[x] != '/') && #[trigger] glob_at_spec(pat, path, i + 1, k);
            assert(k > j);
            assert(path[j] != '/');
            assert(forall|x: int| j + 1 <= x < k ==> path[x] != '/');
        }
    }
}

/// Where a pattern goes on behind a `**` and the separator that may follow it.
pub open spec fn past_double_star(pat: Seq<char>, i: int) -> int {
    if i + 2 < pat.len() && pat[i + 2] == '/' {
        i + 3
    } else {
        i + 2
    }
}

/// A `**` stands for any run of characters, over parts of a path too, and takes the separator
/// behind it along.
pub proof fn law_double_star_in_patterns(pat: Seq<char>, path: Seq<char>, i: int, j: int)
    requires
        0 <= i,
        i + 1 < pat.len(),
        pat[i] == '*' && pat[i + 1] == '*',
        0 <= j <= path.len(),
    ensures
        glob_at_spec(pat, path, i, j) <==> exists|k: int| j <= k <= path.len() && #[trigger] glob_at_spec(pat, path, past_double_star(pat, i), k),
    decreases path.len() - j,
{
    reveal(glob_at_spec);
    let n: int = past_double_star(pat, i);
    assert(glob_at_spec(pat, path, i, j) == (glob_at_spec(pat, path, n, j) || (j < path.len() && glob_at_spec(pat, path, i, j + 1))));
    if j < path.len() {
        law_double_star_in_patterns(pat, path, i, j + 1);
        if glob_at_spec(pat, path, i, j + 1) {
            let k = choose|k: int| j + 1 <= k <= path.len() && #[trigger] glob_at_spec(pat, path, n, k);
            assert(j <= k <= path.len() && glob_at_spec(pat, path, n, k));
        }
    }
    if exists|k: int| j <= k <= path.len() && #[trigger] glob_at_spec(pat, path, n, k) {
        let k = choose|k: int| j <= k <= path.len() && #[trigger] glob_at_spec(pat, path, n, k);
        if k > j {
            assert(j + 1 <= k <= path.len() && glob_at_spec(pat, path, n, k));
        }
    }
}

/// A report names its kind, the file, the line where there is one, and what is wrong.
pub proof fn law_report_line(kind: Seq<char>, file: Seq<char>, line: int, msg: Seq<char>)
    ensures
        line > 0 ==> report_line_spec(kind, file, line, msg) == kind + ": "@ + file + ":"@ + dec(line as nat) + ": "@ + msg,
        line <= 0 ==> report_line_spec(kind, file, line, msg) == kind + ": "@ + file + ": "@ + msg,
{
}

/// `Main`, the prelude and what is only resolved against are not transpiled; all else is.
pub proof fn law_transpiled_modules(m: ModuleV)
    ensures
        is_transpiled_spec(m) <==> m.stem != "Main"@ && !m.is_stdafx && !m.is_include,
{
}

/// A module without errors has its header in the file of its name with `.h`, and then its
/// source in the one with `.cpp`, in the directory it stands in.
pub proof fn law_generated_files(prog: ProgramV, cfg: ConfigV, i: int, m: ModuleV, plan: PlanV)
    ensures
        ({
            let opts = HeaderOptsV { inline_prelude: None, inline_bodies: false, header_code: header_code_of_spec(m.file), guard_stem: None };
            let source = generate_source_diagnostics_spec(prog, i, cfg.extract_depth, cfg.no_traces);
            let header = generate_header_with_spec(prog, i, opts);
            let r = plan_clean_module_spec(prog, cfg, i, m, plan);
            &&& header matches Some(h) ==> (source is None ==> r.steps == plan.steps.push(
                StepV::Emit { dir: m.dir, file: m.stem + ".h"@, text: h.0 },
            ))
            &&& source matches Some(s) ==> (s.2.len() == 0 && s.1.len() == 0 ==> (header matches Some(h) ==> r.steps == plan.steps.push(
                StepV::Emit { dir: m.dir, file: m.stem + ".h"@, text: h.0 },
            ).push(StepV::Emit { dir: m.dir, file: m.stem + ".cpp"@, text: s.0 })))
            &&& source matches Some(s) ==> (s.2.len() > 0 ==> r.steps == plan.steps && r.errors.len() >= plan.errors.len())
        }),
{
    reveal(plan_clean_module_spec);
    let source = generate_source_diagnostics_spec(prog, i, cfg.extract_depth, cfg.no_traces);
    match source {
        Some((_, _, errors)) => {
            errors_grow(errors, m.stem + ".hx"@, 0, plan.errors);
        },
        None => {},
    }
}

proof fn errors_grow(reports: Seq<(int, Seq<char>)>, file: Seq<char>, i: int, out: Seq<DiagnosticV>)
    ensures
        file_errors_spec(reports, file, i, out).len() >= out.len(),
    decreases reports.len() - i,
{
    if 0 <= i < reports.len() {
        errors_grow(reports, file, i + 1, out.push(DiagnosticV { file, line: reports[i].0, message: reports[i].1 }));
    }
}

} // verus!
