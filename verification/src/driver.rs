//! A run: which files are emitted, what is said, and how it ends.

use vstd::prelude::*;

use crate::assemble::{dir_prefix, dir_prefix_spec};
use crate::ast::Decl;
use crate::cli::{Config, ConfigV, OutputMode};
use crate::codegen::amalgam::{generate_amalgamation, generate_amalgamation_spec};
use crate::codegen::header::{HeaderOpts, HeaderOptsV, generate_header_with, generate_header_with_spec};
use crate::codegen::modfns::{Sort, is_plain_fn, is_plain_fn_spec, is_sort, is_sort_spec};
use crate::codegen::scan::{with_name, with_name_spec};
use crate::codegen::source::{generate_source_diagnostics, generate_source_diagnostics_spec, is_free_fn_global, is_free_fn_global_spec};
use crate::codegen::stmt::{line_feeds, line_feeds_spec};
use crate::codegen::ty_copy::dup_opt_text;
use crate::lexer::{inc, inc_spec};
use crate::model::DeclV;
use crate::prelude::{content_for, content_for_spec, header_code_of, header_code_of_spec, prelude_body, prelude_body_spec};
use crate::program::{Module, ModuleV, Program, ProgramV, modules_v, usize_texts_v, usizes_v};
use crate::report::{Diagnostic, DiagnosticV, Findings, FindingsV, HeaderDir, HeaderDirV, Plan, PlanV, Run, RunV, SeenFn, SeenFnV, Step, StepV, diagnostics_v, findingss_v, header_dirs_v, seen_fns_v, steps_v};
use crate::resolve::{module_at, module_at_spec, same_path, same_path_spec};
use crate::strings::ends_with;
use crate::text::{cat2, cat3, cat4, cat5, cat6, cat7, chars_of, dec, dec_text, dup_texts, same, texts};

verus! {

broadcast use {crate::model::group_model, crate::program::group_program, crate::report::group_report, crate::text::group_texts};

/// A report as it is printed.
pub fn report_line(kind: &str, file: &str, line: usize, msg: &str) -> (r: String)
    ensures
        r@ == report_line_spec(kind@, file@, (line as int), msg@),
{
    if line > 0 {
        cat7(kind, ": ", file, ":", &dec_text(line), ": ", msg)
    } else {
        cat5(kind, ": ", file, ": ", msg)
    }
}

/// The file of a module with another extension, from the root of the tree.
pub fn module_rel(m: &Module, ext: &str) -> (r: String)
    ensures
        r@ == module_rel_spec(m.v(), ext@),
{
    cat4(&dir_prefix(&m.dir), &m.stem, ".", ext)
}

/// Whether a module is transpiled: it is neither the entry point, the prelude, nor only
/// resolved against.
pub fn is_transpiled(m: &Module) -> (r: bool)
    ensures
        r == is_transpiled_spec(m.v()),
{
    !same(&m.stem, "Main") && !m.is_stdafx && !m.is_include
}

/// How many of the modules from `i` on are transpiled.
pub fn count_transpiled(modules: &Vec<Module>, i: usize, n: usize) -> (r: usize)
    ensures
        (r as int) == count_transpiled_spec(modules_v(modules@), (i as int), (n as int)),
{
    let ghost i_0 = i;
    let ghost n_0 = n;
    let mut i: usize = i;
    let mut n: usize = n;
    #[verifier::loop_isolation(false)]
    loop
        invariant
            count_transpiled_spec(modules_v(modules@), (i_0 as int), (n_0 as int)) == count_transpiled_spec(modules_v(modules@), (i as int), (n as int)),
        decreases modules.len() - i,
    {
        if i >= modules.len() {
            return n;
        }
        if is_transpiled(&modules[i]) {
            n = inc(n);
        }
        i = i + 1;
    }
}

/// The warnings from `i` on, as steps.
pub fn warn_steps(reports: &Vec<(usize, String)>, file: &str, i: usize, out: Vec<Step>) -> (r: Vec<Step>)
    ensures
        steps_v(r@) == warn_steps_spec(usize_texts_v(reports@), file@, (i as int), steps_v(out@)),
{
    let ghost i_0 = i;
    let ghost out_0 = out;
    let mut i: usize = i;
    let mut out: Vec<Step> = out;
    #[verifier::loop_isolation(false)]
    loop
        invariant
            warn_steps_spec(usize_texts_v(reports@), file@, (i_0 as int), steps_v(out_0@)) == warn_steps_spec(usize_texts_v(reports@), file@, (i as int), steps_v(out@)),
        decreases reports.len() - i,
    {
        if i >= reports.len() {
            return out;
        }
        out.push(Step::Warn(report_line("warning", file, reports[i].0, &reports[i].1)));
        i = i + 1;
    }
}

/// The errors from `i` on, as those of a file.
pub fn file_errors(reports: &Vec<(usize, String)>, file: &str, i: usize, out: Vec<Diagnostic>) -> (r: Vec<Diagnostic>)
    ensures
        diagnostics_v(r@) == file_errors_spec(usize_texts_v(reports@), file@, (i as int), diagnostics_v(out@)),
{
    let ghost i_0 = i;
    let ghost out_0 = out;
    let mut i: usize = i;
    let mut out: Vec<Diagnostic> = out;
    #[verifier::loop_isolation(false)]
    loop
        invariant
            file_errors_spec(usize_texts_v(reports@), file@, (i_0 as int), diagnostics_v(out_0@)) == file_errors_spec(usize_texts_v(reports@), file@, (i as int), diagnostics_v(out@)),
        decreases reports.len() - i,
    {
        if i >= reports.len() {
            return out;
        }
        out.push(Diagnostic { file: file.to_owned(), line: reports[i].0, message: reports[i].1.clone() });
        i = i + 1;
    }
}

/// Errors, and those of `more` from `i` on.
pub fn add_errors(more: &Vec<Diagnostic>, i: usize, out: Vec<Diagnostic>) -> (r: Vec<Diagnostic>)
    ensures
        diagnostics_v(r@) == add_errors_spec(diagnostics_v(more@), (i as int), diagnostics_v(out@)),
{
    let ghost i_0 = i;
    let ghost out_0 = out;
    let mut i: usize = i;
    let mut out: Vec<Diagnostic> = out;
    #[verifier::loop_isolation(false)]
    loop
        invariant
            add_errors_spec(diagnostics_v(more@), (i_0 as int), diagnostics_v(out_0@)) == add_errors_spec(diagnostics_v(more@), (i as int), diagnostics_v(out@)),
        decreases more.len() - i,
    {
        if i >= more.len() {
            return out;
        }
        out.push(Diagnostic { file: more[i].file.clone(), line: more[i].line, message: more[i].message.clone() });
        i = i + 1;
    }
}

// ---- directories ---------------------------------------------------------

/// Whether a text comes before another, character by character from `i` on.
pub fn chars_before(a: &Vec<char>, b: &Vec<char>, i: usize) -> (r: bool)
    ensures
        r == chars_before_spec(a@, b@, (i as int)),
{
    let ghost i_0 = i;
    let mut i: usize = i;
    #[verifier::loop_isolation(false)]
    loop
        invariant
            chars_before_spec(a@, b@, (i_0 as int)) == chars_before_spec(a@, b@, (i as int)),
        decreases a.len() - i,
    {
        if i >= a.len() {
            return i < b.len();
        }
        if i >= b.len() {
            return false;
        }
        if a[i] != b[i] {
            return a[i] < b[i];
        }
        i = i + 1;
    }
}

/// Whether a text comes before another.
pub fn text_before(a: &str, b: &str) -> (r: bool)
    ensures
        r == text_before_spec(a@, b@),
{
    chars_before(&chars_of(a), &chars_of(b), 0)
}

/// Whether a directory comes before another, part by part from `i` on.
pub fn dir_before(a: &Vec<String>, b: &Vec<String>, i: usize) -> (r: bool)
    ensures
        r == dir_before_spec(texts(a@), texts(b@), (i as int)),
{
    let ghost i_0 = i;
    let mut i: usize = i;
    #[verifier::loop_isolation(false)]
    loop
        invariant
            dir_before_spec(texts(a@), texts(b@), (i_0 as int)) == dir_before_spec(texts(a@), texts(b@), (i as int)),
        decreases a.len() - i,
    {
        if i >= a.len() {
            return i < b.len();
        }
        if i >= b.len() {
            return false;
        }
        if !same(&a[i], &b[i]) {
            return text_before(&a[i], &b[i]);
        }
        i = i + 1;
    }
}

/// The directories from `i` on, added to `out`.
pub fn rest_dirs(dirs: &Vec<HeaderDir>, i: usize, out: Vec<HeaderDir>) -> (r: Vec<HeaderDir>)
    ensures
        header_dirs_v(r@) == rest_dirs_spec(header_dirs_v(dirs@), (i as int), header_dirs_v(out@)),
{
    let ghost i_0 = i;
    let ghost out_0 = out;
    let mut i: usize = i;
    let mut out: Vec<HeaderDir> = out;
    #[verifier::loop_isolation(false)]
    loop
        invariant
            rest_dirs_spec(header_dirs_v(dirs@), (i_0 as int), header_dirs_v(out_0@)) == rest_dirs_spec(header_dirs_v(dirs@), (i as int), header_dirs_v(out@)),
        decreases dirs.len() - i,
    {
        if i >= dirs.len() {
            return out;
        }
        out.push(HeaderDir { dir: dup_texts(&dirs[i].dir), package: dup_texts(&dirs[i].package) });
        i = i + 1;
    }
}

/// The directories with one more in its place; one that is there already gets the package.
pub fn insert_dir(dirs: &Vec<HeaderDir>, dir: &Vec<String>, package: &Vec<String>, i: usize, out: Vec<HeaderDir>) -> (r: Vec<HeaderDir>)
    ensures
        header_dirs_v(r@) == insert_dir_spec(header_dirs_v(dirs@), texts(dir@), texts(package@), (i as int), header_dirs_v(out@)),
{
    let ghost i_0 = i;
    let ghost out_0 = out;
    let mut i: usize = i;
    let mut out: Vec<HeaderDir> = out;
    #[verifier::loop_isolation(false)]
    loop
        invariant
            insert_dir_spec(header_dirs_v(dirs@), texts(dir@), texts(package@), (i_0 as int), header_dirs_v(out_0@)) == insert_dir_spec(header_dirs_v(dirs@), texts(dir@), texts(package@), (i as int), header_dirs_v(out@)),
        decreases dirs.len() - i,
    {
        if i >= dirs.len() {
            out.push(HeaderDir { dir: dup_texts(dir), package: dup_texts(package) });
            return out;
        }
        if same_path(&dirs[i].dir, dir) {
            out.push(HeaderDir { dir: dup_texts(dir), package: dup_texts(package) });
            return rest_dirs(dirs, i + 1, out);
        }
        if dir_before(dir, &dirs[i].dir, 0) {
            out.push(HeaderDir { dir: dup_texts(dir), package: dup_texts(package) });
            return rest_dirs(dirs, i, out);
        }
        out.push(HeaderDir { dir: dup_texts(&dirs[i].dir), package: dup_texts(&dirs[i].package) });
        i = i + 1;
    }
}

// ---- one module after the other ------------------------------------------

/// What is done for a module that an analysis found nothing wrong with: nothing where a body
/// has an error, else its header and its source.
pub fn plan_clean_module(prog: &Program, cfg: &Config, i: usize, m: &Module, plan: Plan) -> (r: Plan)
    ensures
        r.v() == plan_clean_module_spec(prog.v(), cfg.v(), (i as int), m.v(), plan.v()),
{
    proof {
        reveal(plan_clean_module_spec);
    }
    let mut out = plan;
    let file = cat2(&m.stem, ".hx");
    let source = generate_source_diagnostics(prog, i, cfg.extract_depth, cfg.no_traces);
    match &source {
        Some((_, _, errors)) => {
            if errors.len() > 0 {
                out.errors = file_errors(errors, &file, 0, out.errors);
                return out;
            }
        },
        None => {},
    }
    let opts = HeaderOpts { inline_prelude: None, inline_bodies: false, header_code: header_code_of(&m.file), guard_stem: None };
    match generate_header_with(prog, i, &opts) {
        Some((text, _, _)) => {
            out.steps.push(Step::Emit { dir: dup_texts(&m.dir), file: cat2(&m.stem, ".h"), text });
            out.dirs = insert_dir(&out.dirs, &m.dir, &m.package, 0, Vec::new());
        },
        None => {},
    }
    match source {
        Some((text, warnings, _)) => {
            out.steps.push(Step::Emit { dir: dup_texts(&m.dir), file: cat2(&m.stem, ".cpp"), text });
            out.steps = warn_steps(&warnings, &file, 0, out.steps);
        },
        None => {},
    }
    out
}

/// A module is announced.
pub fn announce_module(m: &Module, at_: usize, total: usize, plan: Plan) -> (r: Plan)
    ensures
        r.v() == announce_module_spec(m.v(), (at_ as int), (total as int), plan.v()),
{
    let mut out = plan;
    out.steps.push(Step::Info(cat6("[", &dec_text(at_), "/", &dec_text(total), "] ", &module_rel(m, "hx"))));
    out
}

/// What is done for a module that was announced: what was found is reported, and it is
/// generated where no error was found.
pub fn plan_announced(prog: &Program, cfg: &Config, findings: &Vec<Findings>, i: usize, m: &Module, plan: Plan) -> (r: Plan)
    ensures
        r.v() == plan_announced_spec(prog.v(), cfg.v(), findingss_v(findings@), (i as int), m.v(), plan.v()),
{
    let mut out = plan;
    if i < findings.len() {
        out.steps = warn_steps(&findings[i].deprecations, &cat2(&m.stem, ".hx"), 0, out.steps);
        if findings[i].errors.len() > 0 {
            out.errors = add_errors(&findings[i].errors, 0, out.errors);
            return out;
        }
    }
    plan_clean_module(prog, cfg, i, m, out)
}

/// What is done for a module: it is announced, what was found is reported, and it is
/// generated where no error was found.
pub fn plan_module(prog: &Program, cfg: &Config, findings: &Vec<Findings>, i: usize, m: &Module, at_: usize, total: usize, plan: Plan) -> (r: Plan)
    ensures
        r.v() == plan_module_spec(prog.v(), cfg.v(), findingss_v(findings@), (i as int), m.v(), (at_ as int), (total as int), plan.v()),
{
    proof {
        reveal(plan_module_spec);
    }
    plan_announced(prog, cfg, findings, i, m, announce_module(m, at_, total, plan))
}

/// What is done for the modules from `i` on.
pub fn plan_modules(prog: &Program, cfg: &Config, findings: &Vec<Findings>, total: usize, i: usize, done: usize, plan: Plan) -> (r: Plan)
    ensures
        r.v() == plan_modules_spec(prog.v(), cfg.v(), findingss_v(findings@), (total as int), (i as int), (done as int), plan.v()),
{
    let ghost i_0 = i;
    let ghost done_0 = done;
    let ghost plan_0 = plan;
    let mut i: usize = i;
    let mut done: usize = done;
    let mut plan: Plan = plan;
    #[verifier::loop_isolation(false)]
    loop
        invariant
            plan_modules_spec(prog.v(), cfg.v(), findingss_v(findings@), (total as int), (i_0 as int), (done_0 as int), plan_0.v()) == plan_modules_spec(prog.v(), cfg.v(), findingss_v(findings@), (total as int), (i as int), (done as int), plan.v()),
        decreases prog.modules.len() - i,
    {
        if i >= prog.modules.len() {
            return plan;
        }
        if is_transpiled(&prog.modules[i]) {
            done = inc(done);
            plan = plan_module(prog, cfg, findings, i, &prog.modules[i], done, total, plan);
        }
        i = i + 1;
    }
}

/// The code that the prelude of a directory adds: that of the last module from `i` on that
/// supplies it.
pub fn prelude_code(modules: &Vec<Module>, dir: &Vec<String>, i: usize, found: Option<String>) -> (r: Option<String>)
    ensures
        (match r { Some(y) => Some(y@), None => None }) == prelude_code_spec(modules_v(modules@), texts(dir@), (i as int), (match found { Some(y) => Some(y@), None => None })),
{
    let ghost i_0 = i;
    let ghost found_0 = found;
    let mut i: usize = i;
    let mut found: Option<String> = found;
    #[verifier::loop_isolation(false)]
    loop
        invariant
            prelude_code_spec(modules_v(modules@), texts(dir@), (i_0 as int), (match found_0 { Some(y) => Some(y@), None => None })) == prelude_code_spec(modules_v(modules@), texts(dir@), (i as int), (match found { Some(y) => Some(y@), None => None })),
        decreases modules.len() - i,
    {
        if i >= modules.len() {
            return found;
        }
        if modules[i].is_stdafx && same_path(&modules[i].dir, dir) {
            found = header_code_of(&modules[i].file);
        }
        i = i + 1;
    }
}

/// A prelude for each directory from `i` on.
pub fn prelude_steps(prog: &Program, cfg: &Config, dirs: &Vec<HeaderDir>, i: usize, out: Vec<Step>) -> (r: Vec<Step>)
    ensures
        steps_v(r@) == prelude_steps_spec(prog.v(), cfg.v(), header_dirs_v(dirs@), (i as int), steps_v(out@)),
{
    let ghost i_0 = i;
    let ghost out_0 = out;
    let mut i: usize = i;
    let mut out: Vec<Step> = out;
    #[verifier::loop_isolation(false)]
    loop
        invariant
            prelude_steps_spec(prog.v(), cfg.v(), header_dirs_v(dirs@), (i_0 as int), steps_v(out_0@)) == prelude_steps_spec(prog.v(), cfg.v(), header_dirs_v(dirs@), (i as int), steps_v(out@)),
        decreases dirs.len() - i,
    {
        if i >= dirs.len() {
            return out;
        }
        let code = prelude_code(&prog.modules, &dirs[i].dir, 0, None);
        let text = content_for(&cfg.stdafx_stem, &code, &dirs[i].package, &cfg.export_macro);
        out.push(Step::Emit { dir: dup_texts(&dirs[i].dir), file: cat2(&cfg.stdafx_stem, ".h"), text });
        i = i + 1;
    }
}

/// The preludes of the directories that hold a generated header.
pub fn plan_preludes(prog: &Program, cfg: &Config, plan: Plan) -> (r: Plan)
    ensures
        r.v() == plan_preludes_spec(prog.v(), cfg.v(), plan.v()),
{
    let mut out = plan;
    out.steps = prelude_steps(prog, cfg, &out.dirs, 0, out.steps);
    out
}

// ---- a single header ------------------------------------------------------

/// The modules from `i` on that go into the single header.
pub fn amalgamated(modules: &Vec<Module>, i: usize, out: Vec<usize>) -> (r: Vec<usize>)
    ensures
        usizes_v(r@) == amalgamated_spec(modules_v(modules@), (i as int), usizes_v(out@)),
{
    let ghost i_0 = i;
    let ghost out_0 = out;
    let mut i: usize = i;
    let mut out: Vec<usize> = out;
    #[verifier::loop_isolation(false)]
    loop
        invariant
            amalgamated_spec(modules_v(modules@), (i_0 as int), usizes_v(out_0@)) == amalgamated_spec(modules_v(modules@), (i as int), usizes_v(out@)),
        decreases modules.len() - i,
    {
        if i >= modules.len() {
            return out;
        }
        if is_transpiled(&modules[i]) && modules[i].has_header {
            out.push(i);
        }
        i = i + 1;
    }
}

/// The name of the free function a declaration defines.
pub fn free_fn_name(d: &Decl) -> (r: Option<String>)
    ensures
        (match r { Some(y) => Some(y@), None => None }) == free_fn_name_spec(d.v()),
{
    match d {
        Decl::Function(f) => {
            if is_plain_fn(f) {
                dup_opt_text(&f.name)
            } else {
                None
            }
        },
        Decl::Global(g) => {
            if is_free_fn_global(g) {
                Some(g.name.clone())
            } else {
                None
            }
        },
        _ => None,
    }
}

/// The file that defined a function of a package first, from `i` on.
pub fn seen_in(seen: &Vec<SeenFn>, package: &Vec<String>, name: &str, i: usize) -> (r: Option<String>)
    ensures
        (match r { Some(y) => Some(y@), None => None }) == seen_in_spec(seen_fns_v(seen@), texts(package@), name@, (i as int)),
{
    let ghost i_0 = i;
    let mut i: usize = i;
    #[verifier::loop_isolation(false)]
    loop
        invariant
            seen_in_spec(seen_fns_v(seen@), texts(package@), name@, (i_0 as int)) == seen_in_spec(seen_fns_v(seen@), texts(package@), name@, (i as int)),
        decreases seen.len() - i,
    {
        if i >= seen.len() {
            return None;
        }
        if same_path(&seen[i].package, package) && same(&seen[i].name, name) {
            return Some(seen[i].file.clone());
        }
        i = i + 1;
    }
}

/// What is wrong with the declarations from `i` on for a single header: an export needs an
/// object file, and two functions of a package need two names.
pub fn clashes(m: &Module, i: usize, seen: Vec<SeenFn>, errors: Vec<Diagnostic>) -> (r: (Vec<SeenFn>, Vec<Diagnostic>))
    ensures
        (seen_fns_v(r.0@), diagnostics_v(r.1@)) == clashes_spec(m.v(), (i as int), seen_fns_v(seen@), diagnostics_v(errors@)),
{
    let ghost i_0 = i;
    let ghost seen_0 = seen;
    let ghost errors_0 = errors;
    let mut i: usize = i;
    let mut seen: Vec<SeenFn> = seen;
    let mut errors: Vec<Diagnostic> = errors;
    #[verifier::loop_isolation(false)]
    loop
        invariant
            clashes_spec(m.v(), (i_0 as int), seen_fns_v(seen_0@), diagnostics_v(errors_0@)) == clashes_spec(m.v(), (i as int), seen_fns_v(seen@), diagnostics_v(errors@)),
        decreases m.file.decls.len() - i,
    {
        if i >= m.file.decls.len() {
            return (seen, errors);
        }
        let file = cat2(&m.stem, ".hx");
        if is_sort(&m.file.decls[i], Sort::Export) {
            errors.push(Diagnostic { file, line: 0usize, message: "@cexport extern \"C\" exports are not supported in --header-only mode (an exported symbol needs a .cpp/object file)".to_owned() });
            i = i + 1;
            continue;
        }
        match free_fn_name(&m.file.decls[i]) {
            Some(name) => match seen_in(&seen, &m.package, &name, 0) {
                Some(prev) => {
                    errors.push(Diagnostic { file, line: 0usize, message: cat5("module-level function `", &name, "` clashes with one already defined in `", &prev, "`: in --header-only mode every module in a package shares one C++ namespace, so free-function names must be unique across the package") });
                },
                None => {
                    seen.push(SeenFn { package: dup_texts(&m.package), name, file });
                },
            },
            None => {},
        }
        i = i + 1;
    }
}

/// What is reported of the modules of the indices from `i` on before a single header is made.
pub fn check_modules(prog: &Program, findings: &Vec<Findings>, indices: &Vec<usize>, i: usize, seen: Vec<SeenFn>, plan: Plan) -> (r: Plan)
    ensures
        r.v() == check_modules_spec(prog.v(), findingss_v(findings@), usizes_v(indices@), (i as int), seen_fns_v(seen@), plan.v()),
{
    let ghost i_0 = i;
    let ghost seen_0 = seen;
    let ghost plan_0 = plan;
    let mut i: usize = i;
    let mut seen: Vec<SeenFn> = seen;
    let mut plan: Plan = plan;
    #[verifier::loop_isolation(false)]
    loop
        invariant
            check_modules_spec(prog.v(), findingss_v(findings@), usizes_v(indices@), (i_0 as int), seen_fns_v(seen_0@), plan_0.v()) == check_modules_spec(prog.v(), findingss_v(findings@), usizes_v(indices@), (i as int), seen_fns_v(seen@), plan.v()),
        decreases indices.len() - i,
    {
        if i >= indices.len() {
            return plan;
        }
        let k: usize = indices[i];
        match module_at(prog, k) {
            Some(m) => {
                if k < findings.len() {
                    plan.steps = warn_steps(&findings[k].deprecations, &cat2(&m.stem, ".hx"), 0, plan.steps);
                    plan.errors = add_errors(&findings[k].errors, 0, plan.errors);
                }
                let (s, e) = clashes(m, 0, seen, plan.errors);
                seen = s;
                plan.errors = e;
            },
            None => {},
        }
        i = i + 1;
    }
}

/// The code the prelude of the whole program adds: that of the first module from `i` on that
/// supplies it.
pub fn first_prelude_code(modules: &Vec<Module>, i: usize) -> (r: Option<String>)
    ensures
        (match r { Some(y) => Some(y@), None => None }) == first_prelude_code_spec(modules_v(modules@), (i as int)),
{
    let ghost i_0 = i;
    let mut i: usize = i;
    #[verifier::loop_isolation(false)]
    loop
        invariant
            first_prelude_code_spec(modules_v(modules@), (i_0 as int)) == first_prelude_code_spec(modules_v(modules@), (i as int)),
        decreases modules.len() - i,
    {
        if i >= modules.len() {
            return None;
        }
        if modules[i].is_stdafx {
            return header_code_of(&modules[i].file);
        }
        i = i + 1;
    }
}

/// A single header is announced.
pub fn announce_single(prog: &Program, stem: &str, plan: Plan) -> (r: Plan)
    ensures
        r.v() == announce_single_spec(prog.v(), stem@, plan.v()),
{
    let indices = amalgamated(&prog.modules, 0, Vec::new());
    let mut out = plan;
    out.steps.push(Step::Info(cat5("Amalgamating ", &dec_text(indices.len()), " module(s) into ", &cat2(stem, ".h"), ".")));
    out
}

/// What is done to make a single header that was announced.
pub fn plan_announced_single(prog: &Program, cfg: &Config, findings: &Vec<Findings>, stem: &str, plan: Plan) -> (r: Plan)
    ensures
        r.v() == plan_announced_single_spec(prog.v(), cfg.v(), findingss_v(findings@), stem@, plan.v()),
{
    let indices = amalgamated(&prog.modules, 0, Vec::new());
    let label = cat2(stem, ".h");
    let mut out = check_modules(prog, findings, &indices, 0, Vec::new(), plan);
    if out.errors.len() > 0 {
        return out;
    }
    let prelude = prelude_body(&first_prelude_code(&prog.modules, 0), &cfg.export_macro);
    let (text, warnings, errors) = generate_amalgamation(prog, stem, &indices, &prelude);
    if errors.len() > 0 {
        out.errors = file_errors(&errors, &label, 0, out.errors);
        return out;
    }
    out.steps.push(Step::Emit { dir: Vec::new(), file: label.clone(), text });
    out.steps = warn_steps(&warnings, &label, 0, out.steps);
    out
}

/// What is done to make a single header.
pub fn plan_single(prog: &Program, cfg: &Config, findings: &Vec<Findings>, stem: &str, plan: Plan) -> (r: Plan)
    ensures
        r.v() == plan_single_spec(prog.v(), cfg.v(), findingss_v(findings@), stem@, plan.v()),
{
    proof {
        reveal(plan_single_spec);
    }
    plan_announced_single(prog, cfg, findings, stem, announce_single(prog, stem, plan))
}

// ---- the whole run --------------------------------------------------------

/// What a run says first.
pub fn opening(cfg: &Config) -> (r: Vec<Step>)
    ensures
        steps_v(r@) == opening_spec(cfg.v()),
{
    proof {
        reveal(opening_spec);
    }
    let mut out: Vec<Step> = Vec::new();
    out.push(Step::Info(cat3("Transpiling ", &dec_text(cfg.files.len()), " Haxe file(s).")));
    if cfg.include_files.len() > 0 {
        out.push(Step::Info(cat2(&dec_text(cfg.include_files.len()), " resolve-only file(s) from --include.")));
    }
    out
}

/// What a run does, and the errors that keep modules from being generated. `findings` says
/// what an analysis found in each module.
pub fn plan_run(prog: &Program, cfg: &Config, findings: &Vec<Findings>) -> (r: Plan)
    ensures
        r.v() == plan_run_spec(prog.v(), cfg.v(), findingss_v(findings@)),
{
    proof {
        reveal(plan_run_spec);
    }
    let start = Plan { steps: opening(cfg), errors: Vec::new(), dirs: Vec::new() };
    match &cfg.header_only {
        Some(stem) => plan_single(prog, cfg, findings, stem, start),
        None => {
            let total: usize = count_transpiled(&prog.modules, 0, 0);
            plan_preludes(prog, cfg, plan_modules(prog, cfg, findings, total, 0, 0, start))
        },
    }
}

// ---- a run, one step after the other --------------------------------------

/// A run that has only said what it is about to do.
pub fn start_run(cfg: &Config) -> (r: Run)
    ensures
        r.v() == start_run_spec(cfg.v()),
{
    Run {
        at: 0,
        announced: false,
        done: 0,
        over: false,
        plan: Plan { steps: opening(cfg), errors: Vec::new(), dirs: Vec::new() },
    }
}

/// The next step of a run: a module is announced, or generated where it was announced; the
/// preludes come last.
pub fn advance(prog: &Program, cfg: &Config, findings: &Vec<Findings>, run: Run) -> (r: Run)
    ensures
        r.v() == advance_spec(prog.v(), cfg.v(), findingss_v(findings@), run.v()),
{
    let mut out = run;
    if out.over {
        return out;
    }
    match &cfg.header_only {
        Some(stem) => {
            if out.announced {
                out.plan = plan_announced_single(prog, cfg, findings, stem, out.plan);
                out.over = true;
            } else {
                out.plan = announce_single(prog, stem, out.plan);
                out.announced = true;
            }
        },
        None => {
            if out.at >= prog.modules.len() {
                out.plan = plan_preludes(prog, cfg, out.plan);
                out.over = true;
            } else if !is_transpiled(&prog.modules[out.at]) {
                out.at = out.at + 1;
            } else if out.announced {
                out.plan = plan_announced(prog, cfg, findings, out.at, &prog.modules[out.at], out.plan);
                out.announced = false;
                out.at = out.at + 1;
            } else {
                out.done = inc(out.done);
                out.plan = announce_module(&prog.modules[out.at], out.done, count_transpiled(&prog.modules, 0, 0), out.plan);
                out.announced = true;
            }
        },
    }
    out
}

// ---- artifacts ------------------------------------------------------------

/// What every generated file starts with.
pub fn generated_banner(repo: &str, version: &str) -> (r: String)
    ensures
        r@ == generated_banner_spec(repo@, version@),
{
    cat5("// Generated by Hatchet (", repo, ") v", version, "\n")
}

/// The path of an emitted file from the root of the tree.
pub fn artifact_label(dir: &Vec<String>, file: &str) -> (r: String)
    ensures
        r@ == artifact_label_spec(texts(dir@), file@),
{
    cat2(&dir_prefix(dir), file)
}

/// What is printed for a file where code goes to standard output.
pub fn printed_artifact(label: &str, banner: &str, text: &str) -> (r: String)
    ensures
        r@ == printed_artifact_spec(label@, banner@, text@),
{
    proof {
        reveal(printed_artifact_spec);
    }
    let stamped = cat2(banner, text);
    if ends_with(&stamped, "\n") {
        cat4("// ===== ", label, " =====\n", &stamped)
    } else {
        cat5("// ===== ", label, " =====\n", &stamped, "\n")
    }
}

/// What is written to a file; an error where one is there and may not be overwritten.
pub fn written_artifact(path: &str, banner: &str, text: &str, exists: bool, force: bool) -> (r: Result<String, String>)
    ensures
        (match r { Ok(y) => Ok(y@), Err(y) => Err(y@) }) == written_artifact_spec(path@, banner@, text@, exists, force),
{
    proof {
        reveal(written_artifact_spec);
    }
    if exists && !force {
        return Err(cat2(path, " already exists (use --force to overwrite)"));
    }
    Ok(line_feeds(&cat2(banner, text)))
}

// ---- the end --------------------------------------------------------------

/// The files that have an error, from `i` on.
pub fn error_files(errors: &Vec<Diagnostic>, i: usize, out: Vec<String>) -> (r: Vec<String>)
    ensures
        texts(r@) == error_files_spec(diagnostics_v(errors@), (i as int), texts(out@)),
{
    let ghost i_0 = i;
    let ghost out_0 = out;
    let mut i: usize = i;
    let mut out: Vec<String> = out;
    #[verifier::loop_isolation(false)]
    loop
        invariant
            error_files_spec(diagnostics_v(errors@), (i_0 as int), texts(out_0@)) == error_files_spec(diagnostics_v(errors@), (i as int), texts(out@)),
        decreases errors.len() - i,
    {
        if i >= errors.len() {
            return out;
        }
        out = with_name(out, &errors[i].file);
        i = i + 1;
    }
}

/// How many files have an error.
pub fn errors_module_count(errors: &Vec<Diagnostic>) -> (r: usize)
    ensures
        (r as int) == errors_module_count_spec(diagnostics_v(errors@)),
{
    let n: usize = error_files(errors, 0, Vec::new()).len();
    n
}

/// What a mode does with a file.
pub fn verb(mode: OutputMode) -> (r: String)
    ensures
        r@ == verb_spec(mode),
{
    match mode {
        OutputMode::Files => "Generated".to_owned(),
        OutputMode::Stdout => "Emitted".to_owned(),
        OutputMode::DryRun => "Would generate".to_owned(),
    }
}

/// What a run that emitted a number of files says last.
pub fn closing(cfg: &Config, emitted: usize, errors: &Vec<Diagnostic>) -> (r: String)
    ensures
        r@ == closing_spec(cfg.v(), (emitted as int), diagnostics_v(errors@)),
{
    proof {
        reveal(closing_spec);
    }
    let place = if cfg.mode == OutputMode::Files { cat2(" in ", &cfg.out_dir) } else { String::new() };
    let head = cat6("\n", &verb(cfg.mode), " ", &dec_text(emitted), " file(s)", &place);
    if errors.len() == 0 {
        cat2(&head, ".")
    } else {
        cat4(&head, "; ", &dec_text(errors_module_count(errors)), " module(s) skipped due to errors.")
    }
}

/// How a run ends: it fails where a module could not be generated.
pub fn outcome(errors: &Vec<Diagnostic>) -> (r: Result<(), String>)
    ensures
        (match r { Ok(y) => Ok(()), Err(y) => Err(y@) }) == outcome_spec(diagnostics_v(errors@)),
{
    proof {
        reveal(outcome_spec);
    }
    if errors.len() == 0 {
        return Ok(());
    }
    Err(cat4(&dec_text(errors.len()), " error(s); ", &dec_text(errors_module_count(errors)), " module(s) were not generated"))
}

/// What [`report_line`] computes.
pub open spec fn report_line_spec(kind: Seq<char>, file: Seq<char>, line: int, msg: Seq<char>) -> Seq<char>
{
    if line > 0 { kind + ": "@ + file + ":"@ + (dec((line) as nat)) + ": "@ + msg } else { kind + ": "@ + file + ": "@ + msg }
}

/// What [`module_rel`] computes.
pub open spec fn module_rel_spec(m: ModuleV, ext: Seq<char>) -> Seq<char>
{
    dir_prefix_spec(m.dir) + m.stem + "."@ + ext
}

/// What [`is_transpiled`] computes.
pub open spec fn is_transpiled_spec(m: ModuleV) -> bool
{
    !(m.stem == "Main"@) && (!m.is_stdafx) && (!m.is_include)
}

/// What [`count_transpiled`] computes.
pub open spec fn count_transpiled_spec(modules: Seq<ModuleV>, i: int, n: int) -> int
    decreases modules.len() - i,
{
    if !(0 <= i < modules.len()) { n } else {
        let n = if is_transpiled_spec(modules[i]) {
            let n = inc_spec(n);
            n
        } else { n };
        let i = i + 1;
        count_transpiled_spec(modules, i, n)
    }
}

/// What [`warn_steps`] computes.
pub open spec fn warn_steps_spec(reports: Seq<(int, Seq<char>)>, file: Seq<char>, i: int, out: Seq<StepV>) -> Seq<StepV>
    decreases reports.len() - i,
{
    if !(0 <= i < reports.len()) { out } else {
        let out = out.push(StepV::Warn(report_line_spec("warning"@, file, reports[i].0, reports[i].1)));
        let i = i + 1;
        warn_steps_spec(reports, file, i, out)
    }
}

/// What [`file_errors`] computes.
pub open spec fn file_errors_spec(reports: Seq<(int, Seq<char>)>, file: Seq<char>, i: int, out: Seq<DiagnosticV>) -> Seq<DiagnosticV>
    decreases reports.len() - i,
{
    if !(0 <= i < reports.len()) { out } else {
        let out = out.push(DiagnosticV { file, line: reports[i].0, message: reports[i].1 });
        let i = i + 1;
        file_errors_spec(reports, file, i, out)
    }
}

/// What [`add_errors`] computes.
pub open spec fn add_errors_spec(more: Seq<DiagnosticV>, i: int, out: Seq<DiagnosticV>) -> Seq<DiagnosticV>
    decreases more.len() - i,
{
    if !(0 <= i < more.len()) { out } else {
        let out = out.push(DiagnosticV { file: more[i].file, line: more[i].line, message: more[i].message });
        let i = i + 1;
        add_errors_spec(more, i, out)
    }
}

/// What [`chars_before`] computes.
pub open spec fn chars_before_spec(a: Seq<char>, b: Seq<char>, i: int) -> bool
    decreases a.len() - i,
{
    if !(0 <= i < a.len()) { i < (b.len()) } else {
        if !(0 <= i < b.len()) { false } else {
            if (a[i]) != (b[i]) { (a[i]) < (b[i]) } else {
                let i = i + 1;
                chars_before_spec(a, b, i)
            }
        }
    }
}

/// What [`text_before`] computes.
pub open spec fn text_before_spec(a: Seq<char>, b: Seq<char>) -> bool
{
    chars_before_spec(a, b, 0int)
}

/// What [`dir_before`] computes.
pub open spec fn dir_before_spec(a: Seq<Seq<char>>, b: Seq<Seq<char>>, i: int) -> bool
    decreases a.len() - i,
{
    if !(0 <= i < a.len()) { i < (b.len()) } else {
        if !(0 <= i < b.len()) { false } else {
            if !(a[i] == b[i]) { text_before_spec(a[i], b[i]) } else {
                let i = i + 1;
                dir_before_spec(a, b, i)
            }
        }
    }
}

/// What [`rest_dirs`] computes.
pub open spec fn rest_dirs_spec(dirs: Seq<HeaderDirV>, i: int, out: Seq<HeaderDirV>) -> Seq<HeaderDirV>
    decreases dirs.len() - i,
{
    if !(0 <= i < dirs.len()) { out } else {
        let out = out.push(HeaderDirV { dir: dirs[i].dir, package: dirs[i].package });
        let i = i + 1;
        rest_dirs_spec(dirs, i, out)
    }
}

/// What [`insert_dir`] computes.
pub open spec fn insert_dir_spec(dirs: Seq<HeaderDirV>, dir: Seq<Seq<char>>, package: Seq<Seq<char>>, i: int, out: Seq<HeaderDirV>) -> Seq<HeaderDirV>
    decreases dirs.len() - i,
{
    if !(0 <= i < dirs.len()) {
        let out = out.push(HeaderDirV { dir, package });
        out
    } else {
        if same_path_spec(dirs[i].dir, dir) {
            let out = out.push(HeaderDirV { dir, package });
            rest_dirs_spec(dirs, i + 1, out)
        } else {
            if dir_before_spec(dir, dirs[i].dir, 0int) {
                let out = out.push(HeaderDirV { dir, package });
                rest_dirs_spec(dirs, i, out)
            } else {
                let out = out.push(HeaderDirV { dir: dirs[i].dir, package: dirs[i].package });
                let i = i + 1;
                insert_dir_spec(dirs, dir, package, i, out)
            }
        }
    }
}

/// What [`plan_clean_module`] computes.
#[verifier::opaque]
pub open spec fn plan_clean_module_spec(prog: ProgramV, cfg: ConfigV, i: int, m: ModuleV, plan: PlanV) -> PlanV
{
    let out = plan;
    let file = m.stem + ".hx"@;
    let source = generate_source_diagnostics_spec(prog, i, cfg.extract_depth, cfg.no_traces);
    match source {
        Some((_, _, errors)) => {
            if (errors.len()) > 0 {
                let out = PlanV { errors: file_errors_spec(errors, file, 0int, out.errors), ..out };
                out
            } else {
                let opts = HeaderOptsV { inline_prelude: None, inline_bodies: false, header_code: header_code_of_spec(m.file), guard_stem: None };
                let out = match generate_header_with_spec(prog, i, opts) {
                    Some((text, _, _)) => {
                        let out = PlanV { steps: out.steps.push(StepV::Emit { dir: m.dir, file: m.stem + ".h"@, text }), ..out };
                        let out = PlanV { dirs: insert_dir_spec(out.dirs, m.dir, m.package, 0int, Seq::empty()), ..out };
                        out
                    },
                    None => { out },
                };
                let out = match source {
                    Some((text, warnings, _)) => {
                        let out = PlanV { steps: out.steps.push(StepV::Emit { dir: m.dir, file: m.stem + ".cpp"@, text }), ..out };
                        let out = PlanV { steps: warn_steps_spec(warnings, file, 0int, out.steps), ..out };
                        out
                    },
                    None => { out },
                };
                out
            }
        },
        None => {
            let opts = HeaderOptsV { inline_prelude: None, inline_bodies: false, header_code: header_code_of_spec(m.file), guard_stem: None };
            let out = match generate_header_with_spec(prog, i, opts) {
                Some((text, _, _)) => {
                    let out = PlanV { steps: out.steps.push(StepV::Emit { dir: m.dir, file: m.stem + ".h"@, text }), ..out };
                    let out = PlanV { dirs: insert_dir_spec(out.dirs, m.dir, m.package, 0int, Seq::empty()), ..out };
                    out
                },
                None => { out },
            };
            let out = match source {
                Some((text, warnings, _)) => {
                    let out = PlanV { steps: out.steps.push(StepV::Emit { dir: m.dir, file: m.stem + ".cpp"@, text }), ..out };
                    let out = PlanV { steps: warn_steps_spec(warnings, file, 0int, out.steps), ..out };
                    out
                },
                None => { out },
            };
            out
        },
    }
}

/// What [`announce_module`] computes.
pub open spec fn announce_module_spec(m: ModuleV, at_: int, total: int, plan: PlanV) -> PlanV
{
    let out = plan;
    let out = PlanV { steps: out.steps.push(StepV::Info("["@ + (dec((at_) as nat)) + "/"@ + (dec((total) as nat)) + "] "@ + module_rel_spec(m, "hx"@))), ..out };
    out
}

/// What [`plan_announced`] computes.
pub open spec fn plan_announced_spec(prog: ProgramV, cfg: ConfigV, findings: Seq<FindingsV>, i: int, m: ModuleV, plan: PlanV) -> PlanV
{
    let out = plan;
    if i < (findings.len()) {
        let out = PlanV { steps: warn_steps_spec(findings[i].deprecations, m.stem + ".hx"@, 0int, out.steps), ..out };
        if (findings[i].errors.len()) > 0 {
            let out = PlanV { errors: add_errors_spec(findings[i].errors, 0int, out.errors), ..out };
            out
        } else { plan_clean_module_spec(prog, cfg, i, m, out) }
    } else { plan_clean_module_spec(prog, cfg, i, m, out) }
}

/// What [`plan_module`] computes.
#[verifier::opaque]
pub open spec fn plan_module_spec(prog: ProgramV, cfg: ConfigV, findings: Seq<FindingsV>, i: int, m: ModuleV, at_: int, total: int, plan: PlanV) -> PlanV
{
    plan_announced_spec(prog, cfg, findings, i, m, announce_module_spec(m, at_, total, plan))
}

/// What [`plan_modules`] computes.
pub open spec fn plan_modules_spec(prog: ProgramV, cfg: ConfigV, findings: Seq<FindingsV>, total: int, i: int, done: int, plan: PlanV) -> PlanV
    decreases prog.modules.len() - i,
{
    if !(0 <= i < prog.modules.len()) { plan } else {
        let (done, plan) = if is_transpiled_spec(prog.modules[i]) {
            let done = inc_spec(done);
            let plan = plan_module_spec(prog, cfg, findings, i, prog.modules[i], done, total, plan);
            (done, plan)
        } else { (done, plan) };
        let i = i + 1;
        plan_modules_spec(prog, cfg, findings, total, i, done, plan)
    }
}

/// What [`prelude_code`] computes.
pub open spec fn prelude_code_spec(modules: Seq<ModuleV>, dir: Seq<Seq<char>>, i: int, found: Option<Seq<char>>) -> Option<Seq<char>>
    decreases modules.len() - i,
{
    if !(0 <= i < modules.len()) { found } else {
        let found = if (modules[i].is_stdafx) && same_path_spec(modules[i].dir, dir) {
            let found = header_code_of_spec(modules[i].file);
            found
        } else { found };
        let i = i + 1;
        prelude_code_spec(modules, dir, i, found)
    }
}

/// What [`prelude_steps`] computes.
pub open spec fn prelude_steps_spec(prog: ProgramV, cfg: ConfigV, dirs: Seq<HeaderDirV>, i: int, out: Seq<StepV>) -> Seq<StepV>
    decreases dirs.len() - i,
{
    if !(0 <= i < dirs.len()) { out } else {
        let code = prelude_code_spec(prog.modules, dirs[i].dir, 0int, None);
        let text = content_for_spec(cfg.stdafx_stem, code, dirs[i].package, cfg.export_macro);
        let out = out.push(StepV::Emit { dir: dirs[i].dir, file: cfg.stdafx_stem + ".h"@, text });
        let i = i + 1;
        prelude_steps_spec(prog, cfg, dirs, i, out)
    }
}

/// What [`plan_preludes`] computes.
pub open spec fn plan_preludes_spec(prog: ProgramV, cfg: ConfigV, plan: PlanV) -> PlanV
{
    let out = plan;
    let out = PlanV { steps: prelude_steps_spec(prog, cfg, out.dirs, 0int, out.steps), ..out };
    out
}

/// What [`amalgamated`] computes.
pub open spec fn amalgamated_spec(modules: Seq<ModuleV>, i: int, out: Seq<int>) -> Seq<int>
    decreases modules.len() - i,
{
    if !(0 <= i < modules.len()) { out } else {
        let out = if is_transpiled_spec(modules[i]) && (modules[i].has_header) {
            let out = out.push(i);
            out
        } else { out };
        let i = i + 1;
        amalgamated_spec(modules, i, out)
    }
}

/// What [`free_fn_name`] computes.
pub open spec fn free_fn_name_spec(d: DeclV) -> Option<Seq<char>>
{
    match d {
        DeclV::Function(f) => {
            if is_plain_fn_spec(f) { f.name } else { None }
        },
        DeclV::Global(g) => {
            if is_free_fn_global_spec(g) { Some(g.name) } else { None }
        },
        _ => { None },
    }
}

/// What [`seen_in`] computes.
pub open spec fn seen_in_spec(seen: Seq<SeenFnV>, package: Seq<Seq<char>>, name: Seq<char>, i: int) -> Option<Seq<char>>
    decreases seen.len() - i,
{
    if !(0 <= i < seen.len()) { None } else {
        if same_path_spec(seen[i].package, package) && (seen[i].name == name) { Some(seen[i].file) } else {
            let i = i + 1;
            seen_in_spec(seen, package, name, i)
        }
    }
}

/// What [`clashes`] computes.
pub open spec fn clashes_spec(m: ModuleV, i: int, seen: Seq<SeenFnV>, errors: Seq<DiagnosticV>) -> (Seq<SeenFnV>, Seq<DiagnosticV>)
    decreases m.file.decls.len() - i,
{
    if !(0 <= i < m.file.decls.len()) { (seen, errors) } else {
        let file = m.stem + ".hx"@;
        if is_sort_spec(m.file.decls[i], Sort::Export) {
            let errors = errors.push(DiagnosticV { file, line: 0int, message: "@cexport extern \"C\" exports are not supported in --header-only mode (an exported symbol needs a .cpp/object file)"@ });
            let i = i + 1;
            clashes_spec(m, i, seen, errors)
        } else {
            let (errors, seen) = match free_fn_name_spec(m.file.decls[i]) {
                Some(name) => {
                    match seen_in_spec(seen, m.package, name, 0int) {
                        Some(prev) => {
                            let errors = errors.push(DiagnosticV { file, line: 0int, message: "module-level function `"@ + name + "` clashes with one already defined in `"@ + prev + "`: in --header-only mode every module in a package shares one C++ namespace, so free-function names must be unique across the package"@ });
                            (errors, seen)
                        },
                        None => {
                            let seen = seen.push(SeenFnV { package: m.package, name, file });
                            (errors, seen)
                        },
                    }
                },
                None => { (errors, seen) },
            };
            let i = i + 1;
            clashes_spec(m, i, seen, errors)
        }
    }
}

/// What [`check_modules`] computes.
pub open spec fn check_modules_spec(prog: ProgramV, findings: Seq<FindingsV>, indices: Seq<int>, i: int, seen: Seq<SeenFnV>, plan: PlanV) -> PlanV
    decreases indices.len() - i,
{
    if !(0 <= i < indices.len()) { plan } else {
        let k: int = indices[i];
        let (plan, seen) = match module_at_spec(prog, k) {
            Some(m) => {
                let plan = if k < (findings.len()) {
                    let plan = PlanV { steps: warn_steps_spec(findings[k].deprecations, m.stem + ".hx"@, 0int, plan.steps), ..plan };
                    let plan = PlanV { errors: add_errors_spec(findings[k].errors, 0int, plan.errors), ..plan };
                    plan
                } else { plan };
                let (s, e) = clashes_spec(m, 0int, seen, plan.errors);
                let seen = s;
                let plan = PlanV { errors: e, ..plan };
                (plan, seen)
            },
            None => { (plan, seen) },
        };
        let i = i + 1;
        check_modules_spec(prog, findings, indices, i, seen, plan)
    }
}

/// What [`first_prelude_code`] computes.
pub open spec fn first_prelude_code_spec(modules: Seq<ModuleV>, i: int) -> Option<Seq<char>>
    decreases modules.len() - i,
{
    if !(0 <= i < modules.len()) { None } else {
        if modules[i].is_stdafx { header_code_of_spec(modules[i].file) } else {
            let i = i + 1;
            first_prelude_code_spec(modules, i)
        }
    }
}

/// What [`announce_single`] computes.
pub open spec fn announce_single_spec(prog: ProgramV, stem: Seq<char>, plan: PlanV) -> PlanV
{
    let indices = amalgamated_spec(prog.modules, 0int, Seq::empty());
    let out = plan;
    let out = PlanV { steps: out.steps.push(StepV::Info("Amalgamating "@ + (dec((indices.len() as int) as nat)) + " module(s) into "@ + (stem + ".h"@) + "."@)), ..out };
    out
}

/// What [`plan_announced_single`] computes.
pub open spec fn plan_announced_single_spec(prog: ProgramV, cfg: ConfigV, findings: Seq<FindingsV>, stem: Seq<char>, plan: PlanV) -> PlanV
{
    let indices = amalgamated_spec(prog.modules, 0int, Seq::empty());
    let label = stem + ".h"@;
    let out = check_modules_spec(prog, findings, indices, 0int, Seq::empty(), plan);
    if (out.errors.len()) > 0 { out } else {
        let prelude = prelude_body_spec(first_prelude_code_spec(prog.modules, 0int), cfg.export_macro);
        let (text, warnings, errors) = generate_amalgamation_spec(prog, stem, indices, prelude);
        if (errors.len()) > 0 {
            let out = PlanV { errors: file_errors_spec(errors, label, 0int, out.errors), ..out };
            out
        } else {
            let out = PlanV { steps: out.steps.push(StepV::Emit { dir: Seq::empty(), file: label, text }), ..out };
            let out = PlanV { steps: warn_steps_spec(warnings, label, 0int, out.steps), ..out };
            out
        }
    }
}

/// What [`plan_single`] computes.
#[verifier::opaque]
pub open spec fn plan_single_spec(prog: ProgramV, cfg: ConfigV, findings: Seq<FindingsV>, stem: Seq<char>, plan: PlanV) -> PlanV
{
    plan_announced_single_spec(prog, cfg, findings, stem, announce_single_spec(prog, stem, plan))
}

/// What [`opening`] computes.
#[verifier::opaque]
pub open spec fn opening_spec(cfg: ConfigV) -> Seq<StepV>
{
    let out: Seq<StepV> = Seq::empty();
    let out = out.push(StepV::Info("Transpiling "@ + (dec((cfg.files.len() as int) as nat)) + " Haxe file(s)."@));
    let out = if (cfg.include_files.len()) > 0 {
        let out = out.push(StepV::Info((dec((cfg.include_files.len() as int) as nat)) + " resolve-only file(s) from --include."@));
        out
    } else { out };
    out
}

/// What [`plan_run`] computes.
#[verifier::opaque]
pub open spec fn plan_run_spec(prog: ProgramV, cfg: ConfigV, findings: Seq<FindingsV>) -> PlanV
{
    let start = PlanV { steps: opening_spec(cfg), errors: Seq::empty(), dirs: Seq::empty() };
    match cfg.header_only {
        Some(stem) => { plan_single_spec(prog, cfg, findings, stem, start) },
        None => {
            let total: int = count_transpiled_spec(prog.modules, 0int, 0int);
            plan_preludes_spec(prog, cfg, plan_modules_spec(prog, cfg, findings, total, 0int, 0int, start))
        },
    }
}

/// What [`start_run`] computes.
pub open spec fn start_run_spec(cfg: ConfigV) -> RunV
{
    RunV { at: 0, announced: false, done: 0, over: false, plan: PlanV { steps: opening_spec(cfg), errors: Seq::empty(), dirs: Seq::empty() } }
}

/// What [`advance`] computes.
pub open spec fn advance_spec(prog: ProgramV, cfg: ConfigV, findings: Seq<FindingsV>, run: RunV) -> RunV
{
    let out = run;
    if out.over { out } else {
        let out = match cfg.header_only {
            Some(stem) => {
                if out.announced {
                    let out = RunV { plan: plan_announced_single_spec(prog, cfg, findings, stem, out.plan), ..out };
                    let out = RunV { over: true, ..out };
                    out
                } else {
                    let out = RunV { plan: announce_single_spec(prog, stem, out.plan), ..out };
                    let out = RunV { announced: true, ..out };
                    out
                }
            },
            None => {
                if out.at >= (prog.modules.len()) {
                    let out = RunV { plan: plan_preludes_spec(prog, cfg, out.plan), ..out };
                    let out = RunV { over: true, ..out };
                    out
                } else if !is_transpiled_spec(prog.modules[out.at]) {
                    let out = RunV { at: out.at + 1, ..out };
                    out
                } else if out.announced {
                    let out = RunV { plan: plan_announced_spec(prog, cfg, findings, out.at, prog.modules[out.at], out.plan), ..out };
                    let out = RunV { announced: false, ..out };
                    let out = RunV { at: out.at + 1, ..out };
                    out
                } else {
                    let out = RunV { done: inc_spec(out.done), ..out };
                    let out = RunV { plan: announce_module_spec(prog.modules[out.at], out.done, count_transpiled_spec(prog.modules, 0int, 0int), out.plan), ..out };
                    let out = RunV { announced: true, ..out };
                    out
                }
            },
        };
        out
    }
}

/// What [`generated_banner`] computes.
pub open spec fn generated_banner_spec(repo: Seq<char>, version: Seq<char>) -> Seq<char>
{
    "// Generated by Hatchet ("@ + repo + ") v"@ + version + "\n"@
}

/// What [`artifact_label`] computes.
pub open spec fn artifact_label_spec(dir: Seq<Seq<char>>, file: Seq<char>) -> Seq<char>
{
    dir_prefix_spec(dir) + file
}

/// What [`printed_artifact`] computes.
#[verifier::opaque]
pub open spec fn printed_artifact_spec(label: Seq<char>, banner: Seq<char>, text: Seq<char>) -> Seq<char>
{
    let stamped = banner + text;
    if ("\n"@).is_suffix_of(stamped) { "// ===== "@ + label + " =====\n"@ + stamped } else { "// ===== "@ + label + " =====\n"@ + stamped + "\n"@ }
}

/// What [`written_artifact`] computes.
#[verifier::opaque]
pub open spec fn written_artifact_spec(path: Seq<char>, banner: Seq<char>, text: Seq<char>, exists: bool, force: bool) -> Result<Seq<char>, Seq<char>>
{
    if exists && (!force) { Err(path + " already exists (use --force to overwrite)"@) } else { Ok(line_feeds_spec(banner + text)) }
}

/// What [`error_files`] computes.
pub open spec fn error_files_spec(errors: Seq<DiagnosticV>, i: int, out: Seq<Seq<char>>) -> Seq<Seq<char>>
    decreases errors.len() - i,
{
    if !(0 <= i < errors.len()) { out } else {
        let out = with_name_spec(out, errors[i].file);
        let i = i + 1;
        error_files_spec(errors, i, out)
    }
}

/// What [`errors_module_count`] computes.
pub open spec fn errors_module_count_spec(errors: Seq<DiagnosticV>) -> int
{
    let n: int = error_files_spec(errors, 0int, Seq::empty()).len() as int;
    n
}

/// What [`verb`] computes.
pub open spec fn verb_spec(mode: OutputMode) -> Seq<char>
{
    match mode {
        OutputMode::Files => { "Generated"@ },
        OutputMode::Stdout => { "Emitted"@ },
        OutputMode::DryRun => { "Would generate"@ },
    }
}

/// What [`closing`] computes.
#[verifier::opaque]
pub open spec fn closing_spec(cfg: ConfigV, emitted: int, errors: Seq<DiagnosticV>) -> Seq<char>
{
    let place = if cfg.mode == (OutputMode::Files) { " in "@ + cfg.out_dir } else { Seq::empty() };
    let head = "\n"@ + verb_spec(cfg.mode) + " "@ + (dec((emitted) as nat)) + " file(s)"@ + place;
    if (errors.len()) == 0 { head + "."@ } else {
        head + "; "@ + (dec((errors_module_count_spec(errors)) as nat)) + " module(s) skipped due to errors."@
    }
}

/// What [`outcome`] computes.
#[verifier::opaque]
pub open spec fn outcome_spec(errors: Seq<DiagnosticV>) -> Result<(), Seq<char>>
{
    if (errors.len()) == 0 { Ok(()) } else {
        Err((dec((errors.len() as int) as nat)) + " error(s); "@ + (dec((errors_module_count_spec(errors)) as nat)) + " module(s) were not generated"@)
    }
}

} // verus!
