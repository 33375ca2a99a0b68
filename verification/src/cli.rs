//! The command line: what it asks for, and what a run does.

use vstd::prelude::*;

use crate::codegen::gen::text_lists_v;
use crate::parser::{package_parts, package_parts_spec};
use crate::parser::pp::{trim, trim_spec};
use crate::program::{SourceFile, SourceFileV, source_files_v};
use crate::resolve::{same_path, same_path_spec};
use crate::strings::{between, between_spec, ends_with, find_char, find_char_spec, join, join_spec, split, split_spec};
use crate::text::{cat2, cat3, cat5, chars_of, dup_texts, empty, has_text, same, texts};

verus! {

broadcast use {crate::codegen::gen::group_gen, crate::codegen::ty::group_ty, crate::program::group_program, crate::text::group_texts};

/// What the command line says.
#[derive(Debug, PartialEq)]
pub struct Args {
    /// Files, directories or patterns to transpile.
    pub src: Vec<String>,
    /// Files, directories or patterns that are only resolved against.
    pub includes: Vec<String>,
    /// Flags that `#if` tests true against.
    pub define: Vec<String>,
    /// Where generated files go.
    pub out: Option<String>,
    /// Whether existing files are overwritten.
    pub force: bool,
    /// Whether nothing is written.
    pub dry_run: bool,
    /// Whether generated code is printed.
    pub stdout: bool,
    /// How deep a nullable call may be buried and still be moved out.
    pub depth: usize,
    /// Whether traces are stripped.
    pub no_traces: bool,
    /// The name of the prelude.
    pub stdafx: String,
    /// The prefix of the export macros.
    pub export_macro: String,
    /// The name of the single header, where one is wanted.
    pub header_only: Option<String>,
}

/// Where generated C++ goes.
#[derive(Debug, Clone, Copy, PartialEq, Eq, Structural)]
pub enum OutputMode {
    /// Into files.
    Files,
    /// To standard output.
    Stdout,
    /// Nowhere.
    DryRun,
}

/// What a run works with.
#[derive(Debug, PartialEq)]
pub struct Config {
    pub root_dir: String,
    pub files: Vec<String>,
    pub include_files: Vec<String>,
    pub out_dir: String,
    pub force: bool,
    pub extract_depth: usize,
    pub no_traces: bool,
    pub mode: OutputMode,
    pub stdafx_stem: String,
    pub export_macro: String,
    pub header_only: Option<String>,
}

/// Mathematical model of [`Args`].
pub struct ArgsV {
    pub src: Seq<Seq<char>>,
    pub includes: Seq<Seq<char>>,
    pub define: Seq<Seq<char>>,
    pub out: Option<Seq<char>>,
    pub force: bool,
    pub dry_run: bool,
    pub stdout: bool,
    pub depth: int,
    pub no_traces: bool,
    pub stdafx: Seq<char>,
    pub export_macro: Seq<char>,
    pub header_only: Option<Seq<char>>,
}

/// Mathematical model of [`Config`].
pub struct ConfigV {
    pub root_dir: Seq<char>,
    pub files: Seq<Seq<char>>,
    pub include_files: Seq<Seq<char>>,
    pub out_dir: Seq<char>,
    pub force: bool,
    pub extract_depth: int,
    pub no_traces: bool,
    pub mode: OutputMode,
    pub stdafx_stem: Seq<char>,
    pub export_macro: Seq<char>,
    pub header_only: Option<Seq<char>>,
}

impl Args {
    /// The value with every string and list seen as a sequence.
    pub open spec fn v(self) -> ArgsV
    {
        ArgsV {
            src: texts(self.src@),
            includes: texts(self.includes@),
            define: texts(self.define@),
            out: (match self.out { Some(y) => Some(y@), None => None }),
            force: self.force,
            dry_run: self.dry_run,
            stdout: self.stdout,
            depth: self.depth as int,
            no_traces: self.no_traces,
            stdafx: self.stdafx@,
            export_macro: self.export_macro@,
            header_only: (match self.header_only { Some(y) => Some(y@), None => None }),
        }
    }
}

impl Config {
    /// The value with every string and list seen as a sequence.
    pub open spec fn v(self) -> ConfigV
    {
        ConfigV {
            root_dir: self.root_dir@,
            files: texts(self.files@),
            include_files: texts(self.include_files@),
            out_dir: self.out_dir@,
            force: self.force,
            extract_depth: self.extract_depth as int,
            no_traces: self.no_traces,
            mode: self.mode,
            stdafx_stem: self.stdafx_stem@,
            export_macro: self.export_macro@,
            header_only: (match self.header_only { Some(y) => Some(y@), None => None }),
        }
    }
}

/// The mode the flags ask for: a dry run wins over standard output, which wins over files.
pub fn output_mode(args: &Args) -> (r: OutputMode)
    ensures
        r == output_mode_spec(args.v()),
{
    if args.dry_run {
        OutputMode::DryRun
    } else if args.stdout {
        OutputMode::Stdout
    } else {
        OutputMode::Files
    }
}

impl Config {
    /// Whether messages go to standard error, so that standard output holds code only.
    pub fn info_to_stderr(&self) -> (r: bool)
        ensures
            r == (self.v().mode == OutputMode::Stdout),
    {
        self.mode == OutputMode::Stdout
    }
}

/// A name without the blanks around it, or the default where nothing is left.
pub fn name_or(name: &str, default: &str) -> (r: String)
    ensures
        r@ == name_or_spec(name@, default@),
{
    let text = trim(name);
    if empty(&text) {
        default.to_owned()
    } else {
        text
    }
}

/// A text without a suffix.
pub fn without_suffix(s: &str, suffix: &str) -> (r: String)
    ensures
        r@ == without_suffix_spec(s@, suffix@),
{
    match between(s, "", suffix) {
        Some(t) => t,
        None => s.to_owned(),
    }
}

/// The name of the single header: without blanks and a redundant extension.
pub fn header_only_stem(name: &Option<String>) -> (r: Option<String>)
    ensures
        (match r { Some(y) => Some(y@), None => None }) == header_only_stem_spec((match name { Some(y) => Some(y@), None => None })),
{
    proof {
        reveal(header_only_stem_spec);
    }
    match name {
        Some(n) => {
            let stem = without_suffix(&trim(n), ".h");
            if empty(&stem) {
                None
            } else {
                Some(stem)
            }
        },
        None => None,
    }
}

/// Whether an input is a pattern.
pub fn is_glob(s: &str) -> (r: bool)
    ensures
        r == is_glob_spec(s@),
{
    let cs = chars_of(s);
    find_char(&cs, '*', 0) < cs.len() || find_char(&cs, '?', 0) < cs.len()
}

/// Whether a path from `j` on matches a pattern from `i` on: `?` is one character of a name,
/// `*` any number of them, `**` anything, with the separator after it or without.
pub fn glob_at(pat: &Vec<char>, path: &Vec<char>, i: usize, j: usize) -> (r: bool)
    requires
        i <= pat.len(),
        j <= path.len(),
    ensures
        r == glob_at_spec(pat@, path@, (i as int), (j as int)),
    decreases pat.len() - i, path.len() - j,
{
    if i >= pat.len() {
        return j >= path.len();
    }
    if pat[i] == '*' {
        if i + 1 < pat.len() && pat[i + 1] == '*' {
            let k: usize = if i + 2 < pat.len() && pat[i + 2] == '/' { i + 3 } else { i + 2 };
            if glob_at(pat, path, k, j) {
                return true;
            }
            if j >= path.len() {
                return false;
            }
            return glob_at(pat, path, i, j + 1);
        }
        if glob_at(pat, path, i + 1, j) {
            return true;
        }
        if j >= path.len() || path[j] == '/' {
            return false;
        }
        return glob_at(pat, path, i, j + 1);
    }
    if j >= path.len() {
        return false;
    }
    if pat[i] == '?' {
        return path[j] != '/' && glob_at(pat, path, i + 1, j + 1);
    }
    pat[i] == path[j] && glob_at(pat, path, i + 1, j + 1)
}

/// Whether a path matches a pattern.
pub fn glob_match(pattern: &str, path: &str) -> (r: bool)
    ensures
        r == glob_match_spec(pattern@, path@),
{
    glob_at(&chars_of(pattern), &chars_of(path), 0, 0)
}

/// The directory a pattern's matches are under: the parts in front of its first wildcard.
pub fn glob_base(pattern: &str) -> (r: String)
    ensures
        r@ == glob_base_spec(pattern@),
{
    let parts = split(pattern, '/');
    join(&plain_parts(&parts, 0, Vec::new()), "/")
}

/// The parts from `i` on that are no patterns, up to the first that is one or the last.
pub fn plain_parts(parts: &Vec<String>, i: usize, out: Vec<String>) -> (r: Vec<String>)
    ensures
        texts(r@) == plain_parts_spec(texts(parts@), (i as int), texts(out@)),
{
    let ghost i_0 = i;
    let ghost out_0 = out;
    let mut i: usize = i;
    let mut out: Vec<String> = out;
    #[verifier::loop_isolation(false)]
    loop
        invariant
            plain_parts_spec(texts(parts@), (i_0 as int), texts(out_0@)) == plain_parts_spec(texts(parts@), (i as int), texts(out@)),
        decreases parts.len() - i,
    {
        if i >= parts.len() || i + 1 >= parts.len() || is_glob(&parts[i]) {
            return out;
        }
        out.push(parts[i].clone());
        i = i + 1;
    }
}

/// Whether a path names a source file. A name that is all extension has none.
pub fn is_haxe(path: &str) -> (r: bool)
    ensures
        r == is_haxe_spec(path@),
{
    ends_with(path, ".hx") && !same(path, ".hx") && !ends_with(path, "/.hx") && !ends_with(path, "\\.hx")
}

/// Whether a path names the entry point, which is never transpiled.
pub fn is_main(path: &str) -> (r: bool)
    ensures
        r == is_main_spec(path@),
{
    same(path, "Main.hx") || ends_with(path, "/Main.hx") || ends_with(path, "\\Main.hx")
}

/// The paths from `i` on that are neither the entry point nor taken already, added to `out`.
pub fn select_from(found: &Vec<String>, taken: &Vec<String>, i: usize, out: Vec<String>) -> (r: Vec<String>)
    ensures
        texts(r@) == select_from_spec(texts(found@), texts(taken@), (i as int), texts(out@)),
{
    let ghost i_0 = i;
    let ghost out_0 = out;
    let mut i: usize = i;
    let mut out: Vec<String> = out;
    #[verifier::loop_isolation(false)]
    loop
        invariant
            select_from_spec(texts(found@), texts(taken@), (i_0 as int), texts(out_0@)) == select_from_spec(texts(found@), texts(taken@), (i as int), texts(out@)),
        decreases found.len() - i,
    {
        if i >= found.len() {
            return out;
        }
        if !is_main(&found[i]) && !has_text(taken, &found[i]) && !has_text(&out, &found[i]) {
            out.push(found[i].clone());
        }
        i = i + 1;
    }
}

/// The files to transpile of those found: each once, without the entry point.
pub fn select_files(found: &Vec<String>) -> (r: Vec<String>)
    ensures
        texts(r@) == select_files_spec(texts(found@)),
{
    proof {
        reveal(select_files_spec);
    }
    select_from(found, &Vec::new(), 0, Vec::new())
}

/// The files to resolve against: those found that are not transpiled.
pub fn select_includes(found: &Vec<String>, files: &Vec<String>) -> (r: Vec<String>)
    ensures
        texts(r@) == select_includes_spec(texts(found@), texts(files@)),
{
    proof {
        reveal(select_includes_spec);
    }
    select_from(found, files, 0, Vec::new())
}

/// The note for a path that is left out; empty for any other.
pub fn skip_note(path: &str) -> (r: String)
    ensures
        r@ == skip_note_spec(path@),
{
    if is_main(path) {
        cat3("Skipping ", path, " (Main.hx is never transpiled).")
    } else {
        String::new()
    }
}

/// Whether a directory ends in the parts of a package from `i` on.
pub fn ends_in(comps: &Vec<String>, package: &Vec<String>, i: usize) -> (r: bool)
    requires
        package.len() <= comps.len(),
    ensures
        r == ends_in_spec(texts(comps@), texts(package@), (i as int)),
{
    let ghost i_0 = i;
    let mut i: usize = i;
    #[verifier::loop_isolation(false)]
    loop
        invariant
            ends_in_spec(texts(comps@), texts(package@), (i_0 as int)) == ends_in_spec(texts(comps@), texts(package@), (i as int)),
        decreases package.len() - i,
    {
        if i >= package.len() {
            return true;
        }
        if !same(&comps[comps.len() - package.len() + i], &package[i]) {
            return false;
        }
        i = i + 1;
    }
}

/// The first `n` parts from `i` on.
pub fn first_parts(comps: &Vec<String>, n: usize, i: usize, out: Vec<String>) -> (r: Vec<String>)
    ensures
        texts(r@) == first_parts_spec(texts(comps@), (n as int), (i as int), texts(out@)),
{
    let ghost i_0 = i;
    let ghost out_0 = out;
    let mut i: usize = i;
    let mut out: Vec<String> = out;
    #[verifier::loop_isolation(false)]
    loop
        invariant
            first_parts_spec(texts(comps@), (n as int), (i_0 as int), texts(out_0@)) == first_parts_spec(texts(comps@), (n as int), (i as int), texts(out@)),
        decreases comps.len() - i,
    {
        if i >= comps.len() || i >= n {
            return out;
        }
        out.push(comps[i].clone());
        i = i + 1;
    }
}

/// The project root of a file in the directory `comps`: that directory without the package
/// at its end, or itself where it does not end so.
pub fn infer_root(comps: &Vec<String>, package: &Vec<String>) -> (r: Vec<String>)
    ensures
        texts(r@) == infer_root_spec(texts(comps@), texts(package@)),
{
    proof {
        reveal(infer_root_spec);
    }
    if package.len() <= comps.len() && ends_in(comps, package, 0) {
        first_parts(comps, comps.len() - package.len(), 0, Vec::new())
    } else {
        dup_texts(comps)
    }
}

/// The project root of a source file: its directory without the package that it declares.
pub fn file_root(f: &SourceFile) -> (r: Vec<String>)
    ensures
        texts(r@) == file_root_spec(f.v()),
{
    infer_root(&f.dir, &package_parts(&f.text))
}

/// The files to transpile of those found, from `i` on, each with its root: every path once,
/// without the entry point.
pub fn select_sources(found: &Vec<SourceFile>, i: usize, files: Vec<String>, roots: Vec<Vec<String>>) -> (r: (Vec<String>, Vec<Vec<String>>))
    ensures
        (texts(r.0@), text_lists_v(r.1@)) == select_sources_spec(source_files_v(found@), (i as int), texts(files@), text_lists_v(roots@)),
{
    let ghost i_0 = i;
    let ghost files_0 = files;
    let ghost roots_0 = roots;
    let mut i: usize = i;
    let mut files: Vec<String> = files;
    let mut roots: Vec<Vec<String>> = roots;
    #[verifier::loop_isolation(false)]
    loop
        invariant
            select_sources_spec(source_files_v(found@), (i_0 as int), texts(files_0@), text_lists_v(roots_0@)) == select_sources_spec(source_files_v(found@), (i as int), texts(files@), text_lists_v(roots@)),
        decreases found.len() - i,
    {
        if i >= found.len() {
            return (files, roots);
        }
        if !is_main(&found[i].path) && !has_text(&files, &found[i].path) {
            files.push(found[i].path.clone());
            roots.push(file_root(&found[i]));
        }
        i = i + 1;
    }
}

/// The parts of a path from `i` on, added to `out` with separators between them.
pub fn path_text_from(parts: &Vec<String>, i: usize, out: String) -> (r: String)
    ensures
        r@ == path_text_from_spec(texts(parts@), (i as int), out@),
{
    let ghost i_0 = i;
    let ghost out_0 = out;
    let mut i: usize = i;
    let mut out: String = out;
    #[verifier::loop_isolation(false)]
    loop
        invariant
            path_text_from_spec(texts(parts@), (i_0 as int), out_0@) == path_text_from_spec(texts(parts@), (i as int), out@),
        decreases parts.len() - i,
    {
        if i >= parts.len() {
            return out;
        }
        out = if empty(&out) || ends_with(&out, "/") || ends_with(&out, "\\") {
            cat2(&out, &parts[i])
        } else {
            cat3(&out, "/", &parts[i])
        };
        i = i + 1;
    }
}

/// A path as a text.
pub fn path_text(parts: &Vec<String>) -> (r: String)
    ensures
        r@ == path_text_spec(texts(parts@)),
{
    proof {
        reveal(path_text_spec);
    }
    path_text_from(parts, 0, String::new())
}

/// The one root all files have; an error where two differ or there is none.
pub fn agree_on(roots: &Vec<Vec<String>>, i: usize) -> (r: Result<Vec<String>, String>)
    requires
        i >= 1,
    ensures
        (match r { Ok(y) => Ok(texts(y@)), Err(y) => Err(y@) }) == agree_on_spec(text_lists_v(roots@), (i as int)),
{
    let ghost i_0 = i;
    let mut i: usize = i;
    #[verifier::loop_isolation(false)]
    loop
        invariant
            agree_on_spec(text_lists_v(roots@), (i_0 as int)) == agree_on_spec(text_lists_v(roots@), (i as int)),
        decreases roots.len() - i,
    {
        if i >= roots.len() {
            return if roots.len() > 0 { Ok(dup_texts(&roots[0])) } else { Err("no transpilable .hx files given".to_owned()) };
        }
        if !same_path(&roots[0], &roots[i]) {
            return Err(cat5("files resolve to different project roots (", &path_text(&roots[0]), " vs ", &path_text(&roots[i]), "); transpile one project at a time"));
        }
        i = i + 1;
    }
}

/// The project root of the files found: an error where none of them is transpiled, or where
/// those that are have different roots.
pub fn project_root(found: &Vec<SourceFile>) -> (r: Result<Vec<String>, String>)
    ensures
        (match r { Ok(y) => Ok(texts(y@)), Err(y) => Err(y@) }) == project_root_spec(source_files_v(found@)),
{
    proof {
        reveal(project_root_spec);
    }
    let (_, roots) = select_sources(found, 0, Vec::new(), Vec::new());
    agree_on(&roots, 1)
}

/// The configuration the arguments ask for. `found` are the files the inputs stand for,
/// `included` the paths that are only resolved against, `out_dir` the directory to write to.
pub fn resolve_config(args: &Args, found: &Vec<SourceFile>, included: &Vec<String>, out_dir: &str) -> (r: Result<Config, String>)
    ensures
        (match r { Ok(y) => Ok(y.v()), Err(y) => Err(y@) }) == resolve_config_spec(args.v(), source_files_v(found@), texts(included@), out_dir@),
{
    proof {
        reveal(resolve_config_spec);
    }
    match project_root(found) {
        Err(e) => Err(e),
        Ok(root) => {
            let (files, _) = select_sources(found, 0, Vec::new(), Vec::new());
            let mode = output_mode(args);
            let include_files = select_includes(included, &files);
            Ok(Config {
                root_dir: path_text(&root),
                files,
                include_files,
                out_dir: if mode == OutputMode::Files { out_dir.to_owned() } else { String::new() },
                force: args.force,
                extract_depth: if args.depth < 1 { 1usize } else { args.depth },
                no_traces: args.no_traces,
                mode,
                stdafx_stem: name_or(&args.stdafx, "StdAfx"),
                export_macro: name_or(&args.export_macro, "HATCHET"),
                header_only: header_only_stem(&args.header_only),
            })
        },
    }
}

/// What [`output_mode`] computes.
pub open spec fn output_mode_spec(args: ArgsV) -> OutputMode
{
    if args.dry_run { OutputMode::DryRun } else if args.stdout { OutputMode::Stdout } else { OutputMode::Files }
}

/// What [`name_or`] computes.
pub open spec fn name_or_spec(name: Seq<char>, default: Seq<char>) -> Seq<char>
{
    let text = trim_spec(name);
    if ((text).len() == 0) { default } else { text }
}

/// What [`without_suffix`] computes.
pub open spec fn without_suffix_spec(s: Seq<char>, suffix: Seq<char>) -> Seq<char>
{
    match between_spec(s, ""@, suffix) {
        Some(t) => { t },
        None => { s },
    }
}

/// What [`header_only_stem`] computes.
#[verifier::opaque]
pub open spec fn header_only_stem_spec(name: Option<Seq<char>>) -> Option<Seq<char>>
{
    match name {
        Some(n) => {
            let stem = without_suffix_spec(trim_spec(n), ".h"@);
            if ((stem).len() == 0) { None } else { Some(stem) }
        },
        None => { None },
    }
}

/// What [`is_glob`] computes.
pub open spec fn is_glob_spec(s: Seq<char>) -> bool
{
    let cs = s;
    (find_char_spec(cs, '*', 0int) < (cs.len())) || (find_char_spec(cs, '?', 0int) < (cs.len()))
}

/// What [`glob_at`] computes.
pub open spec fn glob_at_spec(pat: Seq<char>, path: Seq<char>, i: int, j: int) -> bool
    decreases pat.len() - i, path.len() - j,
{
    if !(0 <= i < pat.len()) { !(0 <= j < path.len()) } else {
        if (pat[i]) == '*' {
            if ((i + 1) < (pat.len())) && ((pat[i + 1]) == '*') {
                let k: int = if ((i + 2) < (pat.len())) && ((pat[i + 2]) == '/') { i + 3 } else { i + 2 };
                if glob_at_spec(pat, path, k, j) { true } else {
                    if !(0 <= j < path.len()) { false } else { glob_at_spec(pat, path, i, j + 1) }
                }
            } else {
                if glob_at_spec(pat, path, i + 1, j) { true } else {
                    if !(0 <= j < path.len()) || ((path[j]) == '/') { false } else { glob_at_spec(pat, path, i, j + 1) }
                }
            }
        } else {
            if !(0 <= j < path.len()) { false } else {
                if (pat[i]) == '?' { ((path[j]) != '/') && glob_at_spec(pat, path, i + 1, j + 1) } else { ((pat[i]) == (path[j])) && glob_at_spec(pat, path, i + 1, j + 1) }
            }
        }
    }
}

/// What [`glob_match`] computes.
pub open spec fn glob_match_spec(pattern: Seq<char>, path: Seq<char>) -> bool
{
    glob_at_spec(pattern, path, 0int, 0int)
}

/// What [`glob_base`] computes.
pub open spec fn glob_base_spec(pattern: Seq<char>) -> Seq<char>
{
    let parts = split_spec(pattern, '/');
    join_spec(plain_parts_spec(parts, 0int, Seq::empty()), "/"@)
}

/// What [`plain_parts`] computes.
pub open spec fn plain_parts_spec(parts: Seq<Seq<char>>, i: int, out: Seq<Seq<char>>) -> Seq<Seq<char>>
    decreases parts.len() - i,
{
    if !(0 <= i < parts.len()) || ((i + 1) >= (parts.len())) || is_glob_spec(parts[i]) { out } else {
        let out = out.push(parts[i]);
        let i = i + 1;
        plain_parts_spec(parts, i, out)
    }
}

/// What [`is_haxe`] computes.
pub open spec fn is_haxe_spec(path: Seq<char>) -> bool
{
    ((".hx"@).is_suffix_of(path)) && !(path == ".hx"@) && (!(("/.hx"@).is_suffix_of(path))) && (!(("\\.hx"@).is_suffix_of(path)))
}

/// What [`is_main`] computes.
pub open spec fn is_main_spec(path: Seq<char>) -> bool
{
    (path == "Main.hx"@) || (("/Main.hx"@).is_suffix_of(path)) || (("\\Main.hx"@).is_suffix_of(path))
}

/// What [`select_from`] computes.
pub open spec fn select_from_spec(found: Seq<Seq<char>>, taken: Seq<Seq<char>>, i: int, out: Seq<Seq<char>>) -> Seq<Seq<char>>
    decreases found.len() - i,
{
    if !(0 <= i < found.len()) { out } else {
        let out = if (!is_main_spec(found[i])) && !(taken.contains(found[i])) && !(out.contains(found[i])) {
            let out = out.push(found[i]);
            out
        } else { out };
        let i = i + 1;
        select_from_spec(found, taken, i, out)
    }
}

/// What [`select_files`] computes.
#[verifier::opaque]
pub open spec fn select_files_spec(found: Seq<Seq<char>>) -> Seq<Seq<char>>
{
    select_from_spec(found, Seq::empty(), 0int, Seq::empty())
}

/// What [`select_includes`] computes.
#[verifier::opaque]
pub open spec fn select_includes_spec(found: Seq<Seq<char>>, files: Seq<Seq<char>>) -> Seq<Seq<char>>
{
    select_from_spec(found, files, 0int, Seq::empty())
}

/// What [`skip_note`] computes.
pub open spec fn skip_note_spec(path: Seq<char>) -> Seq<char>
{
    if is_main_spec(path) { "Skipping "@ + path + " (Main.hx is never transpiled)."@ } else { Seq::empty() }
}

/// What [`ends_in`] computes.
pub open spec fn ends_in_spec(comps: Seq<Seq<char>>, package: Seq<Seq<char>>, i: int) -> bool
    decreases package.len() - i,
{
    if !(0 <= i < package.len()) { true } else {
        if !(comps[(comps.len()) - (package.len()) + i] == package[i]) { false } else {
            let i = i + 1;
            ends_in_spec(comps, package, i)
        }
    }
}

/// What [`first_parts`] computes.
pub open spec fn first_parts_spec(comps: Seq<Seq<char>>, n: int, i: int, out: Seq<Seq<char>>) -> Seq<Seq<char>>
    decreases comps.len() - i,
{
    if !(0 <= i < comps.len()) || (i >= n) { out } else {
        let out = out.push(comps[i]);
        let i = i + 1;
        first_parts_spec(comps, n, i, out)
    }
}

/// What [`infer_root`] computes.
#[verifier::opaque]
pub open spec fn infer_root_spec(comps: Seq<Seq<char>>, package: Seq<Seq<char>>) -> Seq<Seq<char>>
{
    if ((package.len()) <= (comps.len())) && ends_in_spec(comps, package, 0int) { first_parts_spec(comps, (comps.len()) - (package.len()), 0int, Seq::empty()) } else { comps }
}

/// What [`file_root`] computes.
pub open spec fn file_root_spec(f: SourceFileV) -> Seq<Seq<char>>
{
    infer_root_spec(f.dir, package_parts_spec(f.text))
}

/// What [`select_sources`] computes.
pub open spec fn select_sources_spec(found: Seq<SourceFileV>, i: int, files: Seq<Seq<char>>, roots: Seq<Seq<Seq<char>>>) -> (Seq<Seq<char>>, Seq<Seq<Seq<char>>>)
    decreases found.len() - i,
{
    if !(0 <= i < found.len()) { (files, roots) } else {
        let (files, roots) = if (!is_main_spec(found[i].path)) && !(files.contains(found[i].path)) {
            let files = files.push(found[i].path);
            let roots = roots.push(file_root_spec(found[i]));
            (files, roots)
        } else { (files, roots) };
        let i = i + 1;
        select_sources_spec(found, i, files, roots)
    }
}

/// What [`path_text_from`] computes.
pub open spec fn path_text_from_spec(parts: Seq<Seq<char>>, i: int, out: Seq<char>) -> Seq<char>
    decreases parts.len() - i,
{
    if !(0 <= i < parts.len()) { out } else {
        let out = if ((out).len() == 0) || (("/"@).is_suffix_of(out)) || (("\\"@).is_suffix_of(out)) { out + (parts[i]) } else { out + "/"@ + (parts[i]) };
        let i = i + 1;
        path_text_from_spec(parts, i, out)
    }
}

/// What [`path_text`] computes.
#[verifier::opaque]
pub open spec fn path_text_spec(parts: Seq<Seq<char>>) -> Seq<char>
{
    path_text_from_spec(parts, 0int, Seq::empty())
}

/// What [`agree_on`] computes.
pub open spec fn agree_on_spec(roots: Seq<Seq<Seq<char>>>, i: int) -> Result<Seq<Seq<char>>, Seq<char>>
    decreases roots.len() - i,
{
    if !(0 <= i < roots.len()) {
        if (roots.len()) > 0 { Ok(roots[0]) } else { Err("no transpilable .hx files given"@) }
    } else {
        if !same_path_spec(roots[0], roots[i]) {
            Err("files resolve to different project roots ("@ + path_text_spec(roots[0]) + " vs "@ + path_text_spec(roots[i]) + "); transpile one project at a time"@)
        } else {
            let i = i + 1;
            agree_on_spec(roots, i)
        }
    }
}

/// What [`project_root`] computes.
#[verifier::opaque]
pub open spec fn project_root_spec(found: Seq<SourceFileV>) -> Result<Seq<Seq<char>>, Seq<char>>
{
    let (_, roots) = select_sources_spec(found, 0int, Seq::empty(), Seq::empty());
    agree_on_spec(roots, 1int)
}

/// What [`resolve_config`] computes.
#[verifier::opaque]
pub open spec fn resolve_config_spec(args: ArgsV, found: Seq<SourceFileV>, included: Seq<Seq<char>>, out_dir: Seq<char>) -> Result<ConfigV, Seq<char>>
{
    match project_root_spec(found) {
        Err(e) => { Err(e) },
        Ok(root) => {
            let (files, _) = select_sources_spec(found, 0int, Seq::empty(), Seq::empty());
            let mode = output_mode_spec(args);
            let include_files = select_includes_spec(included, files);
            Ok(ConfigV { root_dir: path_text_spec(root), files, include_files, out_dir: if mode == (OutputMode::Files) { out_dir } else { Seq::empty() }, force: args.force, extract_depth: if args.depth < 1 { 1int } else { args.depth }, no_traces: args.no_traces, mode, stdafx_stem: name_or_spec(args.stdafx, "StdAfx"@), export_macro: name_or_spec(args.export_macro, "HATCHET"@), header_only: header_only_stem_spec(args.header_only) })
        },
    }
}

} // verus!
