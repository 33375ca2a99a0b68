//! Includes that leave the generated tree.
//!
//! A header may include what lies outside of the project, by a path that climbs out of its
//! root. Where the output goes to another place than the root, such a path is rewritten so that
//! it still names the same file.

use vstd::prelude::*;

use crate::cli::OutputMode;
use crate::program::{Module, ModuleV, Program, ProgramV, modules_v};
use crate::resolve::{same_path, same_path_spec};
use crate::strings::{join, join_spec, split, split_spec, starts_with};
use crate::text::{dup_texts, same, texts};

verus! {

broadcast use {crate::program::group_program, crate::text::group_texts};

/// The first part from `i` on that does not step up.
pub fn ups_end(parts: &Vec<String>, i: usize) -> (r: usize)
    ensures
        (r as int) == ups_end_spec(texts(parts@), (i as int)),
        i <= parts.len() ==> i <= r <= parts.len(),
{
    let ghost i_0 = i;
    let mut i: usize = i;
    #[verifier::loop_isolation(false)]
    loop
        invariant
            ups_end_spec(texts(parts@), (i_0 as int)) == ups_end_spec(texts(parts@), (i as int)),
            i_0 <= i,
            i_0 <= parts.len() ==> i <= parts.len(),
        decreases parts.len() - i,
    {
        if i < parts.len() && same(&parts[i], "..") {
            i = i + 1;
        } else {
            return i;
        }
    }
}

/// Where two paths stop to agree, from `i` on and no further than `n`.
pub fn agree_end(a: &Vec<String>, b: &Vec<String>, n: usize, i: usize) -> (r: usize)
    ensures
        (r as int) == agree_end_spec(texts(a@), texts(b@), (n as int), (i as int)),
        i <= a.len() ==> r <= a.len(),
{
    let ghost i_0 = i;
    let mut i: usize = i;
    #[verifier::loop_isolation(false)]
    loop
        invariant
            agree_end_spec(texts(a@), texts(b@), (n as int), (i_0 as int)) == agree_end_spec(texts(a@), texts(b@), (n as int), (i as int)),
            i_0 <= a.len() ==> i <= a.len(),
        decreases n - i,
    {
        if i < n && i < a.len() && i < b.len() && same(&a[i], &b[i]) {
            i = i + 1;
        } else {
            return i;
        }
    }
}

/// `n` steps up, behind `out`.
pub fn climb(n: usize, out: Vec<String>) -> (r: Vec<String>)
    ensures
        texts(r@) == climb_spec((n as int), texts(out@)),
{
    let ghost n_0 = n;
    let ghost out_0 = out;
    let mut n: usize = n;
    let mut out: Vec<String> = out;
    #[verifier::loop_isolation(false)]
    loop
        invariant
            climb_spec((n_0 as int), texts(out_0@)) == climb_spec((n as int), texts(out@)),
        decreases n,
    {
        if n < 1 {
            return out;
        }
        out.push("..".to_owned());
        n = n - 1;
    }
}

/// The parts from `i` up to `n`, behind `out`.
pub fn parts_between(parts: &Vec<String>, n: usize, i: usize, out: Vec<String>) -> (r: Vec<String>)
    ensures
        texts(r@) == parts_between_spec(texts(parts@), (n as int), (i as int), texts(out@)),
{
    let ghost i_0 = i;
    let ghost out_0 = out;
    let mut i: usize = i;
    let mut out: Vec<String> = out;
    #[verifier::loop_isolation(false)]
    loop
        invariant
            parts_between_spec(texts(parts@), (n as int), (i_0 as int), texts(out_0@)) == parts_between_spec(texts(parts@), (n as int), (i as int), texts(out@)),
        decreases parts.len() - i,
    {
        if i >= parts.len() || i >= n {
            return out;
        }
        out.push(parts[i].clone());
        i = i + 1;
    }
}

/// The parts of a path that a header in `dir` includes, for the tree that goes from `root` to
/// `out`. A path that stays in the tree is kept.
pub fn rebase_parts(parts: &Vec<String>, dir: &Vec<String>, root: &Vec<String>, out: &Vec<String>) -> (r: Vec<String>)
    ensures
        texts(r@) == rebase_parts_spec(texts(parts@), texts(dir@), texts(root@), texts(out@)),
{
    proof {
        reveal(rebase_parts_spec);
    }
    let ups: usize = ups_end(parts, 0);
    if ups <= dir.len() || ups - dir.len() > root.len() {
        return dup_texts(parts);
    }
    let kept: usize = root.len() - (ups - dir.len());
    let base = parts_between(dir, dir.len(), 0, dup_texts(out));
    let common: usize = agree_end(&base, root, kept, 0);
    let up = climb(base.len() - common, Vec::new());
    let down = parts_between(root, kept, common, up);
    parts_between(parts, parts.len(), ups, down)
}

/// A path that a header in `dir` includes, for the tree that goes from `root` to `out`. A header
/// of the system is kept.
pub fn rebase_include(path: &str, dir: &Vec<String>, root: &Vec<String>, out: &Vec<String>) -> (r: String)
    ensures
        r@ == rebase_include_spec(path@, texts(dir@), texts(root@), texts(out@)),
{
    proof {
        reveal(rebase_include_spec);
    }
    if starts_with(path, "<") {
        return path.to_owned();
    }
    join(&rebase_parts(&split(path, '/'), dir, root, out), "/")
}

/// The paths from `i` on, rewritten.
pub fn rebased_paths(paths: &Vec<String>, dir: &Vec<String>, root: &Vec<String>, out: &Vec<String>, i: usize, done: Vec<String>) -> (r: Vec<String>)
    ensures
        texts(r@) == rebased_paths_spec(texts(paths@), texts(dir@), texts(root@), texts(out@), (i as int), texts(done@)),
{
    let ghost i_0 = i;
    let ghost done_0 = done;
    let mut i: usize = i;
    let mut done: Vec<String> = done;
    #[verifier::loop_isolation(false)]
    loop
        invariant
            rebased_paths_spec(texts(paths@), texts(dir@), texts(root@), texts(out@), (i_0 as int), texts(done_0@)) == rebased_paths_spec(texts(paths@), texts(dir@), texts(root@), texts(out@), (i as int), texts(done@)),
        decreases paths.len() - i,
    {
        if i >= paths.len() {
            return done;
        }
        done.push(rebase_include(&paths[i], dir, root, out));
        i = i + 1;
    }
}

/// The modules from `i` on with their includes rewritten.
pub fn rebased_from(modules: &Vec<Module>, root: &Vec<String>, out: &Vec<String>, i: usize, done: Vec<Module>) -> (r: Vec<Module>)
    ensures
        modules_v(r@) == rebased_from_spec(modules_v(modules@), texts(root@), texts(out@), (i as int), modules_v(done@)),
{
    let ghost i_0 = i;
    let ghost done_0 = done;
    let mut i: usize = i;
    let mut done: Vec<Module> = done;
    #[verifier::loop_isolation(false)]
    loop
        invariant
            rebased_from_spec(modules_v(modules@), texts(root@), texts(out@), (i_0 as int), modules_v(done_0@)) == rebased_from_spec(modules_v(modules@), texts(root@), texts(out@), (i as int), modules_v(done@)),
        decreases modules.len() - i,
    {
        if i >= modules.len() {
            return done;
        }
        let m = &modules[i];
        done.push(Module {
            stem: m.stem.clone(),
            dir: dup_texts(&m.dir),
            package: dup_texts(&m.package),
            file: m.file.dup(),
            is_stdafx: m.is_stdafx,
            is_include: m.is_include,
            has_header: m.has_header,
            includes: rebased_paths(&m.includes, &m.dir, root, out, 0, Vec::new()),
        });
        i = i + 1;
    }
}

/// Whether includes must be rewritten: files are written, and to another place than the root.
pub fn moves(mode: OutputMode, root: &Vec<String>, out: &Vec<String>) -> (r: bool)
    ensures
        r == moves_spec(mode, texts(root@), texts(out@)),
{
    mode == OutputMode::Files && !same_path(root, out)
}

/// The modules of a program for the tree that goes from `root` to `out`.
pub fn rebase_includes(prog: Program, mode: OutputMode, root: &Vec<String>, out: &Vec<String>) -> (r: Program)
    ensures
        r.v() == rebase_includes_spec(prog.v(), mode, texts(root@), texts(out@)),
{
    proof {
        reveal(rebase_includes_spec);
    }
    if !moves(mode, root, out) {
        return prog;
    }
    let modules = rebased_from(&prog.modules, root, out, 0, Vec::new());
    Program {
        modules,
        types: prog.types,
        facts: prog.facts,
        stdafx_stem: prog.stdafx_stem,
        export_macro: prog.export_macro,
        no_trace: prog.no_trace,
        extract_depth: prog.extract_depth,
    }
}

/// What [`ups_end`] computes.
pub open spec fn ups_end_spec(parts: Seq<Seq<char>>, i: int) -> int
    decreases parts.len() - i,
{
    if (i < (parts.len())) && (parts[i] == ".."@) {
        let i = i + 1;
        ups_end_spec(parts, i)
    } else { i }
}

/// What [`agree_end`] computes.
pub open spec fn agree_end_spec(a: Seq<Seq<char>>, b: Seq<Seq<char>>, n: int, i: int) -> int
    decreases n - i,
{
    if (i < n) && (i < (a.len())) && (i < (b.len())) && (a[i] == b[i]) {
        let i = i + 1;
        agree_end_spec(a, b, n, i)
    } else { i }
}

/// What [`climb`] computes.
pub open spec fn climb_spec(n: int, out: Seq<Seq<char>>) -> Seq<Seq<char>>
    decreases n,
{
    if n < 1 { out } else {
        let out = out.push(".."@);
        let n = n - 1;
        climb_spec(n, out)
    }
}

/// What [`parts_between`] computes.
pub open spec fn parts_between_spec(parts: Seq<Seq<char>>, n: int, i: int, out: Seq<Seq<char>>) -> Seq<Seq<char>>
    decreases parts.len() - i,
{
    if !(0 <= i < parts.len()) || (i >= n) { out } else {
        let out = out.push(parts[i]);
        let i = i + 1;
        parts_between_spec(parts, n, i, out)
    }
}

/// What [`rebase_parts`] computes.
#[verifier::opaque]
pub open spec fn rebase_parts_spec(parts: Seq<Seq<char>>, dir: Seq<Seq<char>>, root: Seq<Seq<char>>, out: Seq<Seq<char>>) -> Seq<Seq<char>>
{
    let ups: int = ups_end_spec(parts, 0int);
    if (ups <= (dir.len())) || ((ups - (dir.len())) > (root.len())) { parts } else {
        let kept: int = (root.len()) - (ups - (dir.len()));
        let base = parts_between_spec(dir, dir.len() as int, 0int, out);
        let common: int = agree_end_spec(base, root, kept, 0int);
        let up = climb_spec((base.len()) - common, Seq::empty());
        let down = parts_between_spec(root, kept, common, up);
        parts_between_spec(parts, parts.len() as int, ups, down)
    }
}

/// What [`rebase_include`] computes.
#[verifier::opaque]
pub open spec fn rebase_include_spec(path: Seq<char>, dir: Seq<Seq<char>>, root: Seq<Seq<char>>, out: Seq<Seq<char>>) -> Seq<char>
{
    if ("<"@).is_prefix_of(path) { path } else { join_spec(rebase_parts_spec(split_spec(path, '/'), dir, root, out), "/"@) }
}

/// What [`rebased_paths`] computes.
pub open spec fn rebased_paths_spec(paths: Seq<Seq<char>>, dir: Seq<Seq<char>>, root: Seq<Seq<char>>, out: Seq<Seq<char>>, i: int, done: Seq<Seq<char>>) -> Seq<Seq<char>>
    decreases paths.len() - i,
{
    if !(0 <= i < paths.len()) { done } else {
        let done = done.push(rebase_include_spec(paths[i], dir, root, out));
        let i = i + 1;
        rebased_paths_spec(paths, dir, root, out, i, done)
    }
}

/// What [`rebased_from`] computes.
pub open spec fn rebased_from_spec(modules: Seq<ModuleV>, root: Seq<Seq<char>>, out: Seq<Seq<char>>, i: int, done: Seq<ModuleV>) -> Seq<ModuleV>
    decreases modules.len() - i,
{
    if !(0 <= i < modules.len()) { done } else {
        let m = modules[i];
        let done = done.push(ModuleV { stem: m.stem, dir: m.dir, package: m.package, file: m.file, is_stdafx: m.is_stdafx, is_include: m.is_include, has_header: m.has_header, includes: rebased_paths_spec(m.includes, m.dir, root, out, 0int, Seq::empty()) });
        let i = i + 1;
        rebased_from_spec(modules, root, out, i, done)
    }
}

/// What [`moves`] computes.
pub open spec fn moves_spec(mode: OutputMode, root: Seq<Seq<char>>, out: Seq<Seq<char>>) -> bool
{
    (mode == (OutputMode::Files)) && (!same_path_spec(root, out))
}

/// What [`rebase_includes`] computes.
#[verifier::opaque]
pub open spec fn rebase_includes_spec(prog: ProgramV, mode: OutputMode, root: Seq<Seq<char>>, out: Seq<Seq<char>>) -> ProgramV
{
    if !moves_spec(mode, root, out) { prog } else {
        let modules = rebased_from_spec(prog.modules, root, out, 0int, Seq::empty());
        ProgramV { modules, types: prog.types, facts: prog.facts, stdafx_stem: prog.stdafx_stem, export_macro: prog.export_macro, no_trace: prog.no_trace, extract_depth: prog.extract_depth }
    }
}

} // verus!
