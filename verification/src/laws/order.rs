//! What holds of the directories that get a prelude header.

use vstd::prelude::*;

use crate::cli::ConfigV;
use crate::driver::{chars_before_spec, count_transpiled_spec, dir_before_spec, insert_dir_spec, is_transpiled_spec, opening_spec, plan_clean_module_spec, plan_module_spec, plan_modules_spec, plan_run_spec, rest_dirs_spec, text_before_spec};
use crate::lexer::inc_spec;
use crate::program::{ModuleV, ProgramV};
use crate::report::{FindingsV, HeaderDirV, PlanV};

verus! {

broadcast use {crate::program::group_program, crate::report::group_report, crate::text::group_texts};

proof fn characters_are_ordered(a: Seq<char>, b: Seq<char>, c: Seq<char>, i: int)
    requires
        0 <= i,
        i <= a.len(),
        i <= b.len(),
    ensures
        !chars_before_spec(a, a, i),
        chars_before_spec(a, b, i) && chars_before_spec(b, c, i) ==> chars_before_spec(a, c, i),
        !chars_before_spec(a, b, i) && !chars_before_spec(b, a, i) ==> a.skip(i) == b.skip(i),
    decreases a.len() - i,
{
    if i < a.len() && i < b.len() {
        characters_are_ordered(a, b, c, i + 1);
        if !chars_before_spec(a, b, i) && !chars_before_spec(b, a, i) {
            assert(a[i] == b[i]);
            assert(a.skip(i) =~= seq![a[i]] + a.skip(i + 1));
            assert(b.skip(i) =~= seq![b[i]] + b.skip(i + 1));
        }
    } else if i < a.len() {
        characters_are_ordered(a, a, c, i + 1);
    } else {
        assert(i == b.len() ==> a.skip(i) =~= b.skip(i));
    }
}

/// Texts are in one order: none comes before itself, what comes before a text comes before
/// all that the text comes before, and of two different texts one comes before the other.
pub proof fn law_texts_are_ordered(a: Seq<char>, b: Seq<char>, c: Seq<char>)
    ensures
        !text_before_spec(a, a),
        text_before_spec(a, b) && text_before_spec(b, c) ==> text_before_spec(a, c),
        a != b ==> text_before_spec(a, b) || text_before_spec(b, a),
{
    characters_are_ordered(a, b, c, 0);
    assert(a.skip(0) =~= a);
    assert(b.skip(0) =~= b);
}

proof fn parts_are_ordered(a: Seq<Seq<char>>, b: Seq<Seq<char>>, c: Seq<Seq<char>>, i: int)
    requires
        0 <= i,
        i <= a.len(),
        i <= b.len(),
    ensures
        !dir_before_spec(a, a, i),
        dir_before_spec(a, b, i) && dir_before_spec(b, c, i) ==> dir_before_spec(a, c, i),
        !dir_before_spec(a, b, i) && !dir_before_spec(b, a, i) ==> a.skip(i) == b.skip(i),
    decreases a.len() - i,
{
    if i < a.len() && i < b.len() {
        parts_are_ordered(a, b, c, i + 1);
        law_texts_are_ordered(a[i], b[i], a[i]);
        if i < c.len() {
            law_texts_are_ordered(a[i], b[i], c[i]);
        }
        if !dir_before_spec(a, b, i) && !dir_before_spec(b, a, i) {
            assert(a[i] == b[i]);
            assert(a.skip(i) =~= seq![a[i]] + a.skip(i + 1));
            assert(b.skip(i) =~= seq![b[i]] + b.skip(i + 1));
        }
    } else if i < a.len() {
        parts_are_ordered(a, a, c, i + 1);
    } else {
        assert(i == b.len() ==> a.skip(i) =~= b.skip(i));
    }
}

/// Directories are in one order, as texts are.
pub proof fn law_directories_are_ordered(a: Seq<Seq<char>>, b: Seq<Seq<char>>, c: Seq<Seq<char>>)
    ensures
        !dir_before_spec(a, a, 0),
        dir_before_spec(a, b, 0) && dir_before_spec(b, c, 0) ==> dir_before_spec(a, c, 0),
        a != b ==> dir_before_spec(a, b, 0) || dir_before_spec(b, a, 0),
{
    parts_are_ordered(a, b, c, 0);
    assert(a.skip(0) =~= a);
    assert(b.skip(0) =~= b);
}

/// Whether directories stand in their order, none of them twice.
pub open spec fn are_sorted(dirs: Seq<HeaderDirV>) -> bool {
    forall|j: int, k: int| 0 <= j < k < dirs.len() ==> dir_before_spec((#[trigger] dirs[j]).dir, (#[trigger] dirs[k]).dir, 0)
}

proof fn rest_is_added(dirs: Seq<HeaderDirV>, i: int, out: Seq<HeaderDirV>)
    requires
        0 <= i <= dirs.len(),
    ensures
        rest_dirs_spec(dirs, i, out) == out + dirs.skip(i),
    decreases dirs.len() - i,
{
    if i < dirs.len() {
        rest_is_added(dirs, i + 1, out.push(dirs[i]));
        assert(out.push(dirs[i]) + dirs.skip(i + 1) =~= out + dirs.skip(i));
    } else {
        assert(out + dirs.skip(i) =~= out);
    }
}

/// Where a directory goes: behind those that come before it, in place of itself.
pub open spec fn inserted_at(dirs: Seq<HeaderDirV>, dir: Seq<Seq<char>>, k: int) -> bool {
    &&& 0 <= k <= dirs.len()
    &&& forall|j: int| 0 <= j < k ==> dir_before_spec((#[trigger] dirs[j]).dir, dir, 0)
    &&& k < dirs.len() ==> dirs[k].dir == dir || dir_before_spec(dir, dirs[k].dir, 0)
}

/// The directories with one inserted at `k`.
pub open spec fn with_dir(dirs: Seq<HeaderDirV>, new: HeaderDirV, k: int) -> Seq<HeaderDirV> {
    dirs.take(k).push(new) + dirs.skip(if k < dirs.len() && dirs[k].dir == new.dir { k + 1 } else { k })
}

proof fn goes_in(dirs: Seq<HeaderDirV>, new: HeaderDirV, i: int) -> (k: int)
    requires
        are_sorted(dirs),
        0 <= i <= dirs.len(),
        forall|j: int| 0 <= j < i ==> dir_before_spec((#[trigger] dirs[j]).dir, new.dir, 0),
    ensures
        inserted_at(dirs, new.dir, k),
        insert_dir_spec(dirs, new.dir, new.package, i, dirs.take(i)) == with_dir(dirs, new, k),
    decreases dirs.len() - i,
{
    let out = dirs.take(i);
    if i == dirs.len() {
        assert(out.push(new) =~= with_dir(dirs, new, i));
        i
    } else if dirs[i].dir == new.dir {
        rest_is_added(dirs, i + 1, out.push(new));
        i
    } else if dir_before_spec(new.dir, dirs[i].dir, 0) {
        rest_is_added(dirs, i, out.push(new));
        i
    } else {
        law_directories_are_ordered(new.dir, dirs[i].dir, new.dir);
        assert(out.push(dirs[i]) =~= dirs.take(i + 1));
        goes_in(dirs, new, i + 1)
    }
}

/// A directory is inserted where it belongs and keeps all of them in order; one that is there
/// already gets the new package, and the others stay what they are.
pub proof fn law_insertion_keeps_the_order(dirs: Seq<HeaderDirV>, dir: Seq<Seq<char>>, package: Seq<Seq<char>>)
    requires
        are_sorted(dirs),
    ensures
        are_sorted(insert_dir_spec(dirs, dir, package, 0, Seq::empty())),
        insert_dir_spec(dirs, dir, package, 0, Seq::empty()).contains(HeaderDirV { dir, package }),
        forall|other: HeaderDirV| other.dir != dir ==> (#[trigger] insert_dir_spec(dirs, dir, package, 0, Seq::empty()).contains(other)
            <==> dirs.contains(other)),
{
    let new = HeaderDirV { dir, package };
    assert(dirs.take(0) =~= Seq::empty());
    let k = goes_in(dirs, new, 0);
    let all = with_dir(dirs, new, k);
    let from = if k < dirs.len() && dirs[k].dir == dir { k + 1 } else { k };
    assert(all[k] == new);
    assert forall|j: int| 0 <= j < all.len() implies (#[trigger] all[j]) == (if j < k { dirs[j] } else if j == k { new } else { dirs[j - k - 1 + from] }) by {}
    assert forall|j: int| from <= j < dirs.len() implies dir_before_spec(dir, (#[trigger] dirs[j]).dir, 0) by {
        if k < j {
            assert(dir_before_spec(dirs[k].dir, dirs[j].dir, 0));
            law_directories_are_ordered(dir, dirs[k].dir, dirs[j].dir);
        }
    }
    assert forall|x: int, y: int| 0 <= x < y < all.len() implies dir_before_spec((#[trigger] all[x]).dir, (#[trigger] all[y]).dir, 0) by {
        if x < k && k < y {
            let z = y - k - 1 + from;
            assert(dir_before_spec(dirs[x].dir, dirs[z].dir, 0));
        }
    }
    assert forall|other: HeaderDirV| other.dir != dir implies (#[trigger] all.contains(other) <==> dirs.contains(other)) by {
        if all.contains(other) {
            let x = choose|x: int| 0 <= x < all.len() && all[x] == other;
            assert(dirs[if x < k { x } else { x - k - 1 + from }] == other);
        }
        if dirs.contains(other) {
            let z = choose|z: int| 0 <= z < dirs.len() && dirs[z] == other;
            assert(all[if z < k { z } else { z - from + k + 1 }] == other);
        }
    }
}

proof fn module_keeps_the_order(prog: ProgramV, cfg: ConfigV, findings: Seq<FindingsV>, i: int, m: ModuleV, nth: int, total: int, plan: PlanV)
    requires
        are_sorted(plan.dirs),
    ensures
        are_sorted(plan_module_spec(prog, cfg, findings, i, m, nth, total, plan).dirs),
{
    reveal(plan_module_spec);
    reveal(plan_clean_module_spec);
    law_insertion_keeps_the_order(plan.dirs, m.dir, m.package);
}

proof fn modules_keep_the_order(prog: ProgramV, cfg: ConfigV, findings: Seq<FindingsV>, total: int, i: int, done: int, plan: PlanV)
    requires
        0 <= i <= prog.modules.len(),
        are_sorted(plan.dirs),
    ensures
        are_sorted(plan_modules_spec(prog, cfg, findings, total, i, done, plan).dirs),
    decreases prog.modules.len() - i,
{
    if i < prog.modules.len() {
        if is_transpiled_spec(prog.modules[i]) {
            let nth = inc_spec(done);
            module_keeps_the_order(prog, cfg, findings, i, prog.modules[i], nth, total, plan);
            let next = plan_module_spec(prog, cfg, findings, i, prog.modules[i], nth, total, plan);
            modules_keep_the_order(prog, cfg, findings, total, i + 1, nth, next);
        } else {
            modules_keep_the_order(prog, cfg, findings, total, i + 1, done, plan);
        }
    }
}

/// The directories that a run writes a prelude header to stand in their order, each once.
pub proof fn law_preludes_are_in_order(prog: ProgramV, cfg: ConfigV, findings: Seq<FindingsV>)
    requires
        cfg.header_only is None,
    ensures
        are_sorted(plan_run_spec(prog, cfg, findings).dirs),
{
    reveal(plan_run_spec);
    let start = PlanV { steps: opening_spec(cfg), errors: Seq::empty(), dirs: Seq::empty() };
    let total: int = count_transpiled_spec(prog.modules, 0int, 0int);
    modules_keep_the_order(prog, cfg, findings, total, 0, 0, start);
}

} // verus!
