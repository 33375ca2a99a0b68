//! What holds of includes that leave the generated tree.

use vstd::prelude::*;

use crate::cli::OutputMode;
use crate::program::ProgramV;
use crate::rebase::{agree_end_spec, climb_spec, parts_between_spec, rebase_includes_spec, rebase_parts_spec, ups_end_spec};

verus! {

broadcast use {crate::program::group_program, crate::text::group_texts};

/// Where the parts of a path from `i` on lead, from a directory: `..` leads up, a name down.
pub open spec fn walk(at: Seq<Seq<char>>, parts: Seq<Seq<char>>, i: int) -> Seq<Seq<char>>
    decreases parts.len() - i,
{
    if !(0 <= i < parts.len()) {
        at
    } else if parts[i] == ".."@ {
        walk(if at.len() > 0 { at.drop_last() } else { at }, parts, i + 1)
    } else {
        walk(at.push(parts[i]), parts, i + 1)
    }
}

proof fn steps_up(at: Seq<Seq<char>>, parts: Seq<Seq<char>>, i: int, n: int)
    requires
        0 <= i <= n <= parts.len(),
        n - i <= at.len(),
        forall|k: int| i <= k < n ==> #[trigger] parts[k] == ".."@,
    ensures
        walk(at, parts, i) == walk(at.take(at.len() - (n - i)), parts, n),
    decreases n - i,
{
    if i < n {
        assert(parts[i] == ".."@);
        steps_up(at.drop_last(), parts, i + 1, n);
        assert(at.drop_last().take(at.len() - (n - i)) =~= at.take(at.len() - (n - i)));
    } else {
        assert(at.take(at.len() as int) =~= at);
    }
}

proof fn steps_down(at: Seq<Seq<char>>, parts: Seq<Seq<char>>, i: int, n: int)
    requires
        0 <= i <= n <= parts.len(),
        forall|k: int| i <= k < n ==> #[trigger] parts[k] != ".."@,
    ensures
        walk(at, parts, i) == walk(at + parts.subrange(i, n), parts, n),
    decreases n - i,
{
    if i < n {
        assert(parts[i] != ".."@);
        steps_down(at.push(parts[i]), parts, i + 1, n);
        assert(at.push(parts[i]) + parts.subrange(i + 1, n) =~= at + parts.subrange(i, n));
    } else {
        assert(at + parts.subrange(i, n) =~= at);
    }
}

proof fn same_steps(at: Seq<Seq<char>>, a: Seq<Seq<char>>, i: int, b: Seq<Seq<char>>, j: int)
    requires
        0 <= i <= a.len(),
        0 <= j <= b.len(),
        a.skip(i) == b.skip(j),
    ensures
        walk(at, a, i) == walk(at, b, j),
    decreases a.len() - i,
{
    assert(a.skip(i).len() == a.len() - i);
    assert(b.skip(j).len() == b.len() - j);
    if i < a.len() {
        assert(a.skip(i)[0] == a[i]);
        assert(b.skip(j)[0] == b[j]);
        assert(a[i] == b[j]);
        assert(a.skip(i + 1) =~= a.skip(i).skip(1));
        assert(b.skip(j + 1) =~= b.skip(j).skip(1));
        let next = if a[i] == ".."@ { if at.len() > 0 { at.drop_last() } else { at } } else { at.push(a[i]) };
        same_steps(next, a, i + 1, b, j + 1);
        assert(walk(at, a, i) == walk(next, a, i + 1));
        assert(walk(at, b, j) == walk(next, b, j + 1));
    }
}

proof fn leading_ups(parts: Seq<Seq<char>>, i: int)
    requires
        0 <= i <= parts.len(),
    ensures
        i <= ups_end_spec(parts, i) <= parts.len(),
        forall|k: int| i <= k < ups_end_spec(parts, i) ==> #[trigger] parts[k] == ".."@,
    decreases parts.len() - i,
{
    if i < parts.len() && parts[i] == ".."@ {
        leading_ups(parts, i + 1);
    }
}

proof fn common_parts(a: Seq<Seq<char>>, b: Seq<Seq<char>>, n: int, i: int)
    requires
        0 <= i <= n,
        i <= a.len(),
        n <= b.len(),
        a.take(i) == b.take(i),
    ensures
        i <= agree_end_spec(a, b, n, i) <= n,
        agree_end_spec(a, b, n, i) <= a.len(),
        a.take(agree_end_spec(a, b, n, i)) == b.take(agree_end_spec(a, b, n, i)),
    decreases n - i,
{
    if i < n && i < a.len() && a[i] == b[i] {
        assert(a.take(i + 1) =~= a.take(i).push(a[i]));
        assert(b.take(i + 1) =~= b.take(i).push(b[i]));
        common_parts(a, b, n, i + 1);
    }
}

proof fn climbed(n: int, out: Seq<Seq<char>>)
    requires
        0 <= n,
    ensures
        climb_spec(n, out) == out + Seq::new(n as nat, |k: int| ".."@),
    decreases n,
{
    if n >= 1 {
        climbed(n - 1, out.push(".."@));
        assert(out.push(".."@) + Seq::new((n - 1) as nat, |k: int| ".."@) =~= out + Seq::new(n as nat, |k: int| ".."@));
    } else {
        assert(out + Seq::new(n as nat, |k: int| ".."@) =~= out);
    }
}

proof fn parts_added(parts: Seq<Seq<char>>, n: int, i: int, out: Seq<Seq<char>>)
    requires
        0 <= i <= n <= parts.len(),
    ensures
        parts_between_spec(parts, n, i, out) == out + parts.subrange(i, n),
    decreases n - i,
{
    if i < n {
        parts_added(parts, n, i + 1, out.push(parts[i]));
        assert(out.push(parts[i]) + parts.subrange(i + 1, n) =~= out + parts.subrange(i, n));
    } else {
        assert(out + parts.subrange(i, n) =~= out);
    }
}

/// A rewritten include names, from where the header is written, the file that it named from
/// where the source lies.
pub proof fn law_rebased_include_names_the_same_file(parts: Seq<Seq<char>>, dir: Seq<Seq<char>>, root: Seq<Seq<char>>, out: Seq<Seq<char>>)
    requires
        dir.len() < ups_end_spec(parts, 0) <= dir.len() + root.len(),
        forall|k: int| 0 <= k < root.len() ==> #[trigger] root[k] != ".."@,
    ensures
        walk(out + dir, rebase_parts_spec(parts, dir, root, out), 0) == walk(root + dir, parts, 0),
{
    reveal(rebase_parts_spec);
    leading_ups(parts, 0);
    let ups = ups_end_spec(parts, 0);
    let kept = root.len() - (ups - dir.len());
    parts_added(dir, dir.len() as int, 0, out);
    assert(dir.subrange(0, dir.len() as int) =~= dir);
    let base = out + dir;
    assert(base.take(0) =~= root.take(0));
    common_parts(base, root, kept, 0);
    let common = agree_end_spec(base, root, kept, 0);
    let steps = base.len() - common;
    climbed(steps, Seq::empty());
    let up = Seq::new(steps as nat, |k: int| ".."@);
    assert(Seq::<Seq<char>>::empty() + up =~= up);
    parts_added(root, kept, common, up);
    let down = up + root.subrange(common, kept);
    parts_added(parts, parts.len() as int, ups, down);
    let all = down + parts.subrange(ups, parts.len() as int);
    assert(rebase_parts_spec(parts, dir, root, out) == all);
    // from the output up to what both have in common, then down to what is kept of the root
    steps_up(base, all, 0, steps);
    assert(base.take(base.len() - steps) =~= base.take(common));
    let n = steps + (kept - common);
    assert forall|k: int| steps <= k < n implies #[trigger] all[k] != ".."@ by {
        assert(all[k] == root[k - steps + common]);
    }
    steps_down(base.take(common), all, steps, n);
    assert(all.subrange(steps, n) =~= root.subrange(common, kept));
    assert(root.take(common) + root.subrange(common, kept) =~= root.take(kept));
    // from the source up to the same directory
    steps_up(root + dir, parts, 0, ups);
    assert((root + dir).take(root.len() + dir.len() - ups) =~= root.take(kept));
    assert(all.skip(n) =~= parts.skip(ups));
    same_steps(root.take(kept), all, n, parts, ups);
}

/// An include that stays in the tree is kept as it is.
pub proof fn law_include_in_the_tree_is_kept(parts: Seq<Seq<char>>, dir: Seq<Seq<char>>, root: Seq<Seq<char>>, out: Seq<Seq<char>>)
    requires
        ups_end_spec(parts, 0) <= dir.len(),
    ensures
        rebase_parts_spec(parts, dir, root, out) == parts,
{
    reveal(rebase_parts_spec);
}

/// Where nothing moves, nothing is rewritten.
pub proof fn law_output_in_place_is_kept(prog: ProgramV, mode: OutputMode, root: Seq<Seq<char>>, out: Seq<Seq<char>>)
    requires
        mode != OutputMode::Files || root == out,
    ensures
        rebase_includes_spec(prog, mode, root, out) == prog,
{
    reveal(rebase_includes_spec);
}

} // verus!
