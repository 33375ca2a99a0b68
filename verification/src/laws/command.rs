//! What holds of the files that a command line selects.

use vstd::prelude::*;

use crate::cli::{ends_in_spec, first_parts_spec, header_only_stem_spec, infer_root_spec, is_main_spec, select_files_spec, select_from_spec, select_includes_spec};
use crate::parser::pp::trim_spec;

verus! {

broadcast use {crate::text::group_texts};

proof fn selected(found: Seq<Seq<char>>, taken: Seq<Seq<char>>, i: int, out: Seq<Seq<char>>)
    requires
        0 <= i <= found.len(),
        out.no_duplicates(),
        forall|k: int| 0 <= k < out.len() ==> !is_main_spec(#[trigger] out[k]) && !taken.contains(out[k]) && found.contains(out[k]),
    ensures
        ({
            let r = select_from_spec(found, taken, i, out);
            &&& r.no_duplicates()
            &&& forall|k: int| 0 <= k < r.len() ==> !is_main_spec(#[trigger] r[k]) && !taken.contains(r[k]) && found.contains(r[k])
            &&& forall|x: Seq<char>| #[trigger] out.contains(x) ==> r.contains(x)
            &&& forall|k: int| i <= k < found.len() && !is_main_spec(#[trigger] found[k]) && !taken.contains(found[k]) ==> r.contains(found[k])
        }),
    decreases found.len() - i,
{
    if i < found.len() {
        let x = found[i];
        assert(found.contains(x));
        if !is_main_spec(x) && !taken.contains(x) && !out.contains(x) {
            let more = out.push(x);
            assert forall|k: int| 0 <= k < more.len() implies !is_main_spec(#[trigger] more[k]) && !taken.contains(more[k]) && found.contains(more[k]) by {
                if k < out.len() {
                    assert(more[k] == out[k]);
                }
            }
            selected(found, taken, i + 1, more);
            assert forall|y: Seq<char>| #[trigger] out.contains(y) implies more.contains(y) by {
                let k = choose|k: int| 0 <= k < out.len() && out[k] == y;
                assert(more[k] == y);
            }
            assert(more[out.len() as int] == x);
            assert(more.contains(x));
        } else {
            selected(found, taken, i + 1, out);
        }
    }
}

/// The files to transpile are those found without the entry point, each once.
pub proof fn law_selected_files(found: Seq<Seq<char>>)
    ensures
        select_files_spec(found).no_duplicates(),
        forall|x: Seq<char>| #[trigger] select_files_spec(found).contains(x) <==> found.contains(x) && !is_main_spec(x),
{
    reveal(select_files_spec);
    let none = Seq::<Seq<char>>::empty();
    selected(found, none, 0, none);
    let r = select_files_spec(found);
    assert forall|x: Seq<char>| #[trigger] r.contains(x) <==> found.contains(x) && !is_main_spec(x) by {
        if r.contains(x) {
            let k = choose|k: int| 0 <= k < r.len() && r[k] == x;
            assert(found.contains(r[k]));
        }
        if found.contains(x) && !is_main_spec(x) {
            let k = choose|k: int| 0 <= k < found.len() && found[k] == x;
            assert(!none.contains(found[k]));
        }
    }
}

/// The files that are only resolved against are those found that are not transpiled, without
/// the entry point, each once.
pub proof fn law_selected_includes(found: Seq<Seq<char>>, files: Seq<Seq<char>>)
    ensures
        select_includes_spec(found, files).no_duplicates(),
        forall|x: Seq<char>| #[trigger] select_includes_spec(found, files).contains(x) <==> found.contains(x) && !is_main_spec(x) && !files.contains(x),
{
    reveal(select_includes_spec);
    let none = Seq::<Seq<char>>::empty();
    selected(found, files, 0, none);
    let r = select_includes_spec(found, files);
    assert forall|x: Seq<char>| #[trigger] r.contains(x) <==> found.contains(x) && !is_main_spec(x) && !files.contains(x) by {
        if r.contains(x) {
            let k = choose|k: int| 0 <= k < r.len() && r[k] == x;
            assert(found.contains(r[k]));
        }
        if found.contains(x) && !is_main_spec(x) && !files.contains(x) {
            let k = choose|k: int| 0 <= k < found.len() && found[k] == x;
            assert(!files.contains(found[k]));
        }
    }
}

proof fn ends_in_means(comps: Seq<Seq<char>>, package: Seq<Seq<char>>, i: int, k: int)
    requires
        package.len() <= comps.len(),
        0 <= i <= k < package.len(),
        ends_in_spec(comps, package, i),
    ensures
        comps[comps.len() - package.len() + k] == package[k],
    decreases k - i,
{
    if i < k {
        ends_in_means(comps, package, i + 1, k);
    }
}

proof fn first_parts_are(comps: Seq<Seq<char>>, n: int, i: int, out: Seq<Seq<char>>)
    requires
        0 <= i <= n <= comps.len(),
        out == comps.subrange(0, i),
    ensures
        first_parts_spec(comps, n, i, out) == comps.subrange(0, n),
    decreases n - i,
{
    if i < n {
        assert(out.push(comps[i]) =~= comps.subrange(0, i + 1));
        first_parts_are(comps, n, i + 1, out.push(comps[i]));
    }
}

/// The root of a file whose directory ends in its package is what is in front of the package.
pub proof fn law_root_in_front_of_package(comps: Seq<Seq<char>>, package: Seq<Seq<char>>)
    ensures
        infer_root_spec(comps, package) + package == comps || infer_root_spec(comps, package) == comps,
        forall|root: Seq<Seq<char>>| #[trigger] (root + package) == comps ==> infer_root_spec(comps, package) == root,
{
    reveal(infer_root_spec);
    let n = comps.len() - package.len();
    if package.len() <= comps.len() && ends_in_spec(comps, package, 0) {
        assert(Seq::<Seq<char>>::empty() =~= comps.subrange(0, 0));
        first_parts_are(comps, n, 0, Seq::empty());
        let root = comps.subrange(0, n);
        assert forall|k: int| 0 <= k < comps.len() implies (root + package)[k] == comps[k] by {
            if k >= n {
                ends_in_means(comps, package, 0, k - n);
            }
        }
        assert(root + package =~= comps);
        assert forall|other: Seq<Seq<char>>| #[trigger] (other + package) == comps implies other == root by {
            assert(other =~= (other + package).subrange(0, other.len() as int));
            assert(other.len() == n);
        }
    } else {
        assert forall|other: Seq<Seq<char>>| #[trigger] (other + package) == comps implies false by {
            assert(package.len() <= comps.len());
            matching_end(comps, package, other, 0);
        }
    }
}

proof fn matching_end(comps: Seq<Seq<char>>, package: Seq<Seq<char>>, root: Seq<Seq<char>>, i: int)
    requires
        root + package == comps,
        0 <= i <= package.len(),
    ensures
        ends_in_spec(comps, package, i),
    decreases package.len() - i,
{
    if i < package.len() {
        assert((root + package)[root.len() + i] == package[i]);
        assert(comps.len() - package.len() + i == root.len() + i);
        matching_end(comps, package, root, i + 1);
    }
}

/// The single header can be named with its extension or without it.
pub proof fn law_header_extension_is_redundant(name: Seq<char>)
    requires
        name.len() > 0,
        trim_spec(name) == name,
        trim_spec(name + ".h"@) == name + ".h"@,
        !(".h"@).is_suffix_of(name),
    ensures
        header_only_stem_spec(Some(name)) == Some(name),
        header_only_stem_spec(Some(name + ".h"@)) == Some(name),
{
    reveal(header_only_stem_spec);
    reveal_strlit("");
    reveal_strlit(".h");
    let full = name + ".h"@;
    assert(""@ =~= full.subrange(0, 0));
    assert(".h"@ =~= full.subrange(full.len() - 2, full.len() as int));
    assert(full.subrange(0, full.len() - 2) =~= name);
}

} // verus!
