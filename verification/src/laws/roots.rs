//! What holds of the project root of the files that a command line selects.

use vstd::prelude::*;

use crate::cli::{ArgsV, agree_on_spec, file_root_spec, infer_root_spec, is_main_spec, path_text_spec, project_root_spec, resolve_config_spec, select_files_spec, select_from_spec, select_includes_spec, select_sources_spec};
use crate::laws::command::{law_selected_files, law_selected_includes};
use crate::parser::package_parts_spec;
use crate::program::SourceFileV;
use crate::resolve::same_path_spec;

verus! {

broadcast use {crate::program::group_program, crate::text::group_texts};

/// The paths of source files.
pub open spec fn paths_of(found: Seq<SourceFileV>) -> Seq<Seq<char>> {
    Seq::new(found.len(), |i: int| found[i].path)
}

/// Whether the file at `i` is the first of its path, and not the entry point.
pub open spec fn is_kept(found: Seq<SourceFileV>, i: int) -> bool {
    &&& 0 <= i < found.len()
    &&& !is_main_spec(found[i].path)
    &&& forall|j: int| 0 <= j < i ==> (#[trigger] found[j]).path != found[i].path
}

/// Whether a path and a root are those of the file kept at `j`.
spec fn stands_for(found: Seq<SourceFileV>, j: int, file: Seq<char>, root: Seq<Seq<char>>) -> bool {
    is_kept(found, j) && file == found[j].path && root == file_root_spec(found[j])
}

/// Whether the file at `j` is among those listed.
spec fn is_listed(found: Seq<SourceFileV>, j: int, files: Seq<Seq<char>>, roots: Seq<Seq<Seq<char>>>) -> bool {
    exists|k: int| 0 <= k < files.len() && #[trigger] stands_for(found, j, files[k], roots[k])
}

/// Whether a path and a root are those of a file kept among the first `i`.
spec fn is_from(found: Seq<SourceFileV>, i: int, file: Seq<char>, root: Seq<Seq<char>>) -> bool {
    exists|j: int| j < i && #[trigger] stands_for(found, j, file, root)
}

/// Whether `files` and `roots` are the paths and the roots of the files kept among the first `i`.
spec fn are_kept(found: Seq<SourceFileV>, i: int, files: Seq<Seq<char>>, roots: Seq<Seq<Seq<char>>>) -> bool {
    &&& files.len() == roots.len()
    &&& forall|j: int| j < i && #[trigger] is_kept(found, j) ==> is_listed(found, j, files, roots)
    &&& forall|k: int| 0 <= k < files.len() ==> #[trigger] is_from(found, i, files[k], roots[k])
}

proof fn sources_selected(found: Seq<SourceFileV>, i: int, files: Seq<Seq<char>>, roots: Seq<Seq<Seq<char>>>)
    requires
        0 <= i <= found.len(),
        are_kept(found, i, files, roots),
    ensures
        ({
            let (f, r) = select_sources_spec(found, i, files, roots);
            &&& f == select_from_spec(paths_of(found), Seq::empty(), i, files)
            &&& are_kept(found, found.len() as int, f, r)
        }),
    decreases found.len() - i,
{
    if i < found.len() {
        let paths = paths_of(found);
        let x = found[i].path;
        assert(paths[i] == x);
        assert(!Seq::<Seq<char>>::empty().contains(x));
        if !is_main_spec(x) && !files.contains(x) {
            assert(is_kept(found, i)) by {
                assert forall|j: int| 0 <= j < i implies (#[trigger] found[j]).path != x by {
                    if found[j].path == x {
                        first_of_path(found, j);
                        let m = choose|m: int| 0 <= m <= j && is_kept(found, m) && found[m].path == x;
                        let k = choose|k: int| 0 <= k < files.len() && #[trigger] stands_for(found, m, files[k], roots[k]);
                        assert(files[k] == x);
                    }
                }
            }
            let f = files.push(x);
            let r = roots.push(file_root_spec(found[i]));
            assert forall|j: int| j < i + 1 && #[trigger] is_kept(found, j) implies is_listed(found, j, f, r) by {
                let k = if j < i {
                    choose|k: int| 0 <= k < files.len() && #[trigger] stands_for(found, j, files[k], roots[k])
                } else {
                    files.len() as int
                };
                assert(stands_for(found, j, f[k], r[k]));
            }
            assert forall|k: int| 0 <= k < f.len() implies #[trigger] is_from(found, i + 1, f[k], r[k]) by {
                let j = if k < files.len() {
                    assert(is_from(found, i, files[k], roots[k]));
                    choose|j: int| j < i && #[trigger] stands_for(found, j, files[k], roots[k])
                } else {
                    i
                };
                assert(stands_for(found, j, f[k], r[k]));
            }
            sources_selected(found, i + 1, f, r);
        } else {
            assert(!is_kept(found, i)) by {
                if !is_main_spec(x) {
                    let k = choose|k: int| 0 <= k < files.len() && files[k] == x;
                    assert(is_from(found, i, files[k], roots[k]));
                    let j = choose|j: int| j < i && #[trigger] stands_for(found, j, files[k], roots[k]);
                    assert(found[j].path == x);
                }
            }
            assert forall|k: int| 0 <= k < files.len() implies #[trigger] is_from(found, i + 1, files[k], roots[k]) by {
                assert(is_from(found, i, files[k], roots[k]));
                let j = choose|j: int| j < i && #[trigger] stands_for(found, j, files[k], roots[k]);
                assert(stands_for(found, j, files[k], roots[k]));
            }
            sources_selected(found, i + 1, files, roots);
        }
    }
}

/// The first file of a path stands no later than any other.
proof fn first_of_path(found: Seq<SourceFileV>, j: int)
    requires
        0 <= j < found.len(),
        !is_main_spec(found[j].path),
    ensures
        exists|m: int| 0 <= m <= j && #[trigger] is_kept(found, m) && found[m].path == found[j].path,
    decreases j,
{
    if !is_kept(found, j) {
        let m = choose|m: int| 0 <= m < j && (#[trigger] found[m]).path == found[j].path;
        first_of_path(found, m);
    } else {
        assert(is_kept(found, j) && found[j].path == found[j].path);
    }
}

proof fn roots_agree(roots: Seq<Seq<Seq<char>>>, i: int)
    requires
        1 <= i,
        roots.len() > 0,
        forall|k: int| 0 <= k < i && k < roots.len() ==> (#[trigger] roots[k]) == roots[0],
    ensures
        agree_on_spec(roots, i) is Ok <==> forall|k: int| 0 <= k < roots.len() ==> (#[trigger] roots[k]) == roots[0],
        agree_on_spec(roots, i) matches Ok(r) ==> r == roots[0],
    decreases roots.len() - i,
{
    if i < roots.len() && same_path_spec(roots[0], roots[i]) {
        roots_agree(roots, i + 1);
    }
}

/// A configuration holds every file found once, without the entry point; its root is the root
/// that each of those files has by its own directory and package. There is one exactly where
/// there is such a file and all of them have one root.
pub proof fn law_configured_files(args: ArgsV, found: Seq<SourceFileV>, included: Seq<Seq<char>>, out_dir: Seq<char>)
    ensures
        resolve_config_spec(args, found, included, out_dir) matches Ok(cfg) ==> {
            &&& cfg.files.len() > 0
            &&& cfg.files == select_files_spec(paths_of(found))
            &&& cfg.include_files == select_includes_spec(included, cfg.files)
            &&& (cfg.files + cfg.include_files).no_duplicates()
            &&& forall|k: int| 0 <= k < cfg.files.len() ==> !is_main_spec(#[trigger] cfg.files[k])
            &&& forall|k: int| 0 <= k < cfg.include_files.len() ==> !is_main_spec(#[trigger] cfg.include_files[k])
            &&& forall|i: int| #[trigger] is_kept(found, i) ==> path_text_spec(infer_root_spec(found[i].dir, package_parts_spec(found[i].text))) == cfg.root_dir
        },
        resolve_config_spec(args, found, included, out_dir) is Ok <==> {
            &&& exists|i: int| #[trigger] is_kept(found, i)
            &&& forall|i: int, j: int| #[trigger] is_kept(found, i) && #[trigger] is_kept(found, j) ==> file_root_spec(found[i]) == file_root_spec(found[j])
        },
{
    reveal(resolve_config_spec);
    reveal(project_root_spec);
    reveal(select_files_spec);
    let none = Seq::<Seq<char>>::empty();
    let no_roots = Seq::<Seq<Seq<char>>>::empty();
    sources_selected(found, 0, none, no_roots);
    let (files, roots) = select_sources_spec(found, 0, none, no_roots);
    law_selected_files(paths_of(found));
    law_selected_includes(included, files);
    let includes = select_includes_spec(included, files);
    let both = files + includes;
    assert forall|a: int, b: int| 0 <= a < both.len() && 0 <= b < both.len() && a != b implies both[a] != both[b] by {
        if a < files.len() && b >= files.len() {
            assert(includes.contains(both[b]) && files.contains(both[a]));
        } else if b < files.len() && a >= files.len() {
            assert(includes.contains(both[a]) && files.contains(both[b]));
        }
    }
    assert forall|k: int| 0 <= k < files.len() implies !is_main_spec(#[trigger] files[k]) by {
        assert(files.contains(files[k]));
    }
    assert forall|k: int| 0 <= k < includes.len() implies !is_main_spec(#[trigger] includes[k]) by {
        assert(includes.contains(includes[k]));
    }
    if files.len() > 0 {
        roots_agree(roots, 1);
        assert(is_from(found, found.len() as int, files[0], roots[0]));
        let first = choose|j: int| j < found.len() && #[trigger] stands_for(found, j, files[0], roots[0]);
        assert(is_kept(found, first));
        let agreed = forall|k: int| 0 <= k < roots.len() ==> (#[trigger] roots[k]) == roots[0];
        assert forall|i: int| agreed && #[trigger] is_kept(found, i) implies file_root_spec(found[i]) == roots[0] by {
            let k = choose|k: int| 0 <= k < files.len() && #[trigger] stands_for(found, i, files[k], roots[k]);
            assert(roots[k] == roots[0]);
        }
        if forall|i: int, j: int| #[trigger] is_kept(found, i) && #[trigger] is_kept(found, j) ==> file_root_spec(found[i]) == file_root_spec(found[j]) {
            assert forall|k: int| 0 <= k < roots.len() implies (#[trigger] roots[k]) == roots[0] by {
                assert(is_from(found, found.len() as int, files[k], roots[k]));
                let j = choose|j: int| j < found.len() && #[trigger] stands_for(found, j, files[k], roots[k]);
                assert(is_kept(found, j) && is_kept(found, first));
            }
        }
    } else {
        assert forall|i: int| !#[trigger] is_kept(found, i) by {
            if is_kept(found, i) {
                let k = choose|k: int| 0 <= k < files.len() && #[trigger] stands_for(found, i, files[k], roots[k]);
                assert(false);
            }
        }
    }
}

} // verus!
