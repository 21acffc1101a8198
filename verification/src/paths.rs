use vstd::prelude::*;

use crate::probe::{path_exists, path_is_dir};

verus! {

/// The path separator.
pub open spec fn is_sep(c: char) -> bool {
    c == '/'
}

/// Joining `rel` onto `base` as `Path::join` does on Unix: an absolute `rel`
/// replaces `base`; otherwise a separator is put between them unless `base`
/// is empty or already ends with one.
pub open spec fn joined(base: Seq<char>, rel: Seq<char>) -> Seq<char> {
    if rel.len() > 0 && is_sep(rel[0]) {
        rel
    } else if base.len() == 0 || is_sep(base.last()) {
        base + rel
    } else {
        base + seq!['/'] + rel
    }
}

/// Joins `rel` onto `base` (see [`joined`]).
pub fn join_path(base: &str, rel: &str) -> (r: String)
    ensures
        r@ == joined(base@, rel@),
{
    let rel_len = rel.unicode_len();
    if rel_len > 0 && rel.get_char(0) == '/' {
        return String::from_str(rel);
    }
    let base_len = base.unicode_len();
    let s = String::from_str(base);
    if base_len == 0 || base.get_char(base_len - 1) == '/' {
        s.concat(rel)
    } else {
        proof {
            reveal_strlit("/");
        }
        let s = s.concat("/");
        s.concat(rel)
    }
}


/// Root of the cw-infuser checkout, relative to the scripts crate directory.
pub open spec fn cw_infuser_root_of(manifest_dir: Seq<char>) -> Seq<char> {
    joined(manifest_dir, "../../../cw-infuser"@)
}

/// Root of the dao-contracts checkout, relative to the scripts crate directory.
pub open spec fn dao_contracts_root_of(manifest_dir: Seq<char>) -> Seq<char> {
    joined(manifest_dir, "../../../abstract/dao-contracts"@)
}

/// The init message of an SVG collection inside the cw-infuser checkout.
pub open spec fn svg_init_path_of(manifest_dir: Seq<char>, collection: Seq<char>) -> Seq<char> {
    joined(
        cw_infuser_root_of(manifest_dir),
        "scripts/svgs/interchain/"@ + collection + "/init.json"@,
    )
}

/// The merkle-tree whitelist data inside the cw-infuser checkout.
pub open spec fn mtree_init_path_of(manifest_dir: Seq<char>) -> Seq<char> {
    joined(cw_infuser_root_of(manifest_dir), "data/mtree-init.json"@)
}

/// The directory where the DAO contract artifacts are built.
pub open spec fn dao_artifacts_dir_of(manifest_dir: Seq<char>) -> Seq<char> {
    joined(dao_contracts_root_of(manifest_dir), "artifacts"@)
}

/// Root of the cw-infuser repo (where `scripts/svgs/` and `data/` live),
/// given the directory of the scripts crate.
pub fn cw_infuser_root(manifest_dir: &str) -> (r: String)
    ensures
        r@ == cw_infuser_root_of(manifest_dir@),
{
    join_path(manifest_dir, "../../../cw-infuser")
}

/// Root of the dao-contracts repo (where `artifacts/` should live), given
/// the directory of the scripts crate.
pub fn dao_contracts_root(manifest_dir: &str) -> (r: String)
    ensures
        r@ == dao_contracts_root_of(manifest_dir@),
{
    join_path(manifest_dir, "../../../abstract/dao-contracts")
}

/// Path of the init message of the SVG collection `collection`.
pub fn svg_init_path(manifest_dir: &str, collection: &str) -> (r: String)
    ensures
        r@ == svg_init_path_of(manifest_dir@, collection@),
{
    let root = cw_infuser_root(manifest_dir);
    let rel = String::from_str("scripts/svgs/interchain/").concat(collection).concat("/init.json");
    join_path(root.as_str(), rel.as_str())
}

/// Path of the merkle-tree whitelist data.
pub fn mtree_init_path(manifest_dir: &str) -> (r: String)
    ensures
        r@ == mtree_init_path_of(manifest_dir@),
{
    let root = cw_infuser_root(manifest_dir);
    join_path(root.as_str(), "data/mtree-init.json")
}

/// Whether the DAO artifacts count as available, from what the file system
/// answered: the artifacts directory must exist and hold at least one build
/// of `dao_dao_core`.
pub fn dao_artifacts_verdict(dir_found: bool, core_found: bool, aarch64_found: bool) -> (r: bool)
    ensures
        r == (dir_found && (core_found || aarch64_found)),
{
    dir_found && (core_found || aarch64_found)
}

/// Check if DAO WASM artifacts are available.  The answer rests on the disk.
pub fn dao_artifacts_available(manifest_dir: &str) -> bool {
    let root = dao_contracts_root(manifest_dir);
    let dir = join_path(root.as_str(), "artifacts");
    let dir_found = path_is_dir(dir.as_str());
    let core_found = if dir_found {
        let core = join_path(dir.as_str(), "dao_dao_core.wasm");
        path_exists(core.as_str())
    } else {
        false
    };
    let aarch64_found = if dir_found && !core_found {
        let aarch64 = join_path(dir.as_str(), "dao_dao_core-aarch64.wasm");
        path_exists(aarch64.as_str())
    } else {
        false
    };
    dao_artifacts_verdict(dir_found, core_found, aarch64_found)
}

/// The data files a deployment needs: the terp SVG init message, and then the
/// merkle-tree data for a single deployment or the dao SVG init message for a
/// full one.
pub open spec fn required_paths(manifest_dir: Seq<char>, full: bool) -> Seq<Seq<char>> {
    seq![
        svg_init_path_of(manifest_dir, "terp"@),
        if full {
            svg_init_path_of(manifest_dir, "dao"@)
        } else {
            mtree_init_path_of(manifest_dir)
        },
    ]
}

/// The entries of `paths` whose probe in `found` is false, in order.
pub open spec fn missing_of(paths: Seq<Seq<char>>, found: Seq<bool>) -> Seq<Seq<char>>
    decreases paths.len(),
{
    if paths.len() == 0 {
        seq![]
    } else {
        let rest = missing_of(paths.drop_last(), found.take(paths.len() - 1));
        if found[paths.len() - 1] {
            rest
        } else {
            rest.push(paths.last())
        }
    }
}

/// Every path that the preflight reports is one of the paths it checked.
pub proof fn lemma_missing_are_checked(paths: Seq<Seq<char>>, found: Seq<bool>, i: int)
    requires
        found.len() == paths.len(),
        0 <= i < missing_of(paths, found).len(),
    ensures
        paths.contains(missing_of(paths, found)[i]),
    decreases paths.len(),
{
    let n = paths.len();
    let rest = missing_of(paths.drop_last(), found.take(n - 1));
    if i < rest.len() {
        lemma_missing_are_checked(paths.drop_last(), found.take(n - 1), i);
        let k = choose|k: int| 0 <= k < paths.drop_last().len() && paths.drop_last()[k] == rest[i];
        assert(paths[k] == missing_of(paths, found)[i]);
    } else {
        assert(missing_of(paths, found)[i] == paths[n - 1]);
    }
}

/// Nothing is reported missing exactly when every checked path was found.
pub proof fn lemma_nothing_missing_iff_all_found(paths: Seq<Seq<char>>, found: Seq<bool>)
    requires
        found.len() == paths.len(),
    ensures
        (missing_of(paths, found).len() == 0) <==> (forall|i: int| 0 <= i < found.len() ==> found[i]),
    decreases paths.len(),
{
    let n = paths.len();
    if n > 0 {
        let f = found.take(n - 1);
        lemma_nothing_missing_iff_all_found(paths.drop_last(), f);
        if forall|i: int| 0 <= i < found.len() ==> found[i] {
            assert forall|i: int| 0 <= i < f.len() implies f[i] by {
                assert(found[i]);
            }
        }
        if missing_of(paths, found).len() == 0 {
            assert forall|i: int| 0 <= i < found.len() implies found[i] by {
                if i < n - 1 {
                    assert(f[i] == found[i]);
                }
            }
        }
    }
}

/// When no checked path was found, every one is reported, in order.
pub proof fn lemma_none_found_all_missing(paths: Seq<Seq<char>>, found: Seq<bool>)
    requires
        found.len() == paths.len(),
        forall|i: int| 0 <= i < found.len() ==> !found[i],
    ensures
        missing_of(paths, found) == paths,
    decreases paths.len(),
{
    let n = paths.len();
    if n > 0 {
        let f = found.take(n - 1);
        lemma_none_found_all_missing(paths.drop_last(), f);
        assert(paths.drop_last().push(paths.last()) =~= paths);
    } else {
        assert(paths =~= seq![]);
    }
}

/// Keeps the paths whose probe came back false, in their order.
pub fn missing_paths(paths: &Vec<String>, found: &Vec<bool>) -> (missing: Vec<String>)
    requires
        paths.len() == found.len(),
    ensures
        missing.deep_view() == missing_of(paths.deep_view(), found@),
{
    let mut missing: Vec<String> = Vec::new();
    let n = paths.len();
    let ghost all = paths.deep_view();
    let mut i: usize = 0;
    while i < n
        invariant
            n == paths.len(),
            n == found.len(),
            all == paths.deep_view(),
            0 <= i <= n,
            missing.deep_view() == missing_of(all.take(i as int), found@.take(i as int)),
        decreases n - i,
    {
        proof {
            let next = all.take(i + 1);
            assert(next.drop_last() =~= all.take(i as int));
            assert(found@.take(i + 1).take(i as int) =~= found@.take(i as int));
            assert(next.last() == paths[i as int]@);
        }
        if !found[i] {
            let ghost before = missing.deep_view();
            missing.push(paths[i].clone());
            assert(missing.deep_view() =~= before.push(paths[i as int]@));
        }
        i = i + 1;
    }
    assert(all.take(n as int) =~= all);
    assert(found@.take(n as int) =~= found@);
    missing
}

/// Preflight: probes every data file that a deployment needs and returns the
/// paths that are missing, in order (empty = all good).  Which files are
/// missing rests on the disk; the result is always the required paths of
/// the mode, filtered by what the probes answered.
pub fn preflight_check(manifest_dir: &str, full: bool) -> (missing: Vec<String>)
    ensures
        exists|found: Seq<bool>|
            found.len() == 2 && missing.deep_view() == #[trigger] missing_of(
                required_paths(manifest_dir@, full),
                found,
            ),
{
    let mut paths: Vec<String> = Vec::new();
    paths.push(svg_init_path(manifest_dir, "terp"));
    if full {
        paths.push(svg_init_path(manifest_dir, "dao"));
    } else {
        paths.push(mtree_init_path(manifest_dir));
    }
    let mut found: Vec<bool> = Vec::new();
    found.push(path_exists(paths[0].as_str()));
    found.push(path_exists(paths[1].as_str()));
    assert(paths.deep_view() =~= required_paths(manifest_dir@, full));
    let missing = missing_paths(&paths, &found);
    assert(missing.deep_view() == missing_of(required_paths(manifest_dir@, full), found@));
    missing
}

} // verus!
