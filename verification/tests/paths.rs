use scripts::paths::{
    cw_infuser_root, dao_artifacts_available, dao_artifacts_verdict, dao_contracts_root, join_path,
    missing_paths, mtree_init_path, preflight_check, svg_init_path,
};

fn std_join(base: &str, rel: &str) -> String {
    std::path::Path::new(base).join(rel).to_string_lossy().into_owned()
}

#[test]
fn join_path_puts_one_separator_between() {
    assert_eq!(join_path("/a/b", "c"), "/a/b/c");
    assert_eq!(join_path("/a/b/", "c"), "/a/b/c");
    assert_eq!(join_path("", "c"), "c");
    assert_eq!(join_path("a", ""), "a/");
}

#[test]
fn join_path_absolute_replaces() {
    assert_eq!(join_path("/a/b", "/etc/passwd"), "/etc/passwd");
}

#[test]
fn join_path_agrees_with_std_path_join() {
    let cases = [
        ("/home/u/scripts", "../../../cw-infuser"),
        ("/home/u/scripts/", "data/mtree-init.json"),
        ("", "ZK/terp-core"),
        ("rel/dir", "/abs"),
        ("x", "y/z"),
        ("/", "tmp"),
    ];
    for (base, rel) in cases {
        assert_eq!(join_path(base, rel), std_join(base, rel), "{base} + {rel}");
    }
}

#[test]
fn repo_roots_are_beside_the_scripts_crate() {
    assert_eq!(cw_infuser_root("/w/site/scripts"), "/w/site/scripts/../../../cw-infuser");
    assert_eq!(
        dao_contracts_root("/w/site/scripts"),
        "/w/site/scripts/../../../abstract/dao-contracts"
    );
}

#[test]
fn data_file_paths() {
    assert_eq!(
        svg_init_path("/w/s", "terp"),
        "/w/s/../../../cw-infuser/scripts/svgs/interchain/terp/init.json"
    );
    assert_eq!(
        svg_init_path("/w/s", "dao"),
        "/w/s/../../../cw-infuser/scripts/svgs/interchain/dao/init.json"
    );
    assert_eq!(mtree_init_path("/w/s"), "/w/s/../../../cw-infuser/data/mtree-init.json");
}

#[test]
fn missing_paths_keeps_unfound_in_order() {
    let paths = vec!["a".to_string(), "b".to_string(), "c".to_string()];
    assert_eq!(missing_paths(&paths, &vec![true, false, false]), vec!["b".to_string(), "c".to_string()]);
    assert_eq!(missing_paths(&paths, &vec![true, true, true]), Vec::<String>::new());
    assert_eq!(missing_paths(&paths, &vec![false, false, false]), paths);
}

#[test]
fn preflight_single_reports_terp_and_mtree_when_absent() {
    let dir = "/nonexistent-scripts-dir-for-tests/scripts";
    let missing = preflight_check(dir, false);
    assert_eq!(missing, vec![svg_init_path(dir, "terp"), mtree_init_path(dir)]);
}

#[test]
fn preflight_full_reports_terp_and_dao_when_absent() {
    let dir = "/nonexistent-scripts-dir-for-tests/scripts";
    let missing = preflight_check(dir, true);
    assert_eq!(missing, vec![svg_init_path(dir, "terp"), svg_init_path(dir, "dao")]);
}

#[test]
fn dao_artifacts_verdict_table() {
    assert!(!dao_artifacts_verdict(false, true, true));
    assert!(!dao_artifacts_verdict(true, false, false));
    assert!(dao_artifacts_verdict(true, true, false));
    assert!(dao_artifacts_verdict(true, false, true));
}

#[test]
fn dao_artifacts_absent_without_checkout() {
    assert!(!dao_artifacts_available("/nonexistent-scripts-dir-for-tests/scripts"));
}
