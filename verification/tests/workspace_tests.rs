use cargo_samply::error::Error;
use cargo_samply::manifest::has_samply_profile;
use cargo_samply::paths::FsPath;
use cargo_samply::workspace::find_current_package;
use cargo_samply::workspace::get_all_targets;
use cargo_samply::workspace::PackageInfo;
use cargo_samply::workspace::TargetInfo;

fn target(name: &str, kind: &str) -> TargetInfo {
    TargetInfo {
        name: name.to_string(),
        is_bin: kind == "bin",
        is_example: kind == "example",
        is_bench: kind == "bench",
        is_test: kind == "test",
    }
}

fn package(name: &str, dir: &str, member: bool, targets: Vec<TargetInfo>) -> PackageInfo {
    PackageInfo {
        name: name.to_string(),
        manifest_dir: dir.to_string(),
        has_dir: true,
        is_member: member,
        targets,
    }
}

fn root() -> FsPath {
    FsPath::from_segs(vec!["".to_string(), "ws".to_string()])
}

#[test]
fn member_targets_are_classified_sorted_and_deduplicated() {
    let packages = vec![
        package(
            "a",
            "/ws/a",
            true,
            vec![target("zeta", "bin"), target("alpha", "bin"), target("demo", "example")],
        ),
        package("b", "/ws/b", true, vec![target("alpha", "bin"), target("suite", "test")]),
        package("dep", "/elsewhere", false, vec![target("hidden", "bin")]),
    ];
    let m = get_all_targets(&packages, root(), &None, &None).unwrap();
    assert_eq!(m.binaries, vec!["alpha".to_string(), "zeta".to_string()]);
    assert_eq!(m.examples, vec!["demo".to_string()]);
    assert_eq!(m.tests, vec!["suite".to_string()]);
    assert!(m.benches.is_empty());
    assert_eq!(m.workspace_root.render(), "/ws".to_string());
}

#[test]
fn package_filter_restricts_to_that_package() {
    let packages = vec![
        package("a", "/ws/a", true, vec![target("one", "bin")]),
        package("b", "/ws/b", true, vec![target("two", "bin")]),
    ];
    let m = get_all_targets(&packages, root(), &Some("b".to_string()), &None).unwrap();
    assert_eq!(m.binaries, vec!["two".to_string()]);
}

#[test]
fn unknown_package_filter_is_reported() {
    let packages = vec![package("a", "/ws/a", true, vec![target("one", "bin")])];
    match get_all_targets(&packages, root(), &Some("ghost".to_string()), &None) {
        Err(Error::PackageNotFound { name }) => assert_eq!(name, "ghost".to_string()),
        _ => panic!("expected the missing-package error"),
    }
}

#[test]
fn working_directory_selects_the_owning_package() {
    let packages = vec![
        package("a", "/ws/a", true, vec![target("one", "bin")]),
        package("b", "/ws/b", true, vec![target("two", "bin")]),
    ];
    let m = get_all_targets(&packages, root(), &None, &Some("/ws/b/src".to_string())).unwrap();
    assert_eq!(m.binaries, vec!["two".to_string()]);
}

#[test]
fn longest_directory_match_wins() {
    let packages = vec![
        package("outer", "/ws", true, vec![target("outer-bin", "bin")]),
        package("inner", "/ws/inner", true, vec![target("inner-bin", "bin")]),
    ];
    let r = find_current_package(&packages, "/ws/inner/src");
    assert_eq!(r, Some(1));
}

#[test]
fn sibling_prefix_does_not_match() {
    let packages = vec![package("a", "/ws/app", true, vec![target("one", "bin")])];
    assert_eq!(find_current_package(&packages, "/ws/application"), None);
}

#[test]
fn profile_presence_is_read_from_manifest_text() {
    let with = "[package]\nname = \"p\"\nversion = \"0.1.0\"\n[profile.samply]\ninherits = \"release\"\ndebug = true\n";
    let without = "[package]\nname = \"p\"\nversion = \"0.1.0\"\n";
    assert_eq!(has_samply_profile(with).unwrap(), true);
    assert_eq!(has_samply_profile(without).unwrap(), false);
    assert!(matches!(has_samply_profile("not = valid = toml"), Err(Error::Toml { .. })));
}
