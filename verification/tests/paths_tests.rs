use cargo_samply::error::Error;
use cargo_samply::paths::calculate_library_path;
use cargo_samply::paths::deps_dir;
use cargo_samply::paths::get_bin_path;
use cargo_samply::paths::get_bench_path;
use cargo_samply::paths::infer_target_triple;
use cargo_samply::paths::is_executable_artifact;
use cargo_samply::paths::resolve_target_path;
use cargo_samply::paths::DepsEntry;
use cargo_samply::paths::FsPath;
use cargo_samply::paths::Os;
use cargo_samply::paths::Platform;
use cargo_samply::target::Target;
use cargo_samply::target::TargetKind;

fn root() -> FsPath {
    FsPath::from_segs(vec!["".to_string(), "ws".to_string()])
}

fn entry(name: &str, modified: u64) -> DepsEntry {
    DepsEntry { file_name: name.to_string(), is_file: true, modified }
}

#[test]
fn bin_path_follows_profile_directory() {
    let p = get_bin_path(&root(), "samply", "--bin", "app", false);
    assert_eq!(p.render(), "/ws/target/samply/app".to_string());
}

#[test]
fn example_path_uses_examples_subdirectory() {
    let p = get_bin_path(&root(), "samply", "--example", "demo", false);
    assert_eq!(p.render(), "/ws/target/samply/examples/demo".to_string());
}

#[test]
fn windows_paths_get_executable_suffix() {
    let p = get_bin_path(&root(), "samply", "--bin", "app", true);
    assert_eq!(p.render(), "/ws/target/samply/app.exe".to_string());
    let q = get_bin_path(&root(), "samply", "--bin", "app.com", true);
    assert_eq!(q.render(), "/ws/target/samply/app.com".to_string());
}

#[test]
fn executable_artifact_has_no_extension_on_unix() {
    assert!(is_executable_artifact("throughput-abc123", false));
    assert!(!is_executable_artifact("throughput-abc123.d", false));
    assert!(!is_executable_artifact("throughput-abc123.rlib", false));
}

#[test]
fn executable_artifact_needs_exe_on_windows() {
    assert!(is_executable_artifact("a.exe", true));
    assert!(is_executable_artifact("a.EXE", true));
    assert!(!is_executable_artifact("a", true));
    assert!(!is_executable_artifact("a.dll", true));
}

#[test]
fn bench_path_picks_newest_matching_file() {
    let deps = Some(vec![
        entry("throughput-old", 5),
        entry("throughput-new", 9),
        entry("throughput-tied", 9),
        entry("unrelated-x", 50),
    ]);
    let r = get_bench_path(&root(), "samply", "throughput", &deps, false).unwrap();
    assert_eq!(r.render(), "/ws/target/samply/deps/throughput-new".to_string());
}

#[test]
fn bench_path_tolerates_hyphen_mangling() {
    let deps = Some(vec![entry("column_sum-abc", 7)]);
    let r = get_bench_path(&root(), "samply", "column-sum", &deps, false).unwrap();
    assert_eq!(r.render(), "/ws/target/samply/deps/column_sum-abc".to_string());
}

#[test]
fn bench_path_without_directory_reports_expected_place() {
    match get_bench_path(&root(), "samply", "throughput", &None, false) {
        Err(Error::BinaryNotFound { path }) => {
            assert_eq!(path, "/ws/target/samply/deps/throughput".to_string());
        },
        _ => panic!("expected the not-found error"),
    }
}

#[test]
fn bench_path_without_match_names_the_pattern() {
    let deps = Some(vec![entry("other-x", 3)]);
    match get_bench_path(&root(), "samply", "throughput", &deps, false) {
        Err(Error::BinaryNotFound { path }) => {
            assert_eq!(path, "/ws/target/samply/deps/throughput-*".to_string());
        },
        _ => panic!("expected the not-found error"),
    }
}

#[test]
fn resolve_target_path_dispatches_by_kind() {
    let t = Target::new(TargetKind::Bin, "app".to_string());
    let p = resolve_target_path(&root(), "samply", &t, &None, false).unwrap();
    assert_eq!(p.render(), "/ws/target/samply/app".to_string());
    let b = Target::new(TargetKind::Bench, "x".to_string());
    assert!(resolve_target_path(&root(), "samply", &b, &None, false).is_err());
}

#[test]
fn deps_dir_lies_under_the_profile() {
    assert_eq!(deps_dir(&root(), "samply").render(), "/ws/target/samply/deps".to_string());
}

#[test]
fn triple_read_from_path_when_profile_follows() {
    let p = FsPath::from_segs(
        vec![
            "".to_string(),
            "ws".to_string(),
            "target".to_string(),
            "x86_64-unknown-linux-gnu".to_string(),
            "samply".to_string(),
            "app".to_string(),
        ],
    );
    assert_eq!(infer_target_triple(&p, "samply"), Some("x86_64-unknown-linux-gnu".to_string()));
    let q = FsPath::from_segs(
        vec!["".to_string(), "ws".to_string(), "target".to_string(), "samply".to_string(), "app"
            .to_string()],
    );
    assert_eq!(infer_target_triple(&q, "samply"), None);
}

#[test]
fn library_path_orders_and_deduplicates() {
    let bin = FsPath::from_segs(
        vec![
            "".to_string(),
            "ws".to_string(),
            "target".to_string(),
            "samply".to_string(),
            "app".to_string(),
        ],
    );
    let sysroot = FsPath::from_segs(vec!["".to_string(), "sr".to_string()]);
    let platform = Platform::current(Os::Linux);
    let r = calculate_library_path(&bin, "tpl", &platform, false, &sysroot, "/ws/target/samply/deps: /extra ");
    let (key, value) = r.unwrap();
    assert_eq!(key, "LD_LIBRARY_PATH".to_string());
    assert_eq!(
        value,
        "/ws/target/samply/deps:/sr/lib/rustlib/tpl/lib:/sr/lib:/extra".to_string()
    );
}

#[test]
fn library_path_injection_can_be_disabled() {
    let bin = FsPath::from_segs(vec!["app".to_string()]);
    let sysroot = FsPath::from_segs(vec!["".to_string(), "sr".to_string()]);
    let platform = Platform::current(Os::Linux);
    assert!(calculate_library_path(&bin, "t", &platform, true, &sysroot, "").is_none());
}

#[test]
fn library_path_keeps_existing_deps_directory() {
    let bin = FsPath::from_segs(
        vec![
            "".to_string(),
            "ws".to_string(),
            "target".to_string(),
            "samply".to_string(),
            "deps".to_string(),
            "bench-abc".to_string(),
        ],
    );
    let sysroot = FsPath::from_segs(vec!["".to_string(), "sr".to_string()]);
    let platform = Platform::current(Os::Linux);
    let (_, value) = calculate_library_path(&bin, "t", &platform, false, &sysroot, "").unwrap();
    assert!(value.starts_with("/ws/target/samply/deps:"));
}

#[test]
fn platform_configuration_by_family() {
    let linux = Platform::current(Os::Linux);
    assert_eq!(linux.env_var_name, "LD_LIBRARY_PATH");
    assert_eq!(linux.separator, ":");
    let mac = Platform::current(Os::MacOs);
    assert_eq!(mac.env_var_name, "DYLD_LIBRARY_PATH");
    let win = Platform::current(Os::Windows);
    assert_eq!(win.env_var_name, "PATH");
    assert_eq!(win.separator, ";");
}
