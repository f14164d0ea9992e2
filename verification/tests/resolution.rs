use cargo_samply::cli::Config;
use cargo_samply::error::Error;
use cargo_samply::paths::FsPath;
use cargo_samply::target::determine_target;
use cargo_samply::target::guess_bin;
use cargo_samply::target::resolve_bench_target_name;
use cargo_samply::target::TargetKind;
use cargo_samply::workspace::WorkspaceMetadata;

fn base_config() -> Config {
    Config {
        args: vec![],
        profile: "samply".to_string(),
        package: None,
        bin: None,
        example: None,
        bench: None,
        test: None,
        features: vec![],
        no_default_features: false,
        verbose: false,
        quiet: false,
        no_samply: false,
        dry_run: false,
        no_profile_inject: false,
        bench_flag: "--bench".to_string(),
        samply_args: None,
        list_targets: false,
    }
}

fn metadata(binaries: Vec<&str>, examples: Vec<&str>, benches: Vec<&str>) -> WorkspaceMetadata {
    WorkspaceMetadata {
        binaries: binaries.into_iter().map(|s| s.to_string()).collect(),
        examples: examples.into_iter().map(|s| s.to_string()).collect(),
        benches: benches.into_iter().map(|s| s.to_string()).collect(),
        tests: vec![],
        workspace_root: FsPath::from_segs(vec!["".to_string(), "ws".to_string()]),
    }
}

#[test]
fn conflicting_selectors_are_rejected() {
    let mut cli = base_config();
    cli.bin = Some("app".to_string());
    cli.example = Some("demo".to_string());
    let m = metadata(vec!["app"], vec!["demo"], vec![]);
    let r = determine_target(&cli, "", &m);
    assert!(matches!(r, Err(Error::MultipleTargetsFlagsSpecified)));
}

#[test]
fn every_conflicting_pair_is_rejected() {
    let m = metadata(vec!["app"], vec!["demo"], vec!["bench1"]);
    let mut c1 = base_config();
    c1.bench = Some("bench1".to_string());
    c1.test = Some("t".to_string());
    assert!(matches!(determine_target(&c1, "", &m), Err(Error::MultipleTargetsFlagsSpecified)));
    let mut c2 = base_config();
    c2.bin = Some("app".to_string());
    c2.bench = Some("bench1".to_string());
    c2.test = Some("t".to_string());
    assert!(matches!(determine_target(&c2, "", &m), Err(Error::MultipleTargetsFlagsSpecified)));
}

#[test]
fn single_binary_resolves_without_default_run() {
    let cli = base_config();
    let m = metadata(vec!["app"], vec!["demo", "demo2"], vec![]);
    let r = determine_target(&cli, "", &m).unwrap();
    assert!(r.kind == TargetKind::Bin);
    assert_eq!(r.name, "app".to_string());
}

#[test]
fn default_run_wins_over_multiple_binaries() {
    let manifest = "[package]\nname = \"p\"\nversion = \"0.1.0\"\ndefault-run = \"chosen\"\n";
    let m = metadata(vec!["alpha", "beta", "chosen"], vec![], vec![]);
    let r = guess_bin(manifest, &m).unwrap();
    assert_eq!(r, "chosen".to_string());
}

#[test]
fn ambiguous_binaries_enumerate_suggestions() {
    let cli = base_config();
    let m = metadata(vec!["alpha", "beta"], vec!["demo"], vec![]);
    let r = determine_target(&cli, "", &m);
    match r {
        Err(Error::BinaryToRunNotDetermined { suggestions }) => {
            assert!(suggestions.contains("\n\nAvailable binaries:"));
            assert!(suggestions.contains("  alpha: cargo samply --bin alpha"));
            assert!(suggestions.contains("  beta: cargo samply --bin beta"));
            assert!(suggestions.contains("\n\nAvailable examples:"));
            assert!(suggestions.contains("  demo: cargo samply --example demo"));
        },
        other => panic!("unexpected outcome: {:?}", other.map(|t| t.name)),
    }
}

#[test]
fn no_binaries_is_a_distinct_error() {
    let cli = base_config();
    let m = metadata(vec![], vec!["demo"], vec![]);
    assert!(matches!(determine_target(&cli, "", &m), Err(Error::NoBinaryFound)));
}

#[test]
fn bench_name_exact_match_resolves() {
    let m = metadata(vec![], vec![], vec!["throughput"]);
    assert_eq!(resolve_bench_target_name("throughput", &m), "throughput".to_string());
}

#[test]
fn bench_name_miss_passes_through() {
    let m = metadata(vec![], vec![], vec!["throughput"]);
    assert_eq!(resolve_bench_target_name("missing", &m), "missing".to_string());
}

#[test]
fn selected_bench_goes_through_resolution() {
    let mut cli = base_config();
    cli.bench = Some("throughput".to_string());
    let m = metadata(vec!["app"], vec![], vec!["throughput"]);
    let t = determine_target(&cli, "", &m).unwrap();
    assert!(t.kind == TargetKind::Bench);
    assert_eq!(t.name, "throughput".to_string());
}

#[test]
fn test_guess_bin_single_bin() {
    let content = "[package]\nname = \"test\"\nversion = \"0.1.0\"\n";
    let m = metadata(vec!["single"], vec![], vec![]);
    let bin = guess_bin(content, &m).unwrap();
    assert_eq!(bin, "single");
}
