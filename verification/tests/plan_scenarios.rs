use cargo_samply::cli::Config;
use cargo_samply::error::Error;
use cargo_samply::paths::DepsEntry;
use cargo_samply::paths::FsPath;
use cargo_samply::paths::Os;
use cargo_samply::paths::Platform;
use cargo_samply::plan::generate_plan;
use cargo_samply::plan::prepare_runtime_args;
use cargo_samply::plan::samply_record_args;
use cargo_samply::plan::should_inject_profile;
use cargo_samply::plan::HostEnv;
use cargo_samply::render::render_plan;
use cargo_samply::workspace::WorkspaceMetadata;

fn base_config() -> Config {
    Config {
        args: vec![],
        profile: "samply".to_string(),
        package: None,
        bin: None,
        example: None,
        bench: None,
        test: None,
        features: vec![],
        no_default_features: false,
        verbose: false,
        quiet: false,
        no_samply: false,
        dry_run: true,
        no_profile_inject: false,
        bench_flag: "--bench".to_string(),
        samply_args: None,
        list_targets: false,
    }
}

fn host() -> HostEnv {
    HostEnv {
        samply_program: "samply".to_string(),
        no_inject_env: false,
        no_sysroot_injection: true,
        sysroot: FsPath::empty(),
        host_triple: "unknown".to_string(),
        lib_path_current: String::new(),
        platform: Platform::current(Os::Linux),
        is_windows: false,
    }
}

fn metadata(binaries: Vec<&str>, benches: Vec<&str>) -> WorkspaceMetadata {
    WorkspaceMetadata {
        binaries: binaries.into_iter().map(|s| s.to_string()).collect(),
        examples: vec![],
        benches: benches.into_iter().map(|s| s.to_string()).collect(),
        tests: vec![],
        workspace_root: FsPath::from_segs(vec!["".to_string(), "ws".to_string()]),
    }
}

const MANIFEST_NO_PROFILE: &str = "[package]\nname = \"p\"\nversion = \"0.1.0\"\n";
const MANIFEST_WITH_PROFILE: &str =
    "[package]\nname = \"p\"\nversion = \"0.1.0\"\n[profile.samply]\ninherits = \"release\"\ndebug = true\n";

#[test]
fn single_binary_plan_builds_with_bin_flag() {
    let cli = base_config();
    let m = metadata(vec!["app"], vec![]);
    let plan = generate_plan(&cli, &host(), &m, MANIFEST_NO_PROFILE, MANIFEST_WITH_PROFILE, &None)
        .unwrap();
    let build = plan.build.as_ref().unwrap();
    assert_eq!(
        build.cargo_args,
        vec![
            "build".to_string(),
            "--message-format=json-diagnostic-rendered-ansi".to_string(),
            "--profile".to_string(),
            "samply".to_string(),
            "--bin".to_string(),
            "app".to_string(),
        ]
    );
    assert_eq!(plan.run.bin_path.render(), "/ws/target/samply/app".to_string());
    assert!(plan.run.re_resolve_context.is_none());
    assert!(plan.run.is_samply);
}

#[test]
fn conflicting_selectors_fail_before_planning() {
    let mut cli = base_config();
    cli.bin = Some("app".to_string());
    cli.example = Some("demo".to_string());
    let m = metadata(vec!["app"], vec![]);
    let r = generate_plan(&cli, &host(), &m, MANIFEST_NO_PROFILE, MANIFEST_WITH_PROFILE, &None);
    assert!(matches!(r, Err(Error::MultipleTargetsFlagsSpecified)));
}

#[test]
fn bench_plan_prepends_harness_flag() {
    let mut cli = base_config();
    cli.bench = Some("throughput".to_string());
    cli.args = vec!["--sample-size".to_string(), "10".to_string()];
    let m = metadata(vec![], vec!["throughput"]);
    let plan = generate_plan(&cli, &host(), &m, MANIFEST_NO_PROFILE, MANIFEST_WITH_PROFILE, &None)
        .unwrap();
    assert_eq!(
        plan.run.args,
        vec!["--bench".to_string(), "--sample-size".to_string(), "10".to_string()]
    );
}

#[test]
fn bench_flag_sentinel_omits_harness_flag() {
    let mut cli = base_config();
    cli.bench = Some("throughput".to_string());
    cli.bench_flag = "none".to_string();
    cli.args = vec!["--sample-size".to_string(), "10".to_string()];
    let m = metadata(vec![], vec!["throughput"]);
    let plan = generate_plan(&cli, &host(), &m, MANIFEST_NO_PROFILE, MANIFEST_WITH_PROFILE, &None)
        .unwrap();
    assert_eq!(plan.run.args, vec!["--sample-size".to_string(), "10".to_string()]);
}

#[test]
fn bench_without_deps_dir_keeps_re_resolve_context() {
    let mut cli = base_config();
    cli.bench = Some("throughput".to_string());
    let m = metadata(vec![], vec!["throughput"]);
    let plan = generate_plan(&cli, &host(), &m, MANIFEST_NO_PROFILE, MANIFEST_WITH_PROFILE, &None)
        .unwrap();
    assert_eq!(plan.run.bin_path.render(), "/ws/target/samply/deps/throughput".to_string());
    let ctx = plan.run.re_resolve_context.as_ref().unwrap();
    assert_eq!(ctx.1, "samply".to_string());
    assert_eq!(ctx.2.name, "throughput".to_string());
}

#[test]
fn bench_with_listing_picks_newest_matching_artifact() {
    let mut cli = base_config();
    cli.bench = Some("throughput".to_string());
    let m = metadata(vec![], vec!["throughput"]);
    let deps = Some(vec![
        DepsEntry { file_name: "throughput-aaa".to_string(), is_file: true, modified: 10 },
        DepsEntry { file_name: "throughput-bbb".to_string(), is_file: true, modified: 30 },
        DepsEntry { file_name: "throughput-ccc.d".to_string(), is_file: true, modified: 99 },
        DepsEntry { file_name: "other-zzz".to_string(), is_file: true, modified: 50 },
    ]);
    let plan = generate_plan(&cli, &host(), &m, MANIFEST_NO_PROFILE, MANIFEST_WITH_PROFILE, &deps)
        .unwrap();
    assert_eq!(plan.run.bin_path.render(), "/ws/target/samply/deps/throughput-bbb".to_string());
    assert!(plan.run.re_resolve_context.is_none());
}

#[test]
fn dry_run_skips_availability_check() {
    let mut cli = base_config();
    cli.dry_run = true;
    let m = metadata(vec!["app"], vec![]);
    let mut env = host();
    env.samply_program = "no-such-profiler-program-zzz".to_string();
    let plan = generate_plan(&cli, &env, &m, MANIFEST_NO_PROFILE, MANIFEST_WITH_PROFILE, &None);
    assert!(plan.is_ok());
}

#[test]
fn missing_profiler_fails_before_planning_without_dry_run() {
    let mut cli = base_config();
    cli.dry_run = false;
    let m = metadata(vec!["app"], vec![]);
    let mut env = host();
    env.samply_program = "no-such-profiler-program-zzz".to_string();
    let r = generate_plan(&cli, &env, &m, MANIFEST_NO_PROFILE, MANIFEST_WITH_PROFILE, &None);
    assert!(matches!(r, Err(Error::SamplyNotFound)));
}

#[test]
fn missing_profile_with_injection_disabled_warns() {
    let mut cli = base_config();
    cli.no_profile_inject = true;
    let m = metadata(vec!["app"], vec![]);
    let plan = generate_plan(&cli, &host(), &m, MANIFEST_NO_PROFILE, MANIFEST_NO_PROFILE, &None)
        .unwrap();
    assert_eq!(plan.warnings.len(), 1);
    assert!(plan.warnings[0].contains("Profile 'samply' is missing"));
}

#[test]
fn present_profile_with_injection_disabled_keeps_quiet() {
    let mut cli = base_config();
    cli.no_profile_inject = true;
    let m = metadata(vec!["app"], vec![]);
    let plan = generate_plan(&cli, &host(), &m, MANIFEST_NO_PROFILE, MANIFEST_WITH_PROFILE, &None)
        .unwrap();
    assert_eq!(plan.warnings.len(), 0);
}

#[test]
fn profile_injection_decision_follows_flags() {
    let cli = base_config();
    assert!(should_inject_profile(&cli, false));
    assert!(!should_inject_profile(&cli, true));
    let mut off = base_config();
    off.no_profile_inject = true;
    assert!(!should_inject_profile(&off, false));
    let mut other = base_config();
    other.profile = "release".to_string();
    assert!(!should_inject_profile(&other, false));
}

#[test]
fn malformed_samply_args_are_a_configuration_error() {
    let mut cli = base_config();
    cli.samply_args = Some("--rate '2000".to_string());
    let m = metadata(vec!["app"], vec![]);
    let r = generate_plan(&cli, &host(), &m, MANIFEST_NO_PROFILE, MANIFEST_WITH_PROFILE, &None);
    match r {
        Err(Error::Io { message }) => {
            assert_eq!(message, "Invalid samply-args: missing closing quote".to_string());
        },
        _ => panic!("expected the malformed-arguments error"),
    }
}

#[test]
fn samply_args_are_shell_split() {
    let mut cli = base_config();
    cli.samply_args = Some("--rate 2000".to_string());
    let m = metadata(vec!["app"], vec![]);
    let plan = generate_plan(&cli, &host(), &m, MANIFEST_NO_PROFILE, MANIFEST_WITH_PROFILE, &None)
        .unwrap();
    assert_eq!(plan.run.samply_args, vec!["--rate".to_string(), "2000".to_string()]);
}

#[test]
fn samply_command_places_binary_before_separator() {
    let bin = FsPath::from_segs(vec!["target".to_string(), "bin".to_string()]);
    let runtime_args = vec!["--bench".to_string(), "throughput".to_string()];
    let args = samply_record_args(&bin, &vec![], &runtime_args);
    let expected = vec![
        "record".to_string(),
        "--".to_string(),
        "target/bin".to_string(),
        "--bench".to_string(),
        "throughput".to_string(),
    ];
    assert_eq!(args, expected);
}

#[test]
fn samply_command_inserts_separator_even_without_runtime_args() {
    let bin = FsPath::from_segs(vec!["target".to_string(), "bin".to_string()]);
    let args = samply_record_args(&bin, &vec![], &vec![]);
    let expected = vec!["record".to_string(), "--".to_string(), "target/bin".to_string()];
    assert_eq!(args, expected);
}

#[test]
fn runtime_args_keep_order() {
    let trailing = vec!["a".to_string(), "b".to_string()];
    assert_eq!(
        prepare_runtime_args(Some("--bench"), trailing.clone()),
        vec!["--bench".to_string(), "a".to_string(), "b".to_string()]
    );
    assert_eq!(prepare_runtime_args(None, trailing.clone()), trailing);
}

#[test]
fn dry_run_transcript_shows_build_and_run() {
    let mut cli = base_config();
    cli.args = vec!["--input".to_string(), "file txt".to_string()];
    let m = metadata(vec!["app"], vec![]);
    let plan = generate_plan(&cli, &host(), &m, MANIFEST_NO_PROFILE, MANIFEST_WITH_PROFILE, &None)
        .unwrap();
    let lines = render_plan(&plan);
    assert_eq!(lines.len(), 2);
    assert!(lines[0].starts_with("cargo build "));
    assert!(lines[0].contains("--bin app"));
    assert!(lines[1].contains("samply record -- /ws/target/samply/app"));
    assert!(lines[1].contains("'file txt'"));
}

#[test]
fn direct_run_transcript_omits_profiler() {
    let mut cli = base_config();
    cli.no_samply = true;
    let m = metadata(vec!["app"], vec![]);
    let plan = generate_plan(&cli, &host(), &m, MANIFEST_NO_PROFILE, MANIFEST_WITH_PROFILE, &None)
        .unwrap();
    assert!(!plan.run.is_samply);
    let lines = render_plan(&plan);
    assert_eq!(lines.len(), 2);
    assert!(!lines[1].contains("record"));
    assert!(lines[1].contains("/ws/target/samply/app"));
}
