//! Execution-plan construction: the build invocation, the run invocation and
//! the warnings of one invocation, assembled as one immutable value.

use vstd::prelude::*;
use vstd::string::StringExecFns;

use crate::cli::Config;
use crate::cli::spec_selected_count;
use crate::error::Error;
use crate::manifest;
use crate::manifest::default_run_of;
use crate::manifest::samply_profile_of;
use crate::paths::DepsEntry;
use crate::paths::FsPath;
use crate::paths::Platform;
use crate::paths::platform_valid;
use crate::paths::spec_bench_choice;
use crate::paths::spec_bench_matches;
use crate::paths::spec_bin_path;
use crate::paths::spec_deps_dir;
use crate::paths::spec_infer_triple;
use crate::paths::spec_lib_parts;
use crate::paths::spec_render;
use crate::target::Target;
use crate::target::TargetKind;
use crate::target::spec_cargo_flag;
use crate::text;
use crate::workspace::WorkspaceMetadata;

verus! {

/// The literal argument vector of the build invocation.
#[derive(Debug)]
pub struct BuildPlan {
    /// The arguments handed to the build tool, subcommand first.
    pub cargo_args: Vec<String>,
}

/// The eventual run: the artifact, its arguments and environment, and how it
/// is launched.
#[derive(Debug)]
pub struct RunPlan {
    /// Where the artifact is expected, possibly a pre-build guess.
    pub bin_path: FsPath,
    /// The runtime arguments forwarded to the artifact.
    pub args: Vec<String>,
    /// Environment-variable overrides applied to the run.
    pub env_vars: Vec<(String, String)>,
    /// Whether the run is wrapped by the profiler.
    pub is_samply: bool,
    /// The profiler program's name or path.
    pub samply_program: String,
    /// Arguments handed to the profiler itself.
    pub samply_args: Vec<String>,
    /// When the pre-build guess may not materialize: the root, profile and
    /// target from which the path is re-derived after the build.
    pub re_resolve_context: Option<(FsPath, String, Target)>,
}

/// One invocation's whole plan: the build, the run, and the warnings to
/// surface before either.
#[derive(Debug)]
pub struct ExecutionPlan {
    /// The build invocation; always present in this design.
    pub build: Option<BuildPlan>,
    /// The run invocation.
    pub run: RunPlan,
    /// Non-fatal warnings, printed before any side-effecting step.
    pub warnings: Vec<String>,
}

/// What the host provided for one invocation, probed once at its start:
/// environment overrides, toolchain facts and the platform.
#[derive(Debug)]
pub struct HostEnv {
    /// The profiler program to use, from the override or the default name.
    pub samply_program: String,
    /// Whether the environment disables manifest profile injection.
    pub no_inject_env: bool,
    /// Whether the environment disables library-path injection.
    pub no_sysroot_injection: bool,
    /// The toolchain's sysroot; read only when injection is enabled.
    pub sysroot: FsPath,
    /// The toolchain's host target, a fallback when the artifact path does
    /// not show a triple.
    pub host_triple: String,
    /// What the platform's library-path variable currently holds.
    pub lib_path_current: String,
    /// The platform's library-path variable and separator.
    pub platform: Platform,
    /// Whether artifacts carry the executable suffix.
    pub is_windows: bool,
}

/// Relies on `which::which`: whether a program of the given name can be
/// located on the search path. The answer depends on the machine's state,
/// so nothing is promised of it.
#[verifier::external_body]
fn samply_on_path(program: &String) -> bool {
    which::which(program.as_str()).is_ok()
}

/// Names the words that shell-style splitting of the text yields, a function
/// of the text alone; `None` when a quote is left unclosed.
pub uninterp spec fn shell_split_of(s: Seq<char>) -> Option<Seq<Seq<char>>>;

/// Relies on `shell_words::split`, which splits text as a POSIX shell would
/// and fails exactly when a quote is left unclosed.
#[verifier::external_body]
fn shell_split(s: &str) -> (r: Option<Vec<String>>)
    ensures
        r matches Some(v) ==> (shell_split_of(s@) matches Some(w) && v.deep_view() == w),
        r is None ==> shell_split_of(s@) is None,
{
    shell_words::split(s).ok()
}

/// Appends one string to a vector of strings.
pub fn push_string(v: &mut Vec<String>, x: String)
    ensures
        final(v).deep_view() == old(v).deep_view().push(x@),
{
    let ghost n0 = v@.len() as int;
    v.push(x);
    proof {
        assert forall|j: int| 0 <= j < v@.len() implies v.deep_view()[j] == old(
            v,
        ).deep_view().push(x@)[j] by {
            assert(v.deep_view()[j] == v@[j]@);
            if j < n0 {
                assert(v@[j] == old(v)@[j]);
                assert(old(v).deep_view()[j] == old(v)@[j]@);
            } else {
                assert(v@[j] == x);
            }
        }
        assert(v.deep_view() =~~= old(v).deep_view().push(x@));
    }
}

/// The comma-joined feature list, or nothing when no features are set.
pub fn features_to_string(features: &Vec<String>) -> (r: Option<String>)
    ensures
        features@.len() == 0 ==> r is None,
        features@.len() > 0 ==> (r matches Some(s) && s@ == text::spec_join(
            features.deep_view(),
            ","@,
        )),
{
    if features.len() > 0 {
        Some(text::join_strings(features, ","))
    } else {
        None
    }
}

/// The runtime arguments of the run: the benchmark-harness flag first when
/// one applies, then the trailing arguments.
pub fn prepare_runtime_args(bench_flag: Option<&str>, trailing_args: Vec<String>) -> (r: Vec<
    String,
>)
    ensures
        r.deep_view() == match bench_flag {
            Some(f) => seq![f@] + trailing_args.deep_view(),
            None => trailing_args.deep_view(),
        },
{
    let mut args: Vec<String> = Vec::new();
    proof {
        assert(args.deep_view() =~~= Seq::<Seq<char>>::empty());
    }
    if let Some(flag) = bench_flag {
        push_string(&mut args, String::from_str(flag));
        proof {
            assert(Seq::<Seq<char>>::empty().push(flag@) =~= seq![flag@]);
        }
    }
    let ghost head = args.deep_view();
    let mut rest = trailing_args;
    let ghost tail = rest.deep_view();
    let mut j: usize = 0;
    while j < rest.len()
        invariant
            j <= rest@.len(),
            tail == rest.deep_view(),
            tail.len() == rest@.len(),
            args.deep_view() == head + tail.take(j as int),
        decreases rest@.len() - j,
    {
        proof {
            assert(tail[j as int] == rest@[j as int]@);
            assert((head + tail.take(j as int)).push(tail[j as int]) =~= head + tail.take(
                j + 1 as int,
            ));
        }
        push_string(&mut args, rest[j].clone());
        j = j + 1;
    }
    proof {
        assert(tail.take(rest@.len() as int) =~= tail);
        if bench_flag is Some {
            assert(args.deep_view() =~= seq![bench_flag.unwrap()@] + trailing_args.deep_view());
        } else {
            assert(head =~= Seq::<Seq<char>>::empty());
            assert(args.deep_view() =~= trailing_args.deep_view());
        }
    }
    args
}

/// The profiler invocation's arguments: the record subcommand, the
/// profiler's own arguments, the separator, the artifact, and the runtime
/// arguments.
pub open spec fn spec_samply_record_args(
    bin_path: Seq<Seq<char>>,
    samply_args: Seq<Seq<char>>,
    runtime_args: Seq<Seq<char>>,
) -> Seq<Seq<char>> {
    seq!["record"@] + samply_args + seq!["--"@, spec_render(bin_path)] + runtime_args
}

/// Builds the profiler invocation's arguments, the artifact standing after
/// the separator and before the runtime arguments.
pub fn samply_record_args(
    bin_path: &FsPath,
    samply_args: &Vec<String>,
    runtime_args: &Vec<String>,
) -> (r: Vec<String>)
    ensures
        r.deep_view() == spec_samply_record_args(
            bin_path@,
            samply_args.deep_view(),
            runtime_args.deep_view(),
        ),
{
    let mut args: Vec<String> = Vec::new();
    proof {
        assert(args.deep_view() =~~= Seq::<Seq<char>>::empty());
    }
    push_string(&mut args, String::from_str("record"));
    let ghost after_record = args.deep_view();
    let mut j: usize = 0;
    while j < samply_args.len()
        invariant
            j <= samply_args@.len(),
            after_record.len() == 1,
            after_record[0] == "record"@,
            samply_args.deep_view().len() == samply_args@.len(),
            args.deep_view() == after_record + samply_args.deep_view().take(j as int),
        decreases samply_args@.len() - j,
    {
        proof {
            let sdv = samply_args.deep_view();
            assert(sdv[j as int] == samply_args@[j as int]@);
            assert((after_record + sdv.take(j as int)).push(sdv[j as int]) =~= after_record
                + sdv.take(j + 1 as int));
        }
        push_string(&mut args, samply_args[j].clone());
        j = j + 1;
    }
    proof {
        assert(samply_args.deep_view().take(samply_args@.len() as int) =~= samply_args.deep_view());
    }
    push_string(&mut args, String::from_str("--"));
    push_string(&mut args, bin_path.render());
    let ghost before_rt = args.deep_view();
    let mut k: usize = 0;
    while k < runtime_args.len()
        invariant
            k <= runtime_args@.len(),
            runtime_args.deep_view().len() == runtime_args@.len(),
            before_rt == (after_record + samply_args.deep_view()).push("--"@).push(
                spec_render(bin_path@),
            ),
            after_record.len() == 1,
            after_record[0] == "record"@,
            args.deep_view() == before_rt + runtime_args.deep_view().take(k as int),
        decreases runtime_args@.len() - k,
    {
        proof {
            let rdv = runtime_args.deep_view();
            assert(rdv[k as int] == runtime_args@[k as int]@);
            assert((before_rt + rdv.take(k as int)).push(rdv[k as int]) =~= before_rt + rdv.take(
                k + 1 as int,
            ));
        }
        push_string(&mut args, runtime_args[k].clone());
        k = k + 1;
    }
    proof {
        assert(runtime_args.deep_view().take(runtime_args@.len() as int)
            =~= runtime_args.deep_view());
        assert(args.deep_view() =~= spec_samply_record_args(
            bin_path@,
            samply_args.deep_view(),
            runtime_args.deep_view(),
        ));
    }
    args
}

/// Whether this invocation injects the profiling profile into the manifest:
/// the profiling profile is active and neither the flag nor the environment
/// disables injection.
pub open spec fn spec_should_inject(cli: Config, no_inject_env: bool) -> bool {
    cli.profile@ == "samply"@ && !cli.no_profile_inject && !no_inject_env
}

/// Decides whether this invocation injects the profiling profile.
pub fn should_inject_profile(cli: &Config, no_inject_env: bool) -> (r: bool)
    ensures
        r == spec_should_inject(*cli, no_inject_env),
{
    text::str_eq(cli.profile.as_str(), "samply") && !cli.no_profile_inject && !no_inject_env
}

/// The target that resolution yields, when it yields one: the selected
/// target, else the declared default-run binary, else the only binary.
pub open spec fn spec_target_of(cli: Config, local: Seq<char>, binaries: Seq<Seq<char>>) -> Option<
    (TargetKind, Seq<char>),
> {
    if cli.bin is Some {
        Some((TargetKind::Bin, cli.bin.unwrap()@))
    } else if cli.example is Some {
        Some((TargetKind::Example, cli.example.unwrap()@))
    } else if cli.bench is Some {
        Some((TargetKind::Bench, cli.bench.unwrap()@))
    } else if cli.test is Some {
        Some((TargetKind::Test, cli.test.unwrap()@))
    } else {
        match default_run_of(local) {
            Some(n) => Some((TargetKind::Bin, n)),
            None => if binaries.len() == 1 {
                Some((TargetKind::Bin, binaries[0]))
            } else {
                None
            },
        }
    }
}

/// The build invocation's arguments: subcommand, machine-readable message
/// format, profile, optional package, the target flag and name, optional
/// features, optional default-features toggle.
pub open spec fn spec_cargo_args(cli: Config, kind: TargetKind, name: Seq<char>) -> Seq<Seq<char>> {
    let s = seq!["build"@, "--message-format=json-diagnostic-rendered-ansi"@, "--profile"@].push(
        cli.profile@,
    );
    let s = if cli.package is Some {
        s.push("--package"@).push(cli.package.unwrap()@)
    } else {
        s
    };
    let s = s.push(spec_cargo_flag(kind)).push(name);
    let s = if cli.features@.len() > 0 {
        s.push("--features"@).push(text::spec_join(cli.features.deep_view(), ","@))
    } else {
        s
    };
    if cli.no_default_features {
        s.push("--no-default-features"@)
    } else {
        s
    }
}

/// The harness flag handed to a benchmark run, unless disabled by the
/// sentinel.
pub open spec fn spec_bench_flag(cli: Config, kind: TargetKind) -> Option<Seq<char>> {
    if kind == TargetKind::Bench && cli.bench_flag@ != "none"@ {
        Some(cli.bench_flag@)
    } else {
        None
    }
}

/// The run's arguments: the harness flag first when one applies, then the
/// trailing arguments.
pub open spec fn spec_runtime_args(cli: Config, kind: TargetKind) -> Seq<Seq<char>> {
    match spec_bench_flag(cli, kind) {
        Some(f) => seq![f] + cli.args.deep_view(),
        None => cli.args.deep_view(),
    }
}

/// The warnings the plan surfaces: the missing-profile warning when the
/// profiling profile is active but injection is disabled and the manifest
/// lacks the profile.
pub open spec fn spec_warnings(cli: Config, no_inject_env: bool, wm: Seq<char>) -> Seq<Seq<char>> {
    if cli.profile@ == "samply"@ && !spec_should_inject(cli, no_inject_env) && samply_profile_of(wm)
        == Some(false) {
        seq![
            (
            "Warning: Profile 'samply' is missing in Cargo.toml and injection is disabled. Profiling might fail or lack symbols.")@,
        ]
    } else {
        Seq::empty()
    }
}

/// Where the artifact is expected before the build, and whether the guess is
/// definite: benchmark and test guesses are tentative when the deps
/// directory is missing or shows no matching file.
pub open spec fn spec_path_guess(
    root: Seq<Seq<char>>,
    profile: Seq<char>,
    kind: TargetKind,
    name: Seq<char>,
    deps: Option<Vec<DepsEntry>>,
    is_windows: bool,
) -> (Seq<Seq<char>>, bool) {
    match kind {
        TargetKind::Bin => (spec_bin_path(root, profile, true, name, is_windows), true),
        TargetKind::Example => (spec_bin_path(root, profile, false, name, is_windows), true),
        _ => {
            let dir = spec_deps_dir(root, profile);
            match deps {
                None => (dir.push(name), false),
                Some(entries) => if exists|i: int|
                    spec_bench_choice(entries@, i, name, is_windows) {
                    let i = choose|i: int| spec_bench_choice(entries@, i, name, is_windows);
                    (dir.push(entries@[i].file_name@), true)
                } else {
                    (dir.push(name + "-*"@), false)
                },
            }
        },
    }
}

pub proof fn lemma_bench_choice_unique(
    entries: Seq<DepsEntry>,
    name: Seq<char>,
    is_windows: bool,
    i1: int,
    i2: int,
)
    requires
        spec_bench_choice(entries, i1, name, is_windows),
        spec_bench_choice(entries, i2, name, is_windows),
    ensures
        i1 == i2,
{
    assert(entries[i1].modified <= entries[i2].modified);
    assert(entries[i2].modified <= entries[i1].modified);
}

/// The target triple used for library paths: the one the artifact path
/// shows, else the toolchain's host.
pub open spec fn spec_triple(
    bin: Seq<Seq<char>>,
    profile: Seq<char>,
    host: Seq<char>,
) -> Seq<char> {
    match spec_infer_triple(bin, profile) {
        Some(t) => t,
        None => host,
    }
}

/// The profiler arguments the plan carries: the shell-split profiler
/// argument string, or nothing.
pub open spec fn spec_samply_split(cli: Config) -> Seq<Seq<char>> {
    match cli.samply_args {
        Some(s) => match shell_split_of(s@) {
            Some(w) => w,
            None => Seq::empty(),
        },
        None => Seq::empty(),
    }
}

/// Every field of a successfully constructed plan, pinned.
pub open spec fn spec_plan_fields(
    plan: ExecutionPlan,
    cli: Config,
    env: HostEnv,
    kind: TargetKind,
    name: Seq<char>,
    root: Seq<Seq<char>>,
    deps: Option<Vec<DepsEntry>>,
    wm: Seq<char>,
) -> bool {
    let guess = spec_path_guess(root, cli.profile@, kind, name, deps, env.is_windows);
    &&& plan.build matches Some(b) && b.cargo_args.deep_view() == spec_cargo_args(cli, kind, name)
    &&& plan.warnings.deep_view() == spec_warnings(cli, env.no_inject_env, wm)
    &&& plan.run.bin_path@ == guess.0
    &&& (guess.1 ==> plan.run.re_resolve_context is None)
    &&& (!guess.1 ==> (plan.run.re_resolve_context matches Some(ctx) && ctx.0@ == root && ctx.1@
        == cli.profile@ && ctx.2.kind == kind && ctx.2.name@ == name))
    &&& plan.run.args.deep_view() == spec_runtime_args(cli, kind)
    &&& (env.no_sysroot_injection ==> plan.run.env_vars@.len() == 0)
    &&& (!env.no_sysroot_injection ==> plan.run.env_vars@.len() == 1 && (
    plan.run.env_vars@[0].0)@ == env.platform.env_var_name@ && (plan.run.env_vars@[0].1)@
        == text::spec_join(
        spec_lib_parts(
            guess.0,
            spec_triple(guess.0, cli.profile@, env.host_triple@),
            env.sysroot@,
            env.lib_path_current@,
            env.platform.separator@[0],
        ),
        env.platform.separator@,
    ))
    &&& plan.run.is_samply == !cli.no_samply
    &&& plan.run.samply_program@ == env.samply_program@
    &&& plan.run.samply_args.deep_view() == spec_samply_split(cli)
}

/// What plan construction gives, once the profiler availability check has
/// passed or was skipped: each failure on exactly its inputs, and on the
/// rest a plan with every field pinned.
pub open spec fn spec_plan_outcome(
    r: Result<ExecutionPlan, Error>,
    cli: Config,
    env: HostEnv,
    binaries: Seq<Seq<char>>,
    examples: Seq<Seq<char>>,
    root: Seq<Seq<char>>,
    local: Seq<char>,
    wm: Seq<char>,
    deps: Option<Vec<DepsEntry>>,
) -> bool {
    if spec_selected_count(cli) > 1 {
        r matches Err(e) && e is MultipleTargetsFlagsSpecified
    } else {
        match spec_target_of(cli, local, binaries) {
            None => if binaries.len() == 0 {
                r matches Err(e) && e is NoBinaryFound
            } else {
                r matches Err(e) && (e matches Error::BinaryToRunNotDetermined { suggestions }
                    && suggestions@ == crate::target::spec_suggestions_text(binaries, examples))
            },
            Some((kind, name)) => {
                if cli.profile@ == "samply"@ && !spec_should_inject(cli, env.no_inject_env)
                    && samply_profile_of(wm) is None {
                    r matches Err(e) && e matches Error::Toml { message: _ }
                } else if cli.samply_args matches Some(s) && shell_split_of(s@) is None {
                    r matches Err(e) && (e matches Error::Io { message } && message@
                        == "Invalid samply-args: missing closing quote"@)
                } else {
                    r matches Ok(plan) && spec_plan_fields(plan, cli, env, kind, name, root, deps, wm)
                }
            },
        }
    }
}

/// Composes the resolved target, build configuration and runtime arguments
/// into the invocation's execution plan. The profiler availability check is
/// the one step whose outcome depends on the machine; everything else of the
/// result is pinned by `spec_plan_outcome`.
pub fn generate_plan(
    cli: &Config,
    env: &HostEnv,
    metadata: &WorkspaceMetadata,
    local_manifest: &str,
    workspace_manifest: &str,
    deps: &Option<Vec<DepsEntry>>,
) -> (r: Result<ExecutionPlan, Error>)
    requires
        platform_valid(env.platform),
    ensures
        (r matches Err(e) && e is SamplyNotFound) ==> (!cli.no_samply && !cli.dry_run),
        !(r matches Err(e) && e is SamplyNotFound) ==> spec_plan_outcome(
            r,
            *cli,
            *env,
            metadata.binaries.deep_view(),
            metadata.examples.deep_view(),
            metadata.workspace_root@,
            local_manifest@,
            workspace_manifest@,
            *deps,
        ),
{
    if !cli.no_samply && !cli.dry_run {
        if !samply_on_path(&env.samply_program) {
            return Err(Error::SamplyNotFound);
        }
    }
    let target = match crate::target::determine_target(cli, local_manifest, metadata) {
        Ok(t) => t,
        Err(e) => {
            return Err(e);
        },
    };
    let mut warnings: Vec<String> = Vec::new();
    proof {
        assert(warnings.deep_view() =~~= Seq::<Seq<char>>::empty());
    }
    if text::str_eq(cli.profile.as_str(), "samply") {
        let inject = !cli.no_profile_inject && !env.no_inject_env;
        if !inject {
            match manifest::has_samply_profile(workspace_manifest) {
                Ok(true) => {},
                Ok(false) => {
                    push_string(
                        &mut warnings,
                        String::from_str(
                            "Warning: Profile 'samply' is missing in Cargo.toml and injection is disabled. Profiling might fail or lack symbols.",
                        ),
                    );
                    proof {
                        assert(warnings.deep_view() =~= spec_warnings(
                            *cli,
                            env.no_inject_env,
                            workspace_manifest@,
                        ));
                    }
                },
                Err(e) => {
                    return Err(e);
                },
            }
        }
    }
    proof {
        assert(warnings.deep_view() =~= spec_warnings(*cli, env.no_inject_env, workspace_manifest@));
    }
    let mut cargo_args: Vec<String> = Vec::new();
    proof {
        assert(cargo_args.deep_view() =~~= Seq::<Seq<char>>::empty());
    }
    push_string(&mut cargo_args, String::from_str("build"));
    push_string(
        &mut cargo_args,
        String::from_str("--message-format=json-diagnostic-rendered-ansi"),
    );
    push_string(&mut cargo_args, String::from_str("--profile"));
    push_string(&mut cargo_args, cli.profile.clone());
    proof {
        assert(Seq::<Seq<char>>::empty().push("build"@).push(
            "--message-format=json-diagnostic-rendered-ansi"@,
        ).push("--profile"@) =~= seq![
            "build"@,
            "--message-format=json-diagnostic-rendered-ansi"@,
            "--profile"@,
        ]);
    }
    if let Some(package) = &cli.package {
        push_string(&mut cargo_args, String::from_str("--package"));
        push_string(&mut cargo_args, package.clone());
    }
    push_string(&mut cargo_args, String::from_str(target.kind.cargo_flag()));
    push_string(&mut cargo_args, target.name.clone());
    match features_to_string(&cli.features) {
        Some(f) => {
            push_string(&mut cargo_args, String::from_str("--features"));
            push_string(&mut cargo_args, f);
        },
        None => {},
    }
    if cli.no_default_features {
        push_string(&mut cargo_args, String::from_str("--no-default-features"));
    }
    proof {
        assert(cargo_args.deep_view() == spec_cargo_args(*cli, target.kind, target.name@));
    }
    let build_plan = BuildPlan { cargo_args };
    let ghost root = metadata.workspace_root@;
    let ghost guess = spec_path_guess(
        root,
        cli.profile@,
        target.kind,
        target.name@,
        *deps,
        env.is_windows,
    );
    let (bin_path, re_resolve_context): (FsPath, Option<(FsPath, String, Target)>) = match crate::paths::resolve_target_path(
        &metadata.workspace_root,
        cli.profile.as_str(),
        &target,
        deps,
        env.is_windows,
    ) {
        Ok(p) => {
            proof {
                match target.kind {
                    TargetKind::Bin => {},
                    TargetKind::Example => {},
                    _ => {
                        let i = choose|i: int|
                            spec_bench_choice(
                                deps.unwrap()@,
                                i,
                                target.name@,
                                env.is_windows,
                            ) && p@ == spec_deps_dir(root, cli.profile@).push(
                                deps.unwrap()@[i].file_name@,
                            );
                        let c = choose|c: int|
                            spec_bench_choice(deps.unwrap()@, c, target.name@, env.is_windows);
                        lemma_bench_choice_unique(
                            deps.unwrap()@,
                            target.name@,
                            env.is_windows,
                            i,
                            c,
                        );
                    },
                }
                assert(p@ == guess.0 && guess.1);
            }
            (p, None)
        },
        Err(e) => {
            match e {
                Error::BinaryNotFound { path: _ } => {
                    let d = crate::paths::deps_dir(&metadata.workspace_root, cli.profile.as_str());
                    let g = match deps {
                        None => d.join(target.name.as_str()),
                        Some(_) => {
                            let mut w = String::from_str(target.name.as_str());
                            w.append("-*");
                            d.join(w.as_str())
                        },
                    };
                    proof {
                        if deps is Some {
                            if exists|i: int|
                                spec_bench_choice(
                                    deps.unwrap()@,
                                    i,
                                    target.name@,
                                    env.is_windows,
                                ) {
                                let i = choose|i: int|
                                    spec_bench_choice(
                                        deps.unwrap()@,
                                        i,
                                        target.name@,
                                        env.is_windows,
                                    );
                                assert(spec_bench_matches(
                                    deps.unwrap()@[i],
                                    target.name@,
                                    env.is_windows,
                                ));
                                assert(false);
                            }
                        }
                        assert(g@ == guess.0 && !guess.1);
                    }
                    (
                        g,
                        Some(
                            (
                                metadata.workspace_root.duplicate(),
                                cli.profile.clone(),
                                target.duplicate(),
                            ),
                        ),
                    )
                },
                e => {
                    proof {
                        assert(false);
                    }
                    return Err(e);
                },
            }
        },
    };
    let bench_flag: Option<&str> = if target.kind == TargetKind::Bench && !text::str_eq(
        cli.bench_flag.as_str(),
        "none",
    ) {
        Some(cli.bench_flag.as_str())
    } else {
        None
    };
    let runtime_args = prepare_runtime_args(bench_flag, text::clone_strings(&cli.args));
    proof {
        assert(runtime_args.deep_view() == spec_runtime_args(*cli, target.kind));
    }
    let triple: String = match crate::paths::infer_target_triple(&bin_path, cli.profile.as_str()) {
        Some(t) => t,
        None => env.host_triple.clone(),
    };
    let lp = crate::paths::calculate_library_path(
        &bin_path,
        triple.as_str(),
        &env.platform,
        env.no_sysroot_injection,
        &env.sysroot,
        env.lib_path_current.as_str(),
    );
    let mut env_vars: Vec<(String, String)> = Vec::new();
    if let Some(kv) = lp {
        env_vars.push(kv);
    }
    let samply_args: Vec<String> = match &cli.samply_args {
        Some(s) => {
            match shell_split(s.as_str()) {
                Some(v) => v,
                None => {
                    return Err(
                        Error::Io {
                            message: String::from_str("Invalid samply-args: missing closing quote"),
                        },
                    );
                },
            }
        },
        None => {
            let v: Vec<String> = Vec::new();
            proof {
                assert(v.deep_view() =~~= Seq::<Seq<char>>::empty());
            }
            v
        },
    };
    let run_plan = RunPlan {
        bin_path,
        args: runtime_args,
        env_vars,
        is_samply: !cli.no_samply,
        samply_program: env.samply_program.clone(),
        samply_args,
        re_resolve_context,
    };
    Ok(ExecutionPlan { build: Some(build_plan), run: run_plan, warnings })
}

/// Whether a build-message artifact is the resolved target's executable:
/// its name matches and it is of a runnable kind.
pub fn artifact_matches(
    target_name: &str,
    artifact_name: &str,
    is_bin: bool,
    is_example: bool,
    is_bench: bool,
    is_test: bool,
) -> (r: bool)
    ensures
        r == (artifact_name@ == target_name@ && (is_bin || is_example || is_bench || is_test)),
{
    text::str_eq(artifact_name, target_name) && (is_bin || is_example || is_bench || is_test)
}

} // verus!
