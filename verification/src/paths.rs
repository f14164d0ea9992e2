//! Filesystem conventions of the build tool: where each artifact kind lands
//! under the target directory, and runtime library-path assembly.
//!
//! A path is modeled by its segments, the text between the separators; a
//! leading empty segment stands for the filesystem root.

use vstd::prelude::*;
use vstd::string::StringExecFns;
use vstd::string::StrSliceExecFns;

use crate::error::Error;
use crate::target::Target;
use crate::target::TargetKind;
use crate::text;

verus! {

broadcast use vstd::string::group_string_axioms;

/// A filesystem path, as the sequence of its segments.
#[derive(Debug)]
pub struct FsPath {
    /// The segments between path separators, in order.
    pub segs: Vec<String>,
}

impl View for FsPath {
    type V = Seq<Seq<char>>;

    open spec fn view(&self) -> Seq<Seq<char>> {
        self.segs.deep_view()
    }
}

/// The textual form of a path: its segments joined by the separator.
pub open spec fn spec_render(p: Seq<Seq<char>>) -> Seq<char> {
    text::spec_join(p, "/"@)
}

impl FsPath {
    /// The empty path.
    pub fn empty() -> (r: FsPath)
        ensures
            r@ =~= Seq::<Seq<char>>::empty(),
    {
        FsPath { segs: Vec::new() }
    }

    /// A path made of the given segments.
    pub fn from_segs(segs: Vec<String>) -> (r: FsPath)
        ensures
            r@ == segs.deep_view(),
    {
        FsPath { segs }
    }

    /// An equal path, freshly allocated.
    pub fn duplicate(&self) -> (r: FsPath)
        ensures
            r@ == self@,
    {
        let mut segs: Vec<String> = Vec::new();
        let mut i: usize = 0;
        while i < self.segs.len()
            invariant
                i <= self.segs.len(),
                segs@.len() == i as int,
                forall|j: int| 0 <= j < i ==> segs@[j]@ == self.segs@[j]@,
            decreases self.segs.len() - i,
        {
            segs.push(self.segs[i].clone());
            i = i + 1;
        }
        proof {
            assert(segs.deep_view() =~~= self.segs.deep_view());
        }
        FsPath { segs }
    }

    /// This path extended by one more segment.
    pub fn join(&self, seg: &str) -> (r: FsPath)
        ensures
            r@ == self@.push(seg@),
    {
        let mut p = self.duplicate();
        p.segs.push(String::from_str(seg));
        proof {
            assert(p.segs.deep_view() =~= self@.push(seg@));
        }
        p
    }

    /// Appends one more segment in place.
    pub fn push_seg(&mut self, seg: String)
        ensures
            final(self)@ == old(self)@.push(seg@),
    {
        self.segs.push(seg);
        proof {
            assert(self.segs.deep_view() =~= old(self)@.push(seg@));
        }
    }

    /// The textual form of this path.
    pub fn render(&self) -> (r: String)
        ensures
            r@ == spec_render(self@),
    {
        text::join_strings(&self.segs, "/")
    }
}

/// Index of the last occurrence of `c` in `s`, or `-1` when absent.
pub open spec fn last_index_of(s: Seq<char>, c: char) -> int
    decreases s.len(),
{
    if s.len() == 0 {
        -1
    } else if s.last() == c {
        s.len() - 1
    } else {
        last_index_of(s.take(s.len() - 1), c)
    }
}

pub proof fn lemma_last_index_of(s: Seq<char>, c: char)
    ensures
        last_index_of(s, c) == -1 ==> forall|j: int| 0 <= j < s.len() ==> s[j] != c,
        last_index_of(s, c) != -1 ==> {
            let r = last_index_of(s, c);
            &&& 0 <= r < s.len()
            &&& s[r] == c
            &&& forall|j: int| r < j < s.len() ==> s[j] != c
        },
    decreases s.len(),
{
    if s.len() == 0 {
    } else if s.last() == c {
    } else {
        lemma_last_index_of(s.take(s.len() - 1), c);
        assert(forall|j: int| 0 <= j < s.len() - 1 ==> s[j] == s.take(s.len() - 1)[j]);
    }
}

/// Whether a file name carries an extension, by the usual path convention:
/// a dot anywhere past the first character.
pub open spec fn spec_has_extension(name: Seq<char>) -> bool {
    last_index_of(name, '.') >= 1
}

/// The extension of a file name: what follows the last dot, when that dot
/// is past the first character.
pub open spec fn spec_extension(name: Seq<char>) -> Option<Seq<char>> {
    if spec_has_extension(name) {
        Some(name.skip(last_index_of(name, '.') + 1))
    } else {
        None
    }
}

/// Decides whether the file name carries an extension.
pub fn has_extension(name: &str) -> (r: bool)
    ensures
        r == spec_has_extension(name@),
{
    proof {
        lemma_last_index_of(name@, '.');
    }
    match text::rfind_char(name, '.') {
        Some(i) => {
            proof {
                let l = last_index_of(name@, '.');
                if l == -1 {
                    assert(name@[i as int] == '.');
                }
                assert(l != -1);
                if l < i as int {
                    assert(name@[i as int] != '.');
                }
                if l > i as int {
                    assert(name@[l] != '.');
                }
                assert(l == i as int);
            }
            i >= 1
        },
        None => {
            proof {
                let l = last_index_of(name@, '.');
                if l != -1 {
                    assert(name@[l] == '.');
                }
            }
            false
        },
    }
}

/// The lower- or upper-case spelling of the executable extension.
pub open spec fn spec_is_exe(e: Seq<char>) -> bool {
    e.len() == 3 && (e[0] == 'e' || e[0] == 'E') && (e[1] == 'x' || e[1] == 'X') && (e[2] == 'e'
        || e[2] == 'E')
}

/// Whether a file of this name is a runnable build product: with the
/// executable extension where the platform uses one, extensionless elsewhere.
pub open spec fn spec_is_executable_artifact(name: Seq<char>, is_windows: bool) -> bool {
    if is_windows {
        spec_extension(name) matches Some(e) && spec_is_exe(e)
    } else {
        spec_extension(name) is None
    }
}

/// Decides whether a file of this name is a runnable build product.
pub fn is_executable_artifact(name: &str, is_windows: bool) -> (r: bool)
    ensures
        r == spec_is_executable_artifact(name@, is_windows),
{
    proof {
        lemma_last_index_of(name@, '.');
    }
    let found = match text::rfind_char(name, '.') {
        Some(i) => {
            proof {
                let l = last_index_of(name@, '.');
                if l == -1 {
                    assert(name@[i as int] == '.');
                }
                if l != -1 && l < i as int {
                    assert(name@[i as int] != '.');
                }
                if l != -1 && l > i as int {
                    assert(name@[l] != '.');
                }
                assert(l == i as int);
            }
            Some(i)
        },
        None => {
            proof {
                let l = last_index_of(name@, '.');
                if l != -1 {
                    assert(name@[l] == '.');
                }
            }
            None
        },
    };
    if is_windows {
        match found {
            Some(i) => {
                if i < 1 {
                    return false;
                }
                let len = name.unicode_len();
                if len - i - 1 != 3 {
                    proof {
                        assert(spec_extension(name@).unwrap().len() != 3);
                    }
                    return false;
                }
                let c0 = name.get_char(i + 1);
                let c1 = name.get_char(i + 2);
                let c2 = name.get_char(i + 3);
                proof {
                    let e = spec_extension(name@).unwrap();
                    assert(e.len() == 3);
                    assert(e[0] == name@[i + 1]);
                    assert(e[1] == name@[i + 2]);
                    assert(e[2] == name@[i + 3]);
                }
                (c0 == 'e' || c0 == 'E') && (c1 == 'x' || c1 == 'X') && (c2 == 'e' || c2 == 'E')
            },
            None => false,
        }
    } else {
        match found {
            Some(i) => i < 1,
            None => true,
        }
    }
}

/// Where a binary or example lands: under the profile directory, examples in
/// their own subdirectory, with the executable suffix where the platform
/// uses one.
pub open spec fn spec_bin_path(
    root: Seq<Seq<char>>,
    profile: Seq<char>,
    is_bin: bool,
    name: Seq<char>,
    is_windows: bool,
) -> Seq<Seq<char>> {
    let base = if is_bin {
        root.push("target"@).push(profile).push(name)
    } else {
        root.push("target"@).push(profile).push("examples"@).push(name)
    };
    if is_windows && !spec_has_extension(base.last()) {
        base.update(base.len() - 1, base.last() + ".exe"@)
    } else {
        base
    }
}

/// Constructs the expected path of a built binary or example.
pub fn get_bin_path(
    root: &FsPath,
    profile: &str,
    bin_opt: &str,
    bin_name: &str,
    is_windows: bool,
) -> (r: FsPath)
    ensures
        r@ == spec_bin_path(root@, profile@, bin_opt@ == "--bin"@, bin_name@, is_windows),
{
    let mut p = root.join("target");
    p.push_seg(String::from_str(profile));
    if !text::str_eq(bin_opt, "--bin") {
        p.push_seg(String::from_str("examples"));
    }
    p.push_seg(String::from_str(bin_name));
    if is_windows && !has_extension(last_seg(&p).as_str()) {
        let mut ext = last_seg(&p).clone();
        ext.append(".exe");
        let li = p.segs.len() - 1;
        p.segs.set(li, ext);
        proof {
            let base = spec_bin_path_base(root@, profile@, bin_opt@ == "--bin"@, bin_name@);
            assert(p.segs.deep_view() =~= base.update(base.len() - 1, base.last() + ".exe"@));
        }
        p
    } else {
        p
    }
}

/// The path before the executable-suffix adjustment.
pub open spec fn spec_bin_path_base(
    root: Seq<Seq<char>>,
    profile: Seq<char>,
    is_bin: bool,
    name: Seq<char>,
) -> Seq<Seq<char>> {
    if is_bin {
        root.push("target"@).push(profile).push(name)
    } else {
        root.push("target"@).push(profile).push("examples"@).push(name)
    }
}

/// The last segment of a non-empty path.
fn last_seg(p: &FsPath) -> (r: &String)
    requires
        p@.len() > 0,
    ensures
        r@ == p@.last(),
{
    &p.segs[p.segs.len() - 1]
}

/// One entry of the dependency-artifacts directory, as the caller saw it on
/// disk: its file name, whether it is a regular file, and its modification
/// time in nanoseconds.
#[derive(Debug, Clone)]
pub struct DepsEntry {
    /// The entry's file name, without its directory.
    pub file_name: String,
    /// Whether the entry is a regular file.
    pub is_file: bool,
    /// Modification time, in nanoseconds since the epoch; zero if unknown.
    pub modified: u64,
}

/// The dependency-artifacts directory of a profile.
pub open spec fn spec_deps_dir(root: Seq<Seq<char>>, profile: Seq<char>) -> Seq<Seq<char>> {
    root.push("target"@).push(profile).push("deps"@)
}

/// Constructs the dependency-artifacts directory of a profile.
pub fn deps_dir(root: &FsPath, profile: &str) -> (r: FsPath)
    ensures
        r@ == spec_deps_dir(root@, profile@),
{
    let mut p = root.join("target");
    p.push_seg(String::from_str(profile));
    p.push_seg(String::from_str("deps"));
    p
}

/// Whether a deps-directory entry can be the compiled form of the named
/// target: a regular executable file whose name starts with the target name,
/// or its underscore spelling, followed by a hyphen.
pub open spec fn spec_bench_matches(e: DepsEntry, name: Seq<char>, is_windows: bool) -> bool {
    &&& e.is_file
    &&& (text::is_prefix(name + "-"@, e.file_name@) || text::is_prefix(
        text::spec_replace(name, '-', '_') + "-"@,
        e.file_name@,
    ))
    &&& spec_is_executable_artifact(e.file_name@, is_windows)
}

/// The entry the scan keeps: the first one of greatest modification time
/// among those that match.
pub open spec fn spec_bench_choice(
    entries: Seq<DepsEntry>,
    i: int,
    name: Seq<char>,
    is_windows: bool,
) -> bool {
    &&& 0 <= i < entries.len()
    &&& spec_bench_matches(entries[i], name, is_windows)
    &&& forall|j: int|
        0 <= j < entries.len() && spec_bench_matches(#[trigger] entries[j], name, is_windows)
            ==> entries[j].modified <= entries[i].modified && (entries[j].modified
            == entries[i].modified ==> i <= j)
}

/// What resolving a benchmark or test artifact returns: the newest matching
/// file of the deps directory, or the not-found error naming the place that
/// was searched.
pub open spec fn spec_bench_result(
    r: Result<FsPath, Error>,
    root: Seq<Seq<char>>,
    profile: Seq<char>,
    name: Seq<char>,
    deps: Option<Vec<DepsEntry>>,
    is_windows: bool,
) -> bool {
    let dir = spec_deps_dir(root, profile);
    match deps {
        None => r matches Err(e) && (e matches Error::BinaryNotFound { path } && path@
            == spec_render(dir.push(name))),
        Some(entries) => match r {
            Ok(p) => exists|i: int|
                spec_bench_choice(entries@, i, name, is_windows) && p@ == dir.push(
                    entries@[i].file_name@,
                ),
            Err(e) => (forall|j: int|
                0 <= j < entries@.len() ==> !spec_bench_matches(
                    #[trigger] entries@[j],
                    name,
                    is_windows,
                )) && (e matches Error::BinaryNotFound { path } && path@ == spec_render(
                dir.push(name + "-*"@),
            )),
        },
    }
}

/// Locates the newest matching artifact of a benchmark or test target in the
/// deps directory, or reports where it was expected.
pub fn get_bench_path(
    root: &FsPath,
    profile: &str,
    bench_name: &str,
    deps: &Option<Vec<DepsEntry>>,
    is_windows: bool,
) -> (r: Result<FsPath, Error>)
    ensures
        spec_bench_result(r, root@, profile@, bench_name@, *deps, is_windows),
{
    let dir = deps_dir(root, profile);
    let entries = match deps {
        None => {
            return Err(
                Error::BinaryNotFound { path: dir.join(bench_name).render() },
            );
        },
        Some(entries) => entries,
    };
    let mut prefix = String::from_str(bench_name);
    prefix.append("-");
    let mut prefix_sane = text::replace_char(bench_name, '-', '_');
    prefix_sane.append("-");
    let mut best: Option<usize> = None;
    let mut k: usize = 0;
    while k < entries.len()
        invariant
            k <= entries.len(),
            prefix@ == bench_name@ + "-"@,
            prefix_sane@ == text::spec_replace(bench_name@, '-', '_') + "-"@,
            match best {
                None => forall|j: int|
                    0 <= j < k ==> !spec_bench_matches(
                        #[trigger] entries@[j],
                        bench_name@,
                        is_windows,
                    ),
                Some(b) => b < k && spec_bench_matches(entries@[b as int], bench_name@, is_windows)
                    && forall|j: int|
                    0 <= j < k && spec_bench_matches(#[trigger] entries@[j], bench_name@, is_windows)
                        ==> entries@[j].modified <= entries@[b as int].modified && (
                        entries@[j].modified == entries@[b as int].modified ==> b as int <= j),
            },
        decreases entries.len() - k,
    {
        let e = &entries[k];
        let matches_prefix = text::str_starts_with(e.file_name.as_str(), prefix.as_str())
            || text::str_starts_with(e.file_name.as_str(), prefix_sane.as_str());
        if e.is_file && matches_prefix && is_executable_artifact(e.file_name.as_str(), is_windows) {
            match best {
                None => {
                    best = Some(k);
                },
                Some(b) => {
                    if entries[k].modified > entries[b].modified {
                        best = Some(k);
                    }
                },
            }
        }
        k = k + 1;
    }
    match best {
        Some(b) => {
            let chosen = dir.join(entries[b].file_name.as_str());
            proof {
                assert(spec_bench_choice(entries@, b as int, bench_name@, is_windows) && chosen@
                    == spec_deps_dir(root@, profile@).push(entries@[b as int].file_name@));
            }
            Ok(chosen)
        },
        None => {
            let mut wanted = String::from_str(bench_name);
            wanted.append("-*");
            Err(Error::BinaryNotFound { path: dir.join(wanted.as_str()).render() })
        },
    }
}

/// Where the artifact of a resolved target is expected on disk: binaries and
/// examples under the profile directory, benchmarks and tests as the newest
/// matching file of the deps directory.
pub open spec fn spec_resolved_path(
    r: Result<FsPath, Error>,
    root: Seq<Seq<char>>,
    profile: Seq<char>,
    target: Target,
    deps: Option<Vec<DepsEntry>>,
    is_windows: bool,
) -> bool {
    match target.kind {
        TargetKind::Bin => r matches Ok(p) && p@ == spec_bin_path(
            root,
            profile,
            true,
            target.name@,
            is_windows,
        ),
        TargetKind::Example => r matches Ok(p) && p@ == spec_bin_path(
            root,
            profile,
            false,
            target.name@,
            is_windows,
        ),
        TargetKind::Bench => spec_bench_result(r, root, profile, target.name@, deps, is_windows),
        TargetKind::Test => spec_bench_result(r, root, profile, target.name@, deps, is_windows),
    }
}

/// Computes the expected path of the resolved target's artifact.
pub fn resolve_target_path(
    root: &FsPath,
    profile: &str,
    target: &Target,
    deps: &Option<Vec<DepsEntry>>,
    is_windows: bool,
) -> (r: Result<FsPath, Error>)
    ensures
        spec_resolved_path(r, root@, profile@, *target, *deps, is_windows),
{
    match target.kind {
        TargetKind::Bin => {
            let p = get_bin_path(
                root,
                profile,
                TargetKind::Bin.cargo_flag(),
                target.name.as_str(),
                is_windows,
            );
            proof {
                assert(p@ == spec_bin_path(root@, profile@, true, target.name@, is_windows));
            }
            Ok(p)
        },
        TargetKind::Example => {
            let p = get_bin_path(
                root,
                profile,
                TargetKind::Example.cargo_flag(),
                target.name.as_str(),
                is_windows,
            );
            proof {
                reveal_strlit("--bin");
                reveal_strlit("--example");
                assert("--example"@.len() == 9);
                assert("--bin"@.len() == 5);
                assert("--example"@ != "--bin"@);
                assert(p@ == spec_bin_path(root@, profile@, false, target.name@, is_windows));
            }
            Ok(p)
        },
        TargetKind::Bench => get_bench_path(root, profile, target.name.as_str(), deps, is_windows),
        TargetKind::Test => get_bench_path(root, profile, target.name.as_str(), deps, is_windows),
    }
}

/// Index of the first segment equal to `x`, or `-1` when absent.
pub open spec fn first_seg_index(p: Seq<Seq<char>>, x: Seq<char>) -> int
    decreases p.len(),
{
    if p.len() == 0 {
        -1
    } else if p[0] == x {
        0
    } else {
        let r = first_seg_index(p.skip(1), x);
        if r < 0 {
            -1
        } else {
            r + 1
        }
    }
}

pub proof fn lemma_first_seg_index(p: Seq<Seq<char>>, x: Seq<char>)
    ensures
        first_seg_index(p, x) == -1 ==> forall|j: int| 0 <= j < p.len() ==> p[j] != x,
        first_seg_index(p, x) != -1 ==> {
            let r = first_seg_index(p, x);
            &&& 0 <= r < p.len()
            &&& p[r] == x
            &&& forall|j: int| 0 <= j < r ==> p[j] != x
        },
    decreases p.len(),
{
    if p.len() == 0 {
    } else if p[0] == x {
    } else {
        lemma_first_seg_index(p.skip(1), x);
        assert(forall|j: int| 1 <= j < p.len() ==> p[j] == p.skip(1)[j - 1]);
    }
}

/// The target triple read from an artifact path, when the path shows one:
/// the segment after the first `target` segment, provided the segment after
/// that names the profile.
pub open spec fn spec_infer_triple(p: Seq<Seq<char>>, profile: Seq<char>) -> Option<Seq<char>> {
    let k = first_seg_index(p, "target"@);
    if k >= 0 && k + 2 < p.len() && p[k + 2] == profile {
        Some(p[k + 1])
    } else {
        None
    }
}

/// Reads the target triple out of an artifact path, when the path shows one.
pub fn infer_target_triple(bin_path: &FsPath, profile: &str) -> (r: Option<String>)
    ensures
        match r {
            Some(t) => spec_infer_triple(bin_path@, profile@) matches Some(u) && t@ == u,
            None => spec_infer_triple(bin_path@, profile@) is None,
        },
{
    proof {
        lemma_first_seg_index(bin_path@, "target"@);
    }
    let n = bin_path.segs.len();
    let mut k: usize = 0;
    while k < n
        invariant
            k <= n,
            n == bin_path@.len(),
            forall|j: int| 0 <= j < k ==> bin_path@[j] != "target"@,
        decreases n - k,
    {
        proof {
            assert(bin_path@[k as int] == bin_path.segs@[k as int]@);
        }
        if text::str_eq(bin_path.segs[k].as_str(), "target") {
            proof {
                lemma_first_seg_index(bin_path@, "target"@);
                let f = first_seg_index(bin_path@, "target"@);
                if f == -1 {
                    assert(bin_path@[k as int] == "target"@);
                }
                if f < k as int {
                    assert(bin_path@[f] != "target"@);
                }
                if f > k as int {
                    assert(bin_path@[k as int] != "target"@);
                }
                assert(f == k as int);
            }
            if n - k > 2 {
                proof {
                    assert(bin_path@[k + 2 as int] == bin_path.segs@[k + 2 as int]@);
                    assert(bin_path@[k + 1 as int] == bin_path.segs@[k + 1 as int]@);
                }
                if text::str_eq(bin_path.segs[k + 2].as_str(), profile) {
                    return Some(bin_path.segs[k + 1].clone());
                }
            }
            return None;
        }
        k = k + 1;
    }
    proof {
        let f = first_seg_index(bin_path@, "target"@);
        if f != -1 {
            assert(bin_path@[f] != "target"@);
        }
    }
    None
}

/// The operating-system family, as far as library-path assembly cares.
#[derive(Debug, Clone, Copy, PartialEq, Eq, Structural)]
pub enum Os {
    /// Linux and other platforms that use `LD_LIBRARY_PATH`.
    Linux,
    /// The platform that uses `DYLD_LIBRARY_PATH`.
    MacOs,
    /// The platform that searches `PATH` for libraries.
    Windows,
}

/// Platform-specific configuration for library-path environment variables.
#[derive(Debug, Clone, Copy)]
pub struct Platform {
    /// The environment variable that the loader searches.
    pub env_var_name: &'static str,
    /// The separator between entries of that variable.
    pub separator: &'static str,
}

/// The variable name and separator that belong to each platform.
pub open spec fn spec_platform(os: Os) -> (Seq<char>, Seq<char>) {
    match os {
        Os::Linux => ("LD_LIBRARY_PATH"@, ":"@),
        Os::MacOs => ("DYLD_LIBRARY_PATH"@, ":"@),
        Os::Windows => ("PATH"@, ";"@),
    }
}

/// A platform value that belongs to one of the three families.
pub open spec fn platform_valid(p: Platform) -> bool {
    exists|os: Os| p.env_var_name@ == spec_platform(os).0 && p.separator@ == spec_platform(os).1
}

impl Platform {
    /// The library-path configuration of the given operating system.
    pub fn current(os: Os) -> (p: Platform)
        ensures
            p.env_var_name@ == spec_platform(os).0,
            p.separator@ == spec_platform(os).1,
            platform_valid(p),
    {
        let p = match os {
            Os::MacOs => Platform { env_var_name: "DYLD_LIBRARY_PATH", separator: ":" },
            Os::Windows => Platform { env_var_name: "PATH", separator: ";" },
            Os::Linux => Platform { env_var_name: "LD_LIBRARY_PATH", separator: ":" },
        };
        proof {
            assert(p.env_var_name@ == spec_platform(os).0 && p.separator@ == spec_platform(os).1);
        }
        p
    }
}

/// `acc` extended by `x` when `x` is non-empty and not yet present.
pub open spec fn push_unique(acc: Seq<Seq<char>>, x: Seq<char>) -> Seq<Seq<char>> {
    if x.len() > 0 && !acc.contains(x) {
        acc.push(x)
    } else {
        acc
    }
}

/// `acc` extended by each element of `xs` in turn, keeping first occurrences.
pub open spec fn push_unique_all(acc: Seq<Seq<char>>, xs: Seq<Seq<char>>) -> Seq<Seq<char>>
    decreases xs.len(),
{
    if xs.len() == 0 {
        acc
    } else {
        push_unique_all(push_unique(acc, xs[0]), xs.skip(1))
    }
}

pub proof fn lemma_push_unique_all_snoc(acc: Seq<Seq<char>>, xs: Seq<Seq<char>>, x: Seq<char>)
    ensures
        push_unique_all(acc, xs.push(x)) == push_unique(push_unique_all(acc, xs), x),
    decreases xs.len(),
{
    if xs.len() == 0 {
        assert(xs.push(x)[0] == x);
        assert(xs.push(x).skip(1) =~= Seq::<Seq<char>>::empty());
        assert(push_unique_all(acc, xs.push(x)) == push_unique_all(
            push_unique(acc, x),
            xs.push(x).skip(1),
        ));
        assert(push_unique_all(push_unique(acc, x), Seq::<Seq<char>>::empty()) == push_unique(
            acc,
            x,
        ));
        assert(push_unique_all(acc, xs) == acc);
    } else {
        assert(xs.push(x)[0] == xs[0]);
        assert(xs.push(x).skip(1) =~= xs.skip(1).push(x));
        assert(push_unique_all(acc, xs.push(x)) == push_unique_all(
            push_unique(acc, xs[0]),
            xs.skip(1).push(x),
        ));
        assert(push_unique_all(acc, xs) == push_unique_all(push_unique(acc, xs[0]), xs.skip(1)));
        lemma_push_unique_all_snoc(push_unique(acc, xs[0]), xs.skip(1), x);
    }
}

/// Appends `x` to the parts when it is non-empty and not yet present.
fn push_part(parts: &mut Vec<String>, x: String)
    ensures
        final(parts).deep_view() == push_unique(old(parts).deep_view(), x@),
{
    if !x.as_str().is_empty() && !text::contains_str(parts, x.as_str()) {
        proof {
            assert(!parts.deep_view().contains(x@));
        }
        let ghost n0 = parts@.len() as int;
        parts.push(x);
        proof {
            assert(parts@.len() == n0 + 1);
            assert forall|j: int| 0 <= j < parts@.len() implies parts.deep_view()[j] == old(
                parts,
            ).deep_view().push(x@)[j] by {
                assert(parts.deep_view()[j] == parts@[j]@);
                if j < n0 {
                    assert(parts@[j] == old(parts)@[j]);
                    assert(old(parts).deep_view()[j] == old(parts)@[j]@);
                } else {
                    assert(parts@[j] == x);
                }
            }
            assert(parts.deep_view() =~~= old(parts).deep_view().push(x@));
        }
    } else {
        proof {
            if x@.len() > 0 {
                assert(parts.deep_view().contains(x@));
            }
        }
    }
}

/// The search-path entries handed to the dynamic loader, in order: the
/// artifact's deps directory, the toolchain's target and plain library
/// directories, then what the variable already held, each entry trimmed,
/// empty entries dropped, first occurrences kept.
pub open spec fn spec_lib_parts(
    bin: Seq<Seq<char>>,
    triple: Seq<char>,
    sysroot: Seq<Seq<char>>,
    current_val: Seq<char>,
    sep: char,
) -> Seq<Seq<char>> {
    let tlp = spec_render(sysroot.push("lib"@).push("rustlib"@).push(triple).push("lib"@));
    let lp = spec_render(sysroot.push("lib"@));
    push_unique_all(
        push_unique_all(push_unique_all(Seq::empty(), spec_lib_parts_extras(bin)), seq![tlp, lp]),
        spec_lib_parts_env(current_val, sep),
    )
}

/// Computes the environment-variable assignment that lets the artifact find
/// its runtime libraries, or nothing when injection is disabled.
pub fn calculate_library_path(
    bin_path: &FsPath,
    target_triple: &str,
    platform: &Platform,
    no_injection: bool,
    sysroot: &FsPath,
    current_val: &str,
) -> (r: Option<(String, String)>)
    requires
        platform_valid(*platform),
    ensures
        no_injection ==> r is None,
        !no_injection ==> (r matches Some((k, v)) && k@ == platform.env_var_name@ && v@
            == text::spec_join(
            spec_lib_parts(
                bin_path@,
                target_triple@,
                sysroot@,
                current_val@,
                platform.separator@[0],
            ),
            platform.separator@,
        )),
{
    if no_injection {
        return None;
    }
    proof {
        let os = choose|os: Os|
            platform.env_var_name@ == spec_platform(os).0 && platform.separator@ == spec_platform(
                os,
            ).1;
        reveal_strlit(":");
        reveal_strlit(";");
        assert(platform.separator@.len() == 1);
    }
    let sep_c = platform.separator.get_char(0);
    let ghost gsep = platform.separator@[0];
    let mut parts: Vec<String> = Vec::new();
    proof {
        assert(parts.deep_view() =~~= Seq::<Seq<char>>::empty());
    }
    let ghost extras = spec_lib_parts_extras(bin_path@);
    if bin_path.segs.len() > 0 {
        let mut dir = bin_path.duplicate();
        let li = dir.segs.len() - 1;
        let _last = dir.segs.remove(li);
        proof {
            assert(dir.segs.deep_view() =~~= bin_path@.take(bin_path@.len() - 1));
        }
        let ghost dirv = bin_path@.take(bin_path@.len() - 1);
        let deps_here = dir.segs.len() > 0 && text::str_eq(
            dir.segs[dir.segs.len() - 1].as_str(),
            "deps",
        );
        proof {
            if dir.segs.len() > 0 {
                assert(dirv.last() == dir.segs@[dir.segs@.len() - 1]@);
            }
            assert(deps_here == (dirv.len() > 0 && dirv.last() == "deps"@));
        }
        let rendered = if deps_here {
            dir.render()
        } else {
            dir.join("deps").render()
        };
        proof {
            assert(rendered@ == extras[0]);
        }
        push_part(&mut parts, rendered);
        proof {
            assert(extras.len() == 1);
            let acc1 = push_unique(Seq::<Seq<char>>::empty(), extras[0]);
            assert(push_unique_all(Seq::<Seq<char>>::empty(), extras) == push_unique_all(
                acc1,
                extras.skip(1),
            ));
            assert(extras.skip(1) =~= Seq::<Seq<char>>::empty());
            assert(push_unique_all(acc1, Seq::<Seq<char>>::empty()) == acc1);
            assert(parts.deep_view() == push_unique_all(Seq::<Seq<char>>::empty(), extras));
        }
    } else {
        proof {
            assert(extras.len() == 0);
            assert(parts.deep_view() == push_unique_all(Seq::<Seq<char>>::empty(), extras));
        }
    }
    let mut tlp = sysroot.join("lib");
    tlp.push_seg(String::from_str("rustlib"));
    tlp.push_seg(String::from_str(target_triple));
    tlp.push_seg(String::from_str("lib"));
    let lp = sysroot.join("lib");
    let ghost base0 = parts.deep_view();
    push_part(&mut parts, tlp.render());
    push_part(&mut parts, lp.render());
    let ghost tlps = spec_render(sysroot@.push("lib"@).push("rustlib"@).push(target_triple@).push("lib"@));
    let ghost lps = spec_render(sysroot@.push("lib"@));
    proof {
        let two = seq![tlps, lps];
        assert(two[0] == tlps);
        assert(two[1] == lps);
        assert(two.skip(1) =~= seq![lps]);
        let acc1 = push_unique(base0, tlps);
        assert(push_unique_all(base0, two) == push_unique_all(acc1, two.skip(1)));
        assert(seq![lps][0] == lps);
        assert(seq![lps].skip(1) =~= Seq::<Seq<char>>::empty());
        assert(push_unique_all(acc1, seq![lps]) == push_unique_all(
            push_unique(acc1, lps),
            seq![lps].skip(1),
        ));
        assert(push_unique_all(push_unique(acc1, lps), Seq::<Seq<char>>::empty()) == push_unique(
            acc1,
            lps,
        ));
        assert(tlp@ == sysroot@.push("lib"@).push("rustlib"@).push(target_triple@).push("lib"@));
        assert(parts.deep_view() == push_unique_all(base0, two));
    }
    let ghost base1 = parts.deep_view();
    let ghost env_segs = spec_lib_parts_env(current_val@, gsep);
    if !current_val.is_empty() {
        let raw = text::split_char(current_val, sep_c);
        proof {
            assert(env_segs =~= raw.deep_view().map_values(|t: Seq<char>| text::spec_trim(t)));
        }
        let mut j: usize = 0;
        while j < raw.len()
            invariant
                j <= raw.len(),
                env_segs.len() == raw.deep_view().len(),
                raw.deep_view().len() == raw@.len(),
                env_segs == raw.deep_view().map_values(|t: Seq<char>| text::spec_trim(t)),
                parts.deep_view() == push_unique_all(base1, env_segs.take(j as int)),
            decreases raw.len() - j,
        {
            let t = text::trim_str(raw[j].as_str());
            proof {
                assert(raw.deep_view()[j as int] == raw@[j as int]@);
                assert(env_segs[j as int] == text::spec_trim(raw@[j as int]@));
                lemma_push_unique_all_snoc(base1, env_segs.take(j as int), env_segs[j as int]);
                assert(env_segs.take(j as int).push(env_segs[j as int]) =~= env_segs.take(
                    j + 1 as int,
                ));
            }
            push_part(&mut parts, t);
            j = j + 1;
        }
        proof {
            assert(env_segs.take(raw@.len() as int) =~= env_segs);
        }
    } else {
        proof {
            assert(parts.deep_view() == push_unique_all(base1, env_segs));
        }
    }
    proof {
        assert(parts.deep_view() == spec_lib_parts(
            bin_path@,
            target_triple@,
            sysroot@,
            current_val@,
            gsep,
        ));
    }
    let value = text::join_strings(&parts, platform.separator);
    let key = String::from_str(platform.env_var_name);
    Some((key, value))
}

/// The deps-directory entry of the library search path.
pub open spec fn spec_lib_parts_extras(bin: Seq<Seq<char>>) -> Seq<Seq<char>> {
    if bin.len() == 0 {
        Seq::empty()
    } else {
        let dir = bin.take(bin.len() - 1);
        if dir.len() > 0 && dir.last() == "deps"@ {
            seq![spec_render(dir)]
        } else {
            seq![spec_render(dir.push("deps"@))]
        }
    }
}

/// The entries the variable already held, trimmed.
pub open spec fn spec_lib_parts_env(current_val: Seq<char>, sep: char) -> Seq<Seq<char>> {
    if current_val.len() > 0 {
        text::spec_split(current_val, sep).map_values(|t: Seq<char>| text::spec_trim(t))
    } else {
        Seq::empty()
    }
}

} // verus!
