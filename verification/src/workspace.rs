//! Workspace inspection: classifying the discoverable targets of the
//! relevant packages into per-kind name lists, sorted and deduplicated.

use vstd::prelude::*;
use vstd::string::StringExecFns;

use crate::error::Error;
use crate::paths::FsPath;
use crate::text;
use crate::text::chars_lt;

verus! {

/// One target of a package, with its name and the kinds it belongs to.
#[derive(Debug, Clone)]
pub struct TargetInfo {
    /// The target's name.
    pub name: String,
    /// Whether the target is a binary.
    pub is_bin: bool,
    /// Whether the target is an example.
    pub is_example: bool,
    /// Whether the target is a benchmark.
    pub is_bench: bool,
    /// Whether the target is a test.
    pub is_test: bool,
}

/// One package of the workspace, as the metadata query reported it.
#[derive(Debug, Clone)]
pub struct PackageInfo {
    /// The package's name.
    pub name: String,
    /// The canonical directory of the package's manifest.
    pub manifest_dir: String,
    /// Whether that directory is known; when false the package cannot be
    /// matched against the working directory.
    pub has_dir: bool,
    /// Whether the package is a member of the workspace.
    pub is_member: bool,
    /// The package's targets.
    pub targets: Vec<TargetInfo>,
}

/// A snapshot of the discoverable targets: per-kind name lists, each sorted
/// and without duplicates, and the workspace root.
#[derive(Debug)]
pub struct WorkspaceMetadata {
    /// Names of all binary targets.
    pub binaries: Vec<String>,
    /// Names of all example targets.
    pub examples: Vec<String>,
    /// Names of all benchmark targets.
    pub benches: Vec<String>,
    /// Names of all test targets.
    pub tests: Vec<String>,
    /// The workspace root directory.
    pub workspace_root: FsPath,
}

/// Strictly ascending: sorted with no duplicates.
pub open spec fn sorted_unique(s: Seq<Seq<char>>) -> bool {
    forall|i: int, j: int| 0 <= i < j < s.len() ==> chars_lt(s[i], s[j])
}

/// Inserts a name into a sorted duplicate-free list, keeping it so.
pub fn insert_sorted_unique(v: &mut Vec<String>, x: &str)
    requires
        sorted_unique(old(v).deep_view()),
    ensures
        sorted_unique(final(v).deep_view()),
        forall|nm: Seq<char>|
            #[trigger] final(v).deep_view().contains(nm) <==> (old(v).deep_view().contains(nm) || nm
                == x@),
{
    let mut i: usize = 0;
    while i < v.len() && text::str_lt(v[i].as_str(), x)
        invariant
            i <= v.len(),
            sorted_unique(v.deep_view()),
            v == old(v),
            forall|j: int| 0 <= j < i ==> chars_lt(#[trigger] v.deep_view()[j], x@),
        decreases v.len() - i,
    {
        proof {
            assert(v.deep_view()[i as int] == v@[i as int]@);
        }
        i = i + 1;
    }
    if i < v.len() {
        proof {
            assert(v.deep_view()[i as int] == v@[i as int]@);
        }
        if text::str_eq(v[i].as_str(), x) {
            proof {
                assert(v.deep_view().contains(x@));
            }
            return ;
        }
    }
    let ghost odv = v.deep_view();
    proof {
        if i < odv.len() {
            assert(!chars_lt(odv[i as int], x@));
            if !chars_lt(x@, odv[i as int]) {
                text::lemma_chars_lt_connected(x@, odv[i as int]);
                assert(x@ == odv[i as int]);
            }
            assert(chars_lt(x@, odv[i as int]));
        }
    }
    v.insert(i, String::from_str(x));
    proof {
        let ndv = v.deep_view();
        assert(v@.len() == odv.len() + 1);
        assert forall|j: int| 0 <= j < v@.len() implies ndv[j] == (if j < i {
            odv[j]
        } else if j == i {
            x@
        } else {
            odv[j - 1]
        }) by {
            assert(ndv[j] == v@[j]@);
            if j < i {
                assert(v@[j] == old(v)@[j]);
                assert(odv[j] == old(v)@[j]@);
            } else if j > i {
                assert(v@[j] == old(v)@[j - 1]);
                assert(odv[j - 1] == old(v)@[j - 1]@);
            }
        }
        assert forall|a: int, b: int| 0 <= a < b < ndv.len() implies chars_lt(ndv[a], ndv[b]) by {
            if b < i {
            } else if a < i && b == i {
                assert(chars_lt(odv[a], x@)) by {
                    if a == i - 1 {
                    } else {
                        text::lemma_chars_lt_transitive(odv[a], odv[i - 1], x@);
                    }
                }
            } else if a < i && b > i {
                assert(chars_lt(odv[a], odv[b - 1]));
            } else if a == i {
                assert(chars_lt(x@, odv[b - 1])) by {
                    if b - 1 == i {
                    } else {
                        text::lemma_chars_lt_transitive(x@, odv[i as int], odv[b - 1]);
                    }
                }
            } else {
                assert(chars_lt(odv[a - 1], odv[b - 1]));
            }
        }
        assert forall|nm: Seq<char>| #[trigger] ndv.contains(nm) implies (odv.contains(nm) || nm
            == x@) by {
            let k = choose|k: int| 0 <= k < ndv.len() && ndv[k] == nm;
            if k < i {
                assert(odv[k] == nm);
            } else if k > i {
                assert(odv[k - 1] == nm);
            }
        }
        assert forall|nm: Seq<char>| odv.contains(nm) || nm == x@ implies #[trigger] ndv.contains(
            nm,
        ) by {
            if odv.contains(nm) {
                let k = choose|k: int| 0 <= k < odv.len() && odv[k] == nm;
                if k < i {
                    assert(ndv[k] == nm);
                } else {
                    assert(ndv[k + 1] == nm);
                }
            } else {
                assert(ndv[i as int] == nm);
            }
        }
    }
}

/// Which kind a target is listed under: the first of binary, example,
/// benchmark, test that applies.
pub open spec fn classed_bin(t: TargetInfo) -> bool {
    t.is_bin
}

/// Listed as an example: not a binary, and an example.
pub open spec fn classed_example(t: TargetInfo) -> bool {
    !t.is_bin && t.is_example
}

/// Listed as a benchmark: neither binary nor example, and a benchmark.
pub open spec fn classed_bench(t: TargetInfo) -> bool {
    !t.is_bin && !t.is_example && t.is_bench
}

/// Listed as a test: none of the other kinds, and a test.
pub open spec fn classed_test(t: TargetInfo) -> bool {
    !t.is_bin && !t.is_example && !t.is_bench && t.is_test
}

/// Collects one package's targets into the four kind lists.
fn collect_package_targets(
    binaries: &mut Vec<String>,
    examples: &mut Vec<String>,
    benches: &mut Vec<String>,
    tests: &mut Vec<String>,
    pk: &PackageInfo,
)
    requires
        sorted_unique(old(binaries).deep_view()),
        sorted_unique(old(examples).deep_view()),
        sorted_unique(old(benches).deep_view()),
        sorted_unique(old(tests).deep_view()),
    ensures
        sorted_unique(final(binaries).deep_view()),
        sorted_unique(final(examples).deep_view()),
        sorted_unique(final(benches).deep_view()),
        sorted_unique(final(tests).deep_view()),
        forall|nm: Seq<char>|
            #[trigger] final(binaries).deep_view().contains(nm) <==> (old(
                binaries,
            ).deep_view().contains(nm) || exists|t: int|
                0 <= t < pk.targets@.len() && classed_bin(#[trigger] pk.targets@[t])
                    && pk.targets@[t].name@ == nm),
        forall|nm: Seq<char>|
            #[trigger] final(examples).deep_view().contains(nm) <==> (old(
                examples,
            ).deep_view().contains(nm) || exists|t: int|
                0 <= t < pk.targets@.len() && classed_example(#[trigger] pk.targets@[t])
                    && pk.targets@[t].name@ == nm),
        forall|nm: Seq<char>|
            #[trigger] final(benches).deep_view().contains(nm) <==> (old(
                benches,
            ).deep_view().contains(nm) || exists|t: int|
                0 <= t < pk.targets@.len() && classed_bench(#[trigger] pk.targets@[t])
                    && pk.targets@[t].name@ == nm),
        forall|nm: Seq<char>|
            #[trigger] final(tests).deep_view().contains(nm) <==> (old(
                tests,
            ).deep_view().contains(nm) || exists|t: int|
                0 <= t < pk.targets@.len() && classed_test(#[trigger] pk.targets@[t])
                    && pk.targets@[t].name@ == nm),
{
    let mut k: usize = 0;
    while k < pk.targets.len()
        invariant
            k <= pk.targets@.len(),
            sorted_unique(binaries.deep_view()),
            sorted_unique(examples.deep_view()),
            sorted_unique(benches.deep_view()),
            sorted_unique(tests.deep_view()),
            forall|nm: Seq<char>|
                #[trigger] binaries.deep_view().contains(nm) <==> (old(
                    binaries,
                ).deep_view().contains(nm) || exists|t: int|
                    0 <= t < k && classed_bin(#[trigger] pk.targets@[t]) && pk.targets@[t].name@
                        == nm),
            forall|nm: Seq<char>|
                #[trigger] examples.deep_view().contains(nm) <==> (old(
                    examples,
                ).deep_view().contains(nm) || exists|t: int|
                    0 <= t < k && classed_example(#[trigger] pk.targets@[t]) && pk.targets@[t].name@
                        == nm),
            forall|nm: Seq<char>|
                #[trigger] benches.deep_view().contains(nm) <==> (old(
                    benches,
                ).deep_view().contains(nm) || exists|t: int|
                    0 <= t < k && classed_bench(#[trigger] pk.targets@[t]) && pk.targets@[t].name@
                        == nm),
            forall|nm: Seq<char>|
                #[trigger] tests.deep_view().contains(nm) <==> (old(
                    tests,
                ).deep_view().contains(nm) || exists|t: int|
                    0 <= t < k && classed_test(#[trigger] pk.targets@[t]) && pk.targets@[t].name@
                        == nm),
        decreases pk.targets@.len() - k,
    {
        let t = &pk.targets[k];
        if t.is_bin {
            insert_sorted_unique(binaries, t.name.as_str());
        } else if t.is_example {
            insert_sorted_unique(examples, t.name.as_str());
        } else if t.is_bench {
            insert_sorted_unique(benches, t.name.as_str());
        } else if t.is_test {
            insert_sorted_unique(tests, t.name.as_str());
        }
        k = k + 1;
    }
}

/// Whether a canonical directory contains the given canonical path: the
/// directory's text starts the path and ends at a separator.
pub open spec fn spec_dir_prefix(dir: Seq<char>, cur: Seq<char>) -> bool {
    &&& dir.len() > 0
    &&& text::is_prefix(dir, cur)
    &&& (cur.len() == dir.len() || cur[dir.len() as int] == '/' || dir.last() == '/')
}

/// Decides whether the directory contains the path.
pub fn dir_prefix(dir: &str, cur: &str) -> (r: bool)
    ensures
        r == spec_dir_prefix(dir@, cur@),
{
    let dlen = dir.unicode_len();
    let clen = cur.unicode_len();
    if dlen == 0 {
        return false;
    }
    if !text::str_starts_with(cur, dir) {
        return false;
    }
    clen == dlen || cur.get_char(dlen) == '/' || dir.get_char(dlen - 1) == '/'
}

/// Whether a package can be matched against the working directory.
pub open spec fn pkg_dir_matches(pk: PackageInfo, cur: Seq<char>) -> bool {
    pk.has_dir && spec_dir_prefix(pk.manifest_dir@, cur)
}

/// The package owning the working directory among the first `k`: the first
/// one whose directory is the longest match, or `-1` when none matches.
pub open spec fn best_pkg_upto(packages: Seq<PackageInfo>, cur: Seq<char>, k: int) -> int
    decreases k,
{
    if k <= 0 {
        -1
    } else {
        let prev = best_pkg_upto(packages, cur, k - 1);
        let j = k - 1;
        if pkg_dir_matches(packages[j], cur) && (prev == -1 || packages[j].manifest_dir@.len()
            > packages[prev].manifest_dir@.len()) {
            j
        } else {
            prev
        }
    }
}

/// The package owning the working directory: the first one whose canonical
/// directory is the longest prefix of it.
pub open spec fn spec_current_package(packages: Seq<PackageInfo>, cur: Seq<char>) -> int {
    best_pkg_upto(packages, cur, packages.len() as int)
}

/// Finds the package that contains the working directory, preferring the
/// longest directory match.
pub fn find_current_package(packages: &Vec<PackageInfo>, current_dir: &str) -> (r: Option<usize>)
    ensures
        match r {
            Some(i) => i < packages@.len() && spec_current_package(packages@, current_dir@)
                == i as int,
            None => spec_current_package(packages@, current_dir@) == -1,
        },
{
    let mut best: Option<usize> = None;
    let mut best_len: usize = 0;
    let mut k: usize = 0;
    while k < packages.len()
        invariant
            k <= packages@.len(),
            match best {
                None => best_pkg_upto(packages@, current_dir@, k as int) == -1,
                Some(b) => b < k && best_pkg_upto(packages@, current_dir@, k as int) == b as int
                    && best_len == packages@[b as int].manifest_dir@.len(),
            },
        decreases packages@.len() - k,
    {
        let pk = &packages[k];
        if pk.has_dir && dir_prefix(pk.manifest_dir.as_str(), current_dir) {
            let len = pk.manifest_dir.as_str().unicode_len();
            match best {
                None => {
                    best = Some(k);
                    best_len = len;
                },
                Some(_) => {
                    if len > best_len {
                        best = Some(k);
                        best_len = len;
                    }
                },
            }
        }
        k = k + 1;
    }
    best
}

/// Index of the first package with the given name, or `-1`.
pub open spec fn first_package_named(packages: Seq<PackageInfo>, sel: Seq<char>) -> int
    decreases packages.len(),
{
    if packages.len() == 0 {
        -1
    } else if packages[0].name@ == sel {
        0
    } else {
        let r = first_package_named(packages.skip(1), sel);
        if r < 0 {
            -1
        } else {
            r + 1
        }
    }
}

pub proof fn lemma_first_package_named(packages: Seq<PackageInfo>, sel: Seq<char>)
    ensures
        first_package_named(packages, sel) == -1 ==> forall|j: int|
            0 <= j < packages.len() ==> (#[trigger] packages[j]).name@ != sel,
        first_package_named(packages, sel) != -1 ==> {
            let r = first_package_named(packages, sel);
            &&& 0 <= r < packages.len()
            &&& packages[r].name@ == sel
            &&& forall|j: int| 0 <= j < r ==> (#[trigger] packages[j]).name@ != sel
        },
    decreases packages.len(),
{
    if packages.len() == 0 {
    } else if packages[0].name@ == sel {
    } else {
        lemma_first_package_named(packages.skip(1), sel);
        assert(forall|j: int| 1 <= j < packages.len() ==> packages[j] == packages.skip(1)[j - 1]);
    }
}

/// Finds the first package with the given name.
fn find_package(packages: &Vec<PackageInfo>, sel: &str) -> (r: Option<usize>)
    ensures
        match r {
            Some(i) => i < packages@.len() && first_package_named(packages@, sel@) == i as int,
            None => first_package_named(packages@, sel@) == -1,
        },
{
    let mut k: usize = 0;
    while k < packages.len()
        invariant
            k <= packages@.len(),
            forall|j: int| 0 <= j < k ==> (#[trigger] packages@[j]).name@ != sel@,
        decreases packages@.len() - k,
    {
        if text::str_eq(packages[k].name.as_str(), sel) {
            proof {
                lemma_first_package_named(packages@, sel@);
                let f = first_package_named(packages@, sel@);
                if f == -1 {
                    assert(packages@[k as int].name@ == sel@);
                }
                if f < k as int {
                    assert(packages@[f].name@ != sel@);
                }
                if f > k as int {
                    assert(packages@[k as int].name@ != sel@);
                }
            }
            return Some(k);
        }
        k = k + 1;
    }
    proof {
        lemma_first_package_named(packages@, sel@);
        let f = first_package_named(packages@, sel@);
        if f != -1 {
            assert(packages@[f].name@ != sel@);
        }
    }
    None
}

/// Which packages the snapshot draws from: the named one when a package
/// filter is given; else the package owning the working directory; else
/// every workspace member.
pub open spec fn spec_relevant(
    packages: Seq<PackageInfo>,
    selected: Option<Seq<char>>,
    cur: Option<Seq<char>>,
    p: int,
) -> bool {
    &&& 0 <= p < packages.len()
    &&& match selected {
        Some(sel) => first_package_named(packages, sel) == p,
        None => match cur {
            Some(c) => if spec_current_package(packages, c) >= 0 {
                spec_current_package(packages, c) == p
            } else {
                packages[p].is_member
            },
            None => packages[p].is_member,
        },
    }
}

/// Membership of one kind list of a snapshot: exactly the names of the
/// relevant packages' targets of that kind.
pub open spec fn spec_kind_list(
    list: Seq<Seq<char>>,
    packages: Seq<PackageInfo>,
    selected: Option<Seq<char>>,
    cur: Option<Seq<char>>,
    kind: TargetKindSel,
) -> bool {
    &&& sorted_unique(list)
    &&& forall|nm: Seq<char>|
        #[trigger] list.contains(nm) <==> exists|p: int, t: int|
            spec_relevant(packages, selected, cur, p) && 0 <= t < packages[p].targets@.len()
                && classed_as(#[trigger] packages[p].targets@[t], kind) && packages[p].targets@[t].name@
                == nm
}

/// Selector for the four kind lists.
#[derive(Debug, Clone, Copy, PartialEq, Eq, Structural)]
pub enum TargetKindSel {
    /// The binaries list.
    Bin,
    /// The examples list.
    Example,
    /// The benchmarks list.
    Bench,
    /// The tests list.
    Test,
}

/// Whether a target is listed under the selected kind.
pub open spec fn classed_as(t: TargetInfo, kind: TargetKindSel) -> bool {
    match kind {
        TargetKindSel::Bin => classed_bin(t),
        TargetKindSel::Example => classed_example(t),
        TargetKindSel::Bench => classed_bench(t),
        TargetKindSel::Test => classed_test(t),
    }
}

/// The view of an optional string filter.
pub open spec fn opt_view(o: Option<String>) -> Option<Seq<char>> {
    match o {
        Some(s) => Some(s@),
        None => None,
    }
}

/// Builds the workspace snapshot: classifies every target of the relevant
/// packages into sorted duplicate-free per-kind lists.
pub fn get_workspace_metadata_from(
    packages: &Vec<PackageInfo>,
    workspace_root: FsPath,
    selected_package: &Option<String>,
    current_dir: &Option<String>,
) -> (r: Result<WorkspaceMetadata, Error>)
    ensures
        match r {
            Ok(m) => {
                &&& m.workspace_root@ == workspace_root@
                &&& spec_kind_list(
                    m.binaries.deep_view(),
                    packages@,
                    opt_view(*selected_package),
                    opt_view(*current_dir),
                    TargetKindSel::Bin,
                )
                &&& spec_kind_list(
                    m.examples.deep_view(),
                    packages@,
                    opt_view(*selected_package),
                    opt_view(*current_dir),
                    TargetKindSel::Example,
                )
                &&& spec_kind_list(
                    m.benches.deep_view(),
                    packages@,
                    opt_view(*selected_package),
                    opt_view(*current_dir),
                    TargetKindSel::Bench,
                )
                &&& spec_kind_list(
                    m.tests.deep_view(),
                    packages@,
                    opt_view(*selected_package),
                    opt_view(*current_dir),
                    TargetKindSel::Test,
                )
                &&& (selected_package matches Some(sel) ==> first_package_named(packages@, sel@)
                    >= 0)
            },
            Err(e) => {
                &&& selected_package matches Some(sel) && (e matches Error::PackageNotFound { name }
                    && name@ == sel@ && first_package_named(packages@, sel@) == -1)
            },
        },
{
    let mut binaries: Vec<String> = Vec::new();
    let mut examples: Vec<String> = Vec::new();
    let mut benches: Vec<String> = Vec::new();
    let mut tests: Vec<String> = Vec::new();
    proof {
        assert(binaries.deep_view() =~~= Seq::<Seq<char>>::empty());
        assert(examples.deep_view() =~~= Seq::<Seq<char>>::empty());
        assert(benches.deep_view() =~~= Seq::<Seq<char>>::empty());
        assert(tests.deep_view() =~~= Seq::<Seq<char>>::empty());
    }
    match selected_package {
        Some(sel) => {
            match find_package(packages, sel.as_str()) {
                Some(p) => {
                    collect_package_targets(
                        &mut binaries,
                        &mut examples,
                        &mut benches,
                        &mut tests,
                        &packages[p],
                    );
                },
                None => {
                    return Err(Error::PackageNotFound { name: sel.clone() });
                },
            }
        },
        None => {
            let cur_best = match current_dir {
                Some(c) => find_current_package(packages, c.as_str()),
                None => None,
            };
            match cur_best {
                Some(p) => {
                    collect_package_targets(
                        &mut binaries,
                        &mut examples,
                        &mut benches,
                        &mut tests,
                        &packages[p],
                    );
                },
                None => {
                    let mut k: usize = 0;
                    while k < packages.len()
                        invariant
                            k <= packages@.len(),
                            sorted_unique(binaries.deep_view()),
                            sorted_unique(examples.deep_view()),
                            sorted_unique(benches.deep_view()),
                            sorted_unique(tests.deep_view()),
                            forall|nm: Seq<char>|
                                #[trigger] binaries.deep_view().contains(nm) <==> exists|p: int, t: int|
                                    0 <= p < k && packages@[p].is_member && 0 <= t
                                        < packages@[p].targets@.len() && classed_bin(
                                        #[trigger] packages@[p].targets@[t],
                                    ) && packages@[p].targets@[t].name@ == nm,
                            forall|nm: Seq<char>|
                                #[trigger] examples.deep_view().contains(nm) <==> exists|p: int, t: int|
                                    0 <= p < k && packages@[p].is_member && 0 <= t
                                        < packages@[p].targets@.len() && classed_example(
                                        #[trigger] packages@[p].targets@[t],
                                    ) && packages@[p].targets@[t].name@ == nm,
                            forall|nm: Seq<char>|
                                #[trigger] benches.deep_view().contains(nm) <==> exists|p: int, t: int|
                                    0 <= p < k && packages@[p].is_member && 0 <= t
                                        < packages@[p].targets@.len() && classed_bench(
                                        #[trigger] packages@[p].targets@[t],
                                    ) && packages@[p].targets@[t].name@ == nm,
                            forall|nm: Seq<char>|
                                #[trigger] tests.deep_view().contains(nm) <==> exists|p: int, t: int|
                                    0 <= p < k && packages@[p].is_member && 0 <= t
                                        < packages@[p].targets@.len() && classed_test(
                                        #[trigger] packages@[p].targets@[t],
                                    ) && packages@[p].targets@[t].name@ == nm,
                        decreases packages@.len() - k,
                    {
                        if packages[k].is_member {
                            collect_package_targets(
                                &mut binaries,
                                &mut examples,
                                &mut benches,
                                &mut tests,
                                &packages[k],
                            );
                        }
                        k = k + 1;
                    }
                },
            }
        },
    }
    Ok(WorkspaceMetadata { binaries, examples, benches, tests, workspace_root })
}

/// Builds the workspace snapshot; the caller hands over the packages as the
/// metadata query reported them.
pub fn get_all_targets(
    packages: &Vec<PackageInfo>,
    workspace_root: FsPath,
    selected_package: &Option<String>,
    current_dir: &Option<String>,
) -> (r: Result<WorkspaceMetadata, Error>)
    ensures
        match r {
            Ok(m) => {
                &&& m.workspace_root@ == workspace_root@
                &&& spec_kind_list(
                    m.binaries.deep_view(),
                    packages@,
                    opt_view(*selected_package),
                    opt_view(*current_dir),
                    TargetKindSel::Bin,
                )
                &&& spec_kind_list(
                    m.examples.deep_view(),
                    packages@,
                    opt_view(*selected_package),
                    opt_view(*current_dir),
                    TargetKindSel::Example,
                )
                &&& spec_kind_list(
                    m.benches.deep_view(),
                    packages@,
                    opt_view(*selected_package),
                    opt_view(*current_dir),
                    TargetKindSel::Bench,
                )
                &&& spec_kind_list(
                    m.tests.deep_view(),
                    packages@,
                    opt_view(*selected_package),
                    opt_view(*current_dir),
                    TargetKindSel::Test,
                )
                &&& (selected_package matches Some(sel) ==> first_package_named(packages@, sel@)
                    >= 0)
            },
            Err(e) => {
                &&& selected_package matches Some(sel) && (e matches Error::PackageNotFound { name }
                    && name@ == sel@ && first_package_named(packages@, sel@) == -1)
            },
        },
{
    get_workspace_metadata_from(packages, workspace_root, selected_package, current_dir)
}

} // verus!
