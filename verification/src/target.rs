//! Runnable-artifact identification: the four target kinds, the resolved
//! target, and the resolution of user selectors against workspace metadata.

use vstd::prelude::*;
use vstd::string::StringExecFns;

use crate::cli::Config;
use crate::cli::spec_selected_count;
use crate::error::Error;
use crate::manifest;
use crate::manifest::default_run_of;
use crate::text;
use crate::workspace::WorkspaceMetadata;

verus! {

/// The four kinds of runnable artifact.
#[derive(Debug, Clone, Copy, PartialEq, Eq, Structural)]
pub enum TargetKind {
    /// A binary target.
    Bin,
    /// An example target.
    Example,
    /// A benchmark target.
    Bench,
    /// A test target.
    Test,
}

/// The build-tool flag that selects a target of this kind.
pub open spec fn spec_cargo_flag(k: TargetKind) -> Seq<char> {
    match k {
        TargetKind::Bin => "--bin"@,
        TargetKind::Example => "--example"@,
        TargetKind::Bench => "--bench"@,
        TargetKind::Test => "--test"@,
    }
}

impl TargetKind {
    /// The build-tool flag that selects a target of this kind.
    pub fn cargo_flag(self) -> (r: &'static str)
        ensures
            r@ == spec_cargo_flag(self),
    {
        match self {
            TargetKind::Bin => "--bin",
            TargetKind::Example => "--example",
            TargetKind::Bench => "--bench",
            TargetKind::Test => "--test",
        }
    }
}

/// One runnable artifact: its kind and its name.
#[derive(Debug, Clone)]
pub struct Target {
    /// The kind of artifact.
    pub kind: TargetKind,
    /// The artifact's name.
    pub name: String,
}

impl Target {
    /// Makes a target of the given kind and name.
    pub fn new(kind: TargetKind, name: String) -> (r: Target)
        ensures
            r.kind == kind,
            r.name == name,
    {
        Target { kind, name }
    }

    /// An equal target, freshly allocated.
    pub fn duplicate(&self) -> (r: Target)
        ensures
            r.kind == self.kind,
            r.name@ == self.name@,
    {
        Target { kind: self.kind, name: self.name.clone() }
    }
}

/// Passes a requested benchmark name through resolution: an exact match
/// against the declared benchmarks keeps the name, and a miss keeps it too,
/// deferring the failure to the build step.
pub fn resolve_bench_target_name(requested: &str, metadata: &WorkspaceMetadata) -> (r: String)
    ensures
        r@ == requested@,
{
    let mut j: usize = 0;
    while j < metadata.benches.len()
        invariant
            j <= metadata.benches@.len(),
        decreases metadata.benches@.len() - j,
    {
        if text::str_eq(metadata.benches[j].as_str(), requested) {
            return metadata.benches[j].clone();
        }
        j = j + 1;
    }
    String::from_str(requested)
}

/// One ready-to-paste invocation line of the ambiguity error.
pub open spec fn spec_suggestion_line(name: Seq<char>, flag: Seq<char>) -> Seq<char> {
    "  "@ + name + ": cargo samply "@ + flag + " "@ + name
}

/// The heading line of one kind's suggestions.
pub open spec fn spec_suggestion_header(target_type: Seq<char>) -> Seq<char> {
    "\n\nAvailable "@ + target_type + ":"@
}

/// One element of a kind's suggestion lines: the heading first, then one
/// invocation line per target.
pub open spec fn spec_suggestion_elem(
    targets: Seq<Seq<char>>,
    target_type: Seq<char>,
    flag: Seq<char>,
    k: int,
) -> Seq<char> {
    if k == 0 {
        spec_suggestion_header(target_type)
    } else {
        spec_suggestion_line(targets[k - 1], flag)
    }
}

/// The suggestion lines of one kind: a heading, then one invocation line per
/// target; nothing when the kind has no targets.
pub open spec fn spec_target_suggestions(
    targets: Seq<Seq<char>>,
    target_type: Seq<char>,
    flag: Seq<char>,
) -> Seq<Seq<char>> {
    if targets.len() == 0 {
        Seq::empty()
    } else {
        Seq::new(
            targets.len() + 1,
            |k: int| spec_suggestion_elem(targets, target_type, flag, k),
        )
    }
}

/// Appends the suggestion lines for one kind of target.
pub fn add_target_suggestions(
    suggestions: &mut Vec<String>,
    targets: &Vec<String>,
    target_type: &str,
    flag: &str,
)
    ensures
        final(suggestions).deep_view() == old(suggestions).deep_view() + spec_target_suggestions(
            targets.deep_view(),
            target_type@,
            flag@,
        ),
{
    let ghost base = suggestions.deep_view();
    if targets.len() == 0 {
        proof {
            assert(final(suggestions).deep_view() =~~= base + spec_target_suggestions(
                targets.deep_view(),
                target_type@,
                flag@,
            ));
        }
        return ;
    }
    let mut header = String::from_str("\n\nAvailable ");
    header.append(target_type);
    header.append(":");
    suggestions.push(header);
    let ghost n0 = base.len() as int;
    let mut i: usize = 0;
    while i < targets.len()
        invariant
            i <= targets@.len(),
            n0 == old(suggestions)@.len() as int,
            suggestions@.len() == n0 + 1 + i,
            forall|j: int| 0 <= j < n0 ==> suggestions@[j] == old(suggestions)@[j],
            suggestions@[n0]@ == spec_suggestion_header(target_type@),
            forall|j: int|
                0 <= j < i ==> (#[trigger] suggestions@[n0 + 1 + j])@ == spec_suggestion_line(
                    targets@[j]@,
                    flag@,
                ),
        decreases targets@.len() - i,
    {
        let mut line = String::from_str("  ");
        line.append(targets[i].as_str());
        line.append(": cargo samply ");
        line.append(flag);
        line.append(" ");
        line.append(targets[i].as_str());
        suggestions.push(line);
        i = i + 1;
    }
    proof {
        let tdv = targets.deep_view();
        let sugg = spec_target_suggestions(tdv, target_type@, flag@);
        let want = base + sugg;
        assert(tdv.len() == targets@.len());
        assert(sugg.len() == tdv.len() + 1);
        assert forall|j: int| 0 <= j < suggestions@.len() implies (#[trigger] suggestions@[j])@
            == want[j] by {
            if j < n0 {
                assert(base[j] == old(suggestions)@[j]@);
            } else if j == n0 {
                assert(want[j] == sugg[0]);
                assert(sugg[0] == spec_suggestion_elem(tdv, target_type@, flag@, 0));
            } else {
                assert(suggestions@[n0 + 1 + (j - n0 - 1)]@ == spec_suggestion_line(
                    targets@[j - n0 - 1]@,
                    flag@,
                ));
                assert(tdv[j - n0 - 1] == targets@[j - n0 - 1]@);
                assert(want[j] == sugg[j - n0]);
                assert(sugg[j - n0] == spec_suggestion_elem(tdv, target_type@, flag@, j - n0));
            }
        }
        assert(suggestions.deep_view().len() == suggestions@.len());
        assert(forall|j: int|
            0 <= j < suggestions@.len() ==> suggestions.deep_view()[j] == (
            #[trigger] suggestions@[j])@);
        assert(suggestions.deep_view() =~~= want);
    }
}

/// The full text of the ambiguity error's suggestions: the binaries' lines,
/// then the examples' lines, joined by line breaks.
pub open spec fn spec_suggestions_text(
    binaries: Seq<Seq<char>>,
    examples: Seq<Seq<char>>,
) -> Seq<char> {
    text::spec_join(
        spec_target_suggestions(binaries, "binaries"@, "--bin"@) + spec_target_suggestions(
            examples,
            "examples"@,
            "--example"@,
        ),
        "\n"@,
    )
}

/// Builds the ambiguity error, with one ready-to-paste invocation for every
/// discovered binary and example.
pub fn create_suggestions_error(binaries: Vec<String>, examples: Vec<String>) -> (r: Result<
    String,
    Error,
>)
    ensures
        r matches Err(e) && (e matches Error::BinaryToRunNotDetermined { suggestions }
            && suggestions@ == spec_suggestions_text(binaries.deep_view(), examples.deep_view())),
{
    let mut suggestions: Vec<String> = Vec::new();
    proof {
        assert(suggestions.deep_view() =~~= Seq::<Seq<char>>::empty());
    }
    add_target_suggestions(&mut suggestions, &binaries, "binaries", "--bin");
    add_target_suggestions(&mut suggestions, &examples, "examples", "--example");
    proof {
        assert(Seq::<Seq<char>>::empty() + spec_target_suggestions(
            binaries.deep_view(),
            "binaries"@,
            "--bin"@,
        ) =~= spec_target_suggestions(binaries.deep_view(), "binaries"@, "--bin"@));
    }
    let suggestions_text = text::join_strings(&suggestions, "\n");
    Err(Error::BinaryToRunNotDetermined { suggestions: suggestions_text })
}

/// What guessing the default binary gives: the manifest's default-run name
/// when one is declared; else the only binary; else a failure, empty
/// workspaces and ambiguous ones apart.
pub open spec fn spec_guessed_bin(
    r: Result<String, Error>,
    content: Seq<char>,
    binaries: Seq<Seq<char>>,
    examples: Seq<Seq<char>>,
) -> bool {
    match default_run_of(content) {
        Some(name) => r matches Ok(s) && s@ == name,
        None => if binaries.len() == 0 {
            r matches Err(e) && e is NoBinaryFound
        } else if binaries.len() == 1 {
            r matches Ok(s) && s@ == binaries[0]
        } else {
            r matches Err(e) && (e matches Error::BinaryToRunNotDetermined { suggestions }
                && suggestions@ == spec_suggestions_text(binaries, examples))
        },
    }
}

/// Determines which binary to run: the manifest-declared default-run name,
/// else the only binary, else an error that enumerates the candidates.
pub fn guess_bin(manifest_content: &str, all_targets: &WorkspaceMetadata) -> (r: Result<
    String,
    Error,
>)
    ensures
        spec_guessed_bin(
            r,
            manifest_content@,
            all_targets.binaries.deep_view(),
            all_targets.examples.deep_view(),
        ),
{
    if let Some(bin) = manifest::manifest_default_run(manifest_content) {
        return Ok(bin);
    }
    if all_targets.binaries.len() == 0 {
        return Err(Error::NoBinaryFound);
    }
    if all_targets.binaries.len() == 1 {
        proof {
            assert(all_targets.binaries.deep_view()[0] == all_targets.binaries@[0]@);
        }
        return Ok(all_targets.binaries[0].clone());
    }
    create_suggestions_error(
        text::clone_strings(&all_targets.binaries),
        text::clone_strings(&all_targets.examples),
    )
}

/// What target resolution gives for a configuration and a workspace
/// snapshot: a conflict error when several selectors are set; the selected
/// target when one is; else the guessed default binary.
pub open spec fn spec_determined(
    r: Result<Target, Error>,
    cli: Config,
    content: Seq<char>,
    binaries: Seq<Seq<char>>,
    examples: Seq<Seq<char>>,
) -> bool {
    if spec_selected_count(cli) > 1 {
        r matches Err(e) && e is MultipleTargetsFlagsSpecified
    } else if cli.bin is Some {
        r matches Ok(t) && t.kind == TargetKind::Bin && t.name@ == cli.bin.unwrap()@
    } else if cli.example is Some {
        r matches Ok(t) && t.kind == TargetKind::Example && t.name@ == cli.example.unwrap()@
    } else if cli.bench is Some {
        r matches Ok(t) && t.kind == TargetKind::Bench && t.name@ == cli.bench.unwrap()@
    } else if cli.test is Some {
        r matches Ok(t) && t.kind == TargetKind::Test && t.name@ == cli.test.unwrap()@
    } else {
        match default_run_of(content) {
            Some(name) => r matches Ok(t) && t.kind == TargetKind::Bin && t.name@ == name,
            None => if binaries.len() == 0 {
                r matches Err(e) && e is NoBinaryFound
            } else if binaries.len() == 1 {
                r matches Ok(t) && t.kind == TargetKind::Bin && t.name@ == binaries[0]
            } else {
                r matches Err(e) && (e matches Error::BinaryToRunNotDetermined { suggestions }
                    && suggestions@ == spec_suggestions_text(binaries, examples))
            },
        }
    }
}

/// Resolves the user's selectors against the workspace snapshot to exactly
/// one target, or fails: with the conflict error when several selectors are
/// set, and with an enumerating error when no binary can be inferred.
pub fn determine_target(cli: &Config, manifest_content: &str, metadata: &WorkspaceMetadata) -> (r:
    Result<Target, Error>)
    ensures
        spec_determined(
            r,
            *cli,
            manifest_content@,
            metadata.binaries.deep_view(),
            metadata.examples.deep_view(),
        ),
{
    let specified = cli.selected_count();
    if specified > 1 {
        return Err(Error::MultipleTargetsFlagsSpecified);
    }
    if let Some(bin) = &cli.bin {
        return Ok(Target::new(TargetKind::Bin, bin.clone()));
    }
    if let Some(example) = &cli.example {
        return Ok(Target::new(TargetKind::Example, example.clone()));
    }
    if let Some(bench) = &cli.bench {
        let resolved = resolve_bench_target_name(bench.as_str(), metadata);
        return Ok(Target::new(TargetKind::Bench, resolved));
    }
    if let Some(test) = &cli.test {
        return Ok(Target::new(TargetKind::Test, test.clone()));
    }
    match guess_bin(manifest_content, metadata) {
        Ok(bin) => Ok(Target::new(TargetKind::Bin, bin)),
        Err(e) => Err(e),
    }
}

} // verus!
