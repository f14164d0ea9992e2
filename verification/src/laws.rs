//! The laws of target resolution and plan construction, each proved from
//! the contracts that the library's functions state.

use vstd::prelude::*;

use crate::cli::Config;
use crate::cli::spec_selected_count;
use crate::error::Error;
use crate::manifest::default_run_of;
use crate::target::Target;
use crate::target::TargetKind;
use crate::target::spec_determined;
use crate::target::spec_suggestion_line;
use crate::target::spec_target_suggestions;
use crate::plan::spec_bench_flag;
use crate::plan::spec_runtime_args;

verus! {

/// Whenever more than one target-selection flag is set, resolution fails
/// with the configuration-conflict error, regardless of which flags they
/// are.
pub proof fn lemma_conflicting_selectors_fail(
    r: Result<Target, Error>,
    cli: Config,
    content: Seq<char>,
    binaries: Seq<Seq<char>>,
    examples: Seq<Seq<char>>,
)
    requires
        spec_determined(r, cli, content, binaries, examples),
        spec_selected_count(cli) > 1,
    ensures
        r matches Err(e) && e is MultipleTargetsFlagsSpecified,
{
}

/// With no selector set and no default-run declared, a workspace with
/// exactly one binary resolves to that binary, whatever examples exist.
pub proof fn lemma_single_binary_default(
    r: Result<Target, Error>,
    cli: Config,
    content: Seq<char>,
    binaries: Seq<Seq<char>>,
    examples: Seq<Seq<char>>,
)
    requires
        spec_determined(r, cli, content, binaries, examples),
        cli.bin is None,
        cli.example is None,
        cli.bench is None,
        cli.test is None,
        default_run_of(content) is None,
        binaries.len() == 1,
    ensures
        r matches Ok(t) && t.kind == TargetKind::Bin && t.name@ == binaries[0],
{
}

/// With no selector set, a declared default-run name is chosen even when
/// other binaries exist.
pub proof fn lemma_default_run_wins(
    r: Result<Target, Error>,
    cli: Config,
    content: Seq<char>,
    binaries: Seq<Seq<char>>,
    examples: Seq<Seq<char>>,
)
    requires
        spec_determined(r, cli, content, binaries, examples),
        cli.bin is None,
        cli.example is None,
        cli.bench is None,
        cli.test is None,
        default_run_of(content) is Some,
    ensures
        r matches Ok(t) && t.kind == TargetKind::Bin && t.name@ == default_run_of(
            content,
        ).unwrap(),
{
}

/// With no selector set, no default-run and at least two binaries,
/// resolution fails with the ambiguity error, whose text joins the
/// suggestion lines of every binary and example.
pub proof fn lemma_ambiguous_binaries_fail(
    r: Result<Target, Error>,
    cli: Config,
    content: Seq<char>,
    binaries: Seq<Seq<char>>,
    examples: Seq<Seq<char>>,
)
    requires
        spec_determined(r, cli, content, binaries, examples),
        cli.bin is None,
        cli.example is None,
        cli.bench is None,
        cli.test is None,
        default_run_of(content) is None,
        binaries.len() >= 2,
    ensures
        r matches Err(e) && (e matches Error::BinaryToRunNotDetermined { suggestions }
            && suggestions@ == crate::target::spec_suggestions_text(binaries, examples)),
{
}

/// The suggestion lines enumerate every binary and every example at least
/// once, each under its own kind's flag.
pub proof fn lemma_suggestions_enumerate(binaries: Seq<Seq<char>>, examples: Seq<Seq<char>>)
    ensures
        forall|i: int|
            0 <= i < binaries.len() ==> (spec_target_suggestions(binaries, "binaries"@, "--bin"@)
                + spec_target_suggestions(examples, "examples"@, "--example"@)).contains(
                spec_suggestion_line(#[trigger] binaries[i], "--bin"@),
            ),
        forall|i: int|
            0 <= i < examples.len() ==> (spec_target_suggestions(binaries, "binaries"@, "--bin"@)
                + spec_target_suggestions(examples, "examples"@, "--example"@)).contains(
                spec_suggestion_line(#[trigger] examples[i], "--example"@),
            ),
{
    let bs = spec_target_suggestions(binaries, "binaries"@, "--bin"@);
    let es = spec_target_suggestions(examples, "examples"@, "--example"@);
    let all = bs + es;
    assert forall|i: int| 0 <= i < binaries.len() implies all.contains(
        spec_suggestion_line(#[trigger] binaries[i], "--bin"@),
    ) by {
        assert(bs[i + 1] == crate::target::spec_suggestion_elem(
            binaries,
            "binaries"@,
            "--bin"@,
            i + 1,
        ));
        assert(all[i + 1] == bs[i + 1]);
    }
    assert forall|i: int| 0 <= i < examples.len() implies all.contains(
        spec_suggestion_line(#[trigger] examples[i], "--example"@),
    ) by {
        assert(es[i + 1] == crate::target::spec_suggestion_elem(
            examples,
            "examples"@,
            "--example"@,
            i + 1,
        ));
        assert(all[bs.len() + i + 1] == es[i + 1]);
    }
}

/// For a benchmark target with the default harness-flag setting, the
/// runtime arguments begin with the harness flag followed by the trailing
/// arguments in order; under the disabling sentinel the flag is absent, and
/// other target kinds never receive it.
pub proof fn lemma_bench_flag_injection(cli: Config, kind: TargetKind)
    ensures
        kind == TargetKind::Bench && cli.bench_flag@ != "none"@ ==> spec_runtime_args(cli, kind)
            == seq![cli.bench_flag@] + cli.args.deep_view(),
        kind == TargetKind::Bench && cli.bench_flag@ == "none"@ ==> spec_runtime_args(cli, kind)
            == cli.args.deep_view(),
        kind != TargetKind::Bench ==> spec_runtime_args(cli, kind) == cli.args.deep_view(),
{
    assert(spec_bench_flag(cli, kind) == if kind == TargetKind::Bench && cli.bench_flag@ != "none"@ {
        Some(cli.bench_flag@)
    } else {
        Option::<Seq<char>>::None
    });
}

/// Two equal invocation lines name the same target: the line determines the
/// name, so distinct targets get distinct lines.
pub proof fn lemma_suggestion_line_injective(n1: Seq<char>, n2: Seq<char>, flag: Seq<char>)
    requires
        spec_suggestion_line(n1, flag) == spec_suggestion_line(n2, flag),
    ensures
        n1 == n2,
{
    reveal_strlit("  ");
    reveal_strlit(": cargo samply ");
    reveal_strlit(" ");
    let l1 = spec_suggestion_line(n1, flag);
    let l2 = spec_suggestion_line(n2, flag);
    assert(l1.len() == 2 + n1.len() + 15 + flag.len() + 1 + n1.len());
    assert(l2.len() == 2 + n2.len() + 15 + flag.len() + 1 + n2.len());
    assert(n1.len() == n2.len());
    assert forall|t: int| 0 <= t < n1.len() implies l1[2 + t] == n1[t] by {
        assert(l1[2 + t] == ("  "@ + n1)[2 + t]);
    }
    assert forall|t: int| 0 <= t < n2.len() implies l2[2 + t] == n2[t] by {
        assert(l2[2 + t] == ("  "@ + n2)[2 + t]);
    }
    assert(n1 =~= n2);
}

/// The ambiguity error's text carries the given line as a contiguous piece.
pub open spec fn text_carries_line(
    binaries: Seq<Seq<char>>,
    examples: Seq<Seq<char>>,
    line: Seq<char>,
) -> bool {
    exists|k: int|
        0 <= k && k + line.len() <= crate::target::spec_suggestions_text(binaries, examples).len()
            && #[trigger] crate::target::spec_suggestions_text(binaries, examples).subrange(
            k,
            k + line.len(),
        ) == line
}

/// The ambiguity error's text carries every binary's and every example's
/// invocation line as a contiguous piece.
pub proof fn lemma_suggestions_text_enumerates(binaries: Seq<Seq<char>>, examples: Seq<Seq<char>>)
    ensures
        forall|i: int|
            0 <= i < binaries.len() ==> text_carries_line(
                binaries,
                examples,
                spec_suggestion_line(#[trigger] binaries[i], "--bin"@),
            ),
        forall|i: int|
            0 <= i < examples.len() ==> text_carries_line(
                binaries,
                examples,
                spec_suggestion_line(#[trigger] examples[i], "--example"@),
            ),
{
    let bs = spec_target_suggestions(binaries, "binaries"@, "--bin"@);
    let es = spec_target_suggestions(examples, "examples"@, "--example"@);
    let parts = bs + es;
    let text = crate::target::spec_suggestions_text(binaries, examples);
    assert(text == crate::text::spec_join(parts, "\n"@));
    assert forall|i: int| 0 <= i < binaries.len() implies text_carries_line(
        binaries,
        examples,
        spec_suggestion_line(#[trigger] binaries[i], "--bin"@),
    ) by {
        let line = spec_suggestion_line(binaries[i], "--bin"@);
        assert(bs[i + 1] == crate::target::spec_suggestion_elem(
            binaries,
            "binaries"@,
            "--bin"@,
            i + 1,
        ));
        assert(parts[i + 1] == line);
        crate::text::lemma_join_contains(parts, "\n"@, i + 1);
        let k = choose|k: int|
            0 <= k && k + parts[i + 1].len() <= crate::text::spec_join(parts, "\n"@).len()
                && #[trigger] crate::text::spec_join(parts, "\n"@).subrange(
                k,
                k + parts[i + 1].len(),
            ) == parts[i + 1];
        assert(crate::target::spec_suggestions_text(binaries, examples).subrange(
            k,
            k + line.len(),
        ) == line);
    }
    assert forall|i: int| 0 <= i < examples.len() implies text_carries_line(
        binaries,
        examples,
        spec_suggestion_line(#[trigger] examples[i], "--example"@),
    ) by {
        let line = spec_suggestion_line(examples[i], "--example"@);
        assert(es[i + 1] == crate::target::spec_suggestion_elem(
            examples,
            "examples"@,
            "--example"@,
            i + 1,
        ));
        assert(parts[bs.len() + i + 1] == line);
        crate::text::lemma_join_contains(parts, "\n"@, bs.len() + i + 1);
        let k = choose|k: int|
            0 <= k && k + parts[bs.len() + i + 1].len() <= crate::text::spec_join(
                parts,
                "\n"@,
            ).len() && #[trigger] crate::text::spec_join(parts, "\n"@).subrange(
                k,
                k + parts[bs.len() + i + 1].len(),
            ) == parts[bs.len() + i + 1];
        assert(crate::target::spec_suggestions_text(binaries, examples).subrange(
            k,
            k + line.len(),
        ) == line);
    }
}

} // verus!
