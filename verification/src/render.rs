//! Dry-run rendering: a shell-reproducible transcript of the plan, computed
//! from the plan alone.

use vstd::prelude::*;
use vstd::string::StringExecFns;

use crate::paths::spec_render;
use crate::plan::ExecutionPlan;
use crate::plan::RunPlan;
use crate::text;

verus! {

/// Names the result of shell-quoting text: text escaped so that a POSIX
/// shell reads it literally, a function of the text alone.
pub uninterp spec fn shell_quoted(s: Seq<char>) -> Seq<char>;

/// Relies on `shell_words::quote`: escapes special characters so the text
/// keeps its literal meaning in a shell command.
#[verifier::external_body]
fn shell_quote(s: &str) -> (r: String)
    ensures
        r@ == shell_quoted(s@),
{
    shell_words::quote(s).into_owned()
}

/// Each argument shell-quoted, in order.
pub open spec fn spec_quoted_all(args: Seq<Seq<char>>) -> Seq<Seq<char>> {
    Seq::new(args.len(), |i: int| shell_quoted(args[i]))
}

/// Appends each argument, shell-quoted, to the parts.
fn quote_all_into(parts: &mut Vec<String>, args: &Vec<String>)
    ensures
        final(parts).deep_view() == old(parts).deep_view() + spec_quoted_all(args.deep_view()),
{
    let ghost base = parts.deep_view();
    let mut k: usize = 0;
    while k < args.len()
        invariant
            k <= args@.len(),
            args.deep_view().len() == args@.len(),
            parts.deep_view() == base + spec_quoted_all(args.deep_view()).take(k as int),
        decreases args@.len() - k,
    {
        let q = shell_quote(args[k].as_str());
        proof {
            let qa = spec_quoted_all(args.deep_view());
            assert(args.deep_view()[k as int] == args@[k as int]@);
            assert(qa[k as int] == shell_quoted(args.deep_view()[k as int]));
            assert((base + qa.take(k as int)).push(qa[k as int]) =~= base + qa.take(k + 1 as int));
        }
        crate::plan::push_string(parts, q);
        k = k + 1;
    }
    proof {
        let qa = spec_quoted_all(args.deep_view());
        assert(qa.take(args@.len() as int) =~= qa);
    }
}

/// The rendered build invocation: the build program, then each argument
/// shell-quoted, space-separated.
pub open spec fn spec_build_line(cargo_args: Seq<Seq<char>>) -> Seq<char> {
    "cargo "@ + text::spec_join(spec_quoted_all(cargo_args), " "@)
}

/// The rendered run invocation's parts: environment assignments, then the
/// profiler program, its record subcommand, its arguments and the separator
/// when the run is wrapped, then the artifact and the runtime arguments,
/// each shell-quoted.
pub open spec fn spec_run_parts(run: RunPlan) -> Seq<Seq<char>> {
    let envs = Seq::new(
        run.env_vars@.len(),
        |i: int| (run.env_vars@[i].0)@ + "="@ + shell_quoted((run.env_vars@[i].1)@),
    );
    let pre = if run.is_samply {
        envs + seq![shell_quoted(run.samply_program@), "record"@] + spec_quoted_all(
            run.samply_args.deep_view(),
        ) + seq!["--"@]
    } else {
        envs
    };
    pre + seq![shell_quoted(spec_render(run.bin_path@))] + spec_quoted_all(run.args.deep_view())
}

/// The rendered run invocation: its parts, space-separated.
pub open spec fn spec_run_line(run: RunPlan) -> Seq<char> {
    text::spec_join(spec_run_parts(run), " "@)
}

/// The dry-run transcript of a plan: the build line when a build is planned,
/// then the run line. A pure function of the plan: nothing is touched and
/// nothing is spawned.
pub open spec fn spec_transcript(plan: ExecutionPlan) -> Seq<Seq<char>> {
    let build_lines: Seq<Seq<char>> = match plan.build {
        Some(b) => seq![spec_build_line(b.cargo_args.deep_view())],
        None => Seq::empty(),
    };
    build_lines + seq![spec_run_line(plan.run)]
}

/// Renders the plan as its shell-reproducible transcript, one line per
/// command.
pub fn render_plan(plan: &ExecutionPlan) -> (r: Vec<String>)
    ensures
        r.deep_view() == spec_transcript(*plan),
{
    let mut lines: Vec<String> = Vec::new();
    proof {
        assert(lines.deep_view() =~~= Seq::<Seq<char>>::empty());
    }
    if let Some(build) = &plan.build {
        let mut quoted: Vec<String> = Vec::new();
        proof {
            assert(quoted.deep_view() =~~= Seq::<Seq<char>>::empty());
        }
        quote_all_into(&mut quoted, &build.cargo_args);
        proof {
            assert(Seq::<Seq<char>>::empty() + spec_quoted_all(build.cargo_args.deep_view())
                =~= spec_quoted_all(build.cargo_args.deep_view()));
        }
        let mut line = String::from_str("cargo ");
        let joined = text::join_strings(&quoted, " ");
        line.append(joined.as_str());
        crate::plan::push_string(&mut lines, line);
    }
    let run = &plan.run;
    let mut cmd_parts: Vec<String> = Vec::new();
    proof {
        assert(cmd_parts.deep_view() =~~= Seq::<Seq<char>>::empty());
    }
    let ghost envs = Seq::new(
        run.env_vars@.len(),
        |i: int| (run.env_vars@[i].0)@ + "="@ + shell_quoted((run.env_vars@[i].1)@),
    );
    let mut k: usize = 0;
    while k < run.env_vars.len()
        invariant
            k <= run.env_vars@.len(),
            envs == Seq::new(
                run.env_vars@.len(),
                |i: int| (run.env_vars@[i].0)@ + "="@ + shell_quoted((run.env_vars@[i].1)@),
            ),
            cmd_parts.deep_view() == envs.take(k as int),
        decreases run.env_vars@.len() - k,
    {
        let kv = &run.env_vars[k];
        let mut part = kv.0.clone();
        part.append("=");
        let qv = shell_quote(kv.1.as_str());
        part.append(qv.as_str());
        proof {
            assert(part@ == envs[k as int]);
            assert(envs.take(k as int).push(envs[k as int]) =~= envs.take(k + 1 as int));
        }
        crate::plan::push_string(&mut cmd_parts, part);
        k = k + 1;
    }
    proof {
        assert(envs.take(run.env_vars@.len() as int) =~= envs);
    }
    if run.is_samply {
        crate::plan::push_string(&mut cmd_parts, shell_quote(run.samply_program.as_str()));
        crate::plan::push_string(&mut cmd_parts, String::from_str("record"));
        proof {
            assert(envs.push(shell_quoted(run.samply_program@)).push("record"@) =~= envs + seq![
                shell_quoted(run.samply_program@),
                "record"@,
            ]);
        }
        quote_all_into(&mut cmd_parts, &run.samply_args);
        crate::plan::push_string(&mut cmd_parts, String::from_str("--"));
        proof {
            assert((envs + seq![shell_quoted(run.samply_program@), "record"@] + spec_quoted_all(
                run.samply_args.deep_view(),
            )).push("--"@) =~= envs + seq![shell_quoted(run.samply_program@), "record"@]
                + spec_quoted_all(run.samply_args.deep_view()) + seq!["--"@]);
        }
    }
    let ghost pre = cmd_parts.deep_view();
    let rendered = run.bin_path.render();
    crate::plan::push_string(&mut cmd_parts, shell_quote(rendered.as_str()));
    proof {
        assert(pre.push(shell_quoted(spec_render(run.bin_path@))) =~= pre + seq![
            shell_quoted(spec_render(run.bin_path@)),
        ]);
    }
    quote_all_into(&mut cmd_parts, &run.args);
    proof {
        assert(cmd_parts.deep_view() =~= spec_run_parts(*run));
    }
    let run_line = text::join_strings(&cmd_parts, " ");
    crate::plan::push_string(&mut lines, run_line);
    proof {
        assert(lines.deep_view() =~= spec_transcript(*plan));
    }
    lines
}

} // verus!
