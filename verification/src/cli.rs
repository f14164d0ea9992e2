//! The invocation configuration: every option and argument of one run,
//! gathered once and threaded read-only through resolution and planning.

use vstd::prelude::*;

verus! {

/// All options and arguments of one invocation.
#[derive(Debug, Clone)]
pub struct Config {
    /// Trailing arguments passed to the program being profiled.
    pub args: Vec<String>,
    /// Build profile to use.
    pub profile: String,
    /// Package to profile, in a workspace.
    pub package: Option<String>,
    /// Binary to run.
    pub bin: Option<String>,
    /// Example to run.
    pub example: Option<String>,
    /// Benchmark target to run.
    pub bench: Option<String>,
    /// Test target to run.
    pub test: Option<String>,
    /// The flag handed to a benchmark target at run time; "none" omits it.
    pub bench_flag: String,
    /// Arguments passed to the profiler itself, as one shell-style string.
    pub samply_args: Option<String>,
    /// Build features to enable.
    pub features: Vec<String>,
    /// Disable default features.
    pub no_default_features: bool,
    /// Print extra output to help debug problems.
    pub verbose: bool,
    /// Suppress all output except errors.
    pub quiet: bool,
    /// Run the built artifact directly instead of under the profiler.
    pub no_samply: bool,
    /// Print the build and run commands without executing them.
    pub dry_run: bool,
    /// Do not modify the manifest to add the profiling profile.
    pub no_profile_inject: bool,
    /// List all available targets and exit.
    pub list_targets: bool,
}

/// The command wrapper: the tool runs as a subcommand of the build tool.
pub enum CargoCli {
    /// The profiling subcommand and its configuration.
    Samply(Config),
}

/// How many of the four target-selection flags are set.
pub open spec fn spec_selected_count(c: Config) -> int {
    (if c.bin is Some {
        1int
    } else {
        0int
    }) + (if c.example is Some {
        1int
    } else {
        0int
    }) + (if c.bench is Some {
        1int
    } else {
        0int
    }) + (if c.test is Some {
        1int
    } else {
        0int
    })
}

impl Config {
    /// Counts how many of the four target-selection flags are set.
    pub fn selected_count(&self) -> (r: u8)
        ensures
            r as int == spec_selected_count(*self),
    {
        let mut n: u8 = 0;
        if self.bin.is_some() {
            n = n + 1;
        }
        if self.example.is_some() {
            n = n + 1;
        }
        if self.bench.is_some() {
            n = n + 1;
        }
        if self.test.is_some() {
            n = n + 1;
        }
        n
    }
}

} // verus!
