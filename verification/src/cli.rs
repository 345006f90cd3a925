//! The command line, as values: what was asked for, and how much is logged.

use vstd::prelude::*;

verus! {

/// The arguments of one invocation.
#[derive(Debug)]
pub struct Args {
    /// How often more logging output was asked for.
    pub verbose: u8,
    pub subcommand: Subcommand,
}

/// What an invocation is to do.
#[derive(Debug)]
pub enum Subcommand {
    /// Build a project into a .deb package.
    Build {
        /// The package that should be built.
        name: String,
        /// Skip fetching source code.
        skip_fetch: bool,
        /// Skip unpacking the source code.
        skip_extract: bool,
        /// Skip running the build.
        skip_build: bool,
    },
    /// List all configured packages.
    List,
    /// Add all files of a package to the repository.
    Include {
        /// The code name of the distribution to add it to.
        distribution: String,
        /// The name of the package whose files should be added.
        name: String,
        /// Show the commands without running them.
        dry_run: bool,
    },
    /// Publish the repository.
    Publish {
        /// Do not upload, do a dry run.
        dry_run: bool,
        /// The target to upload to.
        target: String,
    },
}

/// The log filter for a verbosity: informational messages of this program,
/// with one `-v` its debug messages too, with more the debug messages of
/// everything.
pub open spec fn log_filter_of(verbose: u8) -> Seq<char> {
    if verbose == 0 {
        "apt_vulns_xyz=info"@
    } else if verbose == 1 {
        "apt_vulns_xyz=debug"@
    } else {
        "debug"@
    }
}

impl Args {
    /// The log filter that the verbosity asks for.
    pub fn log_filter(&self) -> (filter: &'static str)
        ensures
            filter@ == log_filter_of(self.verbose),
    {
        if self.verbose == 0 {
            "apt_vulns_xyz=info"
        } else if self.verbose == 1 {
            "apt_vulns_xyz=debug"
        } else {
            "debug"
        }
    }
}

} // verus!
