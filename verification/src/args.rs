//! The options of the command line, and what follows from them.

use crate::dep::option_text;
use vstd::prelude::*;
use vstd::string::StringExecFns;

verus! {

/// The subcommands of the tool.
#[derive(Debug)]
pub enum Command {
    /// Lists the direct dependencies with their status.
    ODeps(Args),
}

/// The options of the listing.
#[derive(Debug)]
pub struct Args {
    /// Upgrade every outdated dependency.
    pub upgrade: bool,
    /// Show the outdated dependencies only.
    pub outdated: bool,
    /// Do not leave out the dependencies of local origin.
    pub no_ignore_local: bool,
    /// The names to leave out.
    pub ignore: Vec<String>,
    /// The one project to look at.
    pub project: Option<String>,
    /// Log in detail.
    pub verbose: bool,
}

impl Default for Args {
    fn default() -> (args: Args)
        ensures
            !args.upgrade,
            !args.outdated,
            !args.no_ignore_local,
            args.ignore@.len() == 0,
            args.project is None,
            !args.verbose,
    {
        Args {
            upgrade: false,
            outdated: false,
            no_ignore_local: false,
            ignore: Vec::new(),
            project: None,
            verbose: false,
        }
    }
}

/// The log filter that applies: the override where there is one, else
/// the detailed or the plain filter of the tool.
pub open spec fn log_filter_text(verbose: bool, overriding: Option<Seq<char>>) -> Seq<char> {
    match overriding {
        Some(filter) => filter,
        None => if verbose {
            "cargo_odeps=debug,ureq=info"@
        } else {
            "cargo_odeps=info,ureq=error"@
        },
    }
}

impl Args {
    /// Whether dependencies of local origin are left out.
    pub fn ignore_local(&self) -> (out: bool)
        ensures
            out == !self.no_ignore_local,
    {
        !self.no_ignore_local
    }

    /// The log filter to start with, given the override from the
    /// environment when one is set.
    pub fn log_filter(&self, overriding: Option<String>) -> (filter: String)
        ensures
            filter@ == log_filter_text(self.verbose, option_text(overriding)),
    {
        match overriding {
            Some(filter) => filter,
            None => if self.verbose {
                String::from_str("cargo_odeps=debug,ureq=info")
            } else {
                String::from_str("cargo_odeps=info,ureq=error")
            },
        }
    }
}

} // verus!
