//! The commands of the program, as plain values.

use vstd::prelude::*;
use crate::cache::Span;

verus! {

/// The default run: show the series, fetching it where the cache is stale.
#[derive(Debug, Clone, Copy, PartialEq, Eq, Structural)]
pub struct Run {
    /// How often more logs were asked for.
    pub verbose: u8,
    /// How often fewer logs were asked for.
    pub quiet: u8,
    /// Fetch new data whatever the cache holds.
    pub force: bool,
    /// Use the cache whatever the sources hold.
    pub cache: bool,
    /// The age at which the cache is stale.
    pub stale_after: Span,
    /// How long a source may take to answer.
    pub timeout: Span,
    /// Do not draw the chart.
    pub no_ui: bool,
}

#[derive(Debug, Clone, Copy, PartialEq, Eq, Structural)]
pub enum Command {
    Cache(Cache),
    Run(Run),
}

/// An operation on the cache.
#[derive(Debug, Clone, Copy, PartialEq, Eq, Structural)]
pub struct Cache {
    pub cmd: CacheCommand,
}

#[derive(Debug, Clone, Copy, PartialEq, Eq, Structural)]
pub enum CacheCommand {
    /// Show the file that the cache is kept in.
    List,
    /// Remove what the cache holds.
    Flush,
    /// Fetch new data into the cache, whatever its age.
    Refresh,
}

/// A count of flags as a level: beyond 127 it counts no further.
pub open spec fn capped(count: u8) -> int {
    if count > 127 {
        127
    } else {
        count as int
    }
}

/// How much a command logs: a cache command at level 2, a run one level up
/// for each flag that asks for more and one down for each that asks for less.
pub open spec fn verbosity_of(command: Command) -> int {
    match command {
        Command::Cache(_) => 2,
        Command::Run(run) => capped(run.verbose) - capped(run.quiet),
    }
}

fn cap(count: u8) -> (level: i8)
    ensures
        level == capped(count),
{
    if count > 127 {
        127
    } else {
        count as i8
    }
}

impl Command {
    pub fn verbosity(&self) -> (level: i8)
        ensures
            level == verbosity_of(*self),
    {
        match self {
            Command::Cache(_) => 2,
            Command::Run(run) => cap(run.verbose) - cap(run.quiet),
        }
    }
}

impl Run {
    /// The run that is made where no flag is given: the cache is stale after an
    /// hour, a source has ten seconds.
    pub open spec fn spec_default() -> Run {
        Run {
            verbose: 0,
            quiet: 0,
            force: false,
            cache: false,
            stale_after: Span { secs: 3600, nanos: 0 },
            timeout: Span { secs: 10, nanos: 0 },
            no_ui: false,
        }
    }
}

impl Default for Run {
    fn default() -> (run: Run)
        ensures
            run == Run::spec_default(),
    {
        Run {
            verbose: 0,
            quiet: 0,
            force: false,
            cache: false,
            stale_after: Span { secs: 3600, nanos: 0 },
            timeout: Span { secs: 10, nanos: 0 },
            no_ui: false,
        }
    }
}

/// The filter of the log for a level of verbosity.
pub open spec fn level_of(verbosity: i8) -> Seq<char> {
    if verbosity <= -2 {
        "off"@
    } else if verbosity == -1 {
        "error"@
    } else if verbosity == 0 {
        "warn"@
    } else if verbosity == 1 {
        "covidd=info"@
    } else if verbosity == 2 {
        "covidd=debug"@
    } else if verbosity == 3 {
        "covidd=trace"@
    } else if verbosity == 4 {
        "covidd=trace,info"@
    } else if verbosity == 5 {
        "covidd=trace,debug"@
    } else {
        "trace"@
    }
}

/// Names the filter of the log for a level of verbosity: from nothing at all,
/// over this program's own messages, to everything.
pub fn verbosity_to_level(verbosity: i8) -> (level: &'static str)
    ensures
        level@ == level_of(verbosity),
{
    if verbosity <= -2 {
        "off"
    } else if verbosity == -1 {
        "error"
    } else if verbosity == 0 {
        "warn"
    } else if verbosity == 1 {
        "covidd=info"
    } else if verbosity == 2 {
        "covidd=debug"
    } else if verbosity == 3 {
        "covidd=trace"
    } else if verbosity == 4 {
        "covidd=trace,info"
    } else if verbosity == 5 {
        "covidd=trace,debug"
    } else {
        "trace"
    }
}

} // verus!
