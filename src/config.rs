//! Run configuration: an immutable value built once and handed to the core,
//! in place of process-wide flags.
use vstd::prelude::*;

verus! {

/// The switches that shape a run.
#[derive(Clone, Copy, Debug, PartialEq, Eq, Structural)]
pub struct Args {
    pub debug: bool,
    pub trace: bool,
    pub no_auto_sym: bool,
    pub verbose: bool,
    pub break_start: bool,
}

impl Args {
    /// Everything off, automatic symbol loading disabled.
    pub fn new() -> (r: Args)
        ensures
            !r.debug && !r.trace && r.no_auto_sym && !r.verbose && !r.break_start,
    {
        Args { debug: false, trace: false, no_auto_sym: true, verbose: false, break_start: false }
    }
}

/// Symbols are loaded automatically only in debug runs that did not opt out.
pub fn auto_load_syms(args: &Args) -> (r: bool)
    ensures
        r == (!args.no_auto_sym && args.debug),
{
    !args.no_auto_sym && args.debug
}

/// Whether the interactive debugger is enabled.
pub fn debug(args: &Args) -> (r: bool)
    ensures
        r == args.debug,
{
    args.debug
}

/// Whether each instruction is traced as it runs.
pub fn trace(args: &Args) -> (r: bool)
    ensures
        r == args.trace,
{
    args.trace
}

/// Whether human-readable diagnostics are produced: in debug or trace runs.
pub fn help_humans(args: &Args) -> (r: bool)
    ensures
        r == (args.debug || args.trace),
{
    args.debug || args.trace
}

/// Whether verbose reporting is on.
pub fn verbose(args: &Args) -> (r: bool)
    ensures
        r == args.verbose,
{
    args.verbose
}

} // verus!
