//! The profiler side: the external tool's command line, and the judgement
//! how a spawned subprocess fared.

use vstd::prelude::*;

use crate::errors::Error;

verus! {

/// Options for the external profiling tool.
pub struct ProfilerOptions {
    /// Where the tool should write its recording, when the user chose.
    pub output: Option<String>,
    /// Record raw data only, without interpreting it.
    pub raw: bool,
}

/// The observed fate of a spawned subprocess, as the caller reports it:
/// either the process could not be started at all, or it ran to completion
/// with or without success.
pub enum ProcessOutcome {
    NotStarted,
    Completed(bool),
}

/// The argument list handed to the profiling tool: the optional output
/// pair, the optional raw-mode flag, the target executable, then the
/// forwarded arguments, in that order.
pub open spec fn spec_profiler_args(
    output: Option<Seq<char>>,
    raw: bool,
    executable: Seq<char>,
    args: Seq<Seq<char>>,
) -> Seq<Seq<char>> {
    (match output {
        Some(o) => seq!["--output"@, o],
        None => Seq::empty(),
    }) + (if raw {
        seq!["--raw"@]
    } else {
        Seq::<Seq<char>>::empty()
    }) + seq![executable] + args
}

/// Builds the profiling tool's argument list for an assembled workload.
pub fn profiler_args(opts: &ProfilerOptions, executable: &String, args: &Vec<String>) -> (r: Vec<
    String,
>)
    ensures
        r.deep_view() == spec_profiler_args(
            opts.output.deep_view(),
            opts.raw,
            executable@,
            args.deep_view(),
        ),
{
    let mut out: Vec<String> = Vec::new();
    match &opts.output {
        Some(o) => {
            out.push(String::from_str("--output"));
            out.push(o.clone());
        },
        None => {},
    }
    if opts.raw {
        out.push(String::from_str("--raw"));
    }
    out.push(executable.clone());
    let ghost head = out.deep_view();
    let mut i: usize = 0;
    proof {
        assert(head =~= spec_profiler_args(
            opts.output.deep_view(),
            opts.raw,
            executable@,
            Seq::<Seq<char>>::empty(),
        ) );
        assert(out.deep_view() =~= head + args.deep_view().take(0));
    }
    while i < args.len()
        invariant
            i <= args@.len(),
            args@.len() == args.deep_view().len(),
            out.deep_view() == head + args.deep_view().take(i as int),
        decreases args.len() - i,
    {
        let ghost pre = out.deep_view();
        out.push(args[i].clone());
        proof {
            assert(out.deep_view() =~= pre.push(args.deep_view()[i as int]));
            assert(out.deep_view() =~= head + args.deep_view().take(i + 1));
        }
        i = i + 1;
    }
    proof {
        assert(args.deep_view().take(args@.len() as int) =~= args.deep_view());
        assert(head + args.deep_view() =~= spec_profiler_args(
            opts.output.deep_view(),
            opts.raw,
            executable@,
            args.deep_view(),
        ));
    }
    out
}

/// Judges the observed fate of the profiler subprocess: a tool that could
/// not be spawned is missing or unusable, one that ran and exited non-zero
/// reported its own failure, and a zero exit is success.
pub fn judge_profiler_outcome(outcome: &ProcessOutcome) -> (r: Result<(), Error>)
    ensures
        match r {
            Ok(_) => *outcome == ProcessOutcome::Completed(true),
            Err(e) => match e {
                Error::ProfilerLaunchFailed => *outcome == ProcessOutcome::NotStarted,
                Error::ProfilerFailed => *outcome == ProcessOutcome::Completed(false),
                _ => false,
            },
        },
{
    match outcome {
        ProcessOutcome::NotStarted => Err(Error::ProfilerLaunchFailed),
        ProcessOutcome::Completed(true) => Ok(()),
        ProcessOutcome::Completed(false) => Err(Error::ProfilerFailed),
    }
}

/// Judges the observed fate of the build subprocess; the build tool's own
/// diagnostics are already on the caller's error stream by the time this
/// is judged.
pub fn judge_build_outcome(outcome: &ProcessOutcome) -> (r: Result<(), Error>)
    ensures
        match r {
            Ok(_) => *outcome == ProcessOutcome::Completed(true),
            Err(e) => match e {
                Error::BuildLaunchFailed => *outcome == ProcessOutcome::NotStarted,
                Error::BuildFailed => *outcome == ProcessOutcome::Completed(false),
                _ => false,
            },
        },
{
    match outcome {
        ProcessOutcome::NotStarted => Err(Error::BuildLaunchFailed),
        ProcessOutcome::Completed(true) => Ok(()),
        ProcessOutcome::Completed(false) => Err(Error::BuildFailed),
    }
}

} // verus!
