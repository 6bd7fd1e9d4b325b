//! The invocation grammar: two subcommands, checked before any namespace
//! work begins.
//!
//! `run <image> <command> [args...]` asks for the full isolation path;
//! `exec <command> [args...]` asks for a direct image replacement of the
//! calling process.  The subcommand word is matched after ASCII
//! lower-casing.  Anything else is a usage error, reported immediately.

use vstd::prelude::*;
use crate::bytes::ascii_lower;
use crate::bytes::bytes_eq;
use crate::bytes::copy_bytes;
use crate::bytes::lower_bytes;

verus! {

/// The word `run` in ASCII.
pub open spec fn run_word() -> Seq<u8> {
    seq![114u8, 117u8, 110u8]
}

/// The word `exec` in ASCII.
pub open spec fn exec_word() -> Seq<u8> {
    seq![101u8, 120u8, 101u8, 99u8]
}

/// An argument or usage error; the process exits before any namespace work.
#[derive(Clone, Copy, PartialEq, Eq, Structural, Debug)]
pub enum UsageError {
    /// No subcommand was given.
    MissingSubcommand,
    /// The subcommand is neither `run` nor `exec`.
    UnknownSubcommand,
    /// `run` needs an image name and a command.
    MissingRunArgs,
    /// `exec` needs a command.
    MissingExecArgs,
}

/// What an argument vector asks this launcher to do.
pub enum Invocation {
    /// Full isolation: spawn `command` confined under the root resolved
    /// from `image`.
    Run { image: Vec<u8>, command: Vec<Vec<u8>> },
    /// Replace the current process image with `command` directly.
    Exec { command: Vec<Vec<u8>> },
    /// Reject the invocation.
    Usage { error: UsageError },
}

/// Copies `args[from..]`.
fn copy_tail(args: &Vec<Vec<u8>>, from: usize) -> (r: Vec<Vec<u8>>)
    requires
        from <= args@.len(),
    ensures
        r@.len() == args@.len() - from,
        forall|j: int| 0 <= j < r@.len() ==> r@[j]@ == args@[from + j]@,
{
    let mut out: Vec<Vec<u8>> = Vec::new();
    let mut i: usize = from;
    while i < args.len()
        invariant
            from <= i <= args@.len(),
            out@.len() == i - from,
            forall|j: int| 0 <= j < out@.len() ==> out@[j]@ == args@[from + j]@,
        decreases args@.len() - i,
    {
        out.push(copy_bytes(&args[i]));
        i = i + 1;
    }
    out
}

/// Parses a full argument vector (`args[0]` is the program name itself) into
/// the launcher's invocation.  The subcommand word is case-insensitive; the
/// remaining arguments are taken as they stand.
pub fn parse_invocation(args: &Vec<Vec<u8>>) -> (r: Invocation)
    ensures
        args@.len() < 2 ==> r == (Invocation::Usage { error: UsageError::MissingSubcommand }),
        args@.len() >= 2 && lower_bytes(args@[1]@) == run_word() && args@.len() < 4 ==> r == (
        Invocation::Usage { error: UsageError::MissingRunArgs }),
        args@.len() >= 4 && lower_bytes(args@[1]@) == run_word() ==> (r matches Invocation::Run {
            image,
            command,
        } && image@ == args@[2]@ && command@.len() == args@.len() - 3 && (forall|j: int|
            0 <= j < command@.len() ==> command@[j]@ == args@[3 + j]@)),
        args@.len() >= 2 && lower_bytes(args@[1]@) == exec_word() && args@.len() < 3 ==> r == (
        Invocation::Usage { error: UsageError::MissingExecArgs }),
        args@.len() >= 3 && lower_bytes(args@[1]@) == exec_word() ==> (r matches Invocation::Exec {
            command,
        } && command@.len() == args@.len() - 2 && (forall|j: int|
            0 <= j < command@.len() ==> command@[j]@ == args@[2 + j]@)),
        args@.len() >= 2 && lower_bytes(args@[1]@) != run_word() && lower_bytes(args@[1]@)
            != exec_word() ==> r == (Invocation::Usage { error: UsageError::UnknownSubcommand }),
{
    if args.len() < 2 {
        return Invocation::Usage { error: UsageError::MissingSubcommand };
    }
    let sub = ascii_lower(&args[1]);
    let mut run_w: Vec<u8> = Vec::new();
    run_w.push(114);
    run_w.push(117);
    run_w.push(110);
    proof {
        assert(run_w@ =~= run_word());
    }
    if bytes_eq(&sub, &run_w) {
        if args.len() < 4 {
            return Invocation::Usage { error: UsageError::MissingRunArgs };
        }
        let image = copy_bytes(&args[2]);
        let command = copy_tail(args, 3);
        return Invocation::Run { image, command };
    }
    let mut exec_w: Vec<u8> = Vec::new();
    exec_w.push(101);
    exec_w.push(120);
    exec_w.push(101);
    exec_w.push(99);
    proof {
        assert(exec_w@ =~= exec_word());
    }
    if bytes_eq(&sub, &exec_w) {
        if args.len() < 3 {
            return Invocation::Usage { error: UsageError::MissingExecArgs };
        }
        let command = copy_tail(args, 2);
        return Invocation::Exec { command };
    }
    Invocation::Usage { error: UsageError::UnknownSubcommand }
}

} // verus!
