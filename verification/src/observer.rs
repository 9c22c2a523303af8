//! The process observer's decision core: resolving stdio routing into launch
//! directives, assembling the launch specification, and forming the outcome
//! or error from the events that the spawn-and-wait sequence recorded.

use vstd::prelude::*;

use crate::types::{Args, Duration, Error, ExitStatus, IOArgs, IOStream, Instant, ProcessData};

verus! {

/// Launch-time directive for one standard stream, as the process-creation
/// layer expects it.
#[derive(Clone, Copy, Debug, PartialEq, Eq, Structural)]
pub enum Directive {
    /// Discard the stream (immediate end-of-input for stdin).
    Discard,
    /// Share the calling process's own corresponding stream.
    Share,
    /// Bind the stream to the identified caller-supplied handle.
    Bound(u64),
}

/// The fully resolved description of the child to create: the program, its
/// arguments in order, and one directive per standard stream.
pub struct LaunchSpec {
    pub program: String,
    pub args: Vec<String>,
    pub stdin: Directive,
    pub stdout: Directive,
    pub stderr: Directive,
}

/// The directive that one routing choice resolves to.
pub open spec fn spec_resolve(stream: IOStream) -> Directive {
    match stream {
        IOStream::Null => Directive::Discard,
        IOStream::Inherit => Directive::Share,
        IOStream::File(handle) => Directive::Bound(handle),
    }
}

/// Resolve one routing choice into its launch directive. Pure and stateless:
/// discard for `Null`, share for `Inherit`, and for `File` a directive bound
/// to the same handle.
pub fn resolve_stream(stream: IOStream) -> (d: Directive)
    ensures
        d == spec_resolve(stream),
{
    match stream {
        IOStream::Null => Directive::Discard,
        IOStream::Inherit => Directive::Share,
        IOStream::File(handle) => Directive::Bound(handle),
    }
}

/// Assemble the launch specification: the program and arguments are taken
/// over unchanged, and each stream's routing choice is resolved
/// independently.
pub fn build_command(args: &Args, io: IOArgs) -> (plan: LaunchSpec)
    ensures
        plan.program@ == args.command@,
        plan.args.deep_view() == args.command_args.deep_view(),
        plan.stdin == spec_resolve(io.stdin),
        plan.stdout == spec_resolve(io.stdout),
        plan.stderr == spec_resolve(io.stderr),
{
    let program = args.command.clone();
    let command_args = args.command_args.clone();
    proof {
        assert(command_args.deep_view() =~= args.command_args.deep_view()) by {
            assert forall|i: int| 0 <= i < args.command_args@.len() implies command_args.deep_view()[i]
                == args.command_args.deep_view()[i] by {
                assert(cloned::<String>(args.command_args[i], command_args[i]));
            }
        }
    }
    LaunchSpec {
        program,
        args: command_args,
        stdin: resolve_stream(io.stdin),
        stdout: resolve_stream(io.stdout),
        stderr: resolve_stream(io.stderr),
    }
}

/// Form the outcome of one observation from what the spawn-and-wait sequence
/// recorded. The front end spawns the child, waits for it, and reads the
/// monotonic clock just before the spawn and just after the wait; this
/// function holds the decisions.
///
/// A failed spawn yields `NotSpawned` and no outcome; a spawned child whose
/// status could not be collected yields `NotJoined`. Otherwise the outcome
/// carries the collected status unchanged, and the elapsed span from the
/// monotonic subtraction of the two readings — absent, not an error, when
/// the readings are inverted.
pub fn observe_process(
    spawned: bool,
    exit_status: Option<ExitStatus>,
    start: Instant,
    end: Instant,
) -> (r: Result<ProcessData, Error>)
    ensures
        !spawned ==> r == Err::<ProcessData, Error>(Error::NotSpawned),
        spawned && exit_status is None ==> r == Err::<ProcessData, Error>(Error::NotJoined),
        spawned ==> (exit_status matches Some(status) ==> r == Ok::<ProcessData, Error>(
            (ProcessData { exit_status: status, duration: end.spec_checked_duration_since(start) }),
        )),
{
    if !spawned {
        return Err(Error::NotSpawned);
    }
    let status = match exit_status {
        Some(status) => status,
        None => {
            return Err(Error::NotJoined);
        },
    };
    Ok(ProcessData { exit_status: status, duration: end.checked_duration_since(start) })
}

} // verus!
