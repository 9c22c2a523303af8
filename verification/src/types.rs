//! Data model of a single process observation: the launch description, the
//! per-stream stdio routing, monotonic timestamps, the exit status, and the
//! outcome and error types.

use vstd::prelude::*;

verus! {

/// What the caller asked to run, together with how the result is displayed.
pub struct Args {
    /// Display the elapsed time as integer nanoseconds instead of prettified.
    pub display_nanos: bool,
    /// The program to spawn.
    pub command: String,
    /// The arguments handed to the program, in order.
    pub command_args: Vec<String>,
}

impl Args {
    /// Split a non-empty command line into the program and its arguments.
    pub fn new(display_nanos: bool, command_line: Vec<String>) -> (args: Args)
        requires
            command_line@.len() >= 1,
        ensures
            args.display_nanos == display_nanos,
            args.command == command_line@[0],
            args.command_args@ == command_line@.subrange(1, command_line@.len() as int),
    {
        let mut rest = command_line;
        let command = rest.remove(0);
        Args { display_nanos, command, command_args: rest }
    }
}

/// Routing choice for one of the child's standard streams.
///
/// `File` carries the caller's identifier for an already-opened handle; the
/// caller owns the handle and keeps it valid while the child runs.
#[derive(Clone, Copy, Debug, PartialEq, Eq, Structural)]
pub enum IOStream {
    /// Discard output, or supply immediate end-of-input.
    Null,
    /// Share the calling process's own corresponding stream.
    Inherit,
    /// Bind the stream to the identified caller-supplied handle.
    File(u64),
}

impl IOStream {
    /// The routing choice for one stream, from the caller's two knobs: an
    /// inherit flag and an optional handle. The precedence is fixed:
    /// inheriting wins over a supplied handle, and with neither the stream
    /// is discarded.
    pub fn select(inherit: bool, handle: Option<u64>) -> (s: IOStream)
        ensures
            inherit ==> s == IOStream::Inherit,
            !inherit ==> (handle matches Some(h) ==> s == IOStream::File(h)),
            !inherit && handle is None ==> s == IOStream::Null,
    {
        if inherit {
            IOStream::Inherit
        } else {
            match handle {
                Some(h) => IOStream::File(h),
                None => IOStream::Null,
            }
        }
    }
}

/// The routing choice for each of the three standard streams.
///
/// The three choices are independent; no combination is ambiguous.
#[derive(Clone, Copy, Debug, PartialEq, Eq, Structural)]
pub struct IOArgs {
    pub stdin: IOStream,
    pub stdout: IOStream,
    pub stderr: IOStream,
}

/// How a child process ended: a normal exit with a code, or termination by
/// a signal, which carries no numeric code.
#[derive(Clone, Copy, Debug, PartialEq, Eq, Structural)]
pub enum ExitStatus {
    Code(i32),
    Signal,
}

impl ExitStatus {
    /// The numeric exit code, absent exactly in the signal case.
    pub open spec fn spec_code(self) -> Option<i32> {
        match self {
            ExitStatus::Code(c) => Some(c),
            ExitStatus::Signal => None,
        }
    }

    /// Success means a normal exit with code zero.
    pub open spec fn spec_success(self) -> bool {
        self == ExitStatus::Code(0i32)
    }

    /// The numeric exit code, absent exactly in the signal case.
    pub fn code(self) -> (r: Option<i32>)
        ensures
            r == self.spec_code(),
    {
        match self {
            ExitStatus::Code(c) => Some(c),
            ExitStatus::Signal => None,
        }
    }

    /// Whether the child exited normally with code zero.
    pub fn success(self) -> (r: bool)
        ensures
            r == self.spec_success(),
    {
        match self {
            ExitStatus::Code(c) => c == 0,
            ExitStatus::Signal => false,
        }
    }
}

/// A normal exit decodes to its own code, and is a success exactly when the
/// code is zero.
pub proof fn lemma_exit_code_decoding(c: i32)
    ensures
        (ExitStatus::Code(c)).spec_code() == Some(c),
        (ExitStatus::Code(c)).spec_success() <==> c == 0,
{
}

/// Termination by a signal reports the signal case: it never carries a
/// numeric code, and it is never a success.
pub proof fn lemma_signal_reports_no_code()
    ensures
        (ExitStatus::Signal).spec_code() is None,
        !(ExitStatus::Signal).spec_success(),
{
}

/// An elapsed span of time, in whole nanoseconds. Never negative.
#[derive(Clone, Copy, Debug, PartialEq, Eq, Structural)]
pub struct Duration {
    pub nanos: u128,
}

/// A reading of a monotonic clock, as nanoseconds from the clock's own
/// reference point. Only differences between two readings are meaningful.
#[derive(Clone, Copy, Debug, PartialEq, Eq, Structural)]
pub struct Instant {
    pub nanos: u128,
}

impl Instant {
    /// The span from `earlier` to `self`, absent exactly when `self`
    /// precedes `earlier`.
    pub open spec fn spec_checked_duration_since(self, earlier: Instant) -> Option<Duration> {
        if earlier.nanos <= self.nanos {
            Some(Duration { nanos: (self.nanos - earlier.nanos) as u128 })
        } else {
            None
        }
    }

    /// Monotonic subtraction: the elapsed span from `earlier` to `self`,
    /// or `None` when the readings are inverted.
    pub fn checked_duration_since(self, earlier: Instant) -> (r: Option<Duration>)
        ensures
            r == self.spec_checked_duration_since(earlier),
    {
        if earlier.nanos <= self.nanos {
            Some(Duration { nanos: self.nanos - earlier.nanos })
        } else {
            None
        }
    }
}

/// A present elapsed duration is never negative, and it is absent exactly
/// when the clock readings are inverted (the end precedes the start).
pub proof fn lemma_duration_nonnegative(start: Instant, end: Instant)
    ensures
        end.spec_checked_duration_since(start) is Some <==> start.nanos <= end.nanos,
        end.spec_checked_duration_since(start) matches Some(d) ==> d.nanos >= 0
            && d.nanos == end.nanos - start.nanos,
{
}

/// The successful result of one observation: how the child ended, and the
/// elapsed wall-clock span, absent only on a clock anomaly.
#[derive(Clone, Copy, Debug, PartialEq, Eq, Structural)]
pub struct ProcessData {
    pub exit_status: ExitStatus,
    pub duration: Option<Duration>,
}

/// The two ways an observation fails outright. A clock anomaly is not one
/// of them: it only leaves the duration absent.
#[derive(Clone, Copy, Debug, PartialEq, Eq, Structural)]
pub enum Error {
    /// The operating system could not create the child process.
    NotSpawned,
    /// The child was created but its exit status could not be collected.
    NotJoined,
}

impl Error {
    /// The one-line human-readable reason for each failure kind.
    pub open spec fn spec_message(self) -> Seq<char> {
        match self {
            Error::NotSpawned => "could not spawn process"@,
            Error::NotJoined => "could not observe process exit"@,
        }
    }

    /// The one-line human-readable reason for this failure.
    pub fn message(self) -> (r: String)
        ensures
            r@ == self.spec_message(),
    {
        match self {
            Error::NotSpawned => String::from_str("could not spawn process"),
            Error::NotJoined => String::from_str("could not observe process exit"),
        }
    }
}

} // verus!
