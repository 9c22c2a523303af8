//! The report texts of one invocation: the echoed command line, the exit
//! status and duration lines, and the closing report that follows the
//! child's own output. Every function returns the exact text it stands for;
//! writing it out is the front end's work.

use vstd::prelude::*;

use crate::numerals::{spec_digits, spec_zero_pad, u128_digits, zero_padded};
use crate::types::{Args, Duration, Error, ExitStatus, ProcessData};

verus! {

/// The decimal numeral of a signed value: a minus sign before the magnitude
/// for a negative value, the plain magnitude otherwise.
pub open spec fn spec_signed_digits(c: int) -> Seq<char> {
    if c < 0 {
        "-"@ + spec_digits((-c) as nat)
    } else {
        spec_digits(c as nat)
    }
}

/// The decimal numeral of a signed 32-bit value as a string.
pub fn i32_digits(c: i32) -> (r: String)
    ensures
        r@ == spec_signed_digits(c as int),
{
    if c < 0 {
        let wide: i64 = c as i64;
        let magnitude: u128 = (-wide) as u128;
        let mut r = String::from_str("-");
        let digits = u128_digits(magnitude);
        r.append(digits.as_str());
        proof {
            assert(r@ =~= spec_signed_digits(c as int));
        }
        r
    } else {
        u128_digits(c as u128)
    }
}

/// The exit-status line's value: the code (or the word for the signal case)
/// followed by the success verdict in parentheses.
pub open spec fn spec_exit_status_text(status: ExitStatus) -> Seq<char> {
    (match status {
        ExitStatus::Code(c) => spec_signed_digits(c as int),
        ExitStatus::Signal => "signal"@,
    }) + " ("@ + (if status.spec_success() {
        "success"@
    } else {
        "failure"@
    }) + ")"@
}

/// Render an exit status as `<code-or-'signal'> (success|failure)`.
pub fn exit_status_to_string(status: ExitStatus) -> (r: String)
    ensures
        r@ == spec_exit_status_text(status),
{
    let mut r = match status {
        ExitStatus::Code(c) => i32_digits(c),
        ExitStatus::Signal => String::from_str("signal"),
    };
    r.append(" (");
    if status.success() {
        r.append("success");
    } else {
        r.append("failure");
    }
    r.append(")");
    proof {
        assert(r@ =~= spec_exit_status_text(status));
    }
    r
}

/// The duration line's value. A present duration is rendered either as the
/// raw nanosecond count, or prettified as hour and minute fields (each shown
/// only once the duration reaches them), seconds, and a nine-digit
/// nanosecond fraction. An absent duration becomes a fixed message.
pub open spec fn spec_duration_text(duration: Option<Duration>, pretty: bool) -> Seq<char> {
    match duration {
        None => "There was an error timing the operation."@,
        Some(d) => {
            let total_nanos = d.nanos as nat;
            if pretty {
                (if total_nanos >= 3_600_000_000_000 {
                    spec_zero_pad(total_nanos / 3_600_000_000_000, 2) + ":"@
                } else {
                    Seq::<char>::empty()
                }) + (if total_nanos >= 60_000_000_000 {
                    spec_zero_pad((total_nanos / 60_000_000_000) % 60, 2) + ":"@
                } else {
                    Seq::<char>::empty()
                }) + (if total_nanos >= 1_000_000_000 {
                    spec_zero_pad((total_nanos / 1_000_000_000) % 60, 2)
                } else {
                    "0"@
                }) + "."@ + spec_zero_pad(total_nanos % 1_000_000_000, 9) + "s"@
            } else {
                spec_digits(total_nanos) + "ns"@
            }
        },
    }
}

/// Render an optional duration, prettified or as raw nanoseconds.
pub fn duration_to_string(duration: Option<Duration>, pretty: bool) -> (r: String)
    ensures
        r@ == spec_duration_text(duration, pretty),
{
    let d = match duration {
        None => {
            return String::from_str("There was an error timing the operation.");
        },
        Some(d) => d,
    };
    let total_nanos = d.nanos;
    if pretty {
        let mut r = String::new();
        if total_nanos >= 3_600_000_000_000 {
            let hours = zero_padded(total_nanos / 3_600_000_000_000, 2);
            r.append(hours.as_str());
            r.append(":");
        }
        if total_nanos >= 60_000_000_000 {
            let minutes = zero_padded((total_nanos / 60_000_000_000) % 60, 2);
            r.append(minutes.as_str());
            r.append(":");
        }
        if total_nanos >= 1_000_000_000 {
            let seconds = zero_padded((total_nanos / 1_000_000_000) % 60, 2);
            r.append(seconds.as_str());
        } else {
            r.append("0");
        }
        r.append(".");
        let nanos = zero_padded(total_nanos % 1_000_000_000, 9);
        r.append(nanos.as_str());
        r.append("s");
        proof {
            assert(r@ =~= spec_duration_text(duration, pretty));
        }
        r
    } else {
        let mut r = u128_digits(total_nanos);
        r.append("ns");
        proof {
            assert(r@ =~= spec_duration_text(duration, pretty));
        }
        r
    }
}

/// The results block: the exit-status line and the duration line, followed
/// by a blank line. The duration is prettified unless raw nanoseconds were
/// asked for.
pub open spec fn spec_results_text(display_nanos: bool, results: ProcessData) -> Seq<char> {
    "Results:\n  Exit status: "@ + spec_exit_status_text(results.exit_status)
        + "\n  Duration: "@ + spec_duration_text(results.duration, !display_nanos) + "\n\n"@
}

/// Render the results block of a successful observation.
pub fn results_text(args: &Args, results: &ProcessData) -> (r: String)
    ensures
        r@ == spec_results_text(args.display_nanos, *results),
{
    let mut r = String::from_str("Results:\n  Exit status: ");
    let status = exit_status_to_string(results.exit_status);
    r.append(status.as_str());
    r.append("\n  Duration: ");
    let duration = duration_to_string(results.duration, !args.display_nanos);
    r.append(duration.as_str());
    r.append("\n\n");
    proof {
        assert(r@ =~= spec_results_text(args.display_nanos, *results));
    }
    r
}

/// The given argument strings, each preceded by one space.
pub open spec fn spec_joined_args(items: Seq<Seq<char>>) -> Seq<char>
    decreases items.len(),
{
    if items.len() == 0 {
        Seq::<char>::empty()
    } else {
        spec_joined_args(items.drop_last()) + " "@ + items.last()
    }
}

/// The echoed command line: the program and its arguments, space-separated,
/// on one line.
pub open spec fn spec_command_line(args: Args) -> Seq<char> {
    "Command: timit "@ + args.command@ + spec_joined_args(args.command_args.deep_view()) + "\n"@
}

/// Render the echoed command line that opens the report.
pub fn initialize(args: &Args) -> (r: String)
    ensures
        r@ == spec_command_line(*args),
{
    let mut r = String::from_str("Command: timit ");
    r.append(args.command.as_str());
    let ghost all_args = args.command_args.deep_view();
    let mut i: usize = 0;
    while i < args.command_args.len()
        invariant
            i <= args.command_args@.len(),
            all_args == args.command_args.deep_view(),
            r@ =~= "Command: timit "@ + args.command@ + spec_joined_args(all_args.take(i as int)),
        decreases args.command_args@.len() - i,
    {
        r.append(" ");
        r.append(args.command_args[i].as_str());
        i = i + 1;
        proof {
            assert(all_args.take(i as int).drop_last() =~= all_args.take(i - 1));
            assert(r@ =~= "Command: timit "@ + args.command@ + spec_joined_args(
                all_args.take(i as int),
            ));
        }
    }
    r.append("\n");
    proof {
        assert(all_args.take(args.command_args@.len() as int) =~= all_args);
        assert(r@ =~= spec_command_line(*args));
    }
    r
}

/// The closing report: the delimiter that ends the child's output region,
/// then either the results block or a one-line error message.
pub open spec fn spec_run_report(args: Args, results: Result<ProcessData, Error>) -> Seq<char> {
    "--- End program output ---\n"@ + (match results {
        Ok(data) => spec_results_text(args.display_nanos, data),
        Err(reason) => "Error: "@ + reason.spec_message() + "\n"@,
    })
}

/// Render everything that follows the child's own output: the closing
/// delimiter, then the results block on success or the error line on
/// failure.
pub fn run(args: &Args, results: Result<ProcessData, Error>) -> (r: String)
    ensures
        r@ == spec_run_report(*args, results),
{
    let mut r = String::from_str("--- End program output ---\n");
    match results {
        Ok(data) => {
            let block = results_text(args, &data);
            r.append(block.as_str());
        },
        Err(reason) => {
            r.append("Error: ");
            let message = reason.message();
            r.append(message.as_str());
            r.append("\n");
        },
    }
    proof {
        assert(r@ =~= spec_run_report(*args, results));
    }
    r
}

} // verus!
