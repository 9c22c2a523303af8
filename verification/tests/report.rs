use timit::numerals::{count_digits, u128_digits, zero_padded};
use timit::report::{
    duration_to_string, exit_status_to_string, i32_digits, initialize, results_text, run,
};
use timit::types::{Args, Duration, Error, ExitStatus, ProcessData};

fn some_nanos(nanos: u128) -> Option<Duration> {
    Some(Duration { nanos })
}

#[test]
fn digits_of_small_and_large_values() {
    assert_eq!(u128_digits(0), "0");
    assert_eq!(u128_digits(7), "7");
    assert_eq!(u128_digits(10), "10");
    assert_eq!(u128_digits(90210), "90210");
    assert_eq!(
        u128_digits(u128::MAX),
        "340282366920938463463374607431768211455"
    );
}

#[test]
fn digit_counts() {
    assert_eq!(count_digits(0), 1);
    assert_eq!(count_digits(9), 1);
    assert_eq!(count_digits(10), 2);
    assert_eq!(count_digits(999_999_999), 9);
    assert_eq!(count_digits(u128::MAX), 39);
}

#[test]
fn zero_padding_widens_short_numerals_only() {
    assert_eq!(zero_padded(5, 2), "05");
    assert_eq!(zero_padded(12, 2), "12");
    assert_eq!(zero_padded(123, 2), "123");
    assert_eq!(zero_padded(123, 9), "000000123");
    assert_eq!(zero_padded(0, 9), "000000000");
    assert_eq!(zero_padded(42, 0), "42");
}

#[test]
fn signed_digits_cover_negatives_and_extremes() {
    assert_eq!(i32_digits(0), "0");
    assert_eq!(i32_digits(137), "137");
    assert_eq!(i32_digits(-3), "-3");
    assert_eq!(i32_digits(i32::MIN), "-2147483648");
    assert_eq!(i32_digits(i32::MAX), "2147483647");
}

#[test]
fn exit_status_rendering() {
    assert_eq!(exit_status_to_string(ExitStatus::Code(0)), "0 (success)");
    assert_eq!(exit_status_to_string(ExitStatus::Code(1)), "1 (failure)");
    assert_eq!(exit_status_to_string(ExitStatus::Code(-9)), "-9 (failure)");
    assert_eq!(exit_status_to_string(ExitStatus::Signal), "signal (failure)");
}

#[test]
fn absent_duration_has_a_fixed_message() {
    assert_eq!(
        duration_to_string(None, true),
        "There was an error timing the operation."
    );
    assert_eq!(
        duration_to_string(None, false),
        "There was an error timing the operation."
    );
}

#[test]
fn raw_nanosecond_rendering() {
    assert_eq!(duration_to_string(some_nanos(0), false), "0ns");
    assert_eq!(
        duration_to_string(some_nanos(3_723_000_000_123), false),
        "3723000000123ns"
    );
}

#[test]
fn pretty_rendering_below_one_second() {
    assert_eq!(duration_to_string(some_nanos(0), true), "0.000000000s");
    assert_eq!(duration_to_string(some_nanos(500), true), "0.000000500s");
    assert_eq!(
        duration_to_string(some_nanos(999_999_999), true),
        "0.999999999s"
    );
}

#[test]
fn pretty_rendering_with_seconds_minutes_and_hours() {
    assert_eq!(
        duration_to_string(some_nanos(1_000_000_000), true),
        "01.000000000s"
    );
    assert_eq!(
        duration_to_string(some_nanos(59_000_000_007), true),
        "59.000000007s"
    );
    assert_eq!(
        duration_to_string(some_nanos(60_000_000_000), true),
        "01:00.000000000s"
    );
    assert_eq!(
        duration_to_string(some_nanos(3_723_000_000_123), true),
        "01:02:03.000000123s"
    );
    assert_eq!(
        duration_to_string(some_nanos(360_000_000_000_000), true),
        "100:00:00.000000000s"
    );
}

#[test]
fn command_line_echo() {
    let args = Args {
        display_nanos: false,
        command: String::from("echo"),
        command_args: vec![String::from("hello"), String::from("world")],
    };
    assert_eq!(initialize(&args), "Command: timit echo hello world\n");
}

#[test]
fn command_line_echo_without_arguments() {
    let args = Args {
        display_nanos: false,
        command: String::from("true"),
        command_args: vec![],
    };
    assert_eq!(initialize(&args), "Command: timit true\n");
}

#[test]
fn results_block_prettified() {
    let args = Args {
        display_nanos: false,
        command: String::from("true"),
        command_args: vec![],
    };
    let data = ProcessData {
        exit_status: ExitStatus::Code(0),
        duration: some_nanos(1_500),
    };
    assert_eq!(
        results_text(&args, &data),
        "Results:\n  Exit status: 0 (success)\n  Duration: 0.000001500s\n\n"
    );
}

#[test]
fn results_block_in_raw_nanos() {
    let args = Args {
        display_nanos: true,
        command: String::from("false"),
        command_args: vec![],
    };
    let data = ProcessData {
        exit_status: ExitStatus::Code(1),
        duration: some_nanos(1_500),
    };
    assert_eq!(
        results_text(&args, &data),
        "Results:\n  Exit status: 1 (failure)\n  Duration: 1500ns\n\n"
    );
}

#[test]
fn closing_report_on_success() {
    let args = Args {
        display_nanos: false,
        command: String::from("true"),
        command_args: vec![],
    };
    let data = ProcessData {
        exit_status: ExitStatus::Code(0),
        duration: some_nanos(2_000_000_001),
    };
    assert_eq!(
        run(&args, Ok(data)),
        "--- End program output ---\n\
         Results:\n  Exit status: 0 (success)\n  Duration: 02.000000001s\n\n"
    );
}

#[test]
fn closing_report_on_spawn_failure() {
    let args = Args {
        display_nanos: false,
        command: String::from("/nonexistent-binary-xyz"),
        command_args: vec![],
    };
    assert_eq!(
        run(&args, Err(Error::NotSpawned)),
        "--- End program output ---\nError: could not spawn process\n"
    );
}

#[test]
fn closing_report_on_join_failure() {
    let args = Args {
        display_nanos: true,
        command: String::from("sleep"),
        command_args: vec![String::from("1")],
    };
    assert_eq!(
        run(&args, Err(Error::NotJoined)),
        "--- End program output ---\nError: could not observe process exit\n"
    );
}

#[test]
fn clock_anomaly_still_reports_the_exit_status() {
    let args = Args {
        display_nanos: false,
        command: String::from("true"),
        command_args: vec![],
    };
    let data = ProcessData {
        exit_status: ExitStatus::Code(0),
        duration: None,
    };
    assert_eq!(
        run(&args, Ok(data)),
        "--- End program output ---\nResults:\n  Exit status: 0 (success)\n  \
         Duration: There was an error timing the operation.\n\n"
    );
}
