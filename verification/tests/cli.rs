use std::time::Duration;

use guntamatic::cli::web::stream::sink_influxdb::write_batch;
use guntamatic::cli::{
    exit_message, exit_plan, log_level, parse_duration, stream_error_message, ExitPlan, ExitSignal,
    LogLevel, ParseIntError, ParseIntErrorKind,
};
use guntamatic::daq::DaqData;

#[test]
fn verbosity_selects_log_level() {
    assert_eq!(log_level(0), LogLevel::Warn);
    assert_eq!(log_level(1), LogLevel::Info);
    assert_eq!(log_level(2), LogLevel::Debug);
    assert_eq!(log_level(3), LogLevel::Trace);
    assert_eq!(log_level(u16::MAX), LogLevel::Trace);
}

#[test]
fn durations_are_whole_seconds() {
    assert_eq!(parse_duration("42").unwrap(), Duration::from_secs(42));
    assert_eq!(parse_duration("+7").unwrap(), Duration::from_secs(7));
    assert_eq!(parse_duration("0").unwrap(), Duration::from_secs(0));
    assert_eq!(
        parse_duration("18446744073709551615").unwrap(),
        Duration::from_secs(u64::MAX)
    );
    assert_eq!(parse_duration("007").unwrap(), Duration::from_secs(7));
}

fn kind_of(s: &str) -> ParseIntErrorKind {
    let e: ParseIntError = parse_duration(s).unwrap_err();
    e.kind
}

#[test]
fn duration_errors_say_why() {
    assert_eq!(kind_of(""), ParseIntErrorKind::Empty);
    for s in ["+", "-1", "1.5", " 5", "5s", "abc"] {
        assert_eq!(kind_of(s), ParseIntErrorKind::InvalidDigit);
    }
    assert_eq!(kind_of("18446744073709551616"), ParseIntErrorKind::PosOverflow);
    assert_eq!(kind_of("+99999999999999999999"), ParseIntErrorKind::PosOverflow);
    assert_eq!(
        parse_duration("018446744073709551616"),
        parse_duration("18446744073709551616")
    );
}

#[test]
fn stream_errors_say_what_failed() {
    assert_eq!(
        stream_error_message("timeout"),
        "error while streaming DAQ data: timeout"
    );
}

#[test]
fn exit_codes() {
    assert_eq!(exit_message(ExitSignal::CtrlC), (true, 0));
    assert_eq!(exit_message(ExitSignal::TaskFinished { failed: true }), (false, -1));
    assert_eq!(exit_message(ExitSignal::TaskFinished { failed: false }), (false, 0));
    assert_eq!(exit_plan((true, 0)), ExitPlan { abort_task: true, code: 0 });
    assert_eq!(
        exit_plan(exit_message(ExitSignal::TaskFinished { failed: true })),
        ExitPlan { abort_task: false, code: -1 }
    );
}

#[test]
fn write_batches_carry_the_time_in_decimal_millis() {
    let b = write_batch(DaqData { values: vec![] }, 1_700_000_000_123);
    assert!(b.points.is_empty());
    assert_eq!(b.timestamp, "1700000000123");
    assert_eq!(write_batch(DaqData { values: vec![] }, 0).timestamp, "0");
}
