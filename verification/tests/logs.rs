use freddie::client::Signal;
use freddie::logs::{
    level_color, pid_stamp, record_level, show, show_record, stamp_record, LogLevel,
};

const RECORD: &str = "pid=34322 2026-07-19T13:11:19.717128Z  INFO some_app::daemon: SIGTERM: quitting";

fn shown(line: &str, color: bool) -> String {
    show(line, record_level(line), color)
}

#[test]
fn the_level_is_the_third_token() {
    assert_eq!(record_level(RECORD), Some(LogLevel::Info));
    assert_eq!(
        record_level("pid=1 2026-07-19T13:11:19.717128Z DEBUG a: b"),
        Some(LogLevel::Debug)
    );
}

#[test]
fn a_line_that_is_not_a_record_has_no_level() {
    assert_eq!(record_level("a stray line"), None);
    assert_eq!(record_level(""), None);
}

#[test]
fn without_colour_a_record_is_passed_through() {
    assert_eq!(shown(RECORD, false), format!("{RECORD}\n"));
}

#[test]
fn with_colour_the_level_is_painted() {
    assert_eq!(
        shown(RECORD, true),
        "\x1b[2mpid=34322 2026-07-19T13:11:19.717128Z  \x1b[0m\x1b[32mINFO\x1b[0m \
         some_app::daemon: SIGTERM: quitting\n"
    );
}

#[test]
fn a_line_with_no_level_is_never_painted() {
    assert_eq!(shown("a stray line", true), "a stray line\n");
}

#[test]
fn a_level_reads_in_any_case_and_by_number() {
    assert_eq!(record_level("a b warn c"), Some(LogLevel::Warn));
    assert_eq!(record_level("a b Error c"), Some(LogLevel::Error));
    assert_eq!(record_level("a\tb\n5"), Some(LogLevel::Trace));
    assert_eq!(record_level("a b +1"), Some(LogLevel::Error));
    assert_eq!(record_level("a b 6"), None);
    assert_eq!(record_level("a b INFOS"), None);
    assert_eq!(record_level("a b"), None);
}

#[test]
fn records_below_the_asked_level_are_hidden() {
    assert_eq!(show_record(RECORD, LogLevel::Warn, false), None);
    assert_eq!(
        show_record(RECORD, LogLevel::Info, false),
        Some(format!("{RECORD}\n"))
    );
    assert_eq!(
        show_record(RECORD, LogLevel::Trace, false),
        Some(format!("{RECORD}\n"))
    );
    assert_eq!(
        show_record("a stray line", LogLevel::Error, false),
        Some("a stray line\n".to_string())
    );
}

#[test]
fn each_level_has_its_colour() {
    assert_eq!(level_color(LogLevel::Error), "\x1b[31m");
    assert_eq!(level_color(LogLevel::Warn), "\x1b[33m");
    assert_eq!(level_color(LogLevel::Info), "\x1b[32m");
    assert_eq!(level_color(LogLevel::Debug), "\x1b[34m");
    assert_eq!(level_color(LogLevel::Trace), "\x1b[35m");
    assert_eq!(LogLevel::Warn.as_str(), "WARN");
}

#[test]
fn the_kill_flags_are_spelled_for_bin_kill() {
    assert_eq!(Signal::Terminate.flag(), "-TERM");
    assert_eq!(Signal::Kill.flag(), "-KILL");
    assert_eq!(Signal::for_stop(true), Signal::Kill);
    assert_eq!(Signal::for_stop(false), Signal::Terminate);
}

#[test]
fn a_line_that_is_not_an_object_is_written_through() {
    let stamp = pid_stamp(42);
    assert_eq!(stamp_record(b"a stray line", stamp.as_bytes()), b"a stray line".to_vec());
}

#[test]
fn an_object_gains_the_pid_as_its_first_field() {
    let stamp = pid_stamp(34322);
    assert_eq!(stamp, "{\"pid\":34322,");
    assert_eq!(
        stamp_record(b"{\"level\":\"INFO\"}\n", stamp.as_bytes()),
        b"{\"pid\":34322,\"level\":\"INFO\"}\n".to_vec()
    );
}
