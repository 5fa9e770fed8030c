use or_any::verbosity::{log_level, LogLevel};

#[test]
fn no_flag_is_off() {
    assert_eq!(log_level(0), LogLevel::Off);
}

#[test]
fn each_flag_opens_one_level() {
    assert_eq!(log_level(1), LogLevel::Error);
    assert_eq!(log_level(2), LogLevel::Warn);
    assert_eq!(log_level(3), LogLevel::Info);
    assert_eq!(log_level(4), LogLevel::Debug);
    assert_eq!(log_level(5), LogLevel::Trace);
}

#[test]
fn more_flags_stay_at_trace() {
    assert_eq!(log_level(6), LogLevel::Trace);
    assert_eq!(log_level(i8::MAX), LogLevel::Trace);
}

#[test]
fn negative_counts_are_trace() {
    assert_eq!(log_level(-1), LogLevel::Trace);
    assert_eq!(log_level(i8::MIN), LogLevel::Trace);
}

#[test]
fn only_five_counts_are_below_trace() {
    let mut below = 0;
    for v in i8::MIN..=i8::MAX {
        if log_level(v) != LogLevel::Trace {
            below += 1;
        }
    }
    assert_eq!(below, 5);
}
