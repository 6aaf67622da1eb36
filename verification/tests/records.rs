use logger::log::E_LEVEL;
use logger::log::I_LEVEL;
use logger::record::format_record;
use logger::record::u64_string;

#[test]
fn decimal_rendering() {
    assert_eq!(u64_string(0), "0");
    assert_eq!(u64_string(7), "7");
    assert_eq!(u64_string(10), "10");
    assert_eq!(u64_string(105), "105");
    assert_eq!(u64_string(10485760), "10485760");
    assert_eq!(u64_string(u64::MAX), "18446744073709551615");
}

#[test]
fn record_line_exact() {
    let line = format_record(
        I_LEVEL,
        "2024-01-15-10:30:00",
        "src/module.rs",
        "caller_fn",
        42,
        "formatted message text",
    );
    assert_eq!(
        line,
        "[I] [2024-01-15-10:30:00] [src/module.rs/caller_fn:42]: formatted message text\n"
    );
}

#[test]
fn record_line_unknown_tag() {
    let line = format_record(3, "ts", "f.rs", "g", 0, "m");
    assert_eq!(line, "[U] [ts] [f.rs/g:0]: m\n");
}

#[test]
fn record_line_empty_message() {
    let line = format_record(E_LEVEL, "t", "a", "b", 7, "");
    assert_eq!(line, "[E] [t] [a/b:7]: \n");
}
