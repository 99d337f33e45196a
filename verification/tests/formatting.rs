use scope_timer::format::{compose_line, MAX_PRECISION};
use scope_timer::{Elapsed, TimeFormat};

fn sample() -> Elapsed {
    Elapsed { secs: 1, nanos: 234_500_000 }
}

#[test]
fn whole_seconds_drop_the_fraction() {
    assert_eq!(TimeFormat::Seconds.value(sample()), "1");
    assert_eq!(TimeFormat::Seconds.value(Elapsed { secs: 59, nanos: 999_999_999 }), "59");
    assert_eq!(TimeFormat::Seconds.value(Elapsed { secs: u64::MAX, nanos: 0 }), "18446744073709551615");
}

#[test]
fn single_precision_seconds_at_two_digits() {
    assert_eq!(TimeFormat::SecondsF32(2).value(sample()), "1.23");
}

#[test]
fn single_precision_seconds_at_other_precisions() {
    assert_eq!(TimeFormat::SecondsF32(0).value(sample()), "1");
    assert_eq!(TimeFormat::SecondsF32(1).value(sample()), "1.2");
    assert_eq!(TimeFormat::SecondsF32(6).value(sample()), "1.234500");
    assert_eq!(TimeFormat::SecondsF32(3).value(Elapsed { secs: 12, nanos: 345_678_901 }), "12.346");
    assert_eq!(TimeFormat::SecondsF32(3).value(Elapsed { secs: 0, nanos: 0 }), "0.000");
}

#[test]
fn double_precision_seconds() {
    assert_eq!(TimeFormat::SecondsF64(2).value(sample()), "1.23");
    assert_eq!(TimeFormat::SecondsF64(4).value(sample()), "1.2345");
    assert_eq!(TimeFormat::SecondsF64(9).value(sample()), "1.234500000");
    assert_eq!(TimeFormat::SecondsF64(9).value(Elapsed { secs: 12, nanos: 345_678_901 }), "12.345678901");
}

#[test]
fn the_two_float_widths_differ_where_single_precision_runs_out() {
    let e = Elapsed { secs: 3, nanos: 999_999_999 };
    assert_eq!(TimeFormat::SecondsF32(9).value(e), "4.000000000");
    assert_eq!(TimeFormat::SecondsF64(9).value(e), "3.999999999");
}

#[test]
fn float_seconds_agree_with_std() {
    let d = std::time::Duration::new(7, 654_321_000);
    let e = Elapsed { secs: 7, nanos: 654_321_000 };
    for precision in [0usize, 1, 2, 3, 5, 8, 12, 20] {
        assert_eq!(
            TimeFormat::SecondsF32(precision).value(e),
            format!("{:.precision$}", d.as_secs_f32(), precision = precision)
        );
        assert_eq!(
            TimeFormat::SecondsF64(precision).value(e),
            format!("{:.precision$}", d.as_secs_f64(), precision = precision)
        );
    }
}

#[test]
fn milliseconds_are_a_whole_count() {
    assert_eq!(TimeFormat::Milliseconds.value(sample()), "1234");
    assert_eq!(TimeFormat::Milliseconds.value(Elapsed { secs: 0, nanos: 999_999 }), "0");
}

#[test]
fn microseconds_are_a_whole_count() {
    assert_eq!(TimeFormat::Microseconds.value(sample()), "1234500");
    assert_eq!(TimeFormat::Microseconds.value(Elapsed { secs: 0, nanos: 999 }), "0");
}

#[test]
fn nanoseconds_are_a_whole_count() {
    assert_eq!(TimeFormat::Nanoseconds.value(sample()), "1234500000");
    assert_eq!(TimeFormat::Nanoseconds.value(Elapsed { secs: 0, nanos: 0 }), "0");
}

#[test]
fn unit_suffixes_when_asked_for() {
    assert_eq!(TimeFormat::Seconds.unit(true), "secs");
    assert_eq!(TimeFormat::SecondsF32(2).unit(true), "secs");
    assert_eq!(TimeFormat::SecondsF64(2).unit(true), "secs");
    assert_eq!(TimeFormat::Milliseconds.unit(true), "ms");
    assert_eq!(TimeFormat::Microseconds.unit(true), "\u{3bc}s");
    assert_eq!(TimeFormat::Nanoseconds.unit(true), "ns");
}

#[test]
fn unit_suffixes_when_switched_off() {
    assert_eq!(TimeFormat::Seconds.unit(false), "secs");
    assert_eq!(TimeFormat::SecondsF32(2).unit(false), "secs");
    assert_eq!(TimeFormat::SecondsF64(2).unit(false), "secs");
    assert_eq!(TimeFormat::Milliseconds.unit(false), "");
    assert_eq!(TimeFormat::Microseconds.unit(false), "");
    assert_eq!(TimeFormat::Nanoseconds.unit(false), "");
}

#[test]
fn precision_limit() {
    assert_eq!(MAX_PRECISION, 65_535);
    assert!(TimeFormat::SecondsF32(0).is_valid());
    assert!(TimeFormat::SecondsF32(65_535).is_valid());
    assert!(!TimeFormat::SecondsF32(65_536).is_valid());
    assert!(TimeFormat::SecondsF64(65_535).is_valid());
    assert!(!TimeFormat::SecondsF64(65_536).is_valid());
    assert!(!TimeFormat::SecondsF64(usize::MAX).is_valid());
    assert!(TimeFormat::Seconds.is_valid());
    assert!(TimeFormat::Milliseconds.is_valid());
    assert!(TimeFormat::Microseconds.is_valid());
    assert!(TimeFormat::Nanoseconds.is_valid());
}

#[test]
fn the_largest_precision_is_rendered() {
    let single = TimeFormat::SecondsF32(65_535).value(Elapsed { secs: 2, nanos: 500_000_000 });
    assert_eq!(single.len(), 2 + 65_535);
    assert!(single.starts_with("2.5000"));
    assert!(single[3..].chars().all(|c| c == '0'));
    let double = TimeFormat::SecondsF64(65_535).value(Elapsed { secs: 2, nanos: 500_000_000 });
    assert_eq!(double, single);
}

#[test]
fn line_is_label_value_and_unit() {
    assert_eq!(compose_line("parse", "1.23", "secs"), "Label: parse | Time: 1.23secs");
    assert_eq!(compose_line("", "", ""), "Label:  | Time: ");
    assert_eq!(compose_line("a | b", "12", "\u{3bc}s"), "Label: a | b | Time: 12\u{3bc}s");
}
