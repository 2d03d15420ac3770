use twatch_status::status::TimeReading;
use twatch_status::text::{format_percentage, format_time, TEXT_CAPACITY};

#[test]
fn percentage_fields_are_fixed_width() {
    assert_eq!(format_percentage(0).as_str(), "  0");
    assert_eq!(format_percentage(7).as_str(), "  7");
    assert_eq!(format_percentage(42).as_str(), " 42");
    assert_eq!(format_percentage(100).as_str(), "100");
}

#[test]
fn percentage_formatting_is_repeatable() {
    for v in 0u8..=255 {
        let a = format_percentage(v);
        let b = format_percentage(v);
        assert_eq!(a, b);
        assert_eq!(a.len(), 3);
        assert_eq!(a.as_str(), format!("{:>3}", v));
    }
}

#[test]
fn sentinel_renders_as_digits() {
    assert_eq!(format_percentage(101).as_str(), "101");
    assert_eq!(format_percentage(255).as_str(), "255");
}

#[test]
fn time_field_layout() {
    let t = TimeReading { hours: 9, minutes: 5, seconds: 3 };
    assert_eq!(format_time(&t).as_str(), " 9:05:03");
    let t = TimeReading { hours: 23, minutes: 59, seconds: 59 };
    assert_eq!(format_time(&t).as_str(), "23:59:59");
    let t = TimeReading { hours: 0, minutes: 0, seconds: 0 };
    assert_eq!(format_time(&t).as_str(), " 0:00:00");
}

#[test]
fn time_field_widens_for_large_values() {
    let t = TimeReading { hours: 255, minutes: 100, seconds: 7 };
    let s = format_time(&t);
    assert_eq!(s.as_str(), "255:100:07");
    assert!(s.len() <= TEXT_CAPACITY);
}

#[test]
fn time_field_matches_std_formatting() {
    for h in [0u8, 1, 9, 10, 23, 99] {
        for m in [0u8, 5, 30, 59] {
            let t = TimeReading { hours: h, minutes: m, seconds: m };
            assert_eq!(format_time(&t).as_str(), format!("{:>2}:{:02}:{:02}", h, m, m));
        }
    }
}
