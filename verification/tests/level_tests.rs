use tyl_logging::{format_level, format_timestamp, generate_request_id, LogLevel};

fn all_levels() -> Vec<LogLevel> {
    vec![LogLevel::Trace, LogLevel::Debug, LogLevel::Info, LogLevel::Warn, LogLevel::Error]
}

#[test]
fn levels_compare_as_their_positions_do() {
    let levels = all_levels();
    for (i, a) in levels.iter().enumerate() {
        for (j, b) in levels.iter().enumerate() {
            assert_eq!(a > b, i > j);
            assert_eq!(a < b, i < j);
            assert_eq!(a >= b, i >= j);
            assert_eq!(a <= b, i <= j);
            assert_eq!(a == b, i == j);
            assert_eq!(a.partial_cmp(b), Some(i.cmp(&j)));
            assert_eq!(a.cmp(b), i.cmp(&j));
        }
    }
}

#[test]
fn rank_is_the_position_of_the_level() {
    let levels = all_levels();
    for (i, level) in levels.iter().enumerate() {
        assert_eq!(level.rank() as usize, i);
    }
}

#[test]
fn each_level_has_its_literal() {
    assert_eq!(format_level(LogLevel::Trace), "TRACE");
    assert_eq!(format_level(LogLevel::Debug), "DEBUG");
    assert_eq!(format_level(LogLevel::Info), "INFO");
    assert_eq!(format_level(LogLevel::Warn), "WARN");
    assert_eq!(format_level(LogLevel::Error), "ERROR");
}

#[test]
fn level_names_are_read_in_uppercase() {
    assert_eq!(LogLevel::from_uppercase("TRACE"), Some(LogLevel::Trace));
    assert_eq!(LogLevel::from_uppercase("DEBUG"), Some(LogLevel::Debug));
    assert_eq!(LogLevel::from_uppercase("INFO"), Some(LogLevel::Info));
    assert_eq!(LogLevel::from_uppercase("WARN"), Some(LogLevel::Warn));
    assert_eq!(LogLevel::from_uppercase("WARNING"), Some(LogLevel::Warn));
    assert_eq!(LogLevel::from_uppercase("ERROR"), Some(LogLevel::Error));
    assert_eq!(LogLevel::from_uppercase("info"), None);
    assert_eq!(LogLevel::from_uppercase(""), None);
    assert_eq!(LogLevel::from_uppercase("FATAL"), None);
    assert_eq!(LogLevel::from_uppercase("INFO "), None);
}

#[test]
fn timestamps_are_written_in_decimal_digits() {
    assert_eq!(format_timestamp(0), "0");
    assert_eq!(format_timestamp(7), "7");
    assert_eq!(format_timestamp(9), "9");
    assert_eq!(format_timestamp(10), "10");
    assert_eq!(format_timestamp(42), "42");
    assert_eq!(format_timestamp(100), "100");
    assert_eq!(format_timestamp(1234567890), "1234567890");
    assert_eq!(format_timestamp(1761609600), "1761609600");
    assert_eq!(format_timestamp(u64::MAX), "18446744073709551615");
}

#[test]
fn timestamps_are_written_as_the_standard_library_writes_them() {
    let mut n: u64 = 1;
    for _ in 0..64 {
        assert_eq!(format_timestamp(n), n.to_string());
        assert_eq!(format_timestamp(n - 1), (n - 1).to_string());
        n = n.wrapping_mul(3).wrapping_add(7);
    }
}

fn is_lower_hex(c: char) -> bool {
    matches!(c, '0'..='9' | 'a'..='f')
}

#[test]
fn request_ids_have_the_shape_of_a_random_uuid() {
    for _ in 0..32 {
        let id = generate_request_id();
        let chars: Vec<char> = id.chars().collect();
        assert_eq!(chars.len(), 36);
        for (i, c) in chars.iter().enumerate() {
            if i == 8 || i == 13 || i == 18 || i == 23 {
                assert_eq!(*c, '-');
            } else {
                assert!(is_lower_hex(*c));
            }
        }
        assert_eq!(chars[14], '4');
        assert!(matches!(chars[19], '8' | '9' | 'a' | 'b'));
    }
}

#[test]
fn request_ids_differ_from_call_to_call() {
    let first = generate_request_id();
    let second = generate_request_id();
    let third = generate_request_id();
    assert_ne!(first, second);
    assert_ne!(second, third);
    assert_ne!(first, third);
}
