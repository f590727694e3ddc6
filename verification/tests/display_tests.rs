use cursor_resolver::CursorPosition;
use cursor_resolver::Vec2;
use cursor_resolver::WindowRef;
use cursor_resolver::i64_decimal;
use cursor_resolver::u64_decimal;

#[test]
fn decimal_of_naturals() {
    assert_eq!(u64_decimal(0), "0");
    assert_eq!(u64_decimal(7), "7");
    assert_eq!(u64_decimal(10), "10");
    assert_eq!(u64_decimal(1234567890), "1234567890");
    assert_eq!(u64_decimal(u64::MAX), "18446744073709551615");
}

#[test]
fn decimal_of_signed() {
    assert_eq!(i64_decimal(0), "0");
    assert_eq!(i64_decimal(42), "42");
    assert_eq!(i64_decimal(-1), "-1");
    assert_eq!(i64_decimal(-604), "-604");
    assert_eq!(i64_decimal(i64::MAX), "9223372036854775807");
    assert_eq!(i64_decimal(i64::MIN), "-9223372036854775808");
}

#[test]
fn display_primary_window() {
    let c = CursorPosition {
        window_ref: WindowRef::Primary,
        position: Vec2 { x: 400, y: 300 },
    };
    assert_eq!(c.display_string(), "cursor position: 400,300 (Primary Window)");
}

#[test]
fn display_identified_window() {
    let c = CursorPosition {
        window_ref: WindowRef::Entity(42),
        position: Vec2 { x: -5, y: 0 },
    };
    assert_eq!(c.display_string(), "cursor_position: -5,0 (Window: 42)");
}
