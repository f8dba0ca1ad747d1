//! Tests for the color type.

use profesor::Color;

#[test]
fn test_color_rgb() {
    let color = Color::rgb(255, 128, 0);

    assert_eq!(color.r, 255);
    assert_eq!(color.g, 128);
    assert_eq!(color.b, 0);
    assert_eq!(color.a, 255);
}

#[test]
fn test_color_rgba() {
    let color = Color::rgba(255, 128, 0, 128);

    assert_eq!(color.r, 255);
    assert_eq!(color.g, 128);
    assert_eq!(color.b, 0);
    assert_eq!(color.a, 128);
}

#[test]
fn test_color_from_hex() {
    let color = Color::from_hex("#ff8000");

    assert_eq!(color.r, 255);
    assert_eq!(color.g, 128);
    assert_eq!(color.b, 0);
}

#[test]
fn test_color_from_hex_with_alpha() {
    let color = Color::from_hex("#ff800080");

    assert_eq!(color.r, 255);
    assert_eq!(color.g, 128);
    assert_eq!(color.b, 0);
    assert_eq!(color.a, 128);
}

#[test]
fn test_color_to_hex() {
    let color = Color::rgb(255, 128, 0);

    assert_eq!(color.to_hex(), "#ff8000");
}

#[test]
fn test_color_to_hex_with_alpha() {
    let color = Color::rgba(255, 128, 0, 128);

    assert_eq!(color.to_hex(), "#ff800080");
}

#[test]
fn test_color_constants() {
    assert_eq!(Color::white(), Color::rgb(255, 255, 255));
    assert_eq!(Color::black(), Color::rgb(0, 0, 0));
    assert_eq!(Color::red(), Color::rgb(255, 0, 0));
    assert_eq!(Color::green(), Color::rgb(0, 255, 0));
    assert_eq!(Color::blue(), Color::rgb(0, 0, 255));
}

#[test]
fn test_color_hex_roundtrip() {
    let original = Color::rgb(18, 52, 86);
    let hex = original.to_hex();
    let parsed = Color::from_hex(&hex);
    assert_eq!(original, parsed);

    let with_alpha = Color::rgba(171, 205, 239, 1);
    let hex2 = with_alpha.to_hex();
    assert_eq!(Color::from_hex(&hex2), with_alpha);
}

#[test]
fn test_color_from_hex_invalid() {
    let color = Color::from_hex("#xyz");
    assert_eq!(color, Color::rgb(0, 0, 0));

    let uppercase = Color::from_hex("#FF8000");
    assert_eq!(uppercase, Color::rgb(255, 128, 0));
}
