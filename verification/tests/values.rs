use viewkit::view::color::Colors;
use viewkit::view::decimal::format_decimal;
use viewkit::view::font::Font;
use viewkit::view::size::{Edge, Size};
use viewkit::view::view::Error;

#[test]
fn decimal_of_zero() {
    assert_eq!(format_decimal(0), "0");
}

#[test]
fn decimal_of_small_numbers() {
    assert_eq!(format_decimal(7), "7");
    assert_eq!(format_decimal(10), "10");
    assert_eq!(format_decimal(14), "14");
    assert_eq!(format_decimal(210), "210");
    assert_eq!(format_decimal(1000), "1000");
}

#[test]
fn decimal_of_negative_numbers() {
    assert_eq!(format_decimal(-1), "-1");
    assert_eq!(format_decimal(-45), "-45");
    assert_eq!(format_decimal(-100), "-100");
}

#[test]
fn decimal_of_the_limits() {
    assert_eq!(format_decimal(i32::MAX), "2147483647");
    assert_eq!(format_decimal(i32::MIN), "-2147483648");
}

#[test]
fn decimal_agrees_with_std() {
    let mut n: i32 = -5000;
    while n <= 5000 {
        assert_eq!(format_decimal(n), format!("{}", n));
        n += 7;
    }
}

#[test]
fn size_as_text() {
    assert_eq!(Size::MatchParent.to_string(), "100%");
    assert_eq!(Size::WrapContent.to_string(), "fit-content");
    assert_eq!(Size::Pixel(14).to_string(), "14px");
    assert_eq!(Size::Pixel(0).to_string(), "0px");
    assert_eq!(Size::Pixel(-3).to_string(), "-3px");
    assert_eq!(Size::Percent(50).to_string(), "50%");
    assert_eq!(Size::Percent(100).to_string(), "100%");
}

#[test]
fn size_has_value_semantics() {
    let a = Size::Pixel(5);
    let b = a;
    assert_eq!(a, b);
    assert_ne!(Size::Pixel(5), Size::Percent(5));
}

#[test]
fn edge_starts_at_no_pixels() {
    let e = Edge::new();
    assert_eq!(e.top, Size::Pixel(0));
    assert_eq!(e.right, Size::Pixel(0));
    assert_eq!(e.left, Size::Pixel(0));
    assert_eq!(e.bottom, Size::Pixel(0));
}

#[test]
fn edge_as_text() {
    assert_eq!(Edge::new().to_string(), "0px 0px 0px 0px");
    let e = Edge {
        top: Size::Pixel(1),
        right: Size::Percent(2),
        left: Size::WrapContent,
        bottom: Size::MatchParent,
    };
    assert_eq!(e.to_string(), "1px 2% 100% fit-content");
}

#[test]
fn colors_as_text() {
    assert_eq!(Colors::NoColor.to_string(), "none");
    assert_eq!(Colors::White.to_string(), "white");
    assert_eq!(Colors::Black.to_string(), "black");
    assert_eq!(Colors::RoyalBlue.to_string(), "royalBlue");
    assert_eq!(Colors::Lightgray.to_string(), "lightgray");
    assert_eq!(Colors::Custom("#6979F8").to_string(), "#6979F8");
}

#[test]
fn every_named_color_has_its_own_text() {
    assert_eq!(Colors::Transparent.to_string(), "transparent");
    assert_ne!(Colors::Transparent.to_string(), Colors::Lightgray.to_string());
}

#[test]
fn fonts_as_text() {
    assert_eq!(Font::SansSerif.to_string(), "sans-serif");
    assert_eq!(Font::Custom("Arial").to_string(), "Arial%");
}

#[test]
fn errors_as_text() {
    assert_eq!(Error::NoBodyFound.to_string(), "Failed to get body");
    assert_eq!(Error::ElementCreation.to_string(), "Failed to create element");
    assert_ne!(Error::NoBodyFound, Error::ElementCreation);
}
