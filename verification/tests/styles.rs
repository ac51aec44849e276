use viewkit::view::color::Colors;
use viewkit::view::element::Element;
use viewkit::view::font::Font;
use viewkit::view::size::Size;
use viewkit::view::style::{
    Align, Background, BorderColor, BorderRadius, BorderStyle, BorderWidth, Color,
    ContainerDirection, Cursor, Custom, FontFamily, FontSize, FontWeight, Height, Justify,
    LetterSpacing, Outline, Padding, Style, TextDecoration, TextTransform, Width,
};

fn check<S: Style>(style: S, name: &str, property: &str, value: &str) {
    assert_eq!(style.name(), name);
    let effect = style.to_effect();
    assert_eq!(effect.property(), property);
    assert_eq!(effect.value(), value);
    let mut element = Element::new("div");
    element.set_property(property, "before");
    assert_eq!(style.build(&mut element), Ok(()));
    assert_eq!(element.style().len(), 1);
    assert_eq!(element.style().get(property).unwrap(), value);
    assert_eq!(element.attributes().len(), 0);
    assert_eq!(element.child_count(), 0);
}

#[test]
fn width_styles() {
    check(Width::new(Size::Pixel(210)), "width", "width", "210px");
    check(Width::new(Size::MatchParent), "width", "width", "100%");
    check(Width::max(Size::Percent(80)), "max-width", "max-width", "80%");
    check(Width::max(Size::WrapContent), "max-width", "max-width", "fit-content");
}

#[test]
fn height_styles() {
    check(Height::new(Size::Pixel(210)), "height", "height", "210px");
    check(Height::new(Size::MatchParent), "height", "height", "100%");
    check(Height::max(Size::Percent(80)), "max-height", "max-height", "80%");
    check(Height::max(Size::WrapContent), "max-height", "max-height", "fit-content");
}

#[test]
fn custom_styles() {
    check(Custom::new("margin", "auto"), "margin", "margin", "auto");
    check(Custom::new("COLOR", "red"), "COLOR", "COLOR", "red");
}

#[test]
fn color_styles() {
    check(Color::new(Colors::White), "COLOR", "color", "white");
    check(Color::new(Colors::Custom("#3F3356")), "COLOR", "color", "#3F3356");
}

#[test]
fn background_styles() {
    check(Background::color(Colors::NoColor), "BACKGROUND", "background", "none");
    check(Background::color(Colors::RoyalBlue), "BACKGROUND", "background", "royalBlue");
}

#[test]
fn border_radius_styles() {
    check(BorderRadius::new(Size::Pixel(5)), "BORDER_RADIUS", "border-radius", "5px");
}

#[test]
fn text_decoration_styles() {
    check(TextDecoration::new("underline"), "TEXT_DECORATION", "text-decoration", "underline");
    check(TextDecoration::none(), "TEXT_DECORATION", "text-decoration", "none");
}

#[test]
fn text_transform_styles() {
    check(TextTransform::none(), "TEXT_TRANSFORM", "text-transform", "none");
    check(TextTransform::capitalize(), "TEXT_TRANSFORM", "text-transform", "capitalize");
    check(TextTransform::uppercase(), "TEXT_TRANSFORM", "text-transform", "uppercase");
    check(TextTransform::lowercase(), "TEXT_TRANSFORM", "text-transform", "lowercase");
    check(TextTransform::initial(), "TEXT_TRANSFORM", "text-transform", "initial");
    check(TextTransform::inherit(), "TEXT_TRANSFORM", "text-transform", "inherit");
}

#[test]
fn border_style_styles() {
    check(BorderStyle::none(), "BORDER_STYLE", "border-style", "none");
    check(BorderStyle::dotted(), "BORDER_STYLE", "border-style", "dotted");
    check(BorderStyle::dashed(), "BORDER_STYLE", "border-style", "dashed");
    check(BorderStyle::solid(), "BORDER_STYLE", "border-style", "solid");
    check(BorderStyle::double(), "BORDER_STYLE", "border-style", "double");
    check(BorderStyle::groove(), "BORDER_STYLE", "border-style", "groove");
    check(BorderStyle::ridge(), "BORDER_STYLE", "border-style", "ridge");
    check(BorderStyle::inset(), "BORDER_STYLE", "border-style", "inset");
    check(BorderStyle::outset(), "BORDER_STYLE", "border-style", "outset");
    check(BorderStyle::hidden(), "BORDER_STYLE", "border-style", "hidden");
}

#[test]
fn border_width_styles() {
    check(BorderWidth::new(Size::Pixel(2)), "BORDER_WIDTH", "border-width", "2px");
}

#[test]
fn border_color_styles() {
    check(BorderColor::new(Colors::Black), "BORDER_COLOR", "border-color", "black");
}

#[test]
fn outline_styles() {
    check(Outline::none(), "OUTLINE", "outline", "none");
    check(Outline::dotted(), "OUTLINE", "outline", "dotted");
    check(Outline::dashed(), "OUTLINE", "outline", "dashed");
    check(Outline::solid(), "OUTLINE", "outline", "solid");
    check(Outline::double(), "OUTLINE", "outline", "double");
    check(Outline::groove(), "OUTLINE", "outline", "groove");
    check(Outline::ridge(), "OUTLINE", "outline", "ridge");
    check(Outline::inset(), "OUTLINE", "outline", "inset");
    check(Outline::outset(), "OUTLINE", "outline", "outset");
    check(Outline::hidden(), "OUTLINE", "outline", "hidden");
}

#[test]
fn padding_styles() {
    check(Padding::new(Size::Pixel(8)), "padding", "padding", "8px");
    check(Padding::block(Size::Pixel(8)), "padding-block", "padding-block", "8px");
    check(Padding::inline(Size::Pixel(8)), "padding-inline", "padding-inline", "8px");
    check(Padding::left(Size::Pixel(8)), "padding-left", "padding-left", "8px");
}

#[test]
fn font_weight_styles() {
    check(FontWeight::new("600"), "font-weight", "font-weight", "600");
    check(FontWeight::normal(), "font-weight", "font-weight", "normal");
    check(FontWeight::bold(), "font-weight", "font-weight", "bold");
    check(FontWeight::bolder(), "font-weight", "font-weight", "bolder");
    check(FontWeight::lighter(), "font-weight", "font-weight", "lighter");
}

#[test]
fn font_size_styles() {
    check(FontSize::new(Size::Pixel(14)), "font-size", "font-size", "14px");
}

#[test]
fn font_family_styles() {
    check(FontFamily::new(Font::SansSerif), "font-family", "font-family", "sans-serif");
    check(FontFamily::new(Font::Custom("Arial")), "font-family", "font-family", "Arial%");
}

#[test]
fn letter_spacing_styles() {
    check(LetterSpacing::new(Size::Pixel(1)), "letter-spacing", "letter-spacing", "1px");
    check(LetterSpacing::normal(), "letter-spacing", "letter-spacing", "normal");
}

#[test]
fn cursor_styles() {
    check(Cursor::default(), "cursor", "cursor", "default");
    check(Cursor::pointer(), "cursor", "cursor", "pointer");
}

#[test]
fn container_direction_styles() {
    check(ContainerDirection::column(), "flex-direction", "flex-direction", "column");
    check(ContainerDirection::row(), "flex-direction", "flex-direction", "row");
}

#[test]
fn justify_styles() {
    check(Justify::center(), "justify-content", "justify-content", "center");
    check(Justify::start(), "justify-content", "justify-content", "flex-start");
    check(Justify::end(), "justify-content", "justify-content", "flex-end");
    check(Justify::space_between(), "justify-content", "justify-content", "space-between");
    check(Justify::space_around(), "justify-content", "justify-content", "space-around");
    check(Justify::space_evenly(), "justify-content", "justify-content", "space-evenly");
}

#[test]
fn align_styles() {
    check(Align::center(), "align-items", "align-items", "center");
    check(Align::start(), "align-items", "align-items", "flex-start");
    check(Align::end(), "align-items", "align-items", "flex-end");
    check(Align::stretch(), "align-items", "align-items", "stretch");
    check(Align::baseline(), "align-items", "align-items", "baseline");
}
