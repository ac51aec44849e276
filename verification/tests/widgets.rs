use viewkit::view::color::Colors;
use viewkit::view::document::Document;
use viewkit::view::element::Element;
use viewkit::view::size::Size;
use viewkit::view::style::{Background, Color, Custom, StyleDictionary, Width};
use viewkit::view::view::{Error, Viewable};
use viewkit::view::widget::{
    Body, Button, Column, Input, Label, Link, Node, Row, Styleable, Text,
};

fn style_value(styles: &StyleDictionary, name: &str) -> String {
    String::from(styles.get(name).unwrap().value())
}

fn names(styles: &StyleDictionary) -> Vec<String> {
    let mut out = Vec::new();
    let mut i = 0;
    while i < styles.len() {
        out.push(String::from(styles.name_at(i)));
        i += 1;
    }
    out
}

fn count_elements(e: &Element) -> usize {
    let mut n = 1;
    let mut i = 0;
    while i < e.child_count() {
        n += count_elements(e.child(i));
        i += 1;
    }
    n
}

#[test]
fn tags_of_the_kinds() {
    assert_eq!(Column::new().get_tag(), "div");
    assert_eq!(Row::new().get_tag(), "div");
    assert_eq!(Text::new("t").get_tag(), "p");
    assert_eq!(Button::new("b").get_tag(), "button");
    assert_eq!(Link::new("l", "x").get_tag(), "a");
    assert_eq!(Label::new("l").get_tag(), "div");
    assert_eq!(Input::new("i").get_tag(), "input");
    assert_eq!(Body::new(Text::new("t")).get_tag(), "body");
}

#[test]
fn nothing_is_built_before_the_first_build() {
    assert!(Column::new().get_html_element().is_none());
    assert!(Text::new("t").get_html_element().is_none());
    assert!(Input::new("i").get_html_element().is_none());
    assert!(Body::new(Text::new("t")).get_html_element().is_none());
}

#[test]
fn column_defaults_to_column_direction() {
    let column = Column::new();
    assert_eq!(names(column.styles()), vec!["flex-direction", "justify-content"]);
    assert_eq!(style_value(column.styles(), "flex-direction"), "column");
    assert_eq!(style_value(column.styles(), "justify-content"), "flex-start");
}

#[test]
fn row_defaults_to_row_direction() {
    let row = Row::new();
    assert_eq!(names(row.styles()), vec!["flex-direction", "justify-content"]);
    assert_eq!(style_value(row.styles(), "flex-direction"), "row");
    assert_eq!(style_value(row.styles(), "justify-content"), "flex-start");
}

#[test]
fn column_direction_can_be_overridden() {
    let mut column = Column::new();
    column.style(Custom::new("flex-direction", "column-reverse"));
    assert_eq!(column.styles().len(), 2);
    assert_eq!(style_value(column.styles(), "flex-direction"), "column-reverse");
}

#[test]
fn text_has_no_styles_at_first() {
    let text = Text::new("hello");
    assert_eq!(text.styles().len(), 0);
}

#[test]
fn text_builds_a_paragraph() {
    let mut text = Text::new("hello");
    text.style(Color::new(Colors::Black));
    let e = text.build(&Document::new()).unwrap();
    assert_eq!(e.tag(), "p");
    assert_eq!(e.text_content(), "hello");
    assert_eq!(e.style().len(), 1);
    assert_eq!(e.style().get("color").unwrap(), "black");
    assert_eq!(e.child_count(), 0);
    assert_eq!(e.attributes().len(), 0);
}

#[test]
fn text_built_twice_gives_equal_separate_elements() {
    let document = Document::new();
    let mut text = Text::new("same");
    text.style(Width::new(Size::Pixel(3)));
    let mut first = text.build(&document).unwrap();
    let second = text.build(&document).unwrap();
    assert_eq!(first.tag(), second.tag());
    assert_eq!(first.text_content(), "same");
    assert_eq!(second.text_content(), "same");
    assert_eq!(first.style().len(), second.style().len());
    assert_eq!(first.style().get("width").unwrap(), "3px");
    assert_eq!(second.style().get("width").unwrap(), "3px");
    first.set_text_content("changed");
    assert_eq!(second.text_content(), "same");
    assert_eq!(text.get_html_element().unwrap().text_content(), "same");
}

#[test]
fn build_keeps_the_element() {
    let mut text = Text::new("kept");
    let e = text.build(&Document::new()).unwrap();
    let kept = text.get_html_element().unwrap();
    assert_eq!(kept.tag(), e.tag());
    assert_eq!(kept.text_content(), "kept");
}

#[test]
fn style_after_build_reaches_the_kept_element() {
    let mut text = Text::new("t");
    text.build(&Document::new()).unwrap();
    text.style(Color::new(Colors::White));
    assert_eq!(text.get_html_element().unwrap().style().get("color").unwrap(), "white");
    assert_eq!(style_value(text.styles(), "COLOR"), "white");
}

#[test]
fn set_touches_only_the_kept_element() {
    let mut text = Text::new("t");
    text.set(&Color::new(Colors::White));
    assert!(text.get_html_element().is_none());
    assert_eq!(text.styles().len(), 0);
    text.build(&Document::new()).unwrap();
    text.set(&Color::new(Colors::Black));
    assert_eq!(text.get_html_element().unwrap().style().get("color").unwrap(), "black");
    assert_eq!(text.styles().len(), 0);
}

#[test]
fn store_style_touches_only_the_dictionary() {
    let mut text = Text::new("t");
    text.build(&Document::new()).unwrap();
    text.store_style(Color::new(Colors::Black));
    assert_eq!(text.get_html_element().unwrap().style().len(), 0);
    assert_eq!(style_value(text.styles(), "COLOR"), "black");
}

#[test]
fn render_populates_a_given_element() {
    let mut text = Text::new("r");
    let mut given = Element::new("span");
    given.set_attribute("id", "x");
    let e = text.render(given, &Document::new()).unwrap();
    assert_eq!(e.tag(), "span");
    assert_eq!(e.text_content(), "r");
    assert_eq!(e.attributes().get("id").unwrap(), "x");
}

#[test]
fn primary_button_styles() {
    let button = Button::primary("go");
    let styles = button.styles();
    assert_eq!(
        names(styles),
        vec![
            "COLOR",
            "cursor",
            "BORDER_STYLE",
            "font-size",
            "font-family",
            "TEXT_TRANSFORM",
            "BORDER_RADIUS",
            "padding-block",
            "padding-inline",
            "font-weight",
            "BACKGROUND",
        ]
    );
    assert_eq!(style_value(styles, "COLOR"), "white");
    assert_eq!(style_value(styles, "cursor"), "pointer");
    assert_eq!(style_value(styles, "BORDER_STYLE"), "none");
    assert_eq!(style_value(styles, "font-size"), "14px");
    assert_eq!(style_value(styles, "font-weight"), "600");
    assert_eq!(style_value(styles, "font-family"), "sans-serif");
    assert_eq!(style_value(styles, "TEXT_TRANSFORM"), "uppercase");
    assert_eq!(style_value(styles, "BORDER_RADIUS"), "5px");
    assert_eq!(style_value(styles, "padding-block"), "10px");
    assert_eq!(style_value(styles, "padding-inline"), "45px");
    assert_eq!(style_value(styles, "BACKGROUND"), "#6979F8");
}

#[test]
fn later_style_of_the_same_name_overrides() {
    let mut button = Button::primary("go");
    button.style(Background::color(Colors::Black)).style(Width::new(Size::Pixel(1)));
    assert_eq!(button.styles().len(), 12);
    assert_eq!(style_value(button.styles(), "BACKGROUND"), "black");
    assert_eq!(button.styles().name_at(10), "BACKGROUND");
    assert_eq!(button.styles().name_at(11), "width");
}

#[test]
fn new_button_is_primary() {
    let a = Button::new("x");
    let b = Button::primary("x");
    assert_eq!(names(a.styles()), names(b.styles()));
    assert_eq!(style_value(a.styles(), "BACKGROUND"), style_value(b.styles(), "BACKGROUND"));
}

#[test]
fn text_button_overrides_the_base_color() {
    let button = Button::text("go");
    let styles = button.styles();
    assert_eq!(styles.len(), 11);
    assert_eq!(style_value(styles, "COLOR"), "#6979F8");
    assert_eq!(style_value(styles, "BACKGROUND"), "none");
    assert_eq!(style_value(styles, "cursor"), "pointer");
}

#[test]
fn disabled_button_overrides_color_and_cursor() {
    let button = Button::disabled("go");
    let styles = button.styles();
    assert_eq!(styles.len(), 11);
    assert_eq!(style_value(styles, "COLOR"), "lightgray");
    assert_eq!(style_value(styles, "cursor"), "default");
    assert_eq!(style_value(styles, "BACKGROUND"), "#FBE4E8");
    assert_eq!(styles.name_at(0), "COLOR");
    assert_eq!(styles.name_at(1), "cursor");
}

#[test]
fn button_builds_with_text_and_styles() {
    let mut button = Button::primary("Send");
    let e = button.build(&Document::new()).unwrap();
    assert_eq!(e.tag(), "button");
    assert_eq!(e.text_content(), "Send");
    assert_eq!(e.style().get("background").unwrap(), "#6979F8");
    assert_eq!(e.style().get("color").unwrap(), "white");
    assert_eq!(e.style().get("font-weight").unwrap(), "600");
    assert_eq!(e.style().get("padding-inline").unwrap(), "45px");
    assert_eq!(e.style().get("font-size").unwrap(), "14px");
    assert_eq!(e.style().len(), 11);
}

#[test]
fn link_builds_with_text_and_address() {
    let mut link = Link::new("home", "/index");
    assert_eq!(
        names(link.styles()),
        vec!["COLOR", "TEXT_DECORATION", "font-size", "font-family", "cursor"]
    );
    let e = link.build(&Document::new()).unwrap();
    assert_eq!(e.tag(), "a");
    assert_eq!(e.text_content(), "home");
    assert_eq!(e.attributes().len(), 1);
    assert_eq!(e.attributes().get("href").unwrap(), "/index");
    assert_eq!(e.style().get("color").unwrap(), "#3F3356");
    assert_eq!(e.style().get("text-decoration").unwrap(), "none");
    assert_eq!(e.style().get("font-size").unwrap(), "16px");
    assert_eq!(e.style().get("cursor").unwrap(), "pointer");
}

#[test]
fn label_starts_enabled() {
    let label = Label::new("NEW");
    let styles = label.styles();
    assert_eq!(styles.len(), 8);
    assert_eq!(style_value(styles, "COLOR"), "white");
    assert_eq!(style_value(styles, "BACKGROUND"), "#BE52F2");
    assert_eq!(style_value(styles, "padding-block"), "8px");
    assert_eq!(style_value(styles, "padding-inline"), "14px");
    assert_eq!(style_value(styles, "font-size"), "16px");
}

#[test]
fn label_enable_swaps_the_colors() {
    let mut label = Label::new("NEW");
    label.enable(false);
    assert_eq!(label.styles().len(), 8);
    assert_eq!(style_value(label.styles(), "COLOR"), "#BE52F2");
    assert_eq!(style_value(label.styles(), "BACKGROUND"), "#EEDFF2");
    label.enable(true);
    assert_eq!(label.styles().len(), 8);
    assert_eq!(style_value(label.styles(), "COLOR"), "white");
    assert_eq!(style_value(label.styles(), "BACKGROUND"), "#BE52F2");
}

#[test]
fn label_builds_a_block_with_text() {
    let mut label = Label::new("NEW");
    let e = label.build(&Document::new()).unwrap();
    assert_eq!(e.tag(), "div");
    assert_eq!(e.text_content(), "NEW");
    assert_eq!(e.style().get("background").unwrap(), "#BE52F2");
    assert_eq!(e.style().get("text-transform").unwrap(), "uppercase");
}

#[test]
fn input_starts_enabled() {
    let input = Input::new("value");
    assert!(input.enabled);
    assert_eq!(input.placeholder, "");
    let styles = input.styles();
    assert_eq!(
        names(styles),
        vec![
            "width",
            "height",
            "font-size",
            "TEXT_TRANSFORM",
            "font-family",
            "BORDER_RADIUS",
            "padding-left",
            "BORDER_STYLE",
            "BORDER_WIDTH",
            "BORDER_COLOR",
            "COLOR",
            "BACKGROUND",
        ]
    );
    assert_eq!(style_value(styles, "width"), "210px");
    assert_eq!(style_value(styles, "height"), "40px");
    assert_eq!(style_value(styles, "font-size"), "15px");
    assert_eq!(style_value(styles, "TEXT_TRANSFORM"), "capitalize");
    assert_eq!(style_value(styles, "BORDER_STYLE"), "solid");
    assert_eq!(style_value(styles, "BORDER_WIDTH"), "2px");
    assert_eq!(style_value(styles, "BORDER_COLOR"), "#ECE9F1");
    assert_eq!(style_value(styles, "COLOR"), "#1A051D");
    assert_eq!(style_value(styles, "BACKGROUND"), "white");
}

#[test]
fn input_enable_then_disable_leaves_the_disabled_look() {
    let mut input = Input::new("v");
    input.enable(true);
    input.enable(false);
    assert!(!input.enabled);
    let styles = input.styles();
    assert_eq!(styles.len(), 12);
    assert_eq!(style_value(styles, "COLOR"), "#D0C9D6");
    assert_eq!(style_value(styles, "BACKGROUND"), "#ECE9F1");
    let all = names(styles);
    assert_eq!(all.iter().filter(|n| n.as_str() == "COLOR").count(), 1);
    assert_eq!(all.iter().filter(|n| n.as_str() == "BACKGROUND").count(), 1);
    let mut i = 0;
    while i < styles.len() {
        let name = styles.name_at(i);
        let value = styles.effect_at(i).value();
        if name == "COLOR" {
            assert_ne!(value, "#1A051D");
        }
        if name == "BACKGROUND" {
            assert_ne!(value, "white");
        }
        i += 1;
    }
    assert_eq!(style_value(styles, "width"), "210px");
}

#[test]
fn input_disabled_equals_disabled_alone() {
    let mut swapped = Input::new("v");
    swapped.enable(true);
    swapped.enable(false);
    let mut alone = Input::new("v");
    alone.enable(false);
    assert_eq!(names(swapped.styles()), names(alone.styles()));
    let mut i = 0;
    while i < alone.styles().len() {
        assert_eq!(swapped.styles().effect_at(i).value(), alone.styles().effect_at(i).value());
        i += 1;
    }
}

#[test]
fn input_builds_with_value_placeholder_and_flag() {
    let mut input = Input::new("typed");
    input.placeholder = "type here";
    let e = input.build(&Document::new()).unwrap();
    assert_eq!(e.tag(), "input");
    assert_eq!(e.text_content(), "");
    assert_eq!(e.attributes().len(), 2);
    assert_eq!(e.attributes().get("value").unwrap(), "typed");
    assert_eq!(e.attributes().get("placeholder").unwrap(), "type here");
    assert!(e.attributes().get("disabled").is_none());
    assert_eq!(e.style().get("color").unwrap(), "#1A051D");
    input.enable(false);
    let e = input.build(&Document::new()).unwrap();
    assert_eq!(e.attributes().len(), 3);
    assert_eq!(e.attributes().get("disabled").unwrap(), "");
    assert_eq!(e.style().get("color").unwrap(), "#D0C9D6");
    assert_eq!(e.style().get("background").unwrap(), "#ECE9F1");
}

#[test]
fn input_render_takes_the_flag_off_an_element_that_had_it() {
    let mut given = Element::new("input");
    given.set_attribute("disabled", "");
    given.set_attribute("name", "n");
    let mut input = Input::new("v");
    let e = input.render(given, &Document::new()).unwrap();
    assert!(e.attributes().get("disabled").is_none());
    assert_eq!(e.attributes().get("name").unwrap(), "n");
    assert_eq!(e.attributes().get("value").unwrap(), "v");
}

#[test]
fn enable_reaches_the_kept_element() {
    let mut input = Input::new("v");
    input.build(&Document::new()).unwrap();
    input.enable(false);
    let kept = input.get_html_element().unwrap();
    assert_eq!(kept.style().get("color").unwrap(), "#D0C9D6");
    assert_eq!(kept.style().get("background").unwrap(), "#ECE9F1");
}

#[test]
fn apply_hands_the_widget_to_the_function() {
    let text = Text::new("t").apply(&|mut t: Text| {
        t.style(Background::color(Colors::Black));
        t
    });
    assert_eq!(style_value(text.styles(), "BACKGROUND"), "black");
    let column = Column::new().apply(|c: Column| c.child(Text::new("x")));
    let mut column = column;
    assert_eq!(column.build(&Document::new()).unwrap().child_count(), 1);
    let row = Row::new().apply(|r: Row| r);
    assert_eq!(row.styles().len(), 2);
    let button = Button::text("b").apply(|b: Button| b);
    assert_eq!(button.styles().len(), 11);
    let link = Link::new("a", "b").apply(|l: Link| l);
    assert_eq!(link.styles().len(), 5);
    let label = Label::new("l").apply(|mut l: Label| {
        l.enable(false);
        l
    });
    assert_eq!(style_value(label.styles(), "COLOR"), "#BE52F2");
    let input = Input::new("i").apply(|mut i: Input| {
        i.placeholder = "p";
        i
    });
    assert_eq!(input.placeholder, "p");
}

#[test]
fn column_with_two_texts_under_a_body() {
    let column = Column::new().child(Text::new("A")).child(Text::new("B"));
    assert_eq!(style_value(column.styles(), "flex-direction"), "column");
    let mut body = Body::new(column);
    let root = body.build(&Document::new()).unwrap();
    assert_eq!(root.tag(), "body");
    assert_eq!(root.child_count(), 1);
    let container = root.child(0);
    assert_eq!(container.tag(), "div");
    assert_eq!(container.style().get("flex-direction").unwrap(), "column");
    assert_eq!(container.style().get("justify-content").unwrap(), "flex-start");
    assert_eq!(container.child_count(), 2);
    assert_eq!(container.child(0).tag(), "p");
    assert_eq!(container.child(0).text_content(), "A");
    assert_eq!(container.child(1).tag(), "p");
    assert_eq!(container.child(1).text_content(), "B");
    assert_eq!(count_elements(&root), 4);
}

#[test]
fn made_body_builds_as_the_body() {
    let mut page = Body::new(Column::new().child(Text::new("Login Page")).child(Text::new("Login Page")))
        .make();
    let root = page.build(&Document::new()).unwrap();
    assert_eq!(root.tag(), "body");
    assert_eq!(root.child(0).child_count(), 2);
    assert_eq!(root.child(0).child(1).text_content(), "Login Page");
    assert!(matches!(page, Node::Body(_)));
}

#[test]
fn body_keeps_what_the_root_held() {
    let mut old = Element::new("body");
    old.append_child(Element::new("header"));
    let document = Document::new().with_body(old);
    let mut body = Body::new(Text::new("t"));
    body.style(Background::color(Colors::White));
    let root = body.build(&document).unwrap();
    assert_eq!(root.child_count(), 2);
    assert_eq!(root.child(0).tag(), "header");
    assert_eq!(root.child(1).tag(), "p");
    assert_eq!(root.style().get("background").unwrap(), "white");
    assert_eq!(document.body().unwrap().child_count(), 1);
}

#[test]
fn body_without_root_fails() {
    let mut body = Body::new(Text::new("t"));
    assert_eq!(body.build(&Document::without_body()).unwrap_err(), Error::NoBodyFound);
    assert!(body.get_html_element().is_none());
}

#[test]
fn body_fails_before_its_child_is_built() {
    let mut body = Body::new(Text::new("t"));
    let document = Document::without_body().refuse("p");
    assert_eq!(body.build(&document).unwrap_err(), Error::NoBodyFound);
}

#[test]
fn refused_tag_fails_the_widget() {
    let document = Document::new().refuse("p");
    let mut text = Text::new("t");
    assert_eq!(text.build(&document).unwrap_err(), Error::ElementCreation);
    assert!(text.get_html_element().is_none());
    let mut button = Button::new("b");
    assert!(button.build(&document).is_ok());
}

#[test]
fn build_makes_one_element_for_each_widget() {
    let mut tree = Column::new()
        .child(Row::new().child(Text::new("a")).child(Button::new("b")))
        .child(Row::new().child(Link::new("c", "d")).child(Label::new("e")).child(Input::new("f")))
        .child(Text::new("g"));
    let e = tree.build(&Document::new()).unwrap();
    assert_eq!(count_elements(&e), 9);
    assert_eq!(e.child_count(), 3);
    assert_eq!(e.child(0).child_count(), 2);
    assert_eq!(e.child(1).child_count(), 3);
    assert_eq!(e.child(2).child_count(), 0);
    assert_eq!(e.child(0).child(0).tag(), "p");
    assert_eq!(e.child(0).child(1).tag(), "button");
    assert_eq!(e.child(1).child(0).tag(), "a");
    assert_eq!(e.child(1).child(1).tag(), "div");
    assert_eq!(e.child(1).child(2).tag(), "input");
    assert_eq!(e.child(2).text_content(), "g");
    assert_eq!(e.child(0).style().get("flex-direction").unwrap(), "row");
}

#[test]
fn empty_column_builds_an_empty_container() {
    let mut column = Column::new();
    let e = column.build(&Document::new()).unwrap();
    assert_eq!(e.tag(), "div");
    assert_eq!(e.child_count(), 0);
    assert_eq!(e.text_content(), "");
}

#[test]
fn failure_three_levels_down_fails_the_top() {
    let document = Document::new().refuse("a");
    let mut top = Column::new().child(Text::new("first")).child(
        Row::new().child(Column::new().child(Text::new("ok")).child(Link::new("deep", "x"))),
    );
    assert_eq!(top.build(&document).unwrap_err(), Error::ElementCreation);
    assert!(top.get_html_element().is_none());
}

#[test]
fn failure_under_a_body_fails_the_page() {
    let document = Document::new().refuse("input");
    let mut page = Body::new(Column::new().child(Row::new().child(Input::new("deep"))));
    assert_eq!(page.build(&document).unwrap_err(), Error::ElementCreation);
    assert!(page.get_html_element().is_none());
    assert_eq!(document.body().unwrap().child_count(), 0);
}

#[test]
fn failure_leaves_earlier_builds_in_place() {
    let mut top = Column::new().child(Text::new("a")).child(Link::new("b", "c"));
    let before = top.build(&Document::new()).unwrap();
    assert_eq!(before.child_count(), 2);
    assert_eq!(top.build(&Document::new().refuse("a")).unwrap_err(), Error::ElementCreation);
    let kept = top.get_html_element().unwrap();
    assert_eq!(kept.child_count(), 2);
    assert_eq!(kept.child(1).tag(), "a");
}

#[test]
fn first_failure_wins() {
    let document = Document::without_body().refuse("p");
    let mut top = Column::new().child(Body::new(Text::new("x"))).child(Text::new("y"));
    assert_eq!(top.build(&document).unwrap_err(), Error::NoBodyFound);
    let mut top = Column::new().child(Text::new("y")).child(Body::new(Text::new("x")));
    assert_eq!(top.build(&document).unwrap_err(), Error::ElementCreation);
}

#[test]
fn rebuild_gives_an_equal_tree() {
    let document = Document::new();
    let mut tree = Column::new().child(Text::new("a")).child(Row::new().child(Button::text("b")));
    let first = tree.build(&document).unwrap();
    let second = tree.build(&document).unwrap();
    assert_eq!(count_elements(&first), count_elements(&second));
    assert_eq!(first.child(1).child(0).text_content(), second.child(1).child(0).text_content());
    assert_eq!(
        first.child(1).child(0).style().get("color").unwrap(),
        second.child(1).child(0).style().get("color").unwrap()
    );
}

#[test]
fn node_acts_as_the_widget_it_holds() {
    let mut node = Text::new("n").into_node();
    assert_eq!(node.get_tag(), "p");
    node.style(Color::new(Colors::Black));
    assert_eq!(node.styles().len(), 1);
    let e = node.build(&Document::new()).unwrap();
    assert_eq!(e.text_content(), "n");
    assert_eq!(e.style().get("color").unwrap(), "black");
    assert!(node.get_html_element().is_some());
    let mut node = Label::new("l").into_node().into_node();
    let e = node.render(Element::new("span"), &Document::new()).unwrap();
    assert_eq!(e.tag(), "span");
    assert_eq!(e.text_content(), "l");
}

#[test]
fn children_are_built_in_the_order_given() {
    let mut row = Row::new();
    let texts = ["1", "2", "3", "4", "5"];
    for t in texts {
        row = row.child(Text::new(t));
    }
    let e = row.build(&Document::new()).unwrap();
    assert_eq!(e.child_count(), 5);
    let mut i = 0;
    while i < 5 {
        assert_eq!(e.child(i).text_content(), texts[i]);
        i += 1;
    }
}
