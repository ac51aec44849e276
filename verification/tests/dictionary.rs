use viewkit::view::dictionary::Dictionary;
use viewkit::view::element::Element;
use viewkit::view::size::Size;
use viewkit::view::style::{Color, Custom, Effect, Padding, Style, StyleDictionary, Width};
use viewkit::view::color::Colors;

#[test]
fn new_dictionary_is_empty() {
    let d: Dictionary<String> = Dictionary::new();
    assert_eq!(d.len(), 0);
    assert_eq!(d.find("a"), None);
    assert!(d.get("a").is_none());
}

#[test]
fn set_adds_new_names_at_the_end() {
    let mut d: Dictionary<String> = Dictionary::new();
    d.set("a", String::from("1"));
    d.set("b", String::from("2"));
    d.set("c", String::from("3"));
    assert_eq!(d.len(), 3);
    assert_eq!(d.find("a"), Some(0));
    assert_eq!(d.find("b"), Some(1));
    assert_eq!(d.find("c"), Some(2));
    assert_eq!(d.name_at(1), "b");
    assert_eq!(d.value_at(1), "2");
    assert_eq!(d.get("c").unwrap(), "3");
    assert!(d.get("d").is_none());
}

#[test]
fn set_replaces_in_place() {
    let mut d: Dictionary<String> = Dictionary::new();
    d.set("a", String::from("1"));
    d.set("b", String::from("2"));
    d.set("a", String::from("9"));
    assert_eq!(d.len(), 2);
    assert_eq!(d.find("a"), Some(0));
    assert_eq!(d.get("a").unwrap(), "9");
    assert_eq!(d.get("b").unwrap(), "2");
}

#[test]
fn remove_takes_one_entry_out() {
    let mut d: Dictionary<String> = Dictionary::new();
    d.set("a", String::from("1"));
    d.set("b", String::from("2"));
    d.set("c", String::from("3"));
    d.remove("b");
    assert_eq!(d.len(), 2);
    assert_eq!(d.name_at(0), "a");
    assert_eq!(d.name_at(1), "c");
    assert!(d.get("b").is_none());
    assert_eq!(d.get("c").unwrap(), "3");
    d.remove("missing");
    assert_eq!(d.len(), 2);
    d.remove("a");
    d.remove("c");
    assert_eq!(d.len(), 0);
}

#[test]
fn names_are_told_apart_by_case() {
    let mut d: Dictionary<String> = Dictionary::new();
    d.set("color", String::from("1"));
    d.set("COLOR", String::from("2"));
    assert_eq!(d.len(), 2);
    assert_eq!(d.get("color").unwrap(), "1");
    assert_eq!(d.get("COLOR").unwrap(), "2");
}

#[test]
fn duplicate_has_the_same_entries() {
    let mut d: Dictionary<String> = Dictionary::new();
    d.set("a", String::from("1"));
    d.set("b", String::from("2"));
    let mut e = d.duplicate();
    assert_eq!(e.len(), 2);
    assert_eq!(e.name_at(0), "a");
    assert_eq!(e.value_at(0), "1");
    assert_eq!(e.name_at(1), "b");
    assert_eq!(e.value_at(1), "2");
    e.set("a", String::from("7"));
    assert_eq!(d.get("a").unwrap(), "1");
}

#[test]
fn effect_holds_property_and_value() {
    let e = Effect::new("color", "red");
    assert_eq!(e.property(), "color");
    assert_eq!(e.value(), "red");
    let mut element = Element::new("p");
    e.apply(&mut element);
    assert_eq!(element.style().get("color").unwrap(), "red");
}

#[test]
fn override_leaves_one_entry_with_the_second_effect() {
    let mut styles = StyleDictionary::new();
    styles.set(Width::new(Size::Pixel(10)));
    styles.set(Width::new(Size::Pixel(20)));
    assert_eq!(styles.len(), 1);
    assert_eq!(styles.name_at(0), "width");
    assert_eq!(styles.get("width").unwrap().property(), "width");
    assert_eq!(styles.get("width").unwrap().value(), "20px");
    let mut element = Element::new("div");
    assert!(styles.apply_all(&mut element).is_ok());
    assert_eq!(element.style().len(), 1);
    assert_eq!(element.style().get("width").unwrap(), "20px");
}

#[test]
fn override_keeps_other_names() {
    let mut styles = StyleDictionary::new();
    styles.set(Color::new(Colors::White));
    styles.set(Padding::left(Size::Pixel(4)));
    styles.set(Color::new(Colors::Black));
    assert_eq!(styles.len(), 2);
    assert_eq!(styles.name_at(0), "COLOR");
    assert_eq!(styles.effect_at(0).value(), "black");
    assert_eq!(styles.name_at(1), "padding-left");
    assert_eq!(styles.effect_at(1).value(), "4px");
}

#[test]
fn same_override_twice_equals_second_alone() {
    let mut twice = StyleDictionary::new();
    twice.set(Padding::new(Size::Pixel(1)));
    twice.set(Custom::new("x", "1"));
    twice.set(Custom::new("x", "2"));
    let mut once = StyleDictionary::new();
    once.set(Padding::new(Size::Pixel(1)));
    once.set(Custom::new("x", "2"));
    assert_eq!(twice.len(), once.len());
    let mut i = 0;
    while i < once.len() {
        assert_eq!(twice.name_at(i), once.name_at(i));
        assert_eq!(twice.effect_at(i).property(), once.effect_at(i).property());
        assert_eq!(twice.effect_at(i).value(), once.effect_at(i).value());
        i += 1;
    }
}

#[test]
fn apply_all_goes_from_first_to_last() {
    let mut styles = StyleDictionary::new();
    styles.set(Custom::new("color", "red"));
    styles.set(Color::new(Colors::Black));
    assert_eq!(styles.len(), 2);
    let mut element = Element::new("p");
    assert_eq!(styles.apply_all(&mut element), Ok(()));
    assert_eq!(element.style().len(), 1);
    assert_eq!(element.style().get("color").unwrap(), "black");
}

#[test]
fn missing_name_is_absent() {
    let styles = StyleDictionary::new();
    assert_eq!(styles.len(), 0);
    assert!(styles.get("width").is_none());
}

#[test]
fn build_applies_one_property() {
    let mut element = Element::new("div");
    assert_eq!(Width::max(Size::Percent(50)).build(&mut element), Ok(()));
    assert_eq!(element.style().len(), 1);
    assert_eq!(element.style().name_at(0), "max-width");
    assert_eq!(element.style().value_at(0), "50%");
    assert_eq!(element.tag(), "div");
    assert_eq!(element.child_count(), 0);
}
