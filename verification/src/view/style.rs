//! Style properties, and the dictionary in which a widget keeps them by name.

use vstd::prelude::*;
use vstd::string::StringExecFns;
use crate::view::color::Colors;
use crate::view::dictionary::{distinct_keys, lookup, put, Dictionary};
use crate::view::element::{Element, ElementView};
use crate::view::font::Font;
use crate::view::size::Size;
use crate::view::view::Error;

verus! {

/// What a style property does to an element, as the contracts speak of it: it
/// sets one presentational property to one value.
pub struct EffectView {
    pub property: Seq<char>,
    pub value: Seq<char>,
}

/// What a style property does to an element: it sets one presentational
/// property to one value.
#[derive(Debug)]
pub struct Effect {
    property: String,
    value: String,
}

impl View for Effect {
    type V = EffectView;

    closed spec fn view(&self) -> EffectView {
        EffectView { property: self.property@, value: self.value@ }
    }
}

impl Effect {
    /// The effect that sets `property` to `value`.
    pub fn new(property: &str, value: &str) -> (r: Effect)
        ensures
            r@ == (EffectView { property: property@, value: value@ }),
    {
        Effect { property: String::from_str(property), value: String::from_str(value) }
    }

    /// The presentational property that the effect sets.
    pub fn property(&self) -> (r: &str)
        ensures
            r@ == self@.property,
    {
        self.property.as_str()
    }

    /// The value to which the effect sets the property.
    pub fn value(&self) -> (r: &str)
        ensures
            r@ == self@.value,
    {
        self.value.as_str()
    }

    /// Sets the property on `element`.
    pub fn apply(&self, element: &mut Element)
        ensures
            final(element)@ == old(element)@.with_property(self@.property, self@.value),
    {
        element.set_property(self.property.as_str(), self.value.as_str());
    }
}

/// A style property: a name, under which a widget keeps it, and an effect on an
/// element. The name is not the presentational property that the effect sets.
pub trait Style {
    /// The name under which a dictionary keeps the property.
    spec fn key(&self) -> Seq<char>;

    /// What the property does to an element.
    spec fn effect(&self) -> EffectView;

    /// The name under which a dictionary keeps the property.
    fn name(&self) -> (r: &'static str)
        ensures
            r@ == self.key(),
    ;

    /// What the property does to an element.
    fn to_effect(&self) -> (r: Effect)
        ensures
            r@ == self.effect(),
    ;

    /// Applies the property to `element`: sets the presentational property of
    /// its effect to the effect's value. This cannot fail.
    fn build(&self, element: &mut Element) -> (r: Result<(), Error>)
        ensures
            r is Ok,
            final(element)@ == old(element)@.with_property(
                self.effect().property,
                self.effect().value,
            ),
    {
        let effect = self.to_effect();
        effect.apply(element);
        Ok(())
    }
}

/// `element` after every entry of `styles` was applied to it, from the first entry
/// to the last.
pub open spec fn applied(styles: Seq<(Seq<char>, EffectView)>, element: ElementView) -> ElementView
    decreases styles.len(),
{
    if styles.len() == 0 {
        element
    } else {
        applied(styles.drop_last(), element).with_property(
            styles.last().1.property,
            styles.last().1.value,
        )
    }
}

/// The style properties of one widget, by name. Setting a name that is there
/// replaces its property, so that a later style overrides an earlier one of the
/// same name. Entries keep the order in which their names first came in.
#[derive(Debug)]
pub struct StyleDictionary {
    entries: Dictionary<Effect>,
}

impl View for StyleDictionary {
    type V = Seq<(Seq<char>, EffectView)>;

    closed spec fn view(&self) -> Seq<(Seq<char>, EffectView)> {
        self.entries@
    }
}

impl StyleDictionary {
    /// What holds of every dictionary: no name occurs twice.
    #[verifier::type_invariant]
    pub open spec fn names_are_distinct(self) -> bool {
        distinct_keys(self@)
    }

    /// The dictionary without entries.
    pub fn new() -> (r: StyleDictionary)
        ensures
            r@ == Seq::<(Seq<char>, EffectView)>::empty(),
    {
        StyleDictionary { entries: Dictionary::new() }
    }

    /// The number of entries. No two of them share a name.
    pub fn len(&self) -> (r: usize)
        ensures
            r == self@.len(),
            distinct_keys(self@),
    {
        proof {
            use_type_invariant(self);
        }
        self.entries.len()
    }

    /// The name of the entry at place `i`.
    pub fn name_at(&self, i: usize) -> (r: &str)
        requires
            i < self@.len(),
        ensures
            r@ == self@[i as int].0,
    {
        self.entries.name_at(i).as_str()
    }

    /// The effect of the entry at place `i`.
    pub fn effect_at(&self, i: usize) -> (r: &Effect)
        requires
            i < self@.len(),
        ensures
            r@ == self@[i as int].1,
    {
        self.entries.value_at(i)
    }

    /// The effect kept under `name`, if there is one.
    pub fn get(&self, name: &str) -> (r: Option<&Effect>)
        ensures
            match r {
                Some(effect) => lookup(self@, name@) == Some(effect@),
                None => lookup(self@, name@) is None,
            },
    {
        self.entries.get(name)
    }

    /// Sets `style` under its name: it replaces the property that the name had, or
    /// comes in as a new entry at the end.
    pub fn set<S: Style>(&mut self, style: S)
        ensures
            final(self)@ == put(old(self)@, style.key(), style.effect()),
            distinct_keys(final(self)@),
    {
        let effect = style.to_effect();
        let mut entries: Dictionary<Effect> = Dictionary::new();
        proof {
            use_type_invariant(&entries);
            use_type_invariant(&*self);
            assert(self.names_are_distinct() && self@ == self.entries@);
        }
        core::mem::swap(&mut self.entries, &mut entries);
        entries.set(style.name(), effect);
        proof {
            use_type_invariant(&entries);
        }
        core::mem::swap(&mut self.entries, &mut entries);
    }

    /// Applies every entry to `element`, from the first to the last. This cannot
    /// fail.
    pub fn apply_all(&self, element: &mut Element) -> (r: Result<(), Error>)
        ensures
            r is Ok,
            final(element)@ == applied(self@, old(element)@),
    {
        let mut i: usize = 0;
        while i < self.entries.len()
            invariant
                i <= self@.len(),
                element@ == applied(self@.take(i as int), old(element)@),
            decreases self@.len() - i,
        {
            self.entries.value_at(i).apply(element);
            assert(self@.take(i + 1).drop_last() =~= self@.take(i as int));
            i = i + 1;
        }
        assert(self@.take(i as int) =~= self@);
        Ok(())
    }
}

/// A property of any name, set to any value.
pub struct Custom {
    name: &'static str,
    val: &'static str,
}

impl Custom {
    /// The property `name`, set to `val`; the dictionary keeps it under `name`.
    pub fn new(name: &'static str, val: &'static str) -> (r: Custom)
        ensures
            r.key() == name@,
            r.effect() == (EffectView { property: name@, value: val@ }),
    {
        Custom { name, val }
    }
}

impl Style for Custom {
    closed spec fn key(&self) -> Seq<char> {
        self.name@
    }

    closed spec fn effect(&self) -> EffectView {
        EffectView { property: self.name@, value: self.val@ }
    }

    fn name(&self) -> (r: &'static str) {
        self.name
    }

    fn to_effect(&self) -> (r: Effect) {
        Effect::new(self.name, self.val)
    }
}

/// The width of an element, or the most it may have.
pub struct Width {
    name: &'static str,
    val: Size,
}

impl Width {
    /// The width `size`.
    pub fn new(size: Size) -> (r: Width)
        ensures
            r.key() == "width"@,
            r.effect() == (EffectView { property: "width"@, value: size.text() }),
    {
        Width { name: "width", val: size }
    }

    /// The greatest width `size`.
    pub fn max(size: Size) -> (r: Width)
        ensures
            r.key() == "max-width"@,
            r.effect() == (EffectView { property: "max-width"@, value: size.text() }),
    {
        Width { name: "max-width", val: size }
    }
}

impl Style for Width {
    closed spec fn key(&self) -> Seq<char> {
        self.name@
    }

    closed spec fn effect(&self) -> EffectView {
        EffectView { property: self.name@, value: self.val.text() }
    }

    fn name(&self) -> (r: &'static str) {
        self.name
    }

    fn to_effect(&self) -> (r: Effect) {
        let value = self.val.to_string();
        Effect::new(self.name, value.as_str())
    }
}

/// The height of an element, or the most it may have.
pub struct Height {
    name: &'static str,
    val: Size,
}

impl Height {
    /// The height `size`.
    pub fn new(size: Size) -> (r: Height)
        ensures
            r.key() == "height"@,
            r.effect() == (EffectView { property: "height"@, value: size.text() }),
    {
        Height { name: "height", val: size }
    }

    /// The greatest height `size`.
    pub fn max(size: Size) -> (r: Height)
        ensures
            r.key() == "max-height"@,
            r.effect() == (EffectView { property: "max-height"@, value: size.text() }),
    {
        Height { name: "max-height", val: size }
    }
}

impl Style for Height {
    closed spec fn key(&self) -> Seq<char> {
        self.name@
    }

    closed spec fn effect(&self) -> EffectView {
        EffectView { property: self.name@, value: self.val.text() }
    }

    fn name(&self) -> (r: &'static str) {
        self.name
    }

    fn to_effect(&self) -> (r: Effect) {
        let value = self.val.to_string();
        Effect::new(self.name, value.as_str())
    }
}

/// The colour of the text.
pub struct Color {
    color: Colors,
}

impl Color {
    /// The text colour `color`.
    pub fn new(color: Colors) -> (r: Color)
        ensures
            r.key() == "COLOR"@,
            r.effect() == (EffectView { property: "color"@, value: color.text() }),
    {
        Color { color }
    }
}

impl Style for Color {
    closed spec fn key(&self) -> Seq<char> {
        "COLOR"@
    }

    closed spec fn effect(&self) -> EffectView {
        EffectView { property: "color"@, value: self.color.text() }
    }

    fn name(&self) -> (r: &'static str) {
        "COLOR"
    }

    fn to_effect(&self) -> (r: Effect) {
        let value = self.color.to_string();
        Effect::new("color", value.as_str())
    }
}

/// The background of an element.
pub struct Background {
    color: Colors,
}

impl Background {
    /// The background of the one colour `color`.
    pub fn color(color: Colors) -> (r: Background)
        ensures
            r.key() == "BACKGROUND"@,
            r.effect() == (EffectView { property: "background"@, value: color.text() }),
    {
        Background { color }
    }
}

impl Style for Background {
    closed spec fn key(&self) -> Seq<char> {
        "BACKGROUND"@
    }

    closed spec fn effect(&self) -> EffectView {
        EffectView { property: "background"@, value: self.color.text() }
    }

    fn name(&self) -> (r: &'static str) {
        "BACKGROUND"
    }

    fn to_effect(&self) -> (r: Effect) {
        let value = self.color.to_string();
        Effect::new("background", value.as_str())
    }
}

/// How far the corners of an element are rounded.
pub struct BorderRadius {
    size: Size,
}

impl BorderRadius {
    /// Corners rounded by `size`.
    pub fn new(size: Size) -> (r: BorderRadius)
        ensures
            r.key() == "BORDER_RADIUS"@,
            r.effect() == (EffectView { property: "border-radius"@, value: size.text() }),
    {
        BorderRadius { size }
    }
}

impl Style for BorderRadius {
    closed spec fn key(&self) -> Seq<char> {
        "BORDER_RADIUS"@
    }

    closed spec fn effect(&self) -> EffectView {
        EffectView { property: "border-radius"@, value: self.size.text() }
    }

    fn name(&self) -> (r: &'static str) {
        "BORDER_RADIUS"
    }

    fn to_effect(&self) -> (r: Effect) {
        let value = self.size.to_string();
        Effect::new("border-radius", value.as_str())
    }
}

/// The lines that decorate a text.
pub struct TextDecoration {
    val: &'static str,
}

impl TextDecoration {
    /// The decoration `val`.
    pub fn new(val: &'static str) -> (r: TextDecoration)
        ensures
            r.key() == "TEXT_DECORATION"@,
            r.effect() == (EffectView { property: "text-decoration"@, value: val@ }),
    {
        TextDecoration { val }
    }

    /// No decoration.
    pub fn none() -> (r: TextDecoration)
        ensures
            r.key() == "TEXT_DECORATION"@,
            r.effect() == (EffectView { property: "text-decoration"@, value: "none"@ }),
    {
        TextDecoration { val: "none" }
    }
}

impl Style for TextDecoration {
    closed spec fn key(&self) -> Seq<char> {
        "TEXT_DECORATION"@
    }

    closed spec fn effect(&self) -> EffectView {
        EffectView { property: "text-decoration"@, value: self.val@ }
    }

    fn name(&self) -> (r: &'static str) {
        "TEXT_DECORATION"
    }

    fn to_effect(&self) -> (r: Effect) {
        Effect::new("text-decoration", self.val)
    }
}

/// How the letters of a text are capitalised.
pub struct TextTransform {
    val: &'static str,
}

impl TextTransform {
    /// The text as it is written.
    pub fn none() -> (r: TextTransform)
        ensures
            r.key() == "TEXT_TRANSFORM"@,
            r.effect() == (EffectView { property: "text-transform"@, value: "none"@ }),
    {
        TextTransform { val: "none" }
    }

    /// The first letter of each word in upper case.
    pub fn capitalize() -> (r: TextTransform)
        ensures
            r.key() == "TEXT_TRANSFORM"@,
            r.effect() == (EffectView { property: "text-transform"@, value: "capitalize"@ }),
    {
        TextTransform { val: "capitalize" }
    }

    /// Every letter in upper case.
    pub fn uppercase() -> (r: TextTransform)
        ensures
            r.key() == "TEXT_TRANSFORM"@,
            r.effect() == (EffectView { property: "text-transform"@, value: "uppercase"@ }),
    {
        TextTransform { val: "uppercase" }
    }

    /// Every letter in lower case.
    pub fn lowercase() -> (r: TextTransform)
        ensures
            r.key() == "TEXT_TRANSFORM"@,
            r.effect() == (EffectView { property: "text-transform"@, value: "lowercase"@ }),
    {
        TextTransform { val: "lowercase" }
    }

    /// The platform's own setting.
    pub fn initial() -> (r: TextTransform)
        ensures
            r.key() == "TEXT_TRANSFORM"@,
            r.effect() == (EffectView { property: "text-transform"@, value: "initial"@ }),
    {
        TextTransform { val: "initial" }
    }

    /// The setting of the parent element.
    pub fn inherit() -> (r: TextTransform)
        ensures
            r.key() == "TEXT_TRANSFORM"@,
            r.effect() == (EffectView { property: "text-transform"@, value: "inherit"@ }),
    {
        TextTransform { val: "inherit" }
    }
}

impl Style for TextTransform {
    closed spec fn key(&self) -> Seq<char> {
        "TEXT_TRANSFORM"@
    }

    closed spec fn effect(&self) -> EffectView {
        EffectView { property: "text-transform"@, value: self.val@ }
    }

    fn name(&self) -> (r: &'static str) {
        "TEXT_TRANSFORM"
    }

    fn to_effect(&self) -> (r: Effect) {
        Effect::new("text-transform", self.val)
    }
}

/// The line of which the border is drawn.
pub struct BorderStyle {
    name: &'static str,
    val: &'static str,
}

impl BorderStyle {
    /// No border.
    pub fn none() -> (r: BorderStyle)
        ensures
            r.key() == "BORDER_STYLE"@,
            r.effect() == (EffectView { property: "border-style"@, value: "none"@ }),
    {
        BorderStyle { name: "border-style", val: "none" }
    }

    /// A dotted border.
    pub fn dotted() -> (r: BorderStyle)
        ensures
            r.key() == "BORDER_STYLE"@,
            r.effect() == (EffectView { property: "border-style"@, value: "dotted"@ }),
    {
        BorderStyle { name: "border-style", val: "dotted" }
    }

    /// A dashed border.
    pub fn dashed() -> (r: BorderStyle)
        ensures
            r.key() == "BORDER_STYLE"@,
            r.effect() == (EffectView { property: "border-style"@, value: "dashed"@ }),
    {
        BorderStyle { name: "border-style", val: "dashed" }
    }

    /// A solid border.
    pub fn solid() -> (r: BorderStyle)
        ensures
            r.key() == "BORDER_STYLE"@,
            r.effect() == (EffectView { property: "border-style"@, value: "solid"@ }),
    {
        BorderStyle { name: "border-style", val: "solid" }
    }

    /// A double border.
    pub fn double() -> (r: BorderStyle)
        ensures
            r.key() == "BORDER_STYLE"@,
            r.effect() == (EffectView { property: "border-style"@, value: "double"@ }),
    {
        BorderStyle { name: "border-style", val: "double" }
    }

    /// A border that looks carved in.
    pub fn groove() -> (r: BorderStyle)
        ensures
            r.key() == "BORDER_STYLE"@,
            r.effect() == (EffectView { property: "border-style"@, value: "groove"@ }),
    {
        BorderStyle { name: "border-style", val: "groove" }
    }

    /// A border that looks raised.
    pub fn ridge() -> (r: BorderStyle)
        ensures
            r.key() == "BORDER_STYLE"@,
            r.effect() == (EffectView { property: "border-style"@, value: "ridge"@ }),
    {
        BorderStyle { name: "border-style", val: "ridge" }
    }

    /// A border that makes the element look sunk in.
    pub fn inset() -> (r: BorderStyle)
        ensures
            r.key() == "BORDER_STYLE"@,
            r.effect() == (EffectView { property: "border-style"@, value: "inset"@ }),
    {
        BorderStyle { name: "border-style", val: "inset" }
    }

    /// A border that makes the element look raised.
    pub fn outset() -> (r: BorderStyle)
        ensures
            r.key() == "BORDER_STYLE"@,
            r.effect() == (EffectView { property: "border-style"@, value: "outset"@ }),
    {
        BorderStyle { name: "border-style", val: "outset" }
    }

    /// A hidden border.
    pub fn hidden() -> (r: BorderStyle)
        ensures
            r.key() == "BORDER_STYLE"@,
            r.effect() == (EffectView { property: "border-style"@, value: "hidden"@ }),
    {
        BorderStyle { name: "border-style", val: "hidden" }
    }
}

impl Style for BorderStyle {
    closed spec fn key(&self) -> Seq<char> {
        "BORDER_STYLE"@
    }

    closed spec fn effect(&self) -> EffectView {
        EffectView { property: self.name@, value: self.val@ }
    }

    fn name(&self) -> (r: &'static str) {
        "BORDER_STYLE"
    }

    fn to_effect(&self) -> (r: Effect) {
        Effect::new(self.name, self.val)
    }
}

/// How wide the border is.
pub struct BorderWidth {
    size: Size,
}

impl BorderWidth {
    /// A border of the width `size`.
    pub fn new(size: Size) -> (r: BorderWidth)
        ensures
            r.key() == "BORDER_WIDTH"@,
            r.effect() == (EffectView { property: "border-width"@, value: size.text() }),
    {
        BorderWidth { size }
    }
}

impl Style for BorderWidth {
    closed spec fn key(&self) -> Seq<char> {
        "BORDER_WIDTH"@
    }

    closed spec fn effect(&self) -> EffectView {
        EffectView { property: "border-width"@, value: self.size.text() }
    }

    fn name(&self) -> (r: &'static str) {
        "BORDER_WIDTH"
    }

    fn to_effect(&self) -> (r: Effect) {
        let value = self.size.to_string();
        Effect::new("border-width", value.as_str())
    }
}

/// The colour of the border.
pub struct BorderColor {
    color: Colors,
}

impl BorderColor {
    /// A border of the colour `color`.
    pub fn new(color: Colors) -> (r: BorderColor)
        ensures
            r.key() == "BORDER_COLOR"@,
            r.effect() == (EffectView { property: "border-color"@, value: color.text() }),
    {
        BorderColor { color }
    }
}

impl Style for BorderColor {
    closed spec fn key(&self) -> Seq<char> {
        "BORDER_COLOR"@
    }

    closed spec fn effect(&self) -> EffectView {
        EffectView { property: "border-color"@, value: self.color.text() }
    }

    fn name(&self) -> (r: &'static str) {
        "BORDER_COLOR"
    }

    fn to_effect(&self) -> (r: Effect) {
        let value = self.color.to_string();
        Effect::new("border-color", value.as_str())
    }
}

/// The line drawn around an element, outside its border.
pub struct Outline {
    val: &'static str,
}

impl Outline {
    /// No outline.
    pub fn none() -> (r: Outline)
        ensures
            r.key() == "OUTLINE"@,
            r.effect() == (EffectView { property: "outline"@, value: "none"@ }),
    {
        Outline { val: "none" }
    }

    /// A dotted outline.
    pub fn dotted() -> (r: Outline)
        ensures
            r.key() == "OUTLINE"@,
            r.effect() == (EffectView { property: "outline"@, value: "dotted"@ }),
    {
        Outline { val: "dotted" }
    }

    /// A dashed outline.
    pub fn dashed() -> (r: Outline)
        ensures
            r.key() == "OUTLINE"@,
            r.effect() == (EffectView { property: "outline"@, value: "dashed"@ }),
    {
        Outline { val: "dashed" }
    }

    /// A solid outline.
    pub fn solid() -> (r: Outline)
        ensures
            r.key() == "OUTLINE"@,
            r.effect() == (EffectView { property: "outline"@, value: "solid"@ }),
    {
        Outline { val: "solid" }
    }

    /// A double outline.
    pub fn double() -> (r: Outline)
        ensures
            r.key() == "OUTLINE"@,
            r.effect() == (EffectView { property: "outline"@, value: "double"@ }),
    {
        Outline { val: "double" }
    }

    /// A outline that looks carved in.
    pub fn groove() -> (r: Outline)
        ensures
            r.key() == "OUTLINE"@,
            r.effect() == (EffectView { property: "outline"@, value: "groove"@ }),
    {
        Outline { val: "groove" }
    }

    /// A outline that looks raised.
    pub fn ridge() -> (r: Outline)
        ensures
            r.key() == "OUTLINE"@,
            r.effect() == (EffectView { property: "outline"@, value: "ridge"@ }),
    {
        Outline { val: "ridge" }
    }

    /// A outline that makes the element look sunk in.
    pub fn inset() -> (r: Outline)
        ensures
            r.key() == "OUTLINE"@,
            r.effect() == (EffectView { property: "outline"@, value: "inset"@ }),
    {
        Outline { val: "inset" }
    }

    /// A outline that makes the element look raised.
    pub fn outset() -> (r: Outline)
        ensures
            r.key() == "OUTLINE"@,
            r.effect() == (EffectView { property: "outline"@, value: "outset"@ }),
    {
        Outline { val: "outset" }
    }

    /// A hidden outline.
    pub fn hidden() -> (r: Outline)
        ensures
            r.key() == "OUTLINE"@,
            r.effect() == (EffectView { property: "outline"@, value: "hidden"@ }),
    {
        Outline { val: "hidden" }
    }
}

impl Style for Outline {
    closed spec fn key(&self) -> Seq<char> {
        "OUTLINE"@
    }

    closed spec fn effect(&self) -> EffectView {
        EffectView { property: "outline"@, value: self.val@ }
    }

    fn name(&self) -> (r: &'static str) {
        "OUTLINE"
    }

    fn to_effect(&self) -> (r: Effect) {
        Effect::new("outline", self.val)
    }
}

/// The space between the content of an element and its border.
pub struct Padding {
    name: &'static str,
    val: Size,
}

impl Padding {
    /// The space `size` on every side.
    pub fn new(size: Size) -> (r: Padding)
        ensures
            r.key() == "padding"@,
            r.effect() == (EffectView { property: "padding"@, value: size.text() }),
    {
        Padding { name: "padding", val: size }
    }

    /// The space `size` before and after the element, in the direction of the
    /// text flow's blocks.
    pub fn block(size: Size) -> (r: Padding)
        ensures
            r.key() == "padding-block"@,
            r.effect() == (EffectView { property: "padding-block"@, value: size.text() }),
    {
        Padding { name: "padding-block", val: size }
    }

    /// The space `size` at the start and the end of the element, in the direction
    /// of the text's lines.
    pub fn inline(size: Size) -> (r: Padding)
        ensures
            r.key() == "padding-inline"@,
            r.effect() == (EffectView { property: "padding-inline"@, value: size.text() }),
    {
        Padding { name: "padding-inline", val: size }
    }

    /// The space `size` on the left.
    pub fn left(size: Size) -> (r: Padding)
        ensures
            r.key() == "padding-left"@,
            r.effect() == (EffectView { property: "padding-left"@, value: size.text() }),
    {
        Padding { name: "padding-left", val: size }
    }
}

impl Style for Padding {
    closed spec fn key(&self) -> Seq<char> {
        self.name@
    }

    closed spec fn effect(&self) -> EffectView {
        EffectView { property: self.name@, value: self.val.text() }
    }

    fn name(&self) -> (r: &'static str) {
        self.name
    }

    fn to_effect(&self) -> (r: Effect) {
        let value = self.val.to_string();
        Effect::new(self.name, value.as_str())
    }
}

/// How heavy the strokes of the letters are.
pub struct FontWeight {
    name: &'static str,
    val: &'static str,
}

impl FontWeight {
    /// The weight `size`, as the platform writes it.
    pub fn new(size: &'static str) -> (r: FontWeight)
        ensures
            r.key() == "font-weight"@,
            r.effect() == (EffectView { property: "font-weight"@, value: size@ }),
    {
        FontWeight { name: "font-weight", val: size }
    }

    /// The usual weight.
    pub fn normal() -> (r: FontWeight)
        ensures
            r.key() == "font-weight"@,
            r.effect() == (EffectView { property: "font-weight"@, value: "normal"@ }),
    {
        FontWeight { name: "font-weight", val: "normal" }
    }

    /// Heavy strokes.
    pub fn bold() -> (r: FontWeight)
        ensures
            r.key() == "font-weight"@,
            r.effect() == (EffectView { property: "font-weight"@, value: "bold"@ }),
    {
        FontWeight { name: "font-weight", val: "bold" }
    }

    /// Heavier strokes than the parent element has.
    pub fn bolder() -> (r: FontWeight)
        ensures
            r.key() == "font-weight"@,
            r.effect() == (EffectView { property: "font-weight"@, value: "bolder"@ }),
    {
        FontWeight { name: "font-weight", val: "bolder" }
    }

    /// Lighter strokes than the parent element has.
    pub fn lighter() -> (r: FontWeight)
        ensures
            r.key() == "font-weight"@,
            r.effect() == (EffectView { property: "font-weight"@, value: "lighter"@ }),
    {
        FontWeight { name: "font-weight", val: "lighter" }
    }
}

impl Style for FontWeight {
    closed spec fn key(&self) -> Seq<char> {
        self.name@
    }

    closed spec fn effect(&self) -> EffectView {
        EffectView { property: self.name@, value: self.val@ }
    }

    fn name(&self) -> (r: &'static str) {
        self.name
    }

    fn to_effect(&self) -> (r: Effect) {
        Effect::new(self.name, self.val)
    }
}

/// The size of the letters.
pub struct FontSize {
    name: &'static str,
    val: String,
}

impl FontSize {
    /// The letter size `size`.
    pub fn new(size: Size) -> (r: FontSize)
        ensures
            r.key() == "font-size"@,
            r.effect() == (EffectView { property: "font-size"@, value: size.text() }),
    {
        FontSize { name: "font-size", val: size.to_string() }
    }
}

impl Style for FontSize {
    closed spec fn key(&self) -> Seq<char> {
        self.name@
    }

    closed spec fn effect(&self) -> EffectView {
        EffectView { property: self.name@, value: self.val@ }
    }

    fn name(&self) -> (r: &'static str) {
        self.name
    }

    fn to_effect(&self) -> (r: Effect) {
        Effect::new(self.name, self.val.as_str())
    }
}

/// The font of a text.
pub struct FontFamily {
    name: &'static str,
    val: String,
}

impl FontFamily {
    /// The font `font`.
    pub fn new(font: Font) -> (r: FontFamily)
        ensures
            r.key() == "font-family"@,
            r.effect() == (EffectView { property: "font-family"@, value: font.text() }),
    {
        FontFamily { name: "font-family", val: font.to_string() }
    }
}

impl Style for FontFamily {
    closed spec fn key(&self) -> Seq<char> {
        self.name@
    }

    closed spec fn effect(&self) -> EffectView {
        EffectView { property: self.name@, value: self.val@ }
    }

    fn name(&self) -> (r: &'static str) {
        self.name
    }

    fn to_effect(&self) -> (r: Effect) {
        Effect::new(self.name, self.val.as_str())
    }
}

/// The space between the letters of a text.
pub struct LetterSpacing {
    name: &'static str,
    val: String,
}

impl LetterSpacing {
    /// The space `size` between letters.
    pub fn new(size: Size) -> (r: LetterSpacing)
        ensures
            r.key() == "letter-spacing"@,
            r.effect() == (EffectView { property: "letter-spacing"@, value: size.text() }),
    {
        LetterSpacing { name: "letter-spacing", val: size.to_string() }
    }

    /// The usual space between letters.
    pub fn normal() -> (r: LetterSpacing)
        ensures
            r.key() == "letter-spacing"@,
            r.effect() == (EffectView { property: "letter-spacing"@, value: "normal"@ }),
    {
        LetterSpacing { name: "letter-spacing", val: String::from_str("normal") }
    }
}

impl Style for LetterSpacing {
    closed spec fn key(&self) -> Seq<char> {
        self.name@
    }

    closed spec fn effect(&self) -> EffectView {
        EffectView { property: self.name@, value: self.val@ }
    }

    fn name(&self) -> (r: &'static str) {
        self.name
    }

    fn to_effect(&self) -> (r: Effect) {
        Effect::new(self.name, self.val.as_str())
    }
}

/// The pointer shown over an element.
pub struct Cursor {
    name: &'static str,
    val: &'static str,
}

impl Cursor {
    /// The platform's usual pointer.
    pub fn default() -> (r: Cursor)
        ensures
            r.key() == "cursor"@,
            r.effect() == (EffectView { property: "cursor"@, value: "default"@ }),
    {
        Cursor { name: "cursor", val: "default" }
    }

    /// The pointer that marks something to click on.
    pub fn pointer() -> (r: Cursor)
        ensures
            r.key() == "cursor"@,
            r.effect() == (EffectView { property: "cursor"@, value: "pointer"@ }),
    {
        Cursor { name: "cursor", val: "pointer" }
    }
}

impl Style for Cursor {
    closed spec fn key(&self) -> Seq<char> {
        self.name@
    }

    closed spec fn effect(&self) -> EffectView {
        EffectView { property: self.name@, value: self.val@ }
    }

    fn name(&self) -> (r: &'static str) {
        self.name
    }

    fn to_effect(&self) -> (r: Effect) {
        Effect::new(self.name, self.val)
    }
}

/// The direction in which a container lays out its children. Both directions are
/// made as properties of the kind `Cursor`.
pub struct ContainerDirection {
    name: &'static str,
    val: &'static str,
}

impl ContainerDirection {
    /// Children below one another.
    pub fn column() -> (r: Cursor)
        ensures
            r.key() == "flex-direction"@,
            r.effect() == (EffectView { property: "flex-direction"@, value: "column"@ }),
    {
        Cursor { name: "flex-direction", val: "column" }
    }

    /// Children beside one another.
    pub fn row() -> (r: Cursor)
        ensures
            r.key() == "flex-direction"@,
            r.effect() == (EffectView { property: "flex-direction"@, value: "row"@ }),
    {
        Cursor { name: "flex-direction", val: "row" }
    }
}

impl Style for ContainerDirection {
    closed spec fn key(&self) -> Seq<char> {
        self.name@
    }

    closed spec fn effect(&self) -> EffectView {
        EffectView { property: self.name@, value: self.val@ }
    }

    fn name(&self) -> (r: &'static str) {
        self.name
    }

    fn to_effect(&self) -> (r: Effect) {
        Effect::new(self.name, self.val)
    }
}

/// Where a container puts its children along its direction.
pub struct Justify {
    name: &'static str,
    val: &'static str,
}

impl Justify {
    /// Children in the middle of the container.
    pub fn center() -> (r: Justify)
        ensures
            r.key() == "justify-content"@,
            r.effect() == (EffectView { property: "justify-content"@, value: "center"@ }),
    {
        Justify { name: "justify-content", val: "center" }
    }

    /// Children at the beginning of the container.
    pub fn start() -> (r: Justify)
        ensures
            r.key() == "justify-content"@,
            r.effect() == (EffectView { property: "justify-content"@, value: "flex-start"@ }),
    {
        Justify { name: "justify-content", val: "flex-start" }
    }

    /// Children at the end of the container.
    pub fn end() -> (r: Justify)
        ensures
            r.key() == "justify-content"@,
            r.effect() == (EffectView { property: "justify-content"@, value: "flex-end"@ }),
    {
        Justify { name: "justify-content", val: "flex-end" }
    }

    /// Space between the children.
    pub fn space_between() -> (r: Justify)
        ensures
            r.key() == "justify-content"@,
            r.effect() == (EffectView { property: "justify-content"@, value: "space-between"@ }),
    {
        Justify { name: "justify-content", val: "space-between" }
    }

    /// Space before, between and after the children.
    pub fn space_around() -> (r: Justify)
        ensures
            r.key() == "justify-content"@,
            r.effect() == (EffectView { property: "justify-content"@, value: "space-around"@ }),
    {
        Justify { name: "justify-content", val: "space-around" }
    }

    /// Equal space around every child.
    pub fn space_evenly() -> (r: Justify)
        ensures
            r.key() == "justify-content"@,
            r.effect() == (EffectView { property: "justify-content"@, value: "space-evenly"@ }),
    {
        Justify { name: "justify-content", val: "space-evenly" }
    }
}

impl Style for Justify {
    closed spec fn key(&self) -> Seq<char> {
        self.name@
    }

    closed spec fn effect(&self) -> EffectView {
        EffectView { property: self.name@, value: self.val@ }
    }

    fn name(&self) -> (r: &'static str) {
        self.name
    }

    fn to_effect(&self) -> (r: Effect) {
        Effect::new(self.name, self.val)
    }
}

/// Where a container puts its children across its direction.
pub struct Align {
    name: &'static str,
    val: &'static str,
}

impl Align {
    /// Children in the middle.
    pub fn center() -> (r: Align)
        ensures
            r.key() == "align-items"@,
            r.effect() == (EffectView { property: "align-items"@, value: "center"@ }),
    {
        Align { name: "align-items", val: "center" }
    }

    /// Children at the beginning.
    pub fn start() -> (r: Align)
        ensures
            r.key() == "align-items"@,
            r.effect() == (EffectView { property: "align-items"@, value: "flex-start"@ }),
    {
        Align { name: "align-items", val: "flex-start" }
    }

    /// Children at the end.
    pub fn end() -> (r: Align)
        ensures
            r.key() == "align-items"@,
            r.effect() == (EffectView { property: "align-items"@, value: "flex-end"@ }),
    {
        Align { name: "align-items", val: "flex-end" }
    }

    /// Children stretched to fill the container.
    pub fn stretch() -> (r: Align)
        ensures
            r.key() == "align-items"@,
            r.effect() == (EffectView { property: "align-items"@, value: "stretch"@ }),
    {
        Align { name: "align-items", val: "stretch" }
    }

    /// Children aligned by the baselines of their texts.
    pub fn baseline() -> (r: Align)
        ensures
            r.key() == "align-items"@,
            r.effect() == (EffectView { property: "align-items"@, value: "baseline"@ }),
    {
        Align { name: "align-items", val: "baseline" }
    }
}

impl Style for Align {
    closed spec fn key(&self) -> Seq<char> {
        self.name@
    }

    closed spec fn effect(&self) -> EffectView {
        EffectView { property: self.name@, value: self.val@ }
    }

    fn name(&self) -> (r: &'static str) {
        self.name
    }

    fn to_effect(&self) -> (r: Effect) {
        Effect::new(self.name, self.val)
    }
}
} // verus!
