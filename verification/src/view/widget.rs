//! The widgets: containers, texts, buttons, links, labels and inputs.

use vstd::prelude::*;
use crate::view::color::Colors;
use crate::view::dictionary::{distinct_keys, put};
use crate::view::document::Document;
use crate::view::element::{Element, ElementView};
use crate::view::font::Font;
use crate::view::size::Size;
use crate::view::style::{
    Background, BorderColor, BorderRadius, BorderStyle, BorderWidth, Color, ContainerDirection,
    Cursor, EffectView, FontFamily, FontSize, FontWeight, Height, Justify, Padding, Style,
    StyleDictionary, TextDecoration, TextTransform, Width,
};
use crate::view::view::{
    after, after_all, attached, built_before, lemma_after_all, lemma_attached_failure,
    lemma_attached_next, restyled, seen, styled, Error, Kind, NodeView, Viewable,
};

verus! {

/// A widget that takes styles.
pub trait Styleable: Viewable {
    /// Adds `style` to the widget: applies it to the element of the most recent
    /// build, if there is one, and keeps it in the dictionary under its name, in
    /// place of an earlier style of that name.
    fn style<S: Style>(&mut self, style: S) -> (r: &mut Self)
        ensures
            r.model() == restyled(old(self).model(), style.key(), style.effect()),
            *final(self) == *final(r),
    {
        self.set(&style);
        self.store_style(style);
        self
    }

    /// Keeps `style` in the dictionary under its name, in place of an earlier
    /// style of that name.
    fn store_style<S: Style>(&mut self, style: S)
        ensures
            final(self).model() == (NodeView {
                styles: put(old(self).model().styles, style.key(), style.effect()),
                ..old(self).model()
            }),
    ;

    /// The style dictionary of the widget. No two of its entries share a name.
    fn styles(&self) -> (r: &StyleDictionary)
        ensures
            r@ == self.model().styles,
            distinct_keys(self.model().styles),
    ;
}

/// A widget of one of the kinds of this module.
pub trait Widget: Styleable {}

/// The root of a page. It is built onto the root element of the document, and
/// has one child.
pub struct Body {
    child: Box<Node>,
    styles: StyleDictionary,
    html_element: Option<Element>,
}

/// A container that lays out its children below one another.
pub struct Column {
    children: Vec<Node>,
    styles: StyleDictionary,
    html_element: Option<Element>,
}

/// A container that lays out its children beside one another.
pub struct Row {
    children: Vec<Node>,
    styles: StyleDictionary,
    html_element: Option<Element>,
}

/// A paragraph of text.
pub struct Text {
    str: &'static str,
    styles: StyleDictionary,
    html_element: Option<Element>,
}

/// A button with a text on it.
pub struct Button {
    str: &'static str,
    styles: StyleDictionary,
    html_element: Option<Element>,
}

/// A link: a text that leads to an address.
pub struct Link {
    str: &'static str,
    address: &'static str,
    styles: StyleDictionary,
    html_element: Option<Element>,
}

/// A short text on a coloured block, shown as enabled or as disabled.
pub struct Label {
    str: &'static str,
    styles: StyleDictionary,
    html_element: Option<Element>,
}

/// A field for typing into, with a value, a placeholder and a flag that says
/// whether it takes typing.
pub struct Input {
    str: &'static str,
    pub placeholder: &'static str,
    pub enabled: bool,
    styles: StyleDictionary,
    html_element: Option<Element>,
}

/// A widget of any kind, as a parent holds it.
pub enum Node {
    Body(Body),
    Column(Column),
    Row(Row),
    Text(Text),
    Button(Button),
    Link(Link),
    Label(Label),
    Input(Input),
}

/// The element kept from a build, as the contracts speak of it.
pub open spec fn kept(element: Option<Element>) -> Option<ElementView> {
    match element {
        Some(e) => Some(e@),
        None => None,
    }
}

/// The widgets of `nodes` as values of the model, in order.
pub closed spec fn models(nodes: Seq<Node>) -> Seq<NodeView> {
    Seq::new(nodes.len(), |i: int| node_model(nodes[i]))
}

/// The widget `node` as a value of the model.
pub closed spec fn node_model(node: Node) -> NodeView
    decreases node,
{
    match node {
        Node::Body(w) => NodeView {
            children: seq![node_model(*w.child)],
            element: kept(w.html_element),
            ..NodeView::plain(Kind::Body, Seq::empty(), w.styles@)
        },
        Node::Column(w) => NodeView {
            children: Seq::new(
                w.children@.len(),
                |i: int|
                    if 0 <= i < w.children@.len() {
                        node_model(w.children@[i])
                    } else {
                        arbitrary()
                    },
            ),
            element: kept(w.html_element),
            ..NodeView::plain(Kind::Column, Seq::empty(), w.styles@)
        },
        Node::Row(w) => NodeView {
            children: Seq::new(
                w.children@.len(),
                |i: int|
                    if 0 <= i < w.children@.len() {
                        node_model(w.children@[i])
                    } else {
                        arbitrary()
                    },
            ),
            element: kept(w.html_element),
            ..NodeView::plain(Kind::Row, Seq::empty(), w.styles@)
        },
        Node::Text(w) => NodeView {
            element: kept(w.html_element),
            ..NodeView::plain(Kind::Text, w.str@, w.styles@)
        },
        Node::Button(w) => NodeView {
            element: kept(w.html_element),
            ..NodeView::plain(Kind::Button, w.str@, w.styles@)
        },
        Node::Link(w) => NodeView {
            address: w.address@,
            element: kept(w.html_element),
            ..NodeView::plain(Kind::Link, w.str@, w.styles@)
        },
        Node::Label(w) => NodeView {
            element: kept(w.html_element),
            ..NodeView::plain(Kind::Label, w.str@, w.styles@)
        },
        Node::Input(w) => NodeView {
            placeholder: w.placeholder@,
            enabled: w.enabled,
            element: kept(w.html_element),
            ..NodeView::plain(Kind::Input, w.str@, w.styles@)
        },
    }
}

/// Builds `children` one after the other against `document` and attaches the
/// element of each to `element`. The first child that fails ends it.
fn render_children(children: &mut Vec<Node>, element: Element, document: &Document) -> (r: Result<
    Element,
    Error,
>)
    ensures
        seen(r) == attached(models(old(children)@), element@, document@),
        models(final(children)@) == after_all(models(old(children)@), document@),
    decreases *old(children),
{
    let mut parent = element;
    let ghost before = models(children@);
    let mut i: usize = 0;
    assert(before.take(0) =~= Seq::<NodeView>::empty());
    while i < children.len()
        invariant
            i <= children@.len(),
            children@.len() == old(children)@.len(),
            before == models(old(children)@),
            forall|j: int| i <= j < children@.len() ==> children@[j] == old(children)@[j],
            forall|j: int|
                0 <= j < i ==> node_model(#[trigger] children@[j]) == after(before[j], document@),
            built_before(before, i as int, document@),
            attached(before.take(i as int), element@, document@) == Ok::<ElementView, Error>(
                parent@,
            ),
        decreases children@.len() - i,
    {
        proof {
            lemma_attached_next(before, i as int, element@, document@);
            lemma_after_all(before, document@);
        }
        assert(children@[i as int].model() == before[i as int]);
        match children[i].build(document) {
            Ok(child) => {
                parent.append_child(child);
            },
            Err(e) => {
                proof {
                    lemma_attached_failure(
                        before,
                        i as int + 1,
                        before.len() as int,
                        element@,
                        document@,
                    );
                    assert(before.take(before.len() as int) =~= before);
                    assert(!built_before(before, i as int + 1, document@));
                    assert forall|j: int| 0 <= j < before.len() implies models(children@)[j]
                        == after_all(before, document@)[j] by {
                        if j > i {
                            assert(!built_before(before, j, document@));
                        }
                    }
                    assert(models(children@) =~= after_all(before, document@));
                }
                return Err(e);
            },
        }
        i = i + 1;
    }
    proof {
        lemma_after_all(before, document@);
        assert(before.take(before.len() as int) =~= before);
        assert(models(children@) =~= after_all(before, document@));
    }
    Ok(parent)
}

/// The styles of a new column: children below one another, from the start.
pub open spec fn column_styles() -> Seq<(Seq<char>, EffectView)> {
    let s = Seq::<(Seq<char>, EffectView)>::empty();
    let s = styled(s, "flex-direction"@, "flex-direction"@, "column"@);
    let s = styled(s, "justify-content"@, "justify-content"@, "flex-start"@);
    s
}

/// The styles of a new row: children beside one another, from the start.
pub open spec fn row_styles() -> Seq<(Seq<char>, EffectView)> {
    let s = Seq::<(Seq<char>, EffectView)>::empty();
    let s = styled(s, "flex-direction"@, "flex-direction"@, "row"@);
    let s = styled(s, "justify-content"@, "justify-content"@, "flex-start"@);
    s
}

/// The styles that every button starts from.
pub open spec fn button_styles() -> Seq<(Seq<char>, EffectView)> {
    let s = Seq::<(Seq<char>, EffectView)>::empty();
    let s = styled(s, "COLOR"@, "color"@, Colors::White.text());
    let s = styled(s, "cursor"@, "cursor"@, "pointer"@);
    let s = styled(s, "BORDER_STYLE"@, "border-style"@, "none"@);
    let s = styled(s, "font-size"@, "font-size"@, Size::Pixel(14).text());
    let s = styled(s, "font-family"@, "font-family"@, Font::SansSerif.text());
    let s = styled(s, "TEXT_TRANSFORM"@, "text-transform"@, "uppercase"@);
    let s = styled(s, "BORDER_RADIUS"@, "border-radius"@, Size::Pixel(5).text());
    let s = styled(s, "padding-block"@, "padding-block"@, Size::Pixel(10).text());
    let s = styled(s, "padding-inline"@, "padding-inline"@, Size::Pixel(45).text());
    let s = styled(s, "font-weight"@, "font-weight"@, "600"@);
    s
}

/// The styles of a primary button: the shared ones, and a filled background.
pub open spec fn primary_styles() -> Seq<(Seq<char>, EffectView)> {
    let s = button_styles();
    let s = styled(s, "BACKGROUND"@, "background"@, "#6979F8"@);
    s
}

/// The styles of a text button: the shared ones, a coloured text and no
/// background.
pub open spec fn text_styles() -> Seq<(Seq<char>, EffectView)> {
    let s = button_styles();
    let s = styled(s, "COLOR"@, "color"@, "#6979F8"@);
    let s = styled(s, "BACKGROUND"@, "background"@, Colors::NoColor.text());
    s
}

/// The styles of a disabled button: the shared ones, a pale text on a pale
/// background, and the usual pointer.
pub open spec fn disabled_styles() -> Seq<(Seq<char>, EffectView)> {
    let s = button_styles();
    let s = styled(s, "COLOR"@, "color"@, Colors::Lightgray.text());
    let s = styled(s, "cursor"@, "cursor"@, "default"@);
    let s = styled(s, "BACKGROUND"@, "background"@, "#FBE4E8"@);
    s
}

/// The styles of a new link.
pub open spec fn link_styles() -> Seq<(Seq<char>, EffectView)> {
    let s = Seq::<(Seq<char>, EffectView)>::empty();
    let s = styled(s, "COLOR"@, "color"@, "#3F3356"@);
    let s = styled(s, "TEXT_DECORATION"@, "text-decoration"@, "none"@);
    let s = styled(s, "font-size"@, "font-size"@, Size::Pixel(16).text());
    let s = styled(s, "font-family"@, "font-family"@, Font::SansSerif.text());
    let s = styled(s, "cursor"@, "cursor"@, "pointer"@);
    s
}

/// The colours of a label's text and of its background, in this order, when it
/// is shown as enabled or as disabled.
pub open spec fn label_colors(is: bool) -> (EffectView, EffectView) {
    if is {
        (
            EffectView { property: "color"@, value: Colors::White.text() },
            EffectView { property: "background"@, value: "#BE52F2"@ },
        )
    } else {
        (
            EffectView { property: "color"@, value: "#BE52F2"@ },
            EffectView { property: "background"@, value: "#EEDFF2"@ },
        )
    }
}

/// The colours of an input's text and of its background, in this order, when it
/// is shown as enabled or as disabled.
pub open spec fn input_colors(is: bool) -> (EffectView, EffectView) {
    if is {
        (
            EffectView { property: "color"@, value: "#1A051D"@ },
            EffectView { property: "background"@, value: Colors::White.text() },
        )
    } else {
        (
            EffectView { property: "color"@, value: "#D0C9D6"@ },
            EffectView { property: "background"@, value: "#ECE9F1"@ },
        )
    }
}

/// `styles` after the colours of the text and of the background were set anew.
/// Nothing else changes.
pub open spec fn recolored(styles: Seq<(Seq<char>, EffectView)>, colors: (EffectView, EffectView)) -> Seq<
    (Seq<char>, EffectView),
> {
    put(put(styles, "COLOR"@, colors.0), "BACKGROUND"@, colors.1)
}

/// The widget `n` after the colours of its text and of its background were set
/// anew, in its dictionary and on the element of its last build.
pub open spec fn repainted(n: NodeView, colors: (EffectView, EffectView)) -> NodeView {
    restyled(restyled(n, "COLOR"@, colors.0), "BACKGROUND"@, colors.1)
}

/// The styles of a new label, before it is shown as enabled.
pub open spec fn label_styles() -> Seq<(Seq<char>, EffectView)> {
    let s = Seq::<(Seq<char>, EffectView)>::empty();
    let s = styled(s, "font-size"@, "font-size"@, Size::Pixel(16).text());
    let s = styled(s, "TEXT_TRANSFORM"@, "text-transform"@, "uppercase"@);
    let s = styled(s, "font-family"@, "font-family"@, Font::SansSerif.text());
    let s = styled(s, "BORDER_RADIUS"@, "border-radius"@, Size::Pixel(5).text());
    let s = styled(s, "padding-block"@, "padding-block"@, Size::Pixel(8).text());
    let s = styled(s, "padding-inline"@, "padding-inline"@, Size::Pixel(14).text());
    s
}

/// The styles of a new input, before it is shown as enabled.
pub open spec fn input_styles() -> Seq<(Seq<char>, EffectView)> {
    let s = Seq::<(Seq<char>, EffectView)>::empty();
    let s = styled(s, "width"@, "width"@, Size::Pixel(210).text());
    let s = styled(s, "height"@, "height"@, Size::Pixel(40).text());
    let s = styled(s, "font-size"@, "font-size"@, Size::Pixel(15).text());
    let s = styled(s, "TEXT_TRANSFORM"@, "text-transform"@, "capitalize"@);
    let s = styled(s, "font-family"@, "font-family"@, Font::SansSerif.text());
    let s = styled(s, "BORDER_RADIUS"@, "border-radius"@, Size::Pixel(5).text());
    let s = styled(s, "padding-left"@, "padding-left"@, Size::Pixel(14).text());
    let s = styled(s, "BORDER_STYLE"@, "border-style"@, "solid"@);
    let s = styled(s, "BORDER_WIDTH"@, "border-width"@, Size::Pixel(2).text());
    let s = styled(s, "BORDER_COLOR"@, "border-color"@, "#ECE9F1"@);
    s
}

impl Body {
    /// The root with `child` as its one child, without styles.
    pub fn new<V: Viewable>(child: V) -> (r: Body)
        ensures
            r.model() == (NodeView {
                children: seq![child.model()],
                ..NodeView::plain(Kind::Body, Seq::empty(), Seq::empty())
            }),
    {
        Body { child: Box::new(child.into_node()), styles: StyleDictionary::new(), html_element: None }
    }

    /// The root as a node of a tree.
    pub fn make(self) -> (r: Node)
        ensures
            node_model(r) == self.model(),
    {
        Node::Body(self)
    }
}

impl Styleable for Body {
    fn store_style<S: Style>(&mut self, style: S) {
        assert(self.model() == node_model(Node::Body(*self)));
        self.styles.set(style);
        assert(self.model().children =~= old(self).model().children);
    }

    fn styles(&self) -> (r: &StyleDictionary) {
        assert(self.model() == node_model(Node::Body(*self)));
        proof {
            use_type_invariant(&self.styles);
        }
        &self.styles
    }
}

impl Widget for Body {}

impl Viewable for Body {
    closed spec fn model(&self) -> NodeView {
        node_model(Node::Body(*self))
    }

    fn get_tag(&self) -> (r: &'static str) {
        assert(self.model() == node_model(Node::Body(*self)));
        "body"
    }

    fn get_html_element(&mut self) -> (r: Option<&Element>) {
        assert(self.model() == node_model(Node::Body(*self)));
        match &self.html_element {
            Some(e) => Some(e),
            None => None,
        }
    }

    fn set<S: Style>(&mut self, style: &S) {
        assert(self.model() == node_model(Node::Body(*self)));
        match &mut self.html_element {
            Some(e) => {
                let _ = style.build(e);
            },
            None => {},
        }
        assert(self.model().children =~= old(self).model().children);
    }

    fn render(&mut self, element: Element, document: &Document) -> (r: Result<Element, Error>)
        decreases *old(self), 1nat,
    {
        assert(self.model() == node_model(Node::Body(*self)));
        let mut element = element;
        self.styles.apply_all(&mut element)?;
        let ghost before = self.model().children;
        let ghost parent = element@;
        proof {
            assert((*self.child).model() == node_model(*self.child));
            assert(before =~= seq![node_model(*self.child)]);
            assert(before.take(1) =~= before);
            assert(before.take(0) =~= Seq::<NodeView>::empty());
            lemma_attached_next(before, 0, parent, document@);
            lemma_after_all(before, document@);
            assert(built_before(before, 0, document@));
        }
        let built = self.child.build(document);
        proof {
            assert(self.model() == node_model(Node::Body(*self)));
            assert(self.model().children =~= after_all(before, document@));
        }
        let child = built?;
        element.append_child(child);
        self.html_element = Some(element.duplicate());
        proof {
            assert(self.model().children =~= after_all(before, document@));
        }
        Ok(element)
    }

    fn build(&mut self, document: &Document) -> (r: Result<Element, Error>)
        decreases *old(self), 2nat,
    {
        assert(self.model() == node_model(Node::Body(*self)));
        match document.body() {
            Some(element) => self.render(element, document),
            None => Err(Error::NoBodyFound),
        }
    }

    fn into_node(self) -> (r: Node) {
        assert(self.model() == node_model(Node::Body(self)));
        Node::Body(self)
    }
}

impl Column {
    /// The column without children. Its styles say that children go below one
    /// another, from the start of the column.
    pub fn new() -> (r: Column)
        ensures
            r.model() == NodeView::plain(Kind::Column, Seq::empty(), column_styles()),
    {
        let mut column = Column {
            children: Vec::new(),
            styles: StyleDictionary::new(),
            html_element: None,
        };
        assert(column.model().children =~= Seq::<NodeView>::empty());
        column.style(ContainerDirection::column()).style(Justify::start());
        column
    }

    /// The column with `child` behind its other children.
    pub fn child<V: Viewable>(self, child: V) -> (r: Column)
        ensures
            r.model() == (NodeView {
                children: self.model().children.push(child.model()),
                ..self.model()
            }),
    {
        let mut column = self;
        column.children.push(child.into_node());
        assert(column.model().children =~= self.model().children.push(child.model()));
        column
    }

    /// What `f` makes of the column.
    pub fn apply<F: Fn(Column) -> Column>(self, f: F) -> (r: Column)
        requires
            f.requires((self,)),
        ensures
            f.ensures((self,), r),
    {
        f(self)
    }
}

impl Styleable for Column {
    fn store_style<S: Style>(&mut self, style: S) {
        assert(self.model() == node_model(Node::Column(*self)));
        self.styles.set(style);
        assert(self.model().children =~= old(self).model().children);
    }

    fn styles(&self) -> (r: &StyleDictionary) {
        assert(self.model() == node_model(Node::Column(*self)));
        proof {
            use_type_invariant(&self.styles);
        }
        &self.styles
    }
}

impl Widget for Column {}

impl Viewable for Column {
    closed spec fn model(&self) -> NodeView {
        node_model(Node::Column(*self))
    }

    fn get_tag(&self) -> (r: &'static str) {
        assert(self.model() == node_model(Node::Column(*self)));
        "div"
    }

    fn get_html_element(&mut self) -> (r: Option<&Element>) {
        assert(self.model() == node_model(Node::Column(*self)));
        match &self.html_element {
            Some(e) => Some(e),
            None => None,
        }
    }

    fn set<S: Style>(&mut self, style: &S) {
        assert(self.model() == node_model(Node::Column(*self)));
        match &mut self.html_element {
            Some(e) => {
                let _ = style.build(e);
            },
            None => {},
        }
        assert(self.model().children =~= old(self).model().children);
    }

    fn render(&mut self, element: Element, document: &Document) -> (r: Result<Element, Error>)
        decreases *old(self), 1nat,
    {
        assert(self.model() == node_model(Node::Column(*self)));
        let mut element = element;
        self.styles.apply_all(&mut element)?;
        assert(models(self.children@) =~= self.model().children);
        let attached = render_children(&mut self.children, element, document);
        assert(models(self.children@) =~= self.model().children);
        let element = attached?;
        self.html_element = Some(element.duplicate());
        assert(models(self.children@) =~= self.model().children);
        Ok(element)
    }

    fn build(&mut self, document: &Document) -> (r: Result<Element, Error>)
        decreases *old(self), 2nat,
    {
        assert(self.model() == node_model(Node::Column(*self)));
        let element = document.create_element(self.get_tag())?;
        self.render(element, document)
    }

    fn into_node(self) -> (r: Node) {
        assert(self.model() == node_model(Node::Column(self)));
        Node::Column(self)
    }
}

impl Row {
    /// The row without children. Its styles say that children go beside one
    /// another, from the start of the row.
    pub fn new() -> (r: Row)
        ensures
            r.model() == NodeView::plain(Kind::Row, Seq::empty(), row_styles()),
    {
        let mut row = Row {
            children: Vec::new(),
            styles: StyleDictionary::new(),
            html_element: None,
        };
        assert(row.model().children =~= Seq::<NodeView>::empty());
        row.style(ContainerDirection::row()).style(Justify::start());
        row
    }

    /// The row with `child` behind its other children.
    pub fn child<V: Viewable>(self, child: V) -> (r: Row)
        ensures
            r.model() == (NodeView {
                children: self.model().children.push(child.model()),
                ..self.model()
            }),
    {
        let mut row = self;
        row.children.push(child.into_node());
        assert(row.model().children =~= self.model().children.push(child.model()));
        row
    }

    /// What `f` makes of the row.
    pub fn apply<F: Fn(Row) -> Row>(self, f: F) -> (r: Row)
        requires
            f.requires((self,)),
        ensures
            f.ensures((self,), r),
    {
        f(self)
    }
}

impl Styleable for Row {
    fn store_style<S: Style>(&mut self, style: S) {
        assert(self.model() == node_model(Node::Row(*self)));
        self.styles.set(style);
        assert(self.model().children =~= old(self).model().children);
    }

    fn styles(&self) -> (r: &StyleDictionary) {
        assert(self.model() == node_model(Node::Row(*self)));
        proof {
            use_type_invariant(&self.styles);
        }
        &self.styles
    }
}

impl Widget for Row {}

impl Viewable for Row {
    closed spec fn model(&self) -> NodeView {
        node_model(Node::Row(*self))
    }

    fn get_tag(&self) -> (r: &'static str) {
        assert(self.model() == node_model(Node::Row(*self)));
        "div"
    }

    fn get_html_element(&mut self) -> (r: Option<&Element>) {
        assert(self.model() == node_model(Node::Row(*self)));
        match &self.html_element {
            Some(e) => Some(e),
            None => None,
        }
    }

    fn set<S: Style>(&mut self, style: &S) {
        assert(self.model() == node_model(Node::Row(*self)));
        match &mut self.html_element {
            Some(e) => {
                let _ = style.build(e);
            },
            None => {},
        }
        assert(self.model().children =~= old(self).model().children);
    }

    fn render(&mut self, element: Element, document: &Document) -> (r: Result<Element, Error>)
        decreases *old(self), 1nat,
    {
        assert(self.model() == node_model(Node::Row(*self)));
        let mut element = element;
        self.styles.apply_all(&mut element)?;
        assert(models(self.children@) =~= self.model().children);
        let attached = render_children(&mut self.children, element, document);
        assert(models(self.children@) =~= self.model().children);
        let element = attached?;
        self.html_element = Some(element.duplicate());
        assert(models(self.children@) =~= self.model().children);
        Ok(element)
    }

    fn build(&mut self, document: &Document) -> (r: Result<Element, Error>)
        decreases *old(self), 2nat,
    {
        assert(self.model() == node_model(Node::Row(*self)));
        let element = document.create_element(self.get_tag())?;
        self.render(element, document)
    }

    fn into_node(self) -> (r: Node) {
        assert(self.model() == node_model(Node::Row(self)));
        Node::Row(self)
    }
}

impl Text {
    /// The paragraph with the text `str`, without styles.
    pub fn new(str: &'static str) -> (r: Text)
        ensures
            r.model() == NodeView::plain(Kind::Text, str@, Seq::empty()),
    {
        Text { str, styles: StyleDictionary::new(), html_element: None }
    }

    /// What `f` makes of the text.
    pub fn apply<F: Fn(Text) -> Text>(self, f: F) -> (r: Text)
        requires
            f.requires((self,)),
        ensures
            f.ensures((self,), r),
    {
        f(self)
    }
}

impl Styleable for Text {
    fn store_style<S: Style>(&mut self, style: S) {
        assert(self.model() == node_model(Node::Text(*self)));
        self.styles.set(style);
    }

    fn styles(&self) -> (r: &StyleDictionary) {
        assert(self.model() == node_model(Node::Text(*self)));
        proof {
            use_type_invariant(&self.styles);
        }
        &self.styles
    }
}

impl Widget for Text {}

impl Viewable for Text {
    closed spec fn model(&self) -> NodeView {
        node_model(Node::Text(*self))
    }

    fn get_tag(&self) -> (r: &'static str) {
        assert(self.model() == node_model(Node::Text(*self)));
        "p"
    }

    fn get_html_element(&mut self) -> (r: Option<&Element>) {
        assert(self.model() == node_model(Node::Text(*self)));
        match &self.html_element {
            Some(e) => Some(e),
            None => None,
        }
    }

    fn set<S: Style>(&mut self, style: &S) {
        assert(self.model() == node_model(Node::Text(*self)));
        match &mut self.html_element {
            Some(e) => {
                let _ = style.build(e);
            },
            None => {},
        }
    }

    fn render(&mut self, element: Element, document: &Document) -> (r: Result<Element, Error>)
    {
        assert(self.model() == node_model(Node::Text(*self)));
        let mut element = element;
        element.set_text_content(self.str);
        self.styles.apply_all(&mut element)?;
        self.html_element = Some(element.duplicate());
        Ok(element)
    }

    fn build(&mut self, document: &Document) -> (r: Result<Element, Error>)
    {
        assert(self.model() == node_model(Node::Text(*self)));
        let element = document.create_element(self.get_tag())?;
        self.render(element, document)
    }

    fn into_node(self) -> (r: Node) {
        assert(self.model() == node_model(Node::Text(self)));
        Node::Text(self)
    }
}

impl Button {
    /// The primary button with the text `str`.
    pub fn new(str: &'static str) -> (r: Button)
        ensures
            r.model() == NodeView::plain(Kind::Button, str@, primary_styles()),
    {
        Button::primary(str)
    }

    /// The button with the text `str` and the styles that every button starts
    /// from.
    fn prepare(str: &'static str) -> (r: Button)
        ensures
            r.model() == NodeView::plain(Kind::Button, str@, button_styles()),
    {
        let mut button = Button { str, styles: StyleDictionary::new(), html_element: None };
        button.style(Color::new(Colors::White)).style(Cursor::pointer()).style(
            BorderStyle::none(),
        ).style(FontSize::new(Size::Pixel(14))).style(FontFamily::new(Font::SansSerif)).style(
            TextTransform::uppercase(),
        ).style(BorderRadius::new(Size::Pixel(5))).style(Padding::block(Size::Pixel(10))).style(
            Padding::inline(Size::Pixel(45)),
        ).style(FontWeight::new("600"));
        button
    }

    /// The button for the main action: white text on a filled background.
    pub fn primary(str: &'static str) -> (r: Button)
        ensures
            r.model() == NodeView::plain(Kind::Button, str@, primary_styles()),
    {
        let mut button = Button::prepare(str);
        button.style(Background::color(Colors::Custom("#6979F8")));
        button
    }

    /// The button that looks like text: coloured text, no background.
    pub fn text(str: &'static str) -> (r: Button)
        ensures
            r.model() == NodeView::plain(Kind::Button, str@, text_styles()),
    {
        let mut button = Button::prepare(str);
        button.style(Color::new(Colors::Custom("#6979F8"))).style(
            Background::color(Colors::NoColor),
        );
        button
    }

    /// The button that cannot be used: pale, with the usual pointer.
    pub fn disabled(str: &'static str) -> (r: Button)
        ensures
            r.model() == NodeView::plain(Kind::Button, str@, disabled_styles()),
    {
        let mut button = Button::prepare(str);
        button.style(Color::new(Colors::Lightgray)).style(Cursor::default()).style(
            Background::color(Colors::Custom("#FBE4E8")),
        );
        button
    }

    /// What `f` makes of the button.
    pub fn apply<F: Fn(Button) -> Button>(self, f: F) -> (r: Button)
        requires
            f.requires((self,)),
        ensures
            f.ensures((self,), r),
    {
        f(self)
    }
}

impl Styleable for Button {
    fn store_style<S: Style>(&mut self, style: S) {
        assert(self.model() == node_model(Node::Button(*self)));
        self.styles.set(style);
    }

    fn styles(&self) -> (r: &StyleDictionary) {
        assert(self.model() == node_model(Node::Button(*self)));
        proof {
            use_type_invariant(&self.styles);
        }
        &self.styles
    }
}

impl Widget for Button {}

impl Viewable for Button {
    closed spec fn model(&self) -> NodeView {
        node_model(Node::Button(*self))
    }

    fn get_tag(&self) -> (r: &'static str) {
        assert(self.model() == node_model(Node::Button(*self)));
        "button"
    }

    fn get_html_element(&mut self) -> (r: Option<&Element>) {
        assert(self.model() == node_model(Node::Button(*self)));
        match &self.html_element {
            Some(e) => Some(e),
            None => None,
        }
    }

    fn set<S: Style>(&mut self, style: &S) {
        assert(self.model() == node_model(Node::Button(*self)));
        match &mut self.html_element {
            Some(e) => {
                let _ = style.build(e);
            },
            None => {},
        }
    }

    fn render(&mut self, element: Element, document: &Document) -> (r: Result<Element, Error>)
    {
        assert(self.model() == node_model(Node::Button(*self)));
        let mut element = element;
        element.set_text_content(self.str);
        self.styles.apply_all(&mut element)?;
        self.html_element = Some(element.duplicate());
        Ok(element)
    }

    fn build(&mut self, document: &Document) -> (r: Result<Element, Error>)
    {
        assert(self.model() == node_model(Node::Button(*self)));
        let element = document.create_element(self.get_tag())?;
        self.render(element, document)
    }

    fn into_node(self) -> (r: Node) {
        assert(self.model() == node_model(Node::Button(self)));
        Node::Button(self)
    }
}

impl Link {
    /// The link with the text `str` that leads to `address`.
    pub fn new(str: &'static str, address: &'static str) -> (r: Link)
        ensures
            r.model() == (NodeView {
                address: address@,
                ..NodeView::plain(Kind::Link, str@, link_styles())
            }),
    {
        let mut link = Link { str, address, styles: StyleDictionary::new(), html_element: None };
        link.style(Color::new(Colors::Custom("#3F3356"))).style(TextDecoration::none()).style(
            FontSize::new(Size::Pixel(16)),
        ).style(FontFamily::new(Font::SansSerif)).style(Cursor::pointer());
        link
    }

    /// What `f` makes of the link.
    pub fn apply<F: Fn(Link) -> Link>(self, f: F) -> (r: Link)
        requires
            f.requires((self,)),
        ensures
            f.ensures((self,), r),
    {
        f(self)
    }
}

impl Styleable for Link {
    fn store_style<S: Style>(&mut self, style: S) {
        assert(self.model() == node_model(Node::Link(*self)));
        self.styles.set(style);
    }

    fn styles(&self) -> (r: &StyleDictionary) {
        assert(self.model() == node_model(Node::Link(*self)));
        proof {
            use_type_invariant(&self.styles);
        }
        &self.styles
    }
}

impl Widget for Link {}

impl Viewable for Link {
    closed spec fn model(&self) -> NodeView {
        node_model(Node::Link(*self))
    }

    fn get_tag(&self) -> (r: &'static str) {
        assert(self.model() == node_model(Node::Link(*self)));
        "a"
    }

    fn get_html_element(&mut self) -> (r: Option<&Element>) {
        assert(self.model() == node_model(Node::Link(*self)));
        match &self.html_element {
            Some(e) => Some(e),
            None => None,
        }
    }

    fn set<S: Style>(&mut self, style: &S) {
        assert(self.model() == node_model(Node::Link(*self)));
        match &mut self.html_element {
            Some(e) => {
                let _ = style.build(e);
            },
            None => {},
        }
    }

    fn render(&mut self, element: Element, document: &Document) -> (r: Result<Element, Error>)
    {
        assert(self.model() == node_model(Node::Link(*self)));
        let mut element = element;
        element.set_text_content(self.str);
        element.set_attribute("href", self.address);
        self.styles.apply_all(&mut element)?;
        self.html_element = Some(element.duplicate());
        Ok(element)
    }

    fn build(&mut self, document: &Document) -> (r: Result<Element, Error>)
    {
        assert(self.model() == node_model(Node::Link(*self)));
        let element = document.create_element(self.get_tag())?;
        self.render(element, document)
    }

    fn into_node(self) -> (r: Node) {
        assert(self.model() == node_model(Node::Link(self)));
        Node::Link(self)
    }
}

impl Label {
    /// The label with the text `str`, shown as enabled.
    pub fn new(str: &'static str) -> (r: Label)
        ensures
            r.model() == NodeView::plain(Kind::Label, str@, recolored(label_styles(), label_colors(true))),
    {
        let mut label = Label { str, styles: StyleDictionary::new(), html_element: None };
        label.style(FontSize::new(Size::Pixel(16))).style(TextTransform::uppercase()).style(
            FontFamily::new(Font::SansSerif),
        ).style(BorderRadius::new(Size::Pixel(5))).style(Padding::block(Size::Pixel(8))).style(
            Padding::inline(Size::Pixel(14)),
        ).enable(true);
        label
    }

    /// Shows the label as enabled, in white on a full colour, or as disabled, in
    /// that colour on a pale one. The two colours are set anew each time.
    pub fn enable(&mut self, is: bool) -> (r: &Self)
        ensures
            final(self).model() == repainted(old(self).model(), label_colors(is)),
            *r == *final(self),
    {
        if is {
            self.style(Color::new(Colors::White)).style(
                Background::color(Colors::Custom("#BE52F2")),
            )
        } else {
            self.style(Color::new(Colors::Custom("#BE52F2"))).style(
                Background::color(Colors::Custom("#EEDFF2")),
            )
        }
    }

    /// What `f` makes of the label.
    pub fn apply<F: Fn(Label) -> Label>(self, f: F) -> (r: Label)
        requires
            f.requires((self,)),
        ensures
            f.ensures((self,), r),
    {
        f(self)
    }
}

impl Styleable for Label {
    fn store_style<S: Style>(&mut self, style: S) {
        assert(self.model() == node_model(Node::Label(*self)));
        self.styles.set(style);
    }

    fn styles(&self) -> (r: &StyleDictionary) {
        assert(self.model() == node_model(Node::Label(*self)));
        proof {
            use_type_invariant(&self.styles);
        }
        &self.styles
    }
}

impl Widget for Label {}

impl Viewable for Label {
    closed spec fn model(&self) -> NodeView {
        node_model(Node::Label(*self))
    }

    fn get_tag(&self) -> (r: &'static str) {
        assert(self.model() == node_model(Node::Label(*self)));
        "div"
    }

    fn get_html_element(&mut self) -> (r: Option<&Element>) {
        assert(self.model() == node_model(Node::Label(*self)));
        match &self.html_element {
            Some(e) => Some(e),
            None => None,
        }
    }

    fn set<S: Style>(&mut self, style: &S) {
        assert(self.model() == node_model(Node::Label(*self)));
        match &mut self.html_element {
            Some(e) => {
                let _ = style.build(e);
            },
            None => {},
        }
    }

    fn render(&mut self, element: Element, document: &Document) -> (r: Result<Element, Error>)
    {
        assert(self.model() == node_model(Node::Label(*self)));
        let mut element = element;
        element.set_text_content(self.str);
        self.styles.apply_all(&mut element)?;
        self.html_element = Some(element.duplicate());
        Ok(element)
    }

    fn build(&mut self, document: &Document) -> (r: Result<Element, Error>)
    {
        assert(self.model() == node_model(Node::Label(*self)));
        let element = document.create_element(self.get_tag())?;
        self.render(element, document)
    }

    fn into_node(self) -> (r: Node) {
        assert(self.model() == node_model(Node::Label(self)));
        Node::Label(self)
    }
}

impl Input {
    /// The input with the value `str`, without placeholder, taking typing and
    /// shown as enabled.
    pub fn new(str: &'static str) -> (r: Input)
        ensures
            r.model() == (NodeView {
                placeholder: ""@,
                ..NodeView::plain(Kind::Input, str@, recolored(input_styles(), input_colors(true)))
            }),
    {
        let mut input = Input {
            str,
            placeholder: "",
            enabled: true,
            styles: StyleDictionary::new(),
            html_element: None,
        };
        input.style(Width::new(Size::Pixel(210))).style(Height::new(Size::Pixel(40))).style(
            FontSize::new(Size::Pixel(15)),
        ).style(TextTransform::capitalize()).style(FontFamily::new(Font::SansSerif)).style(
            BorderRadius::new(Size::Pixel(5)),
        ).style(Padding::left(Size::Pixel(14))).style(BorderStyle::solid()).style(
            BorderWidth::new(Size::Pixel(2)),
        ).style(BorderColor::new(Colors::Custom("#ECE9F1"))).enable(true);
        input
    }

    /// Lets the input take typing, or not, and shows it so: dark on white when
    /// enabled, pale on pale when disabled. The two colours are set anew each
    /// time.
    pub fn enable(&mut self, is: bool) -> (r: &Self)
        ensures
            final(self).model() == repainted(
                NodeView { enabled: is, ..old(self).model() },
                input_colors(is),
            ),
            *r == *final(self),
    {
        self.enabled = is;
        if is {
            self.style(Color::new(Colors::Custom("#1A051D"))).style(
                Background::color(Colors::White),
            )
        } else {
            self.style(Color::new(Colors::Custom("#D0C9D6"))).style(
                Background::color(Colors::Custom("#ECE9F1")),
            )
        }
    }

    /// What `f` makes of the input.
    pub fn apply<F: Fn(Input) -> Input>(self, f: F) -> (r: Input)
        requires
            f.requires((self,)),
        ensures
            f.ensures((self,), r),
    {
        f(self)
    }
}

impl Styleable for Input {
    fn store_style<S: Style>(&mut self, style: S) {
        assert(self.model() == node_model(Node::Input(*self)));
        self.styles.set(style);
    }

    fn styles(&self) -> (r: &StyleDictionary) {
        assert(self.model() == node_model(Node::Input(*self)));
        proof {
            use_type_invariant(&self.styles);
        }
        &self.styles
    }
}

impl Widget for Input {}

impl Viewable for Input {
    closed spec fn model(&self) -> NodeView {
        node_model(Node::Input(*self))
    }

    fn get_tag(&self) -> (r: &'static str) {
        assert(self.model() == node_model(Node::Input(*self)));
        "input"
    }

    fn get_html_element(&mut self) -> (r: Option<&Element>) {
        assert(self.model() == node_model(Node::Input(*self)));
        match &self.html_element {
            Some(e) => Some(e),
            None => None,
        }
    }

    fn set<S: Style>(&mut self, style: &S) {
        assert(self.model() == node_model(Node::Input(*self)));
        match &mut self.html_element {
            Some(e) => {
                let _ = style.build(e);
            },
            None => {},
        }
    }

    fn render(&mut self, element: Element, document: &Document) -> (r: Result<Element, Error>)
    {
        assert(self.model() == node_model(Node::Input(*self)));
        let mut element = element;
        element.set_attribute("value", self.str);
        element.set_attribute("placeholder", self.placeholder);
        if self.enabled {
            element.remove_attribute("disabled");
        } else {
            element.set_attribute("disabled", "");
        }
        self.styles.apply_all(&mut element)?;
        self.html_element = Some(element.duplicate());
        Ok(element)
    }

    fn build(&mut self, document: &Document) -> (r: Result<Element, Error>)
    {
        assert(self.model() == node_model(Node::Input(*self)));
        let element = document.create_element(self.get_tag())?;
        self.render(element, document)
    }

    fn into_node(self) -> (r: Node) {
        assert(self.model() == node_model(Node::Input(self)));
        Node::Input(self)
    }
}

impl Viewable for Node {
    open spec fn model(&self) -> NodeView {
        node_model(*self)
    }

    fn get_tag(&self) -> (r: &'static str) {
        assert(self.model() == node_model(*self));
        match self {
            Node::Body(w) => {
                assert(w.model() == node_model(Node::Body(*w)));
                w.get_tag()
            },
            Node::Column(w) => {
                assert(w.model() == node_model(Node::Column(*w)));
                w.get_tag()
            },
            Node::Row(w) => {
                assert(w.model() == node_model(Node::Row(*w)));
                w.get_tag()
            },
            Node::Text(w) => {
                assert(w.model() == node_model(Node::Text(*w)));
                w.get_tag()
            },
            Node::Button(w) => {
                assert(w.model() == node_model(Node::Button(*w)));
                w.get_tag()
            },
            Node::Link(w) => {
                assert(w.model() == node_model(Node::Link(*w)));
                w.get_tag()
            },
            Node::Label(w) => {
                assert(w.model() == node_model(Node::Label(*w)));
                w.get_tag()
            },
            Node::Input(w) => {
                assert(w.model() == node_model(Node::Input(*w)));
                w.get_tag()
            },
        }
    }

    fn get_html_element(&mut self) -> (r: Option<&Element>) {
        assert(self.model() == node_model(*self));
        match self {
            Node::Body(w) => {
                assert(w.model() == node_model(Node::Body(*w)));
                w.get_html_element()
            },
            Node::Column(w) => {
                assert(w.model() == node_model(Node::Column(*w)));
                w.get_html_element()
            },
            Node::Row(w) => {
                assert(w.model() == node_model(Node::Row(*w)));
                w.get_html_element()
            },
            Node::Text(w) => {
                assert(w.model() == node_model(Node::Text(*w)));
                w.get_html_element()
            },
            Node::Button(w) => {
                assert(w.model() == node_model(Node::Button(*w)));
                w.get_html_element()
            },
            Node::Link(w) => {
                assert(w.model() == node_model(Node::Link(*w)));
                w.get_html_element()
            },
            Node::Label(w) => {
                assert(w.model() == node_model(Node::Label(*w)));
                w.get_html_element()
            },
            Node::Input(w) => {
                assert(w.model() == node_model(Node::Input(*w)));
                w.get_html_element()
            },
        }
    }

    fn set<S: Style>(&mut self, style: &S) {
        assert(self.model() == node_model(*self));
        match self {
            Node::Body(w) => {
                assert(w.model() == node_model(Node::Body(*w)));
                w.set(style)
            },
            Node::Column(w) => {
                assert(w.model() == node_model(Node::Column(*w)));
                w.set(style)
            },
            Node::Row(w) => {
                assert(w.model() == node_model(Node::Row(*w)));
                w.set(style)
            },
            Node::Text(w) => {
                assert(w.model() == node_model(Node::Text(*w)));
                w.set(style)
            },
            Node::Button(w) => {
                assert(w.model() == node_model(Node::Button(*w)));
                w.set(style)
            },
            Node::Link(w) => {
                assert(w.model() == node_model(Node::Link(*w)));
                w.set(style)
            },
            Node::Label(w) => {
                assert(w.model() == node_model(Node::Label(*w)));
                w.set(style)
            },
            Node::Input(w) => {
                assert(w.model() == node_model(Node::Input(*w)));
                w.set(style)
            },
        }
    }

    fn render(&mut self, element: Element, document: &Document) -> (r: Result<Element, Error>)
        decreases *old(self), 0nat,
    {
        assert(self.model() == node_model(*self));
        match self {
            Node::Body(w) => {
                assert(w.model() == node_model(Node::Body(*w)));
                w.render(element, document)
            },
            Node::Column(w) => {
                assert(w.model() == node_model(Node::Column(*w)));
                w.render(element, document)
            },
            Node::Row(w) => {
                assert(w.model() == node_model(Node::Row(*w)));
                w.render(element, document)
            },
            Node::Text(w) => {
                assert(w.model() == node_model(Node::Text(*w)));
                w.render(element, document)
            },
            Node::Button(w) => {
                assert(w.model() == node_model(Node::Button(*w)));
                w.render(element, document)
            },
            Node::Link(w) => {
                assert(w.model() == node_model(Node::Link(*w)));
                w.render(element, document)
            },
            Node::Label(w) => {
                assert(w.model() == node_model(Node::Label(*w)));
                w.render(element, document)
            },
            Node::Input(w) => {
                assert(w.model() == node_model(Node::Input(*w)));
                w.render(element, document)
            },
        }
    }

    fn build(&mut self, document: &Document) -> (r: Result<Element, Error>)
        decreases *old(self), 0nat,
    {
        assert(self.model() == node_model(*self));
        match self {
            Node::Body(w) => {
                assert(w.model() == node_model(Node::Body(*w)));
                w.build(document)
            },
            Node::Column(w) => {
                assert(w.model() == node_model(Node::Column(*w)));
                w.build(document)
            },
            Node::Row(w) => {
                assert(w.model() == node_model(Node::Row(*w)));
                w.build(document)
            },
            Node::Text(w) => {
                assert(w.model() == node_model(Node::Text(*w)));
                w.build(document)
            },
            Node::Button(w) => {
                assert(w.model() == node_model(Node::Button(*w)));
                w.build(document)
            },
            Node::Link(w) => {
                assert(w.model() == node_model(Node::Link(*w)));
                w.build(document)
            },
            Node::Label(w) => {
                assert(w.model() == node_model(Node::Label(*w)));
                w.build(document)
            },
            Node::Input(w) => {
                assert(w.model() == node_model(Node::Input(*w)));
                w.build(document)
            },
        }
    }

    fn into_node(self) -> (r: Node)
        ensures
            r == self,
    {
        assert(self.model() == node_model(self));
        self
    }
}

impl Styleable for Node {
    fn store_style<S: Style>(&mut self, style: S) {
        assert(self.model() == node_model(*self));
        match self {
            Node::Body(w) => {
                assert(w.model() == node_model(Node::Body(*w)));
                w.store_style(style)
            },
            Node::Column(w) => {
                assert(w.model() == node_model(Node::Column(*w)));
                w.store_style(style)
            },
            Node::Row(w) => {
                assert(w.model() == node_model(Node::Row(*w)));
                w.store_style(style)
            },
            Node::Text(w) => {
                assert(w.model() == node_model(Node::Text(*w)));
                w.store_style(style)
            },
            Node::Button(w) => {
                assert(w.model() == node_model(Node::Button(*w)));
                w.store_style(style)
            },
            Node::Link(w) => {
                assert(w.model() == node_model(Node::Link(*w)));
                w.store_style(style)
            },
            Node::Label(w) => {
                assert(w.model() == node_model(Node::Label(*w)));
                w.store_style(style)
            },
            Node::Input(w) => {
                assert(w.model() == node_model(Node::Input(*w)));
                w.store_style(style)
            },
        }
    }

    fn styles(&self) -> (r: &StyleDictionary) {
        assert(self.model() == node_model(*self));
        match self {
            Node::Body(w) => {
                assert(w.model() == node_model(Node::Body(*w)));
                w.styles()
            },
            Node::Column(w) => {
                assert(w.model() == node_model(Node::Column(*w)));
                w.styles()
            },
            Node::Row(w) => {
                assert(w.model() == node_model(Node::Row(*w)));
                w.styles()
            },
            Node::Text(w) => {
                assert(w.model() == node_model(Node::Text(*w)));
                w.styles()
            },
            Node::Button(w) => {
                assert(w.model() == node_model(Node::Button(*w)));
                w.styles()
            },
            Node::Link(w) => {
                assert(w.model() == node_model(Node::Link(*w)));
                w.styles()
            },
            Node::Label(w) => {
                assert(w.model() == node_model(Node::Label(*w)));
                w.styles()
            },
            Node::Input(w) => {
                assert(w.model() == node_model(Node::Input(*w)));
                w.styles()
            },
        }
    }
}

impl Widget for Node {}

} // verus!
