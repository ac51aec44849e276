//! What every widget can do, and how a build can fail.

use vstd::prelude::*;
use vstd::string::StringExecFns;
use crate::view::dictionary::put;
use crate::view::document::{Document, DocumentView};
use crate::view::element::{Element, ElementView};
use crate::view::style::{applied, EffectView, Style};
use crate::view::widget::{node_model, Node};

verus! {

/// Why a build did not produce an element.
#[derive(Clone, Copy, Debug, PartialEq, Eq, Structural)]
pub enum Error {
    /// The document has no root element.
    NoBodyFound,
    /// The document would not create an element of the tag asked for.
    ElementCreation,
}

impl Error {
    /// The sentence that tells a reader what went wrong.
    pub open spec fn text(&self) -> Seq<char> {
        match *self {
            Error::NoBodyFound => "Failed to get body"@,
            Error::ElementCreation => "Failed to create element"@,
        }
    }

    /// The error as a sentence.
    pub fn to_string(&self) -> (r: String)
        ensures
            r@ == self.text(),
    {
        match *self {
            Error::NoBodyFound => String::from_str("Failed to get body"),
            Error::ElementCreation => String::from_str("Failed to create element"),
        }
    }
}

/// The kinds of widget.
pub enum Kind {
    /// The root of a page: it is built onto the document's root element.
    Body,
    /// A container that lays out its children below one another.
    Column,
    /// A container that lays out its children beside one another.
    Row,
    /// A paragraph of text.
    Text,
    /// A button.
    Button,
    /// A link to an address.
    Link,
    /// A short text on a coloured block.
    Label,
    /// A field for typing into.
    Input,
}

/// A widget as the contracts speak of it: what it describes, and the element that
/// its last build left.
pub struct NodeView {
    /// The kind of widget.
    pub kind: Kind,
    /// The text of a text, button, link or label; the value of an input.
    pub text: Seq<char>,
    /// The address of a link.
    pub address: Seq<char>,
    /// The placeholder of an input.
    pub placeholder: Seq<char>,
    /// Whether an input takes typing.
    pub enabled: bool,
    /// The style dictionary.
    pub styles: Seq<(Seq<char>, EffectView)>,
    /// The children, in the order in which they were added: one for a body, any
    /// number for a column or a row, none for the other kinds.
    pub children: Seq<NodeView>,
    /// The element that the most recent successful build produced.
    pub element: Option<ElementView>,
}

impl NodeView {
    /// A widget of kind `kind` with the text `text` and the styles `styles`, as its
    /// constructor leaves it: without address, placeholder or children, taking
    /// input, and not built yet.
    pub open spec fn plain(
        kind: Kind,
        text: Seq<char>,
        styles: Seq<(Seq<char>, EffectView)>,
    ) -> NodeView {
        NodeView {
            kind,
            text,
            address: Seq::empty(),
            placeholder: Seq::empty(),
            enabled: true,
            styles,
            children: Seq::empty(),
            element: None,
        }
    }
}

/// `styles` after the property `property` was set to `value` under the name `key`.
pub open spec fn styled(
    styles: Seq<(Seq<char>, EffectView)>,
    key: Seq<char>,
    property: Seq<char>,
    value: Seq<char>,
) -> Seq<(Seq<char>, EffectView)> {
    put(styles, key, EffectView { property, value })
}

/// The tag of the element that a widget of kind `kind` is built into.
pub open spec fn tag_of(kind: Kind) -> Seq<char> {
    match kind {
        Kind::Body => "body"@,
        Kind::Column => "div"@,
        Kind::Row => "div"@,
        Kind::Text => "p"@,
        Kind::Button => "button"@,
        Kind::Link => "a"@,
        Kind::Label => "div"@,
        Kind::Input => "input"@,
    }
}

/// `element` after its `disabled` attribute was brought in line with `enabled`: an
/// element that takes no input has the attribute, with an empty value, and one
/// that does has it not.
pub open spec fn flagged(element: ElementView, enabled: bool) -> ElementView {
    if enabled {
        element.without_attribute("disabled"@)
    } else {
        element.with_attribute("disabled"@, ""@)
    }
}

/// `element` after the widget `n` has put its own content on it: its text and
/// attributes, as its kind asks, and then every entry of its style dictionary.
pub open spec fn populated(n: NodeView, element: ElementView) -> ElementView {
    match n.kind {
        Kind::Body | Kind::Column | Kind::Row => applied(n.styles, element),
        Kind::Text | Kind::Button | Kind::Label => applied(n.styles, element.with_text(n.text)),
        Kind::Link => applied(
            n.styles,
            element.with_text(n.text).with_attribute("href"@, n.address),
        ),
        Kind::Input => applied(
            n.styles,
            flagged(
                element.with_attribute("value"@, n.text).with_attribute(
                    "placeholder"@,
                    n.placeholder,
                ),
                n.enabled,
            ),
        ),
    }
}

/// The element on which a widget of kind `kind` is built: the document's root for
/// a body, and a new element of the kind's tag for every other kind.
pub open spec fn obtained(kind: Kind, document: DocumentView) -> Result<ElementView, Error> {
    match kind {
        Kind::Body => document.root(),
        _ => document.create(tag_of(kind)),
    }
}

/// What building the widget `n` against `document` gives: its element with its
/// content and with the elements of all its children attached in order, or the
/// first failure met on the way.
pub open spec fn outcome(n: NodeView, document: DocumentView) -> Result<ElementView, Error>
    decreases n,
{
    match obtained(n.kind, document) {
        Ok(element) => attached(n.children, populated(n, element), document),
        Err(e) => Err(e),
    }
}

/// What building `children` one after the other and attaching each to `element`
/// gives. The first child that fails ends it: the children behind it are not
/// built.
pub open spec fn attached(
    children: Seq<NodeView>,
    element: ElementView,
    document: DocumentView,
) -> Result<ElementView, Error>
    decreases children,
{
    if children.len() == 0 {
        Ok(element)
    } else {
        match attached(children.drop_last(), element, document) {
            Ok(parent) => match outcome(children.last(), document) {
                Ok(child) => Ok(parent.with_child(child)),
                Err(e) => Err(e),
            },
            Err(e) => Err(e),
        }
    }
}

/// What rendering the widget `n` onto `element` gives: the element with the
/// widget's content and the elements of all its children, or the first failure.
pub open spec fn rendered(n: NodeView, element: ElementView, document: DocumentView) -> Result<
    ElementView,
    Error,
> {
    attached(n.children, populated(n, element), document)
}

/// Whether each of the first `k` of `children` can be built against `document`.
pub open spec fn built_before(children: Seq<NodeView>, k: int, document: DocumentView) -> bool {
    forall|i: int|
        0 <= i < k && i < children.len() ==> (#[trigger] outcome(children[i], document)) is Ok
}

/// The widget `n` after it was built against `document`. What it describes is
/// unchanged. Every widget in it that was built keeps its new element; one whose
/// build failed, or was not reached, keeps the element it had.
pub open spec fn after(n: NodeView, document: DocumentView) -> NodeView
    decreases n,
{
    match obtained(n.kind, document) {
        Ok(element) => NodeView {
            children: after_all(n.children, document),
            element: match attached(n.children, populated(n, element), document) {
                Ok(built) => Some(built),
                Err(_) => n.element,
            },
            ..n
        },
        Err(_) => n,
    }
}

/// `children` after they were built one after the other, up to the first that
/// failed.
pub open spec fn after_all(children: Seq<NodeView>, document: DocumentView) -> Seq<NodeView>
    decreases children,
{
    if children.len() == 0 {
        children
    } else {
        after_all(children.drop_last(), document).push(
            if built_before(children, children.len() - 1, document) {
                after(children.last(), document)
            } else {
                children.last()
            },
        )
    }
}

/// The widget `n` after it was rendered onto `element`.
pub open spec fn after_render(n: NodeView, element: ElementView, document: DocumentView) -> NodeView {
    NodeView {
        children: after_all(n.children, document),
        element: match rendered(n, element, document) {
            Ok(built) => Some(built),
            Err(_) => n.element,
        },
        ..n
    }
}

/// A result of a build as the contracts speak of it.
pub open spec fn seen(r: Result<Element, Error>) -> Result<ElementView, Error> {
    match r {
        Ok(element) => Ok(element@),
        Err(e) => Err(e),
    }
}

/// The widget `n` after a style with the name `key` and the effect `effect` was
/// added: the dictionary holds it under its name, and the element of the last
/// build, if there is one, has it applied.
pub open spec fn restyled(n: NodeView, key: Seq<char>, effect: EffectView) -> NodeView {
    NodeView {
        styles: put(n.styles, key, effect),
        element: match n.element {
            Some(element) => Some(element.with_property(effect.property, effect.value)),
            None => None,
        },
        ..n
    }
}

/// What every widget can do: say which element it is built into, and build it.
pub trait Viewable: Sized {
    /// The widget as the contracts speak of it.
    spec fn model(&self) -> NodeView;

    /// The tag of the element that the widget is built into.
    fn get_tag(&self) -> (r: &'static str)
        ensures
            r@ == tag_of(self.model().kind),
    ;

    /// The element that the most recent successful build produced, if there was
    /// one.
    fn get_html_element(&mut self) -> (r: Option<&Element>)
        ensures
            final(self).model() == old(self).model(),
            match r {
                Some(element) => old(self).model().element == Some(element@),
                None => old(self).model().element is None,
            },
    ;

    /// Applies `style` to the element of the most recent build, if there is one.
    /// What the widget describes is unchanged.
    fn set<S: Style>(&mut self, style: &S)
        ensures
            final(self).model() == (NodeView {
                element: match old(self).model().element {
                    Some(element) => Some(
                        element.with_property(style.effect().property, style.effect().value),
                    ),
                    None => None,
                },
                ..old(self).model()
            }),
    ;

    /// Puts the widget's content on `element`: its text and attributes, its
    /// styles, and the elements of its children, each built against `document`
    /// and attached in order. A child that fails ends the rendering with that
    /// child's failure. On success the widget keeps a copy of the element.
    fn render(&mut self, element: Element, document: &Document) -> (r: Result<Element, Error>)
        ensures
            seen(r) == rendered(old(self).model(), element@, document@),
            final(self).model() == after_render(old(self).model(), element@, document@),
    ;

    /// Builds the widget against `document`: obtains its element, which is the
    /// document's root for a body and a new element of the widget's tag for every
    /// other kind, and renders the widget onto it. Where the document has no root
    /// the build fails with `NoBodyFound`, where it refuses the tag with
    /// `ElementCreation`; the failure of a widget further down comes back
    /// unchanged.
    fn build(&mut self, document: &Document) -> (r: Result<Element, Error>)
        ensures
            seen(r) == outcome(old(self).model(), document@),
            final(self).model() == after(old(self).model(), document@),
    ;

    /// The widget as a node of a tree, whatever its kind.
    fn into_node(self) -> (r: Node)
        ensures
            node_model(r) == self.model(),
    ;
}


/// Building one child more: the children before it as they were built, then that
/// child, whose failure is the failure of all.
pub proof fn lemma_attached_next(
    children: Seq<NodeView>,
    i: int,
    element: ElementView,
    document: DocumentView,
)
    requires
        0 <= i < children.len(),
    ensures
        attached(children.take(i + 1), element, document) == match attached(
            children.take(i),
            element,
            document,
        ) {
            Ok(parent) => match outcome(children[i], document) {
                Ok(child) => Ok(parent.with_child(child)),
                Err(e) => Err(e),
            },
            Err(e) => Err(e),
        },
{
    assert(children.take(i + 1).drop_last() =~= children.take(i));
    assert(children.take(i + 1).last() == children[i]);
}

/// Once a child has failed, the children behind it change nothing: the failure
/// stays the result.
pub proof fn lemma_attached_failure(
    children: Seq<NodeView>,
    i: int,
    k: int,
    element: ElementView,
    document: DocumentView,
)
    requires
        0 <= i <= k <= children.len(),
        attached(children.take(i), element, document) is Err,
    ensures
        attached(children.take(k), element, document) == attached(
            children.take(i),
            element,
            document,
        ),
    decreases k - i,
{
    if i < k {
        lemma_attached_failure(children, i, k - 1, element, document);
        lemma_attached_next(children, k - 1, element, document);
    }
}

/// The children after a build, one by one: a child is built, and keeps its new
/// state, exactly when every child before it was built; otherwise it is as it was.
pub proof fn lemma_after_all(children: Seq<NodeView>, document: DocumentView)
    ensures
        after_all(children, document).len() == children.len(),
        forall|j: int|
            0 <= j < children.len() ==> (#[trigger] after_all(children, document)[j]) == (if built_before(
                children,
                j,
                document,
            ) {
                after(children[j], document)
            } else {
                children[j]
            }),
    decreases children.len(),
{
    if children.len() > 0 {
        let front = children.drop_last();
        lemma_after_all(front, document);
        assert forall|j: int| 0 <= j < children.len() implies (#[trigger] after_all(
            children,
            document,
        )[j]) == (if built_before(children, j, document) {
            after(children[j], document)
        } else {
            children[j]
        }) by {
            if j < front.len() {
                assert(after_all(children, document)[j] == after_all(front, document)[j]);
                assert(front[j] == children[j]);
                if built_before(children, j, document) {
                    assert forall|i: int| 0 <= i < j && i < front.len() implies (#[trigger] outcome(
                        front[i],
                        document,
                    )) is Ok by {
                        assert(front[i] == children[i]);
                    }
                }
                if built_before(front, j, document) {
                    assert forall|i: int| 0 <= i < j && i < children.len() implies (
                    #[trigger] outcome(children[i], document)) is Ok by {
                        assert(front[i] == children[i]);
                    }
                }
            }
        }
    }
}

/// The children are all attached exactly when each of them can be built.
pub proof fn lemma_attached_built(
    children: Seq<NodeView>,
    element: ElementView,
    document: DocumentView,
)
    ensures
        attached(children, element, document) is Ok <==> built_before(
            children,
            children.len() as int,
            document,
        ),
    decreases children.len(),
{
    if children.len() > 0 {
        let front = children.drop_last();
        lemma_attached_built(front, element, document);
        if built_before(front, front.len() as int, document) && outcome(children.last(), document) is Ok {
            assert forall|i: int| 0 <= i < children.len() implies (#[trigger] outcome(
                children[i],
                document,
            )) is Ok by {
                if i < front.len() {
                    assert(front[i] == children[i]);
                }
            }
        }
        if built_before(children, children.len() as int, document) {
            assert forall|i: int| 0 <= i < front.len() implies (#[trigger] outcome(
                front[i],
                document,
            )) is Ok by {
                assert(front[i] == children[i]);
            }
            assert(outcome(children[children.len() - 1], document) is Ok);
        }
    }
}

} // verus!
