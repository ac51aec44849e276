//! Platform elements as values: what a build produces.

use vstd::prelude::*;
use vstd::string::StringExecFns;
use crate::view::dictionary::{put, without, Dictionary};

verus! {

/// An element as the contracts speak of it.
pub struct ElementView {
    /// The kind of element.
    pub tag: Seq<char>,
    /// The text set on the element itself.
    pub text: Seq<char>,
    /// The attributes, by name.
    pub attributes: Seq<(Seq<char>, Seq<char>)>,
    /// The presentational properties, by name.
    pub style: Seq<(Seq<char>, Seq<char>)>,
    /// The elements attached to this one, in the order of attachment.
    pub children: Seq<ElementView>,
}

impl ElementView {
    /// The element of kind `tag` as the platform creates it: without text,
    /// attributes, properties or children.
    pub open spec fn empty(tag: Seq<char>) -> ElementView {
        ElementView {
            tag,
            text: Seq::empty(),
            attributes: Seq::empty(),
            style: Seq::empty(),
            children: Seq::empty(),
        }
    }

    /// The element after its text content was set: the text replaces whatever the
    /// element held, children included.
    pub open spec fn with_text(self, text: Seq<char>) -> ElementView {
        ElementView { text, children: Seq::empty(), ..self }
    }

    /// The element after the attribute `name` was set to `value`.
    pub open spec fn with_attribute(self, name: Seq<char>, value: Seq<char>) -> ElementView {
        ElementView { attributes: put(self.attributes, name, value), ..self }
    }

    /// The element after the attribute `name` was taken off.
    pub open spec fn without_attribute(self, name: Seq<char>) -> ElementView {
        ElementView { attributes: without(self.attributes, name), ..self }
    }

    /// The element after the presentational property `name` was set to `value`.
    pub open spec fn with_property(self, name: Seq<char>, value: Seq<char>) -> ElementView {
        ElementView { style: put(self.style, name, value), ..self }
    }

    /// The element after `child` was attached behind its other children.
    pub open spec fn with_child(self, child: ElementView) -> ElementView {
        ElementView { children: self.children.push(child), ..self }
    }

    /// The number of elements in the tree under this element, itself included.
    pub open spec fn size(self) -> nat
        decreases self,
    {
        1 + size_of(self.children)
    }
}

/// The number of elements in the trees under `elements`.
pub open spec fn size_of(elements: Seq<ElementView>) -> nat
    decreases elements,
{
    if elements.len() == 0 {
        0
    } else {
        size_of(elements.drop_last()) + elements.last().size()
    }
}

/// A platform element: a tag, a text, attributes, presentational properties and
/// the elements attached to it.
#[derive(Debug)]
pub struct Element {
    tag: String,
    text: String,
    attributes: Dictionary<String>,
    style: Dictionary<String>,
    children: Vec<Element>,
}

/// The element `e` as a value of the model.
spec fn model(e: Element) -> ElementView
    decreases e,
{
    ElementView {
        tag: e.tag@,
        text: e.text@,
        attributes: e.attributes@,
        style: e.style@,
        children: Seq::new(
            e.children@.len(),
            |i: int|
                if 0 <= i < e.children@.len() {
                    model(e.children@[i])
                } else {
                    arbitrary()
                },
        ),
    }
}

impl View for Element {
    type V = ElementView;

    closed spec fn view(&self) -> ElementView {
        model(*self)
    }
}

impl Element {
    /// A fresh element of kind `tag`.
    pub fn new(tag: &str) -> (r: Element)
        ensures
            r@ == ElementView::empty(tag@),
    {
        let r = Element {
            tag: String::from_str(tag),
            text: String::new(),
            attributes: Dictionary::new(),
            style: Dictionary::new(),
            children: Vec::new(),
        };
        assert(r@.children =~= Seq::empty());
        r
    }

    /// The kind of the element.
    pub fn tag(&self) -> (r: &str)
        ensures
            r@ == self@.tag,
    {
        self.tag.as_str()
    }

    /// The text set on the element.
    pub fn text_content(&self) -> (r: &str)
        ensures
            r@ == self@.text,
    {
        self.text.as_str()
    }

    /// The attributes of the element.
    pub fn attributes(&self) -> (r: &Dictionary<String>)
        ensures
            r@ == self@.attributes,
    {
        &self.attributes
    }

    /// The presentational properties of the element.
    pub fn style(&self) -> (r: &Dictionary<String>)
        ensures
            r@ == self@.style,
    {
        &self.style
    }

    /// The number of elements attached to this one.
    pub fn child_count(&self) -> (r: usize)
        ensures
            r == self@.children.len(),
    {
        self.children.len()
    }

    /// The `i`-th element attached to this one.
    pub fn child(&self, i: usize) -> (r: &Element)
        requires
            i < self@.children.len(),
        ensures
            r@ == self@.children[i as int],
    {
        &self.children[i]
    }

    /// Sets the text content. As on the platform, the text takes the place of
    /// everything the element held.
    pub fn set_text_content(&mut self, text: &str)
        ensures
            final(self)@ == old(self)@.with_text(text@),
    {
        self.text = String::from_str(text);
        self.children = Vec::new();
        assert((*self)@.children =~= Seq::empty());
    }

    /// Sets the attribute `name` to `value`.
    pub fn set_attribute(&mut self, name: &str, value: &str)
        ensures
            final(self)@ == old(self)@.with_attribute(name@, value@),
    {
        self.attributes.set(name, String::from_str(value));
        assert((*self)@.children =~= (*old(self))@.children);
    }

    /// Takes the attribute `name` off, if the element has it.
    pub fn remove_attribute(&mut self, name: &str)
        ensures
            final(self)@ == old(self)@.without_attribute(name@),
    {
        self.attributes.remove(name);
        assert((*self)@.children =~= (*old(self))@.children);
    }

    /// Sets the presentational property `name` to `value`.
    pub fn set_property(&mut self, name: &str, value: &str)
        ensures
            final(self)@ == old(self)@.with_property(name@, value@),
    {
        self.style.set(name, String::from_str(value));
        assert((*self)@.children =~= (*old(self))@.children);
    }

    /// Attaches `child` behind the other children.
    pub fn append_child(&mut self, child: Element)
        ensures
            final(self)@ == old(self)@.with_child(child@),
    {
        self.children.push(child);
        assert((*self)@.children =~= (*old(self))@.children.push(child@));
    }

    /// An element of its own that equals this one, with its whole tree.
    pub fn duplicate(&self) -> (r: Element)
        ensures
            r@ == self@,
        decreases *self,
    {
        let mut children: Vec<Element> = Vec::new();
        let mut i: usize = 0;
        while i < self.children.len()
            invariant
                i <= self.children@.len(),
                children@.len() == i,
                forall|j: int| 0 <= j < i ==> (#[trigger] children@[j])@ == self.children@[j]@,
            decreases self.children@.len() - i,
        {
            let child = self.children[i].duplicate();
            children.push(child);
            i = i + 1;
        }
        let r = Element {
            tag: self.tag.clone(),
            text: self.text.clone(),
            attributes: self.attributes.duplicate(),
            style: self.style.duplicate(),
            children,
        };
        assert(r@.children =~= self@.children);
        r
    }
}

impl Clone for Element {
    /// An element of its own that equals this one, with its whole tree.
    fn clone(&self) -> (r: Element)
        ensures
            r@ == self@,
    {
        self.duplicate()
    }
}

} // verus!
