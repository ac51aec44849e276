//! The document against which widgets are built: it creates elements and holds
//! the root element.

use vstd::prelude::*;
use vstd::string::StringExecFns;
use crate::view::element::{Element, ElementView};
use crate::view::view::Error;

verus! {

/// A document as the contracts speak of it.
pub struct DocumentView {
    /// The root element, where the document has one.
    pub body: Option<ElementView>,
    /// The tags of which the document creates no element.
    pub refused: Set<Seq<char>>,
}

impl DocumentView {
    /// Whether the document creates elements of kind `tag`.
    pub open spec fn creates(self, tag: Seq<char>) -> bool {
        !self.refused.contains(tag)
    }

    /// What asking for a new element of kind `tag` gives.
    pub open spec fn create(self, tag: Seq<char>) -> Result<ElementView, Error> {
        if self.creates(tag) {
            Ok(ElementView::empty(tag))
        } else {
            Err(Error::ElementCreation)
        }
    }

    /// What asking for the root element gives.
    pub open spec fn root(self) -> Result<ElementView, Error> {
        match self.body {
            Some(body) => Ok(body),
            None => Err(Error::NoBodyFound),
        }
    }
}

/// The host's document: it hands out the root element, if it has one, and
/// creates new elements, except of the tags it refuses.
#[derive(Debug)]
pub struct Document {
    body: Option<Element>,
    refused: Vec<String>,
}

impl View for Document {
    type V = DocumentView;

    closed spec fn view(&self) -> DocumentView {
        DocumentView {
            body: match self.body {
                Some(body) => Some(body@),
                None => None,
            },
            refused: Set::new(
                |tag: Seq<char>|
                    exists|i: int| 0 <= i < self.refused@.len() && (#[trigger] self.refused@[i])@ == tag,
            ),
        }
    }
}

impl Document {
    /// A document with an empty root element of the tag `body`, which creates
    /// elements of every tag.
    pub fn new() -> (r: Document)
        ensures
            r@.body == Some(ElementView::empty("body"@)),
            r@.refused == Set::<Seq<char>>::empty(),
    {
        let r = Document { body: Some(Element::new("body")), refused: Vec::new() };
        assert(r@.refused =~= Set::<Seq<char>>::empty());
        r
    }

    /// A document without a root element, which creates elements of every tag.
    pub fn without_body() -> (r: Document)
        ensures
            r@.body == None::<ElementView>,
            r@.refused == Set::<Seq<char>>::empty(),
    {
        let r = Document { body: None, refused: Vec::new() };
        assert(r@.refused =~= Set::<Seq<char>>::empty());
        r
    }

    /// The same document with `body` as its root element.
    pub fn with_body(self, body: Element) -> (r: Document)
        ensures
            r@.body == Some(body@),
            r@.refused == self@.refused,
    {
        let r = Document { body: Some(body), refused: self.refused };
        assert(r@.refused =~= self@.refused);
        r
    }

    /// The same document, which from now on creates no element of kind `tag`.
    pub fn refuse(self, tag: &str) -> (r: Document)
        ensures
            r@.body == self@.body,
            r@.refused == self@.refused.insert(tag@),
    {
        let mut refused = self.refused;
        let ghost before = refused@;
        refused.push(String::from_str(tag));
        let r = Document { body: self.body, refused };
        assert(r@.refused =~= self@.refused.insert(tag@)) by {
            assert forall|t: Seq<char>| r@.refused.contains(t) implies self@.refused.insert(
                tag@,
            ).contains(t) by {
                let i = choose|i: int| 0 <= i < r.refused@.len() && (#[trigger] r.refused@[i])@ == t;
                if i < before.len() {
                    assert(before[i]@ == t);
                }
            }
            assert forall|t: Seq<char>| self@.refused.insert(tag@).contains(
                t,
            ) implies r@.refused.contains(t) by {
                if t == tag@ {
                    assert(r.refused@[before.len() as int]@ == t);
                } else {
                    let i = choose|i: int| 0 <= i < before.len() && (#[trigger] before[i])@ == t;
                    assert(r.refused@[i]@ == t);
                }
            }
        }
        r
    }

    /// The root element, if the document has one.
    pub fn body(&self) -> (r: Option<Element>)
        ensures
            match r {
                Some(body) => self@.root() == Ok::<ElementView, Error>(body@),
                None => self@.root() == Err::<ElementView, Error>(Error::NoBodyFound),
            },
    {
        match &self.body {
            Some(body) => Some(body.duplicate()),
            None => None,
        }
    }

    /// A new element of kind `tag`, unless the document refuses the tag.
    pub fn create_element(&self, tag: &str) -> (r: Result<Element, Error>)
        ensures
            match r {
                Ok(element) => self@.create(tag@) == Ok::<ElementView, Error>(element@),
                Err(e) => self@.create(tag@) == Err::<ElementView, Error>(e),
            },
    {
        let wanted = String::from_str(tag);
        let mut i: usize = 0;
        while i < self.refused.len()
            invariant
                i <= self.refused@.len(),
                wanted@ == tag@,
                forall|j: int| 0 <= j < i ==> (#[trigger] self.refused@[j])@ != tag@,
            decreases self.refused@.len() - i,
        {
            if self.refused[i] == wanted {
                return Err(Error::ElementCreation);
            }
            i = i + 1;
        }
        Ok(Element::new(tag))
    }
}

} // verus!
