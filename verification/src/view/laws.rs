//! What holds of every build, proved from the definitions.

use vstd::prelude::*;
use crate::view::dictionary::{
    distinct_keys, lemma_occurrences, lemma_put_distinct, lemma_put_lookup, lemma_put_pair_twice,
    lookup, occurrences, put,
};
use crate::view::document::DocumentView;
use crate::view::element::{size_of, ElementView};
use crate::view::style::{applied, EffectView};
use crate::view::view::{
    after, attached, flagged, lemma_after_all, obtained, outcome, populated, tag_of, Error, Kind, NodeView,
};
use crate::view::widget::{input_colors, recolored, repainted};

verus! {

/// The number of widgets in the tree under `n`, itself included.
pub open spec fn count(n: NodeView) -> nat
    decreases n,
{
    1 + count_of(n.children)
}

/// The number of widgets in the trees under `children`.
pub open spec fn count_of(children: Seq<NodeView>) -> nat
    decreases children,
{
    if children.len() == 0 {
        0
    } else {
        count_of(children.drop_last()) + count(children.last())
    }
}

/// No widget in the tree under `n` is a body.
pub open spec fn rootless(n: NodeView) -> bool
    decreases n,
{
    !(n.kind is Body) && forall|i: int|
        0 <= i < n.children.len() ==> rootless(#[trigger] n.children[i])
}

/// Every widget in the tree under `n` gets its element from `document`: a root is
/// there for each body, and no tag of another widget is refused.
pub open spec fn buildable(n: NodeView, document: DocumentView) -> bool
    decreases n,
{
    obtained(n.kind, document) is Ok && forall|i: int|
        0 <= i < n.children.len() ==> buildable(#[trigger] n.children[i], document)
}

/// Applying styles changes the presentational properties of an element and
/// nothing else.
pub proof fn lemma_applied_keeps(styles: Seq<(Seq<char>, EffectView)>, element: ElementView)
    ensures
        applied(styles, element).tag == element.tag,
        applied(styles, element).text == element.text,
        applied(styles, element).attributes == element.attributes,
        applied(styles, element).children == element.children,
    decreases styles.len(),
{
    if styles.len() > 0 {
        lemma_applied_keeps(styles.drop_last(), element);
    }
}

/// A widget's own content leaves the tag of its element as it was, and leaves a
/// new element without children.
pub proof fn lemma_populated_keeps(n: NodeView, element: ElementView)
    ensures
        populated(n, element).tag == element.tag,
        element.children.len() == 0 ==> populated(n, element).children.len() == 0,
        n.kind is Body || n.kind is Column || n.kind is Row ==> populated(n, element).children
            == element.children,
{
    match n.kind {
        Kind::Body | Kind::Column | Kind::Row => {
            lemma_applied_keeps(n.styles, element);
        },
        Kind::Text | Kind::Button | Kind::Label => {
            lemma_applied_keeps(n.styles, element.with_text(n.text));
        },
        Kind::Link => {
            lemma_applied_keeps(
                n.styles,
                element.with_text(n.text).with_attribute("href"@, n.address),
            );
        },
        Kind::Input => {
            lemma_applied_keeps(
                n.styles,
                flagged(
                    element.with_attribute("value"@, n.text).with_attribute(
                        "placeholder"@,
                        n.placeholder,
                    ),
                    n.enabled,
                ),
            );
        },
    }
}

/// Attaching children changes nothing of the parent but its children: behind those
/// it had come the elements of the children built, one for each and in their
/// order.
pub proof fn lemma_attached_shape(
    children: Seq<NodeView>,
    element: ElementView,
    document: DocumentView,
)
    requires
        attached(children, element, document) is Ok,
    ensures
        ({
            let built = attached(children, element, document)->Ok_0;
            &&& built.tag == element.tag
            &&& built.text == element.text
            &&& built.attributes == element.attributes
            &&& built.style == element.style
            &&& built.children.len() == element.children.len() + children.len()
            &&& forall|i: int|
                0 <= i < element.children.len() ==> built.children[i] == element.children[i]
            &&& forall|i: int|
                0 <= i < children.len() ==> outcome(#[trigger] children[i], document) == Ok::<
                    ElementView,
                    Error,
                >(built.children[element.children.len() + i])
        }),
    decreases children.len(),
{
    if children.len() > 0 {
        let front = children.drop_last();
        lemma_attached_shape(front, element, document);
        let parent = attached(front, element, document)->Ok_0;
        let built = attached(children, element, document)->Ok_0;
        assert forall|i: int| 0 <= i < children.len() implies outcome(
            #[trigger] children[i],
            document,
        ) == Ok::<ElementView, Error>(built.children[element.children.len() + i]) by {
            if i < front.len() {
                assert(front[i] == children[i]);
            }
        }
    }
}


/// One element more at the end adds its size.
pub proof fn lemma_size_of_push(elements: Seq<ElementView>, element: ElementView)
    ensures
        size_of(elements.push(element)) == size_of(elements) + element.size(),
{
    assert(elements.push(element).drop_last() =~= elements);
    assert(elements.push(element).last() == element);
}

/// What a build gives has the shape of the widget. The element is
/// the one that the widget obtained, a new one of the widget's tag or, for a body,
/// the document's root. Behind the children that this element had, which are none
/// for a new one, it has one child for each child of the widget, in the widget's
/// order, each the element that building that child gives.
pub proof fn lemma_build_shape(n: NodeView, document: DocumentView)
    requires
        outcome(n, document) is Ok,
    ensures
        ({
            let built = outcome(n, document)->Ok_0;
            let first = obtained(n.kind, document)->Ok_0;
            &&& obtained(n.kind, document) is Ok
            &&& built.tag == first.tag
            &&& !(n.kind is Body) ==> built.tag == tag_of(n.kind) && first.children.len() == 0
            &&& built.children.len() == first.children.len() + n.children.len()
            &&& forall|i: int|
                0 <= i < first.children.len() && n.kind is Body ==> built.children[i]
                    == first.children[i]
            &&& forall|i: int|
                0 <= i < n.children.len() ==> outcome(#[trigger] n.children[i], document) == Ok::<
                    ElementView,
                    Error,
                >(built.children[first.children.len() + i])
        }),
{
    let first = obtained(n.kind, document)->Ok_0;
    lemma_populated_keeps(n, first);
    lemma_attached_shape(n.children, populated(n, first), document);
}

/// A build that succeeds makes one element for each widget. For a
/// tree without a body, the tree of elements that it gives is as large as the tree
/// of widgets.
pub proof fn lemma_build_count(n: NodeView, document: DocumentView)
    requires
        rootless(n),
        outcome(n, document) is Ok,
    ensures
        outcome(n, document)->Ok_0.size() == count(n),
    decreases n,
{
    let first = obtained(n.kind, document)->Ok_0;
    lemma_populated_keeps(n, first);
    lemma_attached_count(n.children, populated(n, first), document);
}

/// The children that a build attaches add one element for each widget under them.
pub proof fn lemma_attached_count(
    children: Seq<NodeView>,
    element: ElementView,
    document: DocumentView,
)
    requires
        attached(children, element, document) is Ok,
        forall|i: int| 0 <= i < children.len() ==> rootless(#[trigger] children[i]),
    ensures
        size_of(attached(children, element, document)->Ok_0.children) == size_of(element.children)
            + count_of(children),
    decreases children,
{
    if children.len() > 0 {
        let front = children.drop_last();
        assert forall|i: int| 0 <= i < front.len() implies rootless(#[trigger] front[i]) by {
            assert(front[i] == children[i]);
        }
        assert(rootless(children[children.len() - 1]));
        lemma_attached_count(front, element, document);
        lemma_build_count(children.last(), document);
        let parent = attached(front, element, document)->Ok_0;
        lemma_size_of_push(parent.children, outcome(children.last(), document)->Ok_0);
    }
}

/// For a page: where a body is the root of a tree and the only body in
/// it, a build that succeeds adds to the document's root one element for each
/// widget under the body.
pub proof fn lemma_build_count_root(n: NodeView, document: DocumentView)
    requires
        n.kind is Body,
        forall|i: int| 0 <= i < n.children.len() ==> rootless(#[trigger] n.children[i]),
        outcome(n, document) is Ok,
    ensures
        document.body is Some,
        outcome(n, document)->Ok_0.size() == document.body->0.size() + count(n) - 1,
{
    let first = obtained(n.kind, document)->Ok_0;
    lemma_populated_keeps(n, first);
    lemma_attached_count(n.children, populated(n, first), document);
}

/// A build succeeds exactly when every widget of the tree gets its element from
/// the document.
pub proof fn lemma_buildable(n: NodeView, document: DocumentView)
    ensures
        outcome(n, document) is Ok <==> buildable(n, document),
    decreases n,
{
    if obtained(n.kind, document) is Ok {
        let first = obtained(n.kind, document)->Ok_0;
        crate::view::view::lemma_attached_built(n.children, populated(n, first), document);
        assert forall|i: int| 0 <= i < n.children.len() implies (outcome(
            #[trigger] n.children[i],
            document,
        ) is Ok <==> buildable(n.children[i], document)) by {
            lemma_buildable(n.children[i], document);
        }
    }
}

/// Where building a child fails, building its
/// parent fails.
pub proof fn lemma_child_failure(n: NodeView, document: DocumentView, i: int)
    requires
        0 <= i < n.children.len(),
        outcome(n.children[i], document) is Err,
    ensures
        outcome(n, document) is Err,
{
    if obtained(n.kind, document) is Ok {
        let first = obtained(n.kind, document)->Ok_0;
        crate::view::view::lemma_attached_built(n.children, populated(n, first), document);
    }
}

/// Against a document that has a root, the only failure is that of creating an
/// element.
pub proof fn lemma_failure_is_creation(n: NodeView, document: DocumentView)
    requires
        document.body is Some,
        outcome(n, document) is Err,
    ensures
        outcome(n, document) == Err::<ElementView, Error>(Error::ElementCreation),
    decreases n,
{
    if obtained(n.kind, document) is Ok {
        let first = obtained(n.kind, document)->Ok_0;
        lemma_attached_failure_is_creation(n.children, populated(n, first), document);
    }
}

/// Against a document that has a root, the only failure of attaching children is
/// that of creating an element.
pub proof fn lemma_attached_failure_is_creation(
    children: Seq<NodeView>,
    element: ElementView,
    document: DocumentView,
)
    requires
        document.body is Some,
        attached(children, element, document) is Err,
    ensures
        attached(children, element, document) == Err::<ElementView, Error>(Error::ElementCreation),
    decreases children,
{
    if children.len() > 0 {
        if attached(children.drop_last(), element, document) is Err {
            lemma_attached_failure_is_creation(children.drop_last(), element, document);
        } else {
            lemma_failure_is_creation(children.last(), document);
        }
    }
}

/// A build that fails leaves the widget with the element it had.
pub proof fn lemma_failure_keeps_element(n: NodeView, document: DocumentView)
    requires
        outcome(n, document) is Err,
    ensures
        after(n, document).element == n.element,
{
}

/// A child of a widget has, after the widget was built, the element it had before,
/// unless it was built itself.
pub proof fn lemma_failed_child_keeps_element(n: NodeView, document: DocumentView, i: int)
    requires
        0 <= i < n.children.len(),
        outcome(n.children[i], document) is Err,
    ensures
        after(n, document).children.len() == n.children.len(),
        after(n, document).children[i].element == n.children[i].element,
        after(n, document).children[i].children.len() == n.children[i].children.len(),
{
    lemma_after_all(n.children, document);
    lemma_after_all(n.children[i].children, document);
}

/// Where the document refuses the element of a widget three
/// levels below the top, the build of the top fails, with `ElementCreation` where
/// the document has a root, and none of the three widgets above gains an element.
pub proof fn lemma_deep_failure(n: NodeView, document: DocumentView, i: int, j: int, k: int)
    requires
        0 <= i < n.children.len(),
        0 <= j < n.children[i].children.len(),
        0 <= k < n.children[i].children[j].children.len(),
        obtained(n.children[i].children[j].children[k].kind, document) is Err,
    ensures
        outcome(n, document) is Err,
        document.body is Some ==> outcome(n, document) == Err::<ElementView, Error>(
            Error::ElementCreation,
        ),
        after(n, document).element == n.element,
        after(n, document).children.len() == n.children.len(),
        after(n, document).children[i].element == n.children[i].element,
        after(n, document).children[i].children.len() == n.children[i].children.len(),
        after(n, document).children[i].children[j].element == n.children[i].children[j].element,
{
    let below = n.children[i];
    let low = below.children[j];
    lemma_child_failure(low, document, k);
    lemma_child_failure(below, document, j);
    lemma_child_failure(n, document, i);
    if document.body is Some {
        lemma_failure_is_creation(n, document);
    }
    lemma_failed_child_keeps_element(n, document, i);
    lemma_after_all(n.children, document);
    if after(n, document).children[i] == after(below, document) {
        lemma_failed_child_keeps_element(below, document, j);
    }
}

/// Two widgets describe the same: they differ at most in the elements that their
/// builds left.
pub open spec fn alike(a: NodeView, b: NodeView) -> bool
    decreases a,
{
    &&& a.kind == b.kind
    &&& a.text == b.text
    &&& a.address == b.address
    &&& a.placeholder == b.placeholder
    &&& a.enabled == b.enabled
    &&& a.styles == b.styles
    &&& a.children.len() == b.children.len()
    &&& forall|i: int| 0 <= i < a.children.len() ==> alike(#[trigger] a.children[i], b.children[i])
}

/// Every widget describes what it describes.
pub proof fn lemma_alike_itself(n: NodeView)
    ensures
        alike(n, n),
    decreases n,
{
    assert forall|i: int| 0 <= i < n.children.len() implies alike(
        #[trigger] n.children[i],
        n.children[i],
    ) by {
        lemma_alike_itself(n.children[i]);
    }
}

/// A build changes nothing of what a widget describes.
pub proof fn lemma_after_alike(n: NodeView, document: DocumentView)
    ensures
        alike(n, after(n, document)),
    decreases n,
{
    lemma_alike_itself(n);
    if obtained(n.kind, document) is Ok {
        lemma_after_all(n.children, document);
        let m = after(n, document);
        assert forall|i: int| 0 <= i < n.children.len() implies alike(
            #[trigger] n.children[i],
            m.children[i],
        ) by {
            lemma_after_alike(n.children[i], document);
            lemma_alike_itself(n.children[i]);
        }
    }
}

/// What a build gives depends on what the widget describes, and not on the
/// elements that earlier builds left.
pub proof fn lemma_alike_outcome(a: NodeView, b: NodeView, document: DocumentView)
    requires
        alike(a, b),
    ensures
        outcome(a, document) == outcome(b, document),
    decreases a,
{
    if obtained(a.kind, document) is Ok {
        let first = obtained(a.kind, document)->Ok_0;
        assert(populated(a, first) == populated(b, first));
        lemma_alike_attached(a.children, b.children, populated(a, first), document);
    }
}

/// Children that describe the same are attached as the same elements.
pub proof fn lemma_alike_attached(
    a: Seq<NodeView>,
    b: Seq<NodeView>,
    element: ElementView,
    document: DocumentView,
)
    requires
        a.len() == b.len(),
        forall|i: int| 0 <= i < a.len() ==> alike(#[trigger] a[i], b[i]),
    ensures
        attached(a, element, document) == attached(b, element, document),
    decreases a,
{
    if a.len() > 0 {
        assert forall|i: int| 0 <= i < a.drop_last().len() implies alike(
            #[trigger] a.drop_last()[i],
            b.drop_last()[i],
        ) by {
            assert(a.drop_last()[i] == a[i]);
            assert(alike(a[i], b[i]));
        }
        assert(alike(a[a.len() - 1], b[a.len() - 1]));
        lemma_alike_attached(a.drop_last(), b.drop_last(), element, document);
        lemma_alike_outcome(a.last(), b.last(), document);
    }
}

/// A widget that was built, against any document, gives on its next
/// build what it would have given unbuilt: the same tag, text, attributes,
/// properties and children. For a text this is an element with the same text
/// content and the same style effects.
pub proof fn lemma_rebuild(n: NodeView, earlier: DocumentView, document: DocumentView)
    ensures
        outcome(after(n, earlier), document) == outcome(n, document),
{
    lemma_after_alike(n, earlier);
    lemma_alike_outcome(n, after(n, earlier), document);
}


/// After the colours of a widget were set and then set again, the
/// dictionary is the one that the second setting alone would have left. The two
/// names each occur once and hold the second colours; every other name holds what
/// it held.
pub proof fn lemma_repaint_twice(
    n: NodeView,
    first: (EffectView, EffectView),
    second: (EffectView, EffectView),
)
    requires
        distinct_keys(n.styles),
    ensures
        ({
            let m = repainted(repainted(n, first), second);
            &&& m.styles == recolored(n.styles, second)
            &&& distinct_keys(m.styles)
            &&& lookup(m.styles, "COLOR"@) == Some(second.0)
            &&& lookup(m.styles, "BACKGROUND"@) == Some(second.1)
            &&& occurrences(m.styles, "COLOR"@) == 1
            &&& occurrences(m.styles, "BACKGROUND"@) == 1
            &&& forall|other: Seq<char>|
                other != "COLOR"@ && other != "BACKGROUND"@ ==> lookup(m.styles, other) == lookup(
                    n.styles,
                    other,
                )
        }),
{
    reveal_strlit("COLOR");
    reveal_strlit("BACKGROUND");
    assert("COLOR"@.len() != "BACKGROUND"@.len());
    let m = repainted(repainted(n, first), second);
    lemma_put_pair_twice(n.styles, "COLOR"@, "BACKGROUND"@, first.0, first.1, second.0, second.1);
    let once = put(n.styles, "COLOR"@, second.0);
    lemma_put_distinct(n.styles, "COLOR"@, second.0);
    lemma_put_distinct(once, "BACKGROUND"@, second.1);
    lemma_put_lookup(once, "BACKGROUND"@, second.1, "COLOR"@);
    lemma_put_lookup(n.styles, "COLOR"@, second.0, "COLOR"@);
    lemma_occurrences(m.styles, "COLOR"@);
    lemma_occurrences(m.styles, "BACKGROUND"@);
    assert forall|other: Seq<char>| other != "COLOR"@ && other != "BACKGROUND"@ implies lookup(
        m.styles,
        other,
    ) == lookup(n.styles, other) by {
        lemma_put_lookup(once, "BACKGROUND"@, second.1, other);
        lemma_put_lookup(n.styles, "COLOR"@, second.0, other);
    }
}

/// An input that was enabled and then disabled takes no
/// typing, and its dictionary holds the two colours of the disabled look, each
/// once, and none of the enabled look. It is the dictionary that disabling alone
/// would have left.
pub proof fn lemma_enable_swap(n: NodeView)
    requires
        distinct_keys(n.styles),
    ensures
        ({
            let enabled = repainted(NodeView { enabled: true, ..n }, input_colors(true));
            let m = repainted(NodeView { enabled: false, ..enabled }, input_colors(false));
            &&& !m.enabled
            &&& m.styles == recolored(n.styles, input_colors(false))
            &&& lookup(m.styles, "COLOR"@) == Some(
                EffectView { property: "color"@, value: "#D0C9D6"@ },
            )
            &&& lookup(m.styles, "BACKGROUND"@) == Some(
                EffectView { property: "background"@, value: "#ECE9F1"@ },
            )
            &&& occurrences(m.styles, "COLOR"@) == 1
            &&& occurrences(m.styles, "BACKGROUND"@) == 1
            &&& forall|other: Seq<char>|
                other != "COLOR"@ && other != "BACKGROUND"@ ==> lookup(m.styles, other) == lookup(
                    n.styles,
                    other,
                )
        }),
{
    lemma_repaint_twice(n, input_colors(true), input_colors(false));
}


/// Every widget in the tree under `n` holds the element that building it against
/// `document` gives.
pub open spec fn built_throughout(n: NodeView, document: DocumentView) -> bool
    decreases n,
{
    &&& outcome(n, document) is Ok
    &&& n.element == Some(outcome(n, document)->Ok_0)
    &&& forall|i: int|
        0 <= i < n.children.len() ==> built_throughout(#[trigger] n.children[i], document)
}

/// A build that succeeds has built every widget of the tree. After it
/// each widget holds its own element, the one that building it alone gives.
pub proof fn lemma_build_visits_all(n: NodeView, document: DocumentView)
    requires
        outcome(n, document) is Ok,
    ensures
        built_throughout(after(n, document), document),
    decreases n,
{
    let m = after(n, document);
    let first = obtained(n.kind, document)->Ok_0;
    lemma_rebuild(n, document, document);
    lemma_after_all(n.children, document);
    crate::view::view::lemma_attached_built(n.children, populated(n, first), document);
    assert forall|i: int| 0 <= i < m.children.len() implies built_throughout(
        #[trigger] m.children[i],
        document,
    ) by {
        assert(outcome(n.children[i], document) is Ok);
        assert(m.children[i] == after(n.children[i], document));
        lemma_build_visits_all(n.children[i], document);
    }
}

} // verus!
