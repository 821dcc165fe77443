//! Building the element tree of a document from the items that a reader
//! hands out.

use vstd::prelude::*;
use vstd::string::*;
use crate::scan::same_text;
use crate::xml::attribute_views;
use crate::xml::element_views;
use crate::xml::lemma_element_views_push;
use crate::xml::Attribute;
use crate::xml::AttributeView;
use crate::xml::Element;
use crate::xml::ElementView;

verus! {

/// One item of a document, as a reader hands it out.
#[derive(Debug, PartialEq, Eq)]
pub enum XmlEvent {
    /// An opening tag.
    Start { name: String, attributes: Vec<Attribute> },
    /// A self-closed tag.
    Empty { name: String, attributes: Vec<Attribute> },
    /// A closing tag.
    End { name: String },
    /// Character data, with references already resolved.
    Text { text: String },
    /// A comment, a declaration, a processing instruction or a document type:
    /// nothing that the element tree holds.
    Other,
    /// The end of the document.
    Eof,
}

/// What an [`XmlEvent`] holds, as a mathematical value.
pub enum XmlEventView {
    Start { name: Seq<char>, attributes: Seq<AttributeView> },
    Empty { name: Seq<char>, attributes: Seq<AttributeView> },
    End { name: Seq<char> },
    Text { text: Seq<char> },
    Other,
    Eof,
}

impl View for XmlEvent {
    type V = XmlEventView;

    open spec fn view(&self) -> XmlEventView {
        match self {
            XmlEvent::Start { name, attributes } => XmlEventView::Start {
                name: name@,
                attributes: attribute_views(attributes@),
            },
            XmlEvent::Empty { name, attributes } => XmlEventView::Empty {
                name: name@,
                attributes: attribute_views(attributes@),
            },
            XmlEvent::End { name } => XmlEventView::End { name: name@ },
            XmlEvent::Text { text } => XmlEventView::Text { text: text@ },
            XmlEvent::Other => XmlEventView::Other,
            XmlEvent::Eof => XmlEventView::Eof,
        }
    }
}

impl DeepView for XmlEvent {
    type V = XmlEventView;

    open spec fn deep_view(&self) -> XmlEventView {
        self.view()
    }
}

/// The values of a list of events.
pub open spec fn event_views(events: Seq<XmlEvent>) -> Seq<XmlEventView> {
    Seq::new(events.len(), |i: int| events[i]@)
}

/// What stands between an opening tag and its closing tag.
pub struct Content {
    /// The child elements, in document order.
    pub children: Seq<ElementView>,
    /// The character data, in document order and untrimmed.
    pub text: Seq<char>,
    /// Where the closing tag stands.
    pub end: int,
}

/// The element that starts at `pos`, and where the events after it begin.
/// Its closing tag must carry its name; its text is its character data, piece
/// after piece. Elements may be nested to any depth.
pub open spec fn element_at(events: Seq<XmlEventView>, pos: int) -> Option<(ElementView, int)>
    decreases events.len() - pos, 0int,
{
    if pos < 0 || pos >= events.len() {
        None
    } else {
        match events[pos] {
            XmlEventView::Empty { name, attributes } => Some(
                (
                    ElementView {
                        name,
                        attributes,
                        children: Seq::empty(),
                        text: Seq::empty(),
                    },
                    pos + 1,
                ),
            ),
            XmlEventView::Start { name, attributes } => match content_from(events, pos + 1) {
                Some(content) => if pos < content.end < events.len() && events[content.end]
                    == (XmlEventView::End { name }) {
                    Some(
                        (
                            ElementView {
                                name,
                                attributes,
                                children: content.children,
                                text: content.text,
                            },
                            content.end + 1,
                        ),
                    )
                } else {
                    None
                },
                None => None,
            },
            _ => None,
        }
    }
}

/// The content that starts at `pos` and runs to the next closing tag of the
/// same level. A document that ends first has no such content.
pub open spec fn content_from(events: Seq<XmlEventView>, pos: int) -> Option<Content>
    decreases events.len() - pos, 1int,
{
    if pos < 0 || pos >= events.len() {
        None
    } else {
        match events[pos] {
            XmlEventView::End { .. } => Some(
                Content { children: Seq::empty(), text: Seq::empty(), end: pos },
            ),
            XmlEventView::Eof => None,
            XmlEventView::Other => content_from(events, pos + 1),
            XmlEventView::Text { text } => match content_from(events, pos + 1) {
                Some(rest) => Some(
                    Content { children: rest.children, text: text + rest.text, end: rest.end },
                ),
                None => None,
            },
            _ => match element_at(events, pos) {
                Some((element, next)) => if pos < next <= events.len() {
                    match content_from(events, next) {
                        Some(rest) => Some(
                            Content {
                                children: seq![element] + rest.children,
                                text: rest.text,
                                end: rest.end,
                            },
                        ),
                        None => None,
                    }
                } else {
                    None
                },
                None => None,
            },
        }
    }
}

/// Where the document's root element starts: at the first tag, with only
/// character data and other items before it.
pub open spec fn root_position(events: Seq<XmlEventView>, pos: int) -> Option<int>
    decreases events.len() - pos,
{
    if pos < 0 || pos >= events.len() {
        None
    } else {
        match events[pos] {
            XmlEventView::Start { .. } => Some(pos),
            XmlEventView::Empty { .. } => Some(pos),
            XmlEventView::Text { .. } => root_position(events, pos + 1),
            XmlEventView::Other => root_position(events, pos + 1),
            _ => None,
        }
    }
}

/// The root element of a document, given as its events. What follows the
/// root element is not looked at.
pub open spec fn document_root(events: Seq<XmlEventView>) -> Option<ElementView> {
    match root_position(events, 0) {
        Some(pos) => match element_at(events, pos) {
            Some((element, _)) => Some(element),
            None => None,
        },
        None => None,
    }
}

/// A copy of a list of attributes.
fn clone_attributes(attributes: &Vec<Attribute>) -> (r: Vec<Attribute>)
    ensures
        attribute_views(r@) == attribute_views(attributes@),
{
    let mut out: Vec<Attribute> = Vec::new();
    let mut i: usize = 0;
    while i < attributes.len()
        invariant
            0 <= i <= attributes.len(),
            out.len() == i,
            forall|j: int| 0 <= j < i ==> #[trigger] out@[j]@ == attributes@[j]@,
        decreases attributes.len() - i,
    {
        out.push(Attribute { name: attributes[i].name.clone(), value: attributes[i].value.clone() });
        i = i + 1;
    }
    proof {
        assert(attribute_views(out@) =~= attribute_views(attributes@));
    }
    out
}

/// Builds the element that starts at `pos`. A child element is built by a
/// call of this function from within, one call deep for each level of
/// nesting.
fn read_element(events: &Vec<XmlEvent>, pos: usize) -> (r: Option<(Element, usize)>)
    requires
        pos < events.len(),
    ensures
        match r {
            Some((element, next)) => element_at(event_views(events@), pos as int) == Some(
                (element@, next as int),
            ) && pos < next <= events.len(),
            None => element_at(event_views(events@), pos as int) is None,
        },
    decreases events.len() - pos,
{
    let ghost views = event_views(events@);
    match &events[pos] {
        XmlEvent::Empty { name, attributes } => {
            let element = Element {
                name: name.clone(),
                attributes: clone_attributes(attributes),
                children: Vec::new(),
                text: String::new(),
            };
            proof {
                assert(element@.children =~= Seq::<ElementView>::empty());
                assert(element@.text =~= Seq::<char>::empty());
            }
            Some((element, pos + 1))
        },
        XmlEvent::Start { name, attributes } => {
            let mut children: Vec<Element> = Vec::new();
            let mut text = String::new();
            let mut i: usize = pos + 1;
            let mut closed = false;
            proof {
                assert(element_views(children@) =~= Seq::<ElementView>::empty());
                assert(text@ =~= Seq::<char>::empty());
            }
            while !closed
                invariant
                    views == event_views(events@),
                    pos < i <= events.len(),
                    views[pos as int] == (XmlEventView::Start {
                        name: name@,
                        attributes: attribute_views(attributes@),
                    }),
                    closed ==> i < events.len() && (views[i as int] is End) && content_from(
                        views,
                        pos + 1,
                    ) == Some(
                        Content {
                            children: element_views(children@),
                            text: text@,
                            end: i as int,
                        },
                    ),
                    !closed ==> match content_from(views, i as int) {
                        Some(rest) => content_from(views, pos + 1) == Some(
                            Content {
                                children: element_views(children@) + rest.children,
                                text: text@ + rest.text,
                                end: rest.end,
                            },
                        ),
                        None => content_from(views, pos + 1) is None,
                    },
                decreases events.len() - i + (if closed { 0int } else { 1int }),
            {
                if i >= events.len() {
                    return None;
                }
                match &events[i] {
                    XmlEvent::End { .. } => {
                        proof {
                            let rest = content_from(views, i as int).unwrap();
                            assert(element_views(children@) + rest.children =~= element_views(
                                children@,
                            ));
                            assert(text@ + rest.text =~= text@);
                        }
                        closed = true;
                    },
                    XmlEvent::Eof => {
                        return None;
                    },
                    XmlEvent::Other => {
                        i = i + 1;
                    },
                    XmlEvent::Text { text: piece } => {
                        let ghost before = text@;
                        text.append(piece.as_str());
                        proof {
                            match content_from(views, i as int + 1) {
                                Some(rest) => {
                                    assert(before + (piece@ + rest.text) =~= text@ + rest.text);
                                },
                                None => {},
                            }
                        }
                        i = i + 1;
                    },
                    _ => {
                        match read_element(events, i) {
                            Some((child, next)) => {
                                let ghost before = children@;
                                children.push(child);
                                proof {
                                    lemma_element_views_push(before, child);
                                    match content_from(views, next as int) {
                                        Some(rest) => {
                                            assert(element_views(before) + (seq![child@]
                                                + rest.children) =~= element_views(children@)
                                                + rest.children);
                                        },
                                        None => {},
                                    }
                                }
                                i = next;
                            },
                            None => {
                                return None;
                            },
                        }
                    },
                }
            }
            match &events[i] {
                XmlEvent::End { name: end_name } => {
                    if !same_text(end_name.as_str(), name.as_str()) {
                        return None;
                    }
                    let element = Element {
                        name: name.clone(),
                        attributes: clone_attributes(attributes),
                        children,
                        text,
                    };
                    Some((element, i + 1))
                },
                _ => None,
            }
        },
        _ => None,
    }
}

/// Builds the element tree of a document from its events. `None` when the
/// events do not form a root element: a tag is left open, a closing tag does
/// not carry the name of its opening tag, or there is no element at all.
pub fn build_tree(events: &Vec<XmlEvent>) -> (r: Option<Element>)
    ensures
        r.deep_view() == document_root(event_views(events@)),
{
    let ghost views = event_views(events@);
    let mut pos: usize = 0;
    while pos < events.len()
        invariant
            0 <= pos <= events.len(),
            views == event_views(events@),
            root_position(views, 0) == root_position(views, pos as int),
        decreases events.len() - pos,
    {
        match &events[pos] {
            XmlEvent::Start { .. } => {
                return match read_element(events, pos) {
                    Some((element, _)) => Some(element),
                    None => None,
                };
            },
            XmlEvent::Empty { .. } => {
                return match read_element(events, pos) {
                    Some((element, _)) => Some(element),
                    None => None,
                };
            },
            XmlEvent::Text { .. } => {
                pos = pos + 1;
            },
            XmlEvent::Other => {
                pos = pos + 1;
            },
            _ => {
                return None;
            },
        }
    }
    None
}

} // verus!
