//! Reading a document: `quick_xml` cuts the text into items, and the element
//! tree is built from them here.

use vstd::prelude::*;
use quick_xml::events::Event;
use crate::scan::same_text;
use crate::tree::build_tree;
use crate::tree::document_root;
use crate::tree::event_views;
use crate::tree::XmlEvent;
use crate::tree::XmlEventView;
use crate::xml::attribute_views;
use crate::xml::Attribute;
use crate::xml::AttributeView;
use crate::xml::Element;
use crate::xml::ElementView;

verus! {

/// `quick_xml::Reader`, the pull parser. What it has still to hand out is
/// called `unread_items`.
#[verifier::external_type_specification]
#[verifier::external_body]
#[verifier::reject_recursive_types(R)]
pub struct ExReader<R>(quick_xml::Reader<R>);

/// An item of a document as the parser hands it out: its kind and the text
/// it carries. A tag carries its name and, second, the text of its attributes
/// as they stand in the document; an end tag carries its name, a text and a
/// CDATA section their character data, a reference its name. A comment, a
/// declaration, a processing instruction and a document type are all `Other`.
#[derive(Debug, PartialEq, Eq)]
pub enum RawEvent {
    Start(String, String),
    Empty(String, String),
    End(String),
    Text(String),
    CData(String),
    Reference(String),
    Other,
    Eof,
}

/// What a [`RawEvent`] holds, as a mathematical value.
pub enum RawEventView {
    Start { name: Seq<char>, attributes: Seq<char> },
    Empty { name: Seq<char>, attributes: Seq<char> },
    End { name: Seq<char> },
    Text { text: Seq<char> },
    CData { text: Seq<char> },
    Reference { name: Seq<char> },
    Other,
    Eof,
}

impl View for RawEvent {
    type V = RawEventView;

    open spec fn view(&self) -> RawEventView {
        match self {
            RawEvent::Start(name, attributes) => RawEventView::Start {
                name: name@,
                attributes: attributes@,
            },
            RawEvent::Empty(name, attributes) => RawEventView::Empty {
                name: name@,
                attributes: attributes@,
            },
            RawEvent::End(name) => RawEventView::End { name: name@ },
            RawEvent::Text(text) => RawEventView::Text { text: text@ },
            RawEvent::CData(text) => RawEventView::CData { text: text@ },
            RawEvent::Reference(name) => RawEventView::Reference { name: name@ },
            RawEvent::Other => RawEventView::Other,
            RawEvent::Eof => RawEventView::Eof,
        }
    }
}

impl DeepView for RawEvent {
    type V = RawEventView;

    open spec fn deep_view(&self) -> RawEventView {
        self.view()
    }
}

/// The items that `quick_xml` hands out for a document, call after call, up
/// to and with the end of the document or the first error. An error stands
/// in the list as `None`.
pub uninterp spec fn document_items(text: Seq<char>) -> Seq<Option<RawEventView>>;

/// The items that a parser has still to hand out, call after call, up to and
/// with the end of the document or the first error.
pub uninterp spec fn unread_items(reader: quick_xml::Reader<&[u8]>) -> Seq<Option<RawEventView>>;

/// The attribute at place `index` in the text of a tag's attributes, as
/// `quick_xml` cuts it out: its name, and its value as it stands between the
/// quotes. The outer `None` says that there is no attribute at that place,
/// the inner one that `quick_xml` reports an error there.
pub uninterp spec fn raw_attribute(attributes: Seq<char>, index: nat) -> Option<
    Option<AttributeView>,
>;

/// What `quick_xml` makes of an attribute value as it stands between the
/// quotes when it normalises it as XML 1.0 asks: references are resolved and
/// literal tabs and line ends become spaces. `None` where `quick_xml` reports
/// an error in the value.
pub uninterp spec fn normalized_value(raw: Seq<char>) -> Option<Seq<char>>;

/// Makes a parser over `text` with `quick_xml::Reader::from_str`. What it has
/// to hand out is what `quick_xml` hands out for the text.
#[verifier::external_body]
fn open_reader<'a>(text: &'a str) -> (reader: quick_xml::Reader<&'a [u8]>)
    ensures
        unread_items(reader) == document_items(text@),
{
    quick_xml::Reader::from_str(text)
}

/// Takes the next item with `quick_xml::Reader::read_event` and tells the
/// variants of `quick_xml::events::Event` apart, taking out the text of each
/// with its accessor: a tag's name (`name`) and the text of its attributes
/// (`attributes_raw`), the character data of a text or of a CDATA section as
/// XML 1.0 reads its line ends (`xml10_content`), the name of a reference.
/// The four remaining variants (comment, declaration, processing instruction,
/// document type) are handed out as `Other`, without their text. `None` where
/// the parser reports an error. The item is the first of those that the
/// parser had to hand out, and unless it is the end of the document the rest
/// of them is still to be handed out.
#[verifier::external_body]
fn next_item(reader: &mut quick_xml::Reader<&[u8]>) -> (r: Option<RawEvent>)
    ensures
        unread_items(*old(reader)).len() > 0,
        r.deep_view() == unread_items(*old(reader))[0],
        r matches Some(item) && !(item is Eof) ==> unread_items(*final(reader)) == unread_items(
            *old(reader),
        ).drop_first(),
{
    Some(match reader.read_event().ok()? {
        Event::Start(t) => RawEvent::Start(t.name().0.to_owned(), t.attributes_raw().to_owned()),
        Event::Empty(t) => RawEvent::Empty(t.name().0.to_owned(), t.attributes_raw().to_owned()),
        Event::End(t) => RawEvent::End(t.name().0.to_owned()),
        Event::Text(t) => RawEvent::Text(t.xml10_content().into_owned()),
        Event::CData(t) => RawEvent::CData(t.xml10_content().into_owned()),
        Event::GeneralRef(t) => RawEvent::Reference(t.as_ref().to_owned()),
        Event::Eof => RawEvent::Eof,
        _ => RawEvent::Other,
    })
}

/// The attribute at place `index` in the text of a tag's attributes, taken
/// with `quick_xml`'s iterator `Attributes::new`: its name, and its value as
/// it stands between the quotes. The outer `None` says that there is no
/// attribute at that place, the inner one that the parser reports an error.
#[verifier::external_body]
fn raw_attribute_at(attributes: &str, index: usize) -> (r: Option<Option<Attribute>>)
    ensures
        r.deep_view() == raw_attribute(attributes@, index as nat),
{
    match quick_xml::events::attributes::Attributes::new(attributes, 0).nth(index)? {
        Ok(found) => Some(
            Some(Attribute { name: found.key.0.to_owned(), value: found.value.into_owned() }),
        ),
        Err(_) => Some(None),
    }
}

/// Normalises an attribute value as it stands between the quotes with
/// `quick_xml`'s `Attribute::normalized_value`, for XML 1.0; `None` where
/// `quick_xml` reports an error. The method reads the value alone, so the
/// attribute it is called on has an empty name.
#[verifier::external_body]
fn normalize_value(raw: &str) -> (r: Option<String>)
    ensures
        r.deep_view() == normalized_value(raw@),
{
    let key = quick_xml::name::QName("");
    let attribute = quick_xml::events::attributes::Attribute { key, value: raw.into() };
    match attribute.normalized_value(quick_xml::XmlVersion::Implicit1_0) {
        Ok(value) => Some(value.into_owned()),
        Err(_) => None,
    }
}

/// The attribute at place `index` in the text of a tag's attributes, with
/// its value normalised. The outer `None` says that there is no attribute at
/// that place, the inner one that it cannot be read or its value cannot be
/// normalised.
pub open spec fn tag_attribute(attributes: Seq<char>, index: nat) -> Option<
    Option<AttributeView>,
> {
    match raw_attribute(attributes, index) {
        None => None,
        Some(None) => Some(None),
        Some(Some(found)) => match normalized_value(found.value) {
            Some(value) => Some(Some(AttributeView { name: found.name, value })),
            None => Some(None),
        },
    }
}

/// Reads the attribute at place `index` in the text of a tag's attributes
/// and normalises its value.
fn attribute_at(attributes: &str, index: usize) -> (r: Option<Option<Attribute>>)
    ensures
        r.deep_view() == tag_attribute(attributes@, index as nat),
{
    match raw_attribute_at(attributes, index) {
        None => None,
        Some(None) => Some(None),
        Some(Some(found)) => match normalize_value(found.value.as_str()) {
            Some(value) => Some(Some(Attribute { name: found.name, value })),
            None => Some(None),
        },
    }
}

/// The character that a character reference such as `#13` or `#x30` stands
/// for, as a text of one character; `None` for a name that is no character
/// reference or stands for no character. It is what `quick_xml` resolves the
/// reference to.
pub uninterp spec fn char_reference_text(name: Seq<char>) -> Option<Seq<char>>;

/// Resolves a character reference with `BytesRef::resolve_char_ref` and
/// hands the character out as a text; `None` where `quick_xml` finds no
/// character for the name.
#[verifier::external_body]
fn char_reference(name: &str) -> (r: Option<String>)
    ensures
        r.deep_view() == char_reference_text(name@),
{
    match quick_xml::events::BytesRef::new(name).resolve_char_ref() {
        Ok(Some(c)) => Some(c.to_string()),
        _ => None,
    }
}

/// The text that a predefined entity stands for.
pub open spec fn entity_text(name: Seq<char>) -> Option<Seq<char>> {
    if name == "lt"@ {
        Some("<"@)
    } else if name == "gt"@ {
        Some(">"@)
    } else if name == "amp"@ {
        Some("&"@)
    } else if name == "apos"@ {
        Some("'"@)
    } else if name == "quot"@ {
        Some("\""@)
    } else {
        None
    }
}

/// Resolves a predefined entity: `lt`, `gt`, `amp`, `apos` and `quot` stand
/// for `<`, `>`, `&`, `'` and `"`, and no other name stands for anything.
pub fn predefined_entity(name: &str) -> (r: Option<&'static str>)
    ensures
        match r {
            Some(text) => entity_text(name@) == Some(text@),
            None => entity_text(name@) is None,
        },
{
    if same_text(name, "lt") {
        Some("<")
    } else if same_text(name, "gt") {
        Some(">")
    } else if same_text(name, "amp") {
        Some("&")
    } else if same_text(name, "apos") {
        Some("'")
    } else if same_text(name, "quot") {
        Some("\"")
    } else {
        None
    }
}

/// The text that a reference stands for: the character of a character
/// reference, or else the text of a predefined entity.
pub open spec fn reference_text(name: Seq<char>) -> Option<Seq<char>> {
    match char_reference_text(name) {
        Some(text) => Some(text),
        None => entity_text(name),
    }
}

/// The text that a reference stands for; `None` where it stands for nothing.
pub fn resolve_reference(name: &str) -> (r: Option<String>)
    ensures
        r.deep_view() == reference_text(name@),
{
    match char_reference(name) {
        Some(text) => Some(text),
        None => match predefined_entity(name) {
            Some(text) => Some(text.to_owned()),
            None => None,
        },
    }
}

/// The attributes that stand in the text of a tag's attributes from place
/// `index` on, in document order. There are none where `quick_xml` reports an
/// error in one of them, and none where an attribute stands at place `limit`
/// or beyond.
pub open spec fn attributes_from(attributes: Seq<char>, index: nat, limit: nat) -> Option<
    Seq<AttributeView>,
>
    decreases limit - index,
{
    match tag_attribute(attributes, index) {
        None => Some(Seq::empty()),
        Some(None) => None,
        Some(Some(found)) => if index >= limit {
            None
        } else {
            match attributes_from(attributes, index + 1, limit) {
                Some(rest) => Some(seq![found] + rest),
                None => None,
            }
        },
    }
}

/// The attributes of a tag, in document order: what `attributes_from` gives
/// from the first place on.
pub open spec fn tag_attributes(attributes: Seq<char>, limit: nat) -> Option<Seq<AttributeView>> {
    attributes_from(attributes, 0, limit)
}

/// Reads the attributes of a tag from their text, in document order; `None`
/// where the parser reports an error in one of them, or where the tag has
/// more than `limit` attributes.
pub fn read_attributes(attributes: &str, limit: usize) -> (r: Option<Vec<Attribute>>)
    ensures
        match r {
            Some(list) => tag_attributes(attributes@, limit as nat) == Some(
                attribute_views(list@),
            ),
            None => tag_attributes(attributes@, limit as nat) is None,
        },
        r matches Some(list) ==> list.len() <= limit,
{
    let mut list: Vec<Attribute> = Vec::new();
    let mut index: usize = 0;
    proof {
        assert(attribute_views(list@) =~= Seq::<AttributeView>::empty());
        match attributes_from(attributes@, 0, limit as nat) {
            Some(rest) => {
                assert(attribute_views(list@) + rest =~= rest);
            },
            None => {},
        }
    }
    while index < limit
        invariant
            0 <= index <= limit,
            list.len() == index,
            match attributes_from(attributes@, index as nat, limit as nat) {
                Some(rest) => tag_attributes(attributes@, limit as nat) == Some(
                    attribute_views(list@) + rest,
                ),
                None => tag_attributes(attributes@, limit as nat) is None,
            },
        decreases limit - index,
    {
        let ghost before = attribute_views(list@);
        match attribute_at(attributes, index) {
            Some(Some(found)) => {
                list.push(found);
                proof {
                    assert(attribute_views(list@) =~= before.push(found@));
                    match attributes_from(attributes@, (index + 1) as nat, limit as nat) {
                        Some(rest) => {
                            assert(before + (seq![found@] + rest) =~= attribute_views(list@)
                                + rest);
                        },
                        None => {},
                    }
                }
            },
            Some(None) => {
                return None;
            },
            None => {
                proof {
                    assert(before + Seq::<AttributeView>::empty() =~= before);
                }
                return Some(list);
            },
        }
        index = index + 1;
    }
    match attribute_at(attributes, index) {
        None => {
            proof {
                assert(attribute_views(list@) + Seq::<AttributeView>::empty() =~= attribute_views(
                    list@,
                ));
            }
            Some(list)
        },
        _ => None,
    }
}

/// The item that the tree is built from, for an item as the parser hands it
/// out: a tag gets its attributes read, at most `limit` of them; a CDATA
/// section is character data; a reference becomes the text it stands for.
/// There is none where the attributes cannot be read or the reference stands
/// for nothing.
pub open spec fn resolved_event(item: RawEventView, limit: nat) -> Option<XmlEventView> {
    match item {
        RawEventView::Start { name, attributes } => match tag_attributes(attributes, limit) {
            Some(list) => Some(XmlEventView::Start { name, attributes: list }),
            None => None,
        },
        RawEventView::Empty { name, attributes } => match tag_attributes(attributes, limit) {
            Some(list) => Some(XmlEventView::Empty { name, attributes: list }),
            None => None,
        },
        RawEventView::End { name } => Some(XmlEventView::End { name }),
        RawEventView::Text { text } => Some(XmlEventView::Text { text }),
        RawEventView::CData { text } => Some(XmlEventView::Text { text }),
        RawEventView::Reference { name } => match reference_text(name) {
            Some(text) => Some(XmlEventView::Text { text }),
            None => None,
        },
        RawEventView::Other => Some(XmlEventView::Other),
        RawEventView::Eof => Some(XmlEventView::Eof),
    }
}

/// Makes the item that the tree is built from.
pub fn resolve_event(item: RawEvent, limit: usize) -> (r: Option<XmlEvent>)
    ensures
        r.deep_view() == resolved_event(item@, limit as nat),
{
    match item {
        RawEvent::Start(name, attributes) => match read_attributes(attributes.as_str(), limit) {
            Some(list) => Some(XmlEvent::Start { name, attributes: list }),
            None => None,
        },
        RawEvent::Empty(name, attributes) => match read_attributes(attributes.as_str(), limit) {
            Some(list) => Some(XmlEvent::Empty { name, attributes: list }),
            None => None,
        },
        RawEvent::End(name) => Some(XmlEvent::End { name }),
        RawEvent::Text(text) => Some(XmlEvent::Text { text }),
        RawEvent::CData(text) => Some(XmlEvent::Text { text }),
        RawEvent::Reference(name) => match resolve_reference(name.as_str()) {
            Some(text) => Some(XmlEvent::Text { text }),
            None => None,
        },
        RawEvent::Other => Some(XmlEvent::Other),
        RawEvent::Eof => Some(XmlEvent::Eof),
    }
}

/// The most items, the end of the document not counted, that a document is
/// read for: one for each byte of its text.
pub open spec fn item_limit(text: Seq<char>) -> nat {
    (vstd::utf8::encode_utf8(text).len() as usize) as nat
}

/// The items that the tree is built from, for the items that the parser
/// hands out from place `from` on, up to and with the end of the document.
/// There are none where the parser reports an error, where an item cannot
/// be resolved, where more than `left` items stand before the end of the
/// document, or where the end of the document does not come.
pub open spec fn events_from(
    items: Seq<Option<RawEventView>>,
    from: int,
    left: nat,
    limit: nat,
) -> Option<Seq<XmlEventView>>
    decreases left,
{
    if from < 0 || from >= items.len() {
        None
    } else {
        match items[from] {
            None => None,
            Some(item) => match resolved_event(item, limit) {
                None => None,
                Some(event) => if event is Eof {
                    Some(seq![event])
                } else if left == 0 {
                    None
                } else {
                    match events_from(items, from + 1, (left - 1) as nat, limit) {
                        Some(rest) => Some(seq![event] + rest),
                        None => None,
                    }
                },
            },
        }
    }
}

/// The items of a document that its tree is built from: what `quick_xml`
/// hands out for the text, each item resolved, up to and with the end of the
/// document. There are none where the text is not well-formed.
pub open spec fn document_events(text: Seq<char>) -> Option<Seq<XmlEventView>> {
    events_from(document_items(text), 0, item_limit(text), item_limit(text))
}

/// The element tree of a document: the root element of its items. There is
/// none where the text is not well-formed.
pub open spec fn document_tree(text: Seq<char>) -> Option<ElementView> {
    match document_events(text) {
        Some(events) => document_root(events),
        None => None,
    }
}

/// Cuts a document into its items, up to and with the end of the document.
/// `None` where the parser reports an error, where it hands out more items
/// than the text has bytes, or where a reference stands for nothing. The list
/// that comes back ends with the end of the document and holds it nowhere
/// else.
pub fn read_events(text: &str) -> (r: Option<Vec<XmlEvent>>)
    ensures
        match r {
            Some(events) => document_events(text@) == Some(event_views(events@)),
            None => document_events(text@) is None,
        },
        r matches Some(events) ==> events.len() > 0 && events@.last()@ == XmlEventView::Eof
            && forall|i: int| 0 <= i < events.len() - 1 ==> !(#[trigger] events@[i]@ is Eof),
        r matches Some(events) ==> events.len() <= text.len() + 1,
{
    let limit: usize = text.len();
    let mut reader = open_reader(text);
    let mut events: Vec<XmlEvent> = Vec::new();
    let mut left: usize = limit;
    let ghost items = document_items(text@);
    let ghost mut taken: int = 0;
    proof {
        assert(items.skip(0) =~= items);
        assert(event_views(events@) =~= Seq::<XmlEventView>::empty());
        match events_from(items, 0, left as nat, limit as nat) {
            Some(rest) => {
                assert(event_views(events@) + rest =~= rest);
            },
            None => {},
        }
    }
    loop
        invariant
            forall|i: int| 0 <= i < events.len() ==> !(#[trigger] events@[i]@ is Eof),
            limit == text.len(),
            limit as nat == item_limit(text@),
            events.len() + left == limit,
            items == document_items(text@),
            0 <= taken <= items.len(),
            unread_items(reader) == items.skip(taken),
            match events_from(items, taken, left as nat, limit as nat) {
                Some(rest) => document_events(text@) == Some(event_views(events@) + rest),
                None => document_events(text@) is None,
            },
        decreases left,
    {
        let ghost before = event_views(events@);
        let item = match next_item(&mut reader) {
            Some(item) => item,
            None => {
                return None;
            },
        };
        let event = match resolve_event(item, limit) {
            Some(event) => event,
            None => {
                return None;
            },
        };
        match &event {
            XmlEvent::Eof => {
                events.push(event);
                proof {
                    assert(event_views(events@) =~= before + seq![XmlEventView::Eof]);
                }
                return Some(events);
            },
            _ => {},
        }
        if left == 0 {
            return None;
        }
        left = left - 1;
        proof {
            assert(items.skip(taken).drop_first() =~= items.skip(taken + 1));
            match events_from(items, taken + 1, left as nat, limit as nat) {
                Some(rest) => {
                    assert(before + (seq![event@] + rest) =~= before.push(event@) + rest);
                },
                None => {},
            }
            taken = taken + 1;
        }
        events.push(event);
        proof {
            assert(event_views(events@) =~= before.push(events@.last()@));
        }
    }
}

/// Reads a document into its element tree; `None` where the text is not
/// well-formed.
pub fn parse_document(text: &str) -> (r: Option<Element>)
    ensures
        r.deep_view() == document_tree(text@),
{
    match read_events(text) {
        Some(events) => build_tree(&events),
        None => None,
    }
}

} // verus!
