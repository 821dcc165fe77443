//! The element tree that the wire records are written to and read from, and
//! its text form: how tags are framed and how element text and attribute
//! values are escaped.

use vstd::prelude::*;
use vstd::string::*;

verus! {

/// One attribute of an element.
#[derive(Debug, PartialEq, Eq)]
pub struct Attribute {
    pub name: String,
    pub value: String,
}

/// One element: its name, its attributes in document order, its child
/// elements in document order, and its character data.
#[derive(Debug, PartialEq, Eq)]
pub struct Element {
    pub name: String,
    pub attributes: Vec<Attribute>,
    pub children: Vec<Element>,
    pub text: String,
}

/// What an [`Attribute`] holds, as a mathematical value.
pub struct AttributeView {
    pub name: Seq<char>,
    pub value: Seq<char>,
}

/// What an [`Element`] holds, as a mathematical value.
pub struct ElementView {
    pub name: Seq<char>,
    pub attributes: Seq<AttributeView>,
    pub children: Seq<ElementView>,
    pub text: Seq<char>,
}

impl View for Attribute {
    type V = AttributeView;

    open spec fn view(&self) -> AttributeView {
        AttributeView { name: self.name@, value: self.value@ }
    }
}

impl DeepView for Attribute {
    type V = AttributeView;

    open spec fn deep_view(&self) -> AttributeView {
        self.view()
    }
}

/// The values of a list of attributes.
pub open spec fn attribute_views(attributes: Seq<Attribute>) -> Seq<AttributeView> {
    Seq::new(attributes.len(), |i: int| attributes[i]@)
}

/// The values of a list of elements.
pub open spec fn element_views(elements: Seq<Element>) -> Seq<ElementView>
    decreases elements,
{
    if elements.len() == 0 {
        Seq::empty()
    } else {
        element_views(elements.drop_last()).push(elements.last().model())
    }
}

impl Element {
    /// The value of the element: the values of its parts.
    pub open spec fn model(self) -> ElementView
        decreases self,
    {
        ElementView {
            name: self.name@,
            attributes: attribute_views(self.attributes@),
            children: element_views(self.children@),
            text: self.text@,
        }
    }
}

impl View for Element {
    type V = ElementView;

    open spec fn view(&self) -> ElementView {
        self.model()
    }
}

impl DeepView for Element {
    type V = ElementView;

    open spec fn deep_view(&self) -> ElementView {
        self.model()
    }
}

/// The values of a list of elements, one for one.
pub proof fn lemma_element_views(elements: Seq<Element>)
    ensures
        element_views(elements).len() == elements.len(),
        forall|i: int| 0 <= i < elements.len() ==> #[trigger] element_views(elements)[i]
            == elements[i]@,
    decreases elements.len(),
{
    if elements.len() > 0 {
        lemma_element_views(elements.drop_last());
    }
}

/// Adding an element to a list adds its value to the list's values.
pub proof fn lemma_element_views_push(elements: Seq<Element>, last: Element)
    ensures
        element_views(elements.push(last)) == element_views(elements).push(last@),
{
    assert(elements.push(last).drop_last() =~= elements);
}

/// The text that stands for one character of element text: `<`, `>`, `&` and
/// the carriage return are replaced, everything else stands for itself.
pub open spec fn escaped_text_char(c: char) -> Seq<char> {
    if c == '<' {
        "&lt;"@
    } else if c == '>' {
        "&gt;"@
    } else if c == '&' {
        "&amp;"@
    } else if c == '\r' {
        "&#13;"@
    } else {
        seq![c]
    }
}

/// Element text with its special characters replaced.
pub open spec fn escaped_text(text: Seq<char>) -> Seq<char>
    decreases text.len(),
{
    if text.len() == 0 {
        Seq::empty()
    } else {
        escaped_text(text.drop_last()) + escaped_text_char(text.last())
    }
}

/// Whether a character stands for itself in an attribute value between
/// double quotes.
pub open spec fn plain_in_attribute(c: char) -> bool {
    !(c == '<' || c == '>' || c == '&' || c == '"' || c == '\r' || c == '\n' || c == '\t')
}

/// The text that stands for one character of an attribute value between
/// double quotes: `<`, `>`, `&`, the double quote, the carriage return, the
/// line feed and the tab are replaced, everything else stands for itself, the
/// apostrophe too.
pub open spec fn escaped_attribute_char(c: char) -> Seq<char> {
    if c == '<' {
        "&lt;"@
    } else if c == '>' {
        "&gt;"@
    } else if c == '&' {
        "&amp;"@
    } else if c == '"' {
        "&quot;"@
    } else if c == '\r' {
        "&#13;"@
    } else if c == '\n' {
        "&#10;"@
    } else if c == '\t' {
        "&#9;"@
    } else {
        seq![c]
    }
}

/// An attribute value with its special characters replaced.
pub open spec fn escaped_attribute(value: Seq<char>) -> Seq<char>
    decreases value.len(),
{
    if value.len() == 0 {
        Seq::empty()
    } else {
        escaped_attribute(value.drop_last()) + escaped_attribute_char(value.last())
    }
}

/// A run of characters that stand for themselves is written as it is.
proof fn lemma_escaped_attribute_run(value: Seq<char>, from: int, to: int)
    requires
        0 <= from <= to <= value.len(),
        forall|k: int| from <= k < to ==> plain_in_attribute(#[trigger] value[k]),
    ensures
        escaped_attribute(value.take(to)) == escaped_attribute(value.take(from)) + value.subrange(
            from,
            to,
        ),
    decreases to - from,
{
    if from == to {
        assert(value.subrange(from, to) =~= Seq::<char>::empty());
        assert(escaped_attribute(value.take(from)) + Seq::<char>::empty() =~= escaped_attribute(
            value.take(from),
        ));
    } else {
        lemma_escaped_attribute_run(value, from, to - 1);
        assert(value.take(to).drop_last() =~= value.take(to - 1));
        assert(value.take(to).last() == value[to - 1]);
        assert(plain_in_attribute(value[to - 1]));
        assert(value.subrange(from, to - 1) + seq![value[to - 1]] =~= value.subrange(from, to));
        assert(escaped_attribute(value.take(from)) + value.subrange(from, to - 1) + seq![
            value[to - 1],
        ] =~= escaped_attribute(value.take(from)) + value.subrange(from, to));
    }
}

/// The text that replaces a character in an attribute value; `None` for a
/// character that stands for itself.
fn attribute_replacement(c: char) -> (r: Option<&'static str>)
    ensures
        match r {
            Some(text) => !plain_in_attribute(c) && text@ == escaped_attribute_char(c),
            None => plain_in_attribute(c),
        },
{
    if c == '<' {
        Some("&lt;")
    } else if c == '>' {
        Some("&gt;")
    } else if c == '&' {
        Some("&amp;")
    } else if c == '"' {
        Some("&quot;")
    } else if c == '\r' {
        Some("&#13;")
    } else if c == '\n' {
        Some("&#10;")
    } else if c == '\t' {
        Some("&#9;")
    } else {
        None
    }
}

/// Escapes an attribute value for a place between double quotes.
pub fn escape_attribute(value: &str) -> (r: String)
    ensures
        r@ == escaped_attribute(value@),
{
    let chars = crate::decimal::chars_of(value);
    let n = chars.len();
    let mut out = String::new();
    let mut start: usize = 0;
    let mut i: usize = 0;
    proof {
        assert(value@.take(0) =~= Seq::<char>::empty());
    }
    while i < n
        invariant
            0 <= start <= i <= n,
            n == chars.len(),
            chars@ == value@,
            out@ == escaped_attribute(value@.take(start as int)),
            forall|k: int| start <= k < i ==> plain_in_attribute(#[trigger] value@[k]),
        decreases n - i,
    {
        match attribute_replacement(chars[i]) {
            Some(text) => {
                let run = value.substring_char(start, i);
                out.append(run);
                out.append(text);
                proof {
                    lemma_escaped_attribute_run(value@, start as int, i as int);
                    assert(value@.take(i as int + 1).drop_last() =~= value@.take(i as int));
                    assert(value@.take(i as int + 1).last() == value@[i as int]);
                }
                start = i + 1;
            },
            None => {},
        }
        i = i + 1;
    }
    let run = value.substring_char(start, n);
    out.append(run);
    proof {
        lemma_escaped_attribute_run(value@, start as int, n as int);
        assert(value@.take(n as int) =~= value@);
    }
    out
}

/// Whether a character stands for itself in element text.
pub open spec fn plain_in_text(c: char) -> bool {
    !(c == '<' || c == '>' || c == '&' || c == '\r')
}

/// A run of characters that stand for themselves is written as it is.
proof fn lemma_escaped_text_run(text: Seq<char>, from: int, to: int)
    requires
        0 <= from <= to <= text.len(),
        forall|k: int| from <= k < to ==> plain_in_text(#[trigger] text[k]),
    ensures
        escaped_text(text.take(to)) == escaped_text(text.take(from)) + text.subrange(from, to),
    decreases to - from,
{
    if from == to {
        assert(text.subrange(from, to) =~= Seq::<char>::empty());
        assert(escaped_text(text.take(from)) + Seq::<char>::empty() =~= escaped_text(
            text.take(from),
        ));
    } else {
        lemma_escaped_text_run(text, from, to - 1);
        assert(text.take(to).drop_last() =~= text.take(to - 1));
        assert(text.take(to).last() == text[to - 1]);
        assert(plain_in_text(text[to - 1]));
        assert(text.subrange(from, to - 1) + seq![text[to - 1]] =~= text.subrange(from, to));
        assert(escaped_text(text.take(from)) + text.subrange(from, to - 1) + seq![text[to - 1]]
            =~= escaped_text(text.take(from)) + text.subrange(from, to));
    }
}

/// The text that replaces a character in element text; `None` for a
/// character that stands for itself.
fn text_replacement(c: char) -> (r: Option<&'static str>)
    ensures
        match r {
            Some(text) => !plain_in_text(c) && text@ == escaped_text_char(c),
            None => plain_in_text(c),
        },
{
    if c == '<' {
        Some("&lt;")
    } else if c == '>' {
        Some("&gt;")
    } else if c == '&' {
        Some("&amp;")
    } else if c == '\r' {
        Some("&#13;")
    } else {
        None
    }
}

/// Escapes element text: `<`, `>`, `&` and the carriage return are replaced,
/// and both kinds of quote stand as they are.
pub fn escape_text(text: &str) -> (r: String)
    ensures
        r@ == escaped_text(text@),
{
    let chars = crate::decimal::chars_of(text);
    let n = chars.len();
    let mut out = String::new();
    let mut start: usize = 0;
    let mut i: usize = 0;
    proof {
        assert(text@.take(0) =~= Seq::<char>::empty());
    }
    while i < n
        invariant
            0 <= start <= i <= n,
            n == chars.len(),
            chars@ == text@,
            out@ == escaped_text(text@.take(start as int)),
            forall|k: int| start <= k < i ==> plain_in_text(#[trigger] text@[k]),
        decreases n - i,
    {
        match text_replacement(chars[i]) {
            Some(replacement) => {
                let run = text.substring_char(start, i);
                out.append(run);
                out.append(replacement);
                proof {
                    lemma_escaped_text_run(text@, start as int, i as int);
                    assert(text@.take(i as int + 1).drop_last() =~= text@.take(i as int));
                    assert(text@.take(i as int + 1).last() == text@[i as int]);
                }
                start = i + 1;
            },
            None => {},
        }
        i = i + 1;
    }
    let run = text.substring_char(start, n);
    out.append(run);
    proof {
        lemma_escaped_text_run(text@, start as int, n as int);
        assert(text@.take(n as int) =~= text@);
    }
    out
}

/// The text of a list of attributes: for each a space, the name, `="`, the
/// escaped value and `"`.
pub open spec fn attributes_xml(attributes: Seq<AttributeView>) -> Seq<char>
    decreases attributes.len(),
{
    if attributes.len() == 0 {
        Seq::empty()
    } else {
        attributes_xml(attributes.drop_last()) + seq![' '] + attributes.last().name + "=\""@
            + escaped_attribute(attributes.last().value) + seq!['"']
    }
}

/// The text of a list of elements, one after the other.
pub open spec fn elements_xml(elements: Seq<ElementView>) -> Seq<char>
    decreases elements,
{
    if elements.len() == 0 {
        Seq::empty()
    } else {
        elements_xml(elements.drop_last()) + element_xml(elements.last())
    }
}

/// The text of an element. One without content is written as a single
/// self-closed tag; otherwise the escaped character data comes first and the
/// child elements follow, between an opening and a closing tag.
pub open spec fn element_xml(element: ElementView) -> Seq<char>
    decreases element,
{
    if element.children.len() == 0 && element.text.len() == 0 {
        seq!['<'] + element.name + attributes_xml(element.attributes) + "/>"@
    } else {
        seq!['<'] + element.name + attributes_xml(element.attributes) + seq!['>'] + escaped_text(
            element.text,
        ) + elements_xml(element.children) + "</"@ + element.name + seq!['>']
    }
}

/// Appends the text of a list of attributes to `out`.
fn write_attributes(attributes: &Vec<Attribute>, out: &mut String)
    ensures
        final(out)@ == old(out)@ + attributes_xml(attribute_views(attributes@)),
{
    let ghost views = attribute_views(attributes@);
    let mut i: usize = 0;
    proof {
        assert(views.take(0) =~= Seq::<AttributeView>::empty());
        assert(out@ =~= old(out)@ + attributes_xml(views.take(0)));
    }
    while i < attributes.len()
        invariant
            0 <= i <= attributes.len(),
            views == attribute_views(attributes@),
            out@ == old(out)@ + attributes_xml(views.take(i as int)),
        decreases attributes.len() - i,
    {
        let ghost before = out@;
        let value = escape_attribute(attributes[i].value.as_str());
        out.append(" ");
        out.append(attributes[i].name.as_str());
        out.append("=\"");
        out.append(value.as_str());
        out.append("\"");
        proof {
            reveal_strlit(" ");
            reveal_strlit("\"");
            let next = views.take(i as int + 1);
            assert(next.drop_last() =~= views.take(i as int));
            assert(next.last() == attributes@[i as int]@);
            assert(" "@ =~= seq![' ']);
            assert("\""@ =~= seq!['"']);
            assert(out@ =~= before + seq![' '] + attributes@[i as int].name@ + "=\""@
                + escaped_attribute(attributes@[i as int].value@) + seq!['"']);
            assert(out@ =~= old(out)@ + attributes_xml(next));
        }
        i = i + 1;
    }
    proof {
        assert(views.take(attributes.len() as int) =~= views);
    }
}

impl Element {
    /// Appends the text of the element to `out`.
    pub fn write_xml(&self, out: &mut String)
        ensures
            final(out)@ == old(out)@ + element_xml(self@),
        decreases self,
    {
        let ghost start = out@;
        let ghost attrs = attributes_xml(attribute_views(self.attributes@));
        proof {
            reveal_strlit("<");
            reveal_strlit(">");
            assert("<"@ =~= seq!['<']);
            assert(">"@ =~= seq!['>']);
            lemma_element_views(self.children@);
        }
        out.append("<");
        out.append(self.name.as_str());
        write_attributes(&self.attributes, out);
        if self.children.len() == 0 && self.text.as_str().is_empty() {
            out.append("/>");
            proof {
                assert(out@ =~= start + element_xml(self@));
            }
        } else {
            out.append(">");
            let text = escape_text(self.text.as_str());
            out.append(text.as_str());
            let ghost head = start + seq!['<'] + self.name@ + attrs + seq!['>'] + escaped_text(
                self.text@,
            );
            let ghost views = element_views(self.children@);
            proof {
                assert(views.take(0) =~= Seq::<ElementView>::empty());
                assert(out@ =~= head + elements_xml(views.take(0)));
            }
            let mut i: usize = 0;
            while i < self.children.len()
                invariant
                    0 <= i <= self.children.len(),
                    views == element_views(self.children@),
                    views.len() == self.children.len(),
                    forall|j: int|
                        0 <= j < self.children.len() ==> #[trigger] views[j] == self.children@[j]@,
                    out@ == head + elements_xml(views.take(i as int)),
                decreases self.children.len() - i,
            {
                let ghost before = out@;
                self.children[i].write_xml(out);
                proof {
                    let next = views.take(i as int + 1);
                    assert(next.drop_last() =~= views.take(i as int));
                    assert(next.last() == self.children@[i as int]@);
                    assert(out@ =~= head + elements_xml(next));
                }
                i = i + 1;
            }
            proof {
                assert(views.take(self.children.len() as int) =~= views);
            }
            out.append("</");
            out.append(self.name.as_str());
            out.append(">");
            proof {
                assert(out@ =~= start + element_xml(self@));
            }
        }
    }

    /// The text of the element.
    pub fn to_xml(&self) -> (r: String)
        ensures
            r@ == element_xml(self@),
    {
        let mut out = String::new();
        self.write_xml(&mut out);
        proof {
            assert(out@ =~= element_xml(self@));
        }
        out
    }
}

/// `c` is one of the four white-space characters of XML.
pub open spec fn is_space(c: char) -> bool {
    c == ' ' || c == '\t' || c == '\r' || c == '\n'
}

/// `text` without the white space at its start.
pub open spec fn trim_start(text: Seq<char>) -> Seq<char>
    decreases text.len(),
{
    if text.len() > 0 && is_space(text[0]) {
        trim_start(text.drop_first())
    } else {
        text
    }
}

/// `text` without the white space at its end.
pub open spec fn trim_end(text: Seq<char>) -> Seq<char>
    decreases text.len(),
{
    if text.len() > 0 && is_space(text.last()) {
        trim_end(text.drop_last())
    } else {
        text
    }
}

/// `text` without the white space at its start and at its end.
pub open spec fn trimmed(text: Seq<char>) -> Seq<char> {
    trim_end(trim_start(text))
}

/// Where only white space stands before `from`, trimming the start leaves
/// what trimming from `from` on leaves.
proof fn lemma_trim_start_skip(text: Seq<char>, from: int)
    requires
        0 <= from <= text.len(),
        forall|i: int| 0 <= i < from ==> is_space(#[trigger] text[i]),
    ensures
        trim_start(text) == trim_start(text.skip(from)),
    decreases from,
{
    if from == 0 {
        assert(text.skip(0) =~= text);
    } else {
        assert(is_space(text[0]));
        let rest = text.drop_first();
        assert forall|i: int| 0 <= i < from - 1 implies is_space(#[trigger] rest[i]) by {
            assert(rest[i] == text[i + 1]);
        }
        lemma_trim_start_skip(rest, from - 1);
        assert(rest.skip(from - 1) =~= text.skip(from));
    }
}

/// Where only white space stands from `to` on, trimming the end leaves what
/// trimming up to `to` leaves.
proof fn lemma_trim_end_take(text: Seq<char>, to: int)
    requires
        0 <= to <= text.len(),
        forall|i: int| to <= i < text.len() ==> is_space(#[trigger] text[i]),
    ensures
        trim_end(text) == trim_end(text.take(to)),
    decreases text.len() - to,
{
    if to == text.len() {
        assert(text.take(to) =~= text);
    } else {
        assert(is_space(text.last()));
        let rest = text.drop_last();
        assert forall|i: int| to <= i < rest.len() implies is_space(#[trigger] rest[i]) by {
            assert(rest[i] == text[i]);
        }
        lemma_trim_end_take(rest, to);
        assert(rest.take(to) =~= text.take(to));
    }
}

/// Whether `c` is one of the four white-space characters of XML.
fn space(c: char) -> (r: bool)
    ensures
        r == is_space(c),
{
    c == ' ' || c == '\t' || c == '\r' || c == '\n'
}

/// `text` without the white space at its start and at its end.
pub fn trim(text: &str) -> (r: String)
    ensures
        r@ == trimmed(text@),
{
    let chars = crate::decimal::chars_of(text);
    let n = chars.len();
    let mut from: usize = 0;
    while from < n && space(chars[from])
        invariant
            0 <= from <= n,
            n == chars.len(),
            forall|i: int| 0 <= i < from ==> is_space(#[trigger] chars@[i]),
        decreases n - from,
    {
        from = from + 1;
    }
    let mut to: usize = n;
    while to > from && space(chars[to - 1])
        invariant
            from <= to <= n,
            n == chars.len(),
            forall|i: int| to <= i < n ==> is_space(#[trigger] chars@[i]),
        decreases to,
    {
        to = to - 1;
    }
    proof {
        let s = text@;
        lemma_trim_start_skip(s, from as int);
        let rest = s.skip(from as int);
        if from < n {
            assert(rest[0] == s[from as int]);
            assert(!is_space(rest[0]));
        }
        assert(trim_start(s) == rest);
        assert forall|i: int| to - from <= i < rest.len() implies is_space(#[trigger] rest[i]) by {
            assert(rest[i] == s[i + from]);
        }
        lemma_trim_end_take(rest, to - from);
        let kept = rest.take(to - from);
        if to > from {
            assert(kept.last() == s[to - 1]);
            assert(!is_space(kept.last()));
        }
        assert(trim_end(rest) == kept);
        assert(kept =~= s.subrange(from as int, to as int));
    }
    text.substring_char(from, to).to_owned()
}

} // verus!
