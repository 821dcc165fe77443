//! Reading records out of an element tree and writing them into one: looking
//! children and attributes up by name, and the rules for the text of each
//! kind of field.

use vstd::prelude::*;
use vstd::string::*;
use crate::decimal::chars_of;
use crate::decimal::decimal_digits;
use crate::decimal::decimal_text;
use crate::decimal::i32_to_string;
use crate::decimal::is_digit;
use crate::decimal::lemma_decimal_digits;
use crate::decimal::lemma_parse_signed_of_decimal;
use crate::decimal::parse_i32;
use crate::decimal::parse_signed;
use crate::fields::addoption_list_text;
use crate::fields::bool_text;
use crate::fields::consent_text;
use crate::fields::decode_bool;
use crate::fields::deserialize_addoption_list_from_str;
use crate::fields::deserialize_bool_from_str_yes_no_german;
use crate::fields::lemma_action_round_trip;
use crate::fields::lemma_bool_round_trip;
use crate::fields::lemma_location_round_trip;
use crate::fields::parse_addoption_list;
use crate::fields::parse_bool;
use crate::fields::parse_consent;
use crate::fields::ActionType;
use crate::fields::Addoption;
use crate::fields::Location;
use crate::fields::ValueError;
use crate::scan::find_from;
use crate::scan::first_index;
use crate::scan::lemma_first_index_at;
use crate::scan::same_text;
use crate::xml::attribute_views;
use crate::xml::element_views;
use crate::xml::is_space;
use crate::xml::lemma_element_views;
use crate::xml::lemma_element_views_push;
use crate::xml::trim;
use crate::xml::trim_end;
use crate::xml::trim_start;
use crate::xml::trimmed;
use crate::xml::Attribute;
use crate::xml::AttributeView;
use crate::xml::Element;
use crate::xml::ElementView;

verus! {

/// Why a document was not accepted.
#[derive(Debug, Clone, Copy, PartialEq, Eq)]
pub enum DecodeError {
    /// The text is not well-formed XML.
    NotWellFormed,
    /// A required element or attribute, named here, is absent.
    Missing(&'static str),
    /// An element or attribute that may stand once, named here, stands more
    /// than once.
    Duplicate(&'static str),
    /// The field named here holds a text that its rule does not accept.
    Invalid(&'static str, ValueError),
}

/// The name of an element without its namespace prefix: what follows the
/// first colon, or the whole name where there is none.
pub open spec fn local_name(name: Seq<char>) -> Seq<char> {
    let k = first_index(name, ':');
    if 0 <= k < name.len() {
        name.skip(k + 1)
    } else {
        name
    }
}

/// A name without a colon is its own local name.
pub proof fn lemma_plain_name(name: Seq<char>)
    requires
        forall|i: int| 0 <= i < name.len() ==> #[trigger] name[i] != ':',
    ensures
        local_name(name) == name,
{
    lemma_first_index_at(name, ':', name.len() as int);
}

/// The local name of a name with one prefix is what follows the prefix.
pub proof fn lemma_prefixed_name(prefix: Seq<char>, local: Seq<char>)
    requires
        forall|i: int| 0 <= i < prefix.len() ==> #[trigger] prefix[i] != ':',
    ensures
        local_name(prefix + seq![':'] + local) == local,
{
    let name = prefix + seq![':'] + local;
    assert forall|i: int| 0 <= i < prefix.len() implies #[trigger] name[i] != ':' by {
        assert(name[i] == prefix[i]);
    }
    assert(name[prefix.len() as int] == ':');
    lemma_first_index_at(name, ':', prefix.len() as int);
    assert(name.skip(prefix.len() as int + 1) =~= local);
}

/// Whether the local name of `name` is `expected`.
pub fn has_local_name(name: &str, expected: &str) -> (r: bool)
    ensures
        r == (local_name(name@) == expected@),
{
    let chars = chars_of(name);
    let k = find_from(&chars, 0, ':');
    proof {
        assert(chars@.skip(0) =~= chars@);
    }
    if k < chars.len() {
        let local = name.substring_char(k + 1, chars.len());
        proof {
            assert(name@.skip(k as int + 1) =~= name@.subrange(k as int + 1, chars.len() as int));
        }
        same_text(local, expected)
    } else {
        same_text(name, expected)
    }
}

/// The children with the local name `name`, in document order.
pub open spec fn children_named(children: Seq<ElementView>, name: Seq<char>) -> Seq<ElementView>
    decreases children.len(),
{
    if children.len() == 0 {
        Seq::empty()
    } else {
        let rest = children_named(children.drop_last(), name);
        if local_name(children.last().name) == name {
            rest.push(children.last())
        } else {
            rest
        }
    }
}

/// The attributes with the name `name`, in document order.
pub open spec fn attributes_named(attributes: Seq<AttributeView>, name: Seq<char>) -> Seq<
    AttributeView,
>
    decreases attributes.len(),
{
    if attributes.len() == 0 {
        Seq::empty()
    } else {
        let rest = attributes_named(attributes.drop_last(), name);
        if attributes.last().name == name {
            rest.push(attributes.last())
        } else {
            rest
        }
    }
}

/// `children` followed by `child`, where there is one.
#[verifier::opaque]
pub open spec fn with_optional(children: Seq<ElementView>, child: Option<ElementView>) -> Seq<
    ElementView,
> {
    match child {
        Some(c) => children.push(c),
        None => children,
    }
}

/// Looking a name up after a child was added: the child is found last when
/// it carries the name, and changes nothing when it does not.
pub broadcast proof fn lemma_children_named_push(
    children: Seq<ElementView>,
    child: ElementView,
    name: Seq<char>,
)
    ensures
        #[trigger] children_named(children.push(child), name) == if local_name(child.name)
            == name {
            children_named(children, name).push(child)
        } else {
            children_named(children, name)
        },
{
    assert(children.push(child).drop_last() =~= children);
}

/// Looking a name up after a child that may be absent was added: the child is
/// found last when it is there and carries the name, and changes nothing
/// otherwise.
pub broadcast proof fn lemma_children_named_optional(
    children: Seq<ElementView>,
    child: Option<ElementView>,
    name: Seq<char>,
)
    ensures
        #[trigger] children_named(with_optional(children, child), name) == if child is Some
            && local_name(child->0.name) == name {
            children_named(children, name).push(child->0)
        } else {
            children_named(children, name)
        },
{
    reveal(with_optional);
    if child is Some {
        lemma_children_named_push(children, child->0, name);
    }
}

/// Looking a name up after an attribute was added: the attribute is found
/// last when it carries the name, and changes nothing when it does not.
pub broadcast proof fn lemma_attributes_named_push(
    attributes: Seq<AttributeView>,
    attribute: AttributeView,
    name: Seq<char>,
)
    ensures
        #[trigger] attributes_named(attributes.push(attribute), name) == if attribute.name
            == name {
            attributes_named(attributes, name).push(attribute)
        } else {
            attributes_named(attributes, name)
        },
{
    assert(attributes.push(attribute).drop_last() =~= attributes);
}

/// An element without attributes and children that holds `text`.
pub open spec fn leaf(name: Seq<char>, text: Seq<char>) -> ElementView {
    ElementView { name, attributes: Seq::empty(), children: Seq::empty(), text }
}

/// The child with the local name `name`, where there is one; more than one
/// is refused.
pub open spec fn optional_child(element: ElementView, name: &'static str) -> Result<
    Option<ElementView>,
    DecodeError,
> {
    let found = children_named(element.children, name@);
    if found.len() == 0 {
        Ok(None)
    } else if found.len() == 1 {
        Ok(Some(found[0]))
    } else {
        Err(DecodeError::Duplicate(name))
    }
}

/// The child with the local name `name`; none and more than one are refused.
pub open spec fn required_child(element: ElementView, name: &'static str) -> Result<
    ElementView,
    DecodeError,
> {
    match optional_child(element, name) {
        Ok(Some(child)) => Ok(child),
        Ok(None) => Err(DecodeError::Missing(name)),
        Err(e) => Err(e),
    }
}

/// The text of the child `name`.
pub open spec fn child_text(element: ElementView, name: &'static str) -> Result<
    Seq<char>,
    DecodeError,
> {
    match required_child(element, name) {
        Ok(child) => Ok(child.text),
        Err(e) => Err(e),
    }
}

/// The text of the child `name`, where there is one.
pub open spec fn optional_child_text(element: ElementView, name: &'static str) -> Result<
    Option<Seq<char>>,
    DecodeError,
> {
    match optional_child(element, name) {
        Ok(Some(child)) => Ok(Some(child.text)),
        Ok(None) => Ok(None),
        Err(e) => Err(e),
    }
}

/// The consent flag that the child `name` holds.
pub open spec fn child_consent(element: ElementView, name: &'static str) -> Result<
    bool,
    DecodeError,
> {
    match child_text(element, name) {
        Ok(text) => match parse_consent(text) {
            Ok(value) => Ok(value),
            Err(why) => Err(DecodeError::Invalid(name, why)),
        },
        Err(e) => Err(e),
    }
}

/// The plain boolean that the child `name` holds; white space around the
/// literal is passed over.
pub open spec fn child_bool(element: ElementView, name: &'static str) -> Result<
    bool,
    DecodeError,
> {
    match child_text(element, name) {
        Ok(text) => match parse_bool(trimmed(text)) {
            Ok(value) => Ok(value),
            Err(why) => Err(DecodeError::Invalid(name, why)),
        },
        Err(e) => Err(e),
    }
}

/// The action that the child `name` holds; white space around the number is
/// passed over.
pub open spec fn child_action(element: ElementView, name: &'static str) -> Result<
    ActionType,
    DecodeError,
> {
    match child_text(element, name) {
        Ok(text) => match ActionType::parse(trimmed(text)) {
            Ok(value) => Ok(value),
            Err(why) => Err(DecodeError::Invalid(name, why)),
        },
        Err(e) => Err(e),
    }
}

/// The dispatch location that the child `name` holds, where there is one;
/// white space around the number is passed over.
pub open spec fn optional_child_location(element: ElementView, name: &'static str) -> Result<
    Option<Location>,
    DecodeError,
> {
    match optional_child_text(element, name) {
        Ok(Some(text)) => match Location::parse(trimmed(text)) {
            Ok(value) => Ok(Some(value)),
            Err(why) => Err(DecodeError::Invalid(name, why)),
        },
        Ok(None) => Ok(None),
        Err(e) => Err(e),
    }
}

/// The add-ons that the child `name` holds; none where there is no such
/// child.
pub open spec fn child_addoptions(element: ElementView, name: &'static str) -> Result<
    Seq<Addoption>,
    DecodeError,
> {
    match optional_child_text(element, name) {
        Ok(Some(text)) => Ok(parse_addoption_list(text)),
        Ok(None) => Ok(Seq::empty()),
        Err(e) => Err(e),
    }
}

/// The value of the attribute `name`, where there is one; more than one is
/// refused.
pub open spec fn optional_attribute(element: ElementView, name: &'static str) -> Result<
    Option<Seq<char>>,
    DecodeError,
> {
    let found = attributes_named(element.attributes, name@);
    if found.len() == 0 {
        Ok(None)
    } else if found.len() == 1 {
        Ok(Some(found[0].value))
    } else {
        Err(DecodeError::Duplicate(name))
    }
}

/// The value of the attribute `name`; none and more than one are refused.
pub open spec fn attribute_text(element: ElementView, name: &'static str) -> Result<
    Seq<char>,
    DecodeError,
> {
    match optional_attribute(element, name) {
        Ok(Some(value)) => Ok(value),
        Ok(None) => Err(DecodeError::Missing(name)),
        Err(e) => Err(e),
    }
}

/// The number that a text holds once the white space around it is taken
/// away.
pub open spec fn parse_number(text: Seq<char>) -> Option<int> {
    parse_signed(trimmed(text), -0x8000_0000, 0x7fff_ffff)
}

/// The number that the attribute `name` holds.
pub open spec fn attribute_i32(element: ElementView, name: &'static str) -> Result<
    i32,
    DecodeError,
> {
    match attribute_text(element, name) {
        Ok(text) => match parse_number(text) {
            Some(value) => Ok(value as i32),
            None => Err(DecodeError::Invalid(name, ValueError::ExpectedNumber)),
        },
        Err(e) => Err(e),
    }
}

/// A text that neither begins nor ends with white space is left as it is when
/// the white space around it is taken away.
pub proof fn lemma_trimmed_unchanged(text: Seq<char>)
    requires
        text.len() > 0,
        !is_space(text[0]),
        !is_space(text.last()),
    ensures
        trimmed(text) == text,
{
    assert(trim_start(text) == text);
    assert(trim_end(text) == text);
}

/// The digits of a number are left as they are when the white space around
/// them is taken away.
pub proof fn lemma_digits_trimmed(n: nat)
    ensures
        trimmed(decimal_digits(n)) == decimal_digits(n),
{
    lemma_decimal_digits(n);
    let digits = decimal_digits(n);
    assert(is_digit(digits[0]));
    assert(is_digit(digits.last()));
    lemma_trimmed_unchanged(digits);
}

/// Formatting a number and reading the text again gives the number back.
pub proof fn lemma_number_round_trip(value: i32)
    ensures
        parse_number(decimal_text(value as int)) == Some(value as int),
{
    let text = decimal_text(value as int);
    let magnitude = if value < 0 {
        (-(value as int)) as nat
    } else {
        value as nat
    };
    lemma_decimal_digits(magnitude);
    let digits = decimal_digits(magnitude);
    assert(is_digit(digits[0]));
    assert(is_digit(digits.last()));
    assert(!is_space(text[0]));
    assert(text.last() == digits.last());
    lemma_trimmed_unchanged(text);
    lemma_parse_signed_of_decimal(value as int, -0x8000_0000, 0x7fff_ffff);
}

/// Writing a plain boolean and reading the literal again, white space passed
/// over, gives the boolean back.
pub proof fn lemma_bool_text_round_trip(value: bool)
    ensures
        parse_bool(trimmed(bool_text(value))) == Ok::<bool, ValueError>(value),
{
    reveal_strlit("true");
    reveal_strlit("false");
    lemma_trimmed_unchanged(bool_text(value));
    lemma_bool_round_trip(value);
}

/// Writing an action and reading the number again, white space passed over,
/// gives the action back.
pub proof fn lemma_action_text_round_trip(value: ActionType)
    ensures
        ActionType::parse(trimmed(value.wire_text())) == Ok::<ActionType, ValueError>(value),
{
    lemma_digits_trimmed(value.wire_value() as nat);
    lemma_action_round_trip(value);
}

/// Writing a dispatch location and reading the number again, white space
/// passed over, gives the location back.
pub proof fn lemma_location_text_round_trip(value: Location)
    ensures
        Location::parse(trimmed(value.wire_text())) == Ok::<Location, ValueError>(value),
{
    lemma_digits_trimmed(value.wire_value() as nat);
    lemma_location_round_trip(value);
}

/// The children of `element` with the local name `name`, in document order.
pub fn find_children<'a>(element: &'a Element, name: &str) -> (r: Vec<&'a Element>)
    ensures
        r.len() == children_named(element@.children, name@).len(),
        forall|i: int|
            0 <= i < r.len() ==> (#[trigger] r@[i])@ == children_named(
                element@.children,
                name@,
            )[i],
{
    let ghost views = element@.children;
    proof {
        lemma_element_views(element.children@);
    }
    let mut found: Vec<&'a Element> = Vec::new();
    let mut i: usize = 0;
    proof {
        assert(views.take(0) =~= Seq::<ElementView>::empty());
    }
    while i < element.children.len()
        invariant
            0 <= i <= element.children.len(),
            views == element@.children,
            views.len() == element.children.len(),
            forall|j: int| 0 <= j < views.len() ==> #[trigger] views[j] == element.children@[j]@,
            found.len() == children_named(views.take(i as int), name@).len(),
            forall|j: int|
                0 <= j < found.len() ==> (#[trigger] found@[j])@ == children_named(
                    views.take(i as int),
                    name@,
                )[j],
        decreases element.children.len() - i,
    {
        let child = &element.children[i];
        proof {
            assert(views.take(i as int + 1).drop_last() =~= views.take(i as int));
            assert(views.take(i as int + 1).last() == child@);
        }
        if has_local_name(child.name.as_str(), name) {
            found.push(child);
        }
        i = i + 1;
    }
    proof {
        assert(views.take(element.children.len() as int) =~= views);
    }
    found
}

/// The child of `element` with the local name `name`, where there is one.
pub fn find_child<'a>(element: &'a Element, name: &'static str) -> (r: Result<
    Option<&'a Element>,
    DecodeError,
>)
    ensures
        match r {
            Ok(Some(child)) => optional_child(element@, name) == Ok::<
                Option<ElementView>,
                DecodeError,
            >(Some(child@)),
            Ok(None) => optional_child(element@, name) == Ok::<Option<ElementView>, DecodeError>(
                None,
            ),
            Err(e) => optional_child(element@, name) == Err::<Option<ElementView>, DecodeError>(e),
        },
{
    let found = find_children(element, name);
    if found.len() == 0 {
        Ok(None)
    } else if found.len() == 1 {
        Ok(Some(found[0]))
    } else {
        Err(DecodeError::Duplicate(name))
    }
}

/// The child of `element` with the local name `name`.
pub fn get_child<'a>(element: &'a Element, name: &'static str) -> (r: Result<
    &'a Element,
    DecodeError,
>)
    ensures
        match r {
            Ok(child) => required_child(element@, name) == Ok::<ElementView, DecodeError>(child@),
            Err(e) => required_child(element@, name) == Err::<ElementView, DecodeError>(e),
        },
{
    match find_child(element, name) {
        Ok(Some(child)) => Ok(child),
        Ok(None) => Err(DecodeError::Missing(name)),
        Err(e) => Err(e),
    }
}

/// The text of the child `name`.
pub fn get_child_text(element: &Element, name: &'static str) -> (r: Result<String, DecodeError>)
    ensures
        match r {
            Ok(text) => child_text(element@, name) == Ok::<Seq<char>, DecodeError>(text@),
            Err(e) => child_text(element@, name) == Err::<Seq<char>, DecodeError>(e),
        },
{
    match get_child(element, name) {
        Ok(child) => Ok(child.text.clone()),
        Err(e) => Err(e),
    }
}

/// The text of the child `name`, where there is one.
pub fn find_child_text(element: &Element, name: &'static str) -> (r: Result<
    Option<String>,
    DecodeError,
>)
    ensures
        match r {
            Ok(text) => optional_child_text(element@, name) == Ok::<
                Option<Seq<char>>,
                DecodeError,
            >(text.deep_view()),
            Err(e) => optional_child_text(element@, name) == Err::<Option<Seq<char>>, DecodeError>(
                e,
            ),
        },
{
    match find_child(element, name) {
        Ok(Some(child)) => Ok(Some(child.text.clone())),
        Ok(None) => Ok(None),
        Err(e) => Err(e),
    }
}

/// The consent flag that the child `name` holds.
pub fn get_child_consent(element: &Element, name: &'static str) -> (r: Result<bool, DecodeError>)
    ensures
        r == child_consent(element@, name),
{
    match get_child(element, name) {
        Ok(child) => match deserialize_bool_from_str_yes_no_german(child.text.as_str()) {
            Ok(value) => Ok(value),
            Err(why) => Err(DecodeError::Invalid(name, why)),
        },
        Err(e) => Err(e),
    }
}

/// The plain boolean that the child `name` holds.
pub fn get_child_bool(element: &Element, name: &'static str) -> (r: Result<bool, DecodeError>)
    ensures
        r == child_bool(element@, name),
{
    match get_child(element, name) {
        Ok(child) => match decode_bool(trim(child.text.as_str()).as_str()) {
            Ok(value) => Ok(value),
            Err(why) => Err(DecodeError::Invalid(name, why)),
        },
        Err(e) => Err(e),
    }
}

/// The action that the child `name` holds.
pub fn get_child_action(element: &Element, name: &'static str) -> (r: Result<
    ActionType,
    DecodeError,
>)
    ensures
        r == child_action(element@, name),
{
    match get_child(element, name) {
        Ok(child) => match ActionType::decode(trim(child.text.as_str()).as_str()) {
            Ok(value) => Ok(value),
            Err(why) => Err(DecodeError::Invalid(name, why)),
        },
        Err(e) => Err(e),
    }
}

/// The dispatch location that the child `name` holds, where there is one.
pub fn find_child_location(element: &Element, name: &'static str) -> (r: Result<
    Option<Location>,
    DecodeError,
>)
    ensures
        r == optional_child_location(element@, name),
{
    match find_child(element, name) {
        Ok(Some(child)) => match Location::decode(trim(child.text.as_str()).as_str()) {
            Ok(value) => Ok(Some(value)),
            Err(why) => Err(DecodeError::Invalid(name, why)),
        },
        Ok(None) => Ok(None),
        Err(e) => Err(e),
    }
}

/// The add-ons that the child `name` holds; none where there is no such
/// child.
pub fn get_child_addoptions(element: &Element, name: &'static str) -> (r: Result<
    Vec<Addoption>,
    DecodeError,
>)
    ensures
        match r {
            Ok(values) => child_addoptions(element@, name) == Ok::<Seq<Addoption>, DecodeError>(
                values@,
            ),
            Err(e) => child_addoptions(element@, name) == Err::<Seq<Addoption>, DecodeError>(e),
        },
{
    match find_child(element, name) {
        Ok(Some(child)) => Ok(deserialize_addoption_list_from_str(child.text.as_str())),
        Ok(None) => Ok(Vec::new()),
        Err(e) => Err(e),
    }
}

/// The value of the attribute `name`.
pub fn get_attribute(element: &Element, name: &'static str) -> (r: Result<String, DecodeError>)
    ensures
        match r {
            Ok(text) => attribute_text(element@, name) == Ok::<Seq<char>, DecodeError>(text@),
            Err(e) => attribute_text(element@, name) == Err::<Seq<char>, DecodeError>(e),
        },
{
    let ghost views = element@.attributes;
    let mut count: usize = 0;
    let mut first: usize = 0;
    let mut i: usize = 0;
    proof {
        assert(views.take(0) =~= Seq::<AttributeView>::empty());
    }
    while i < element.attributes.len()
        invariant
            0 <= i <= element.attributes.len(),
            views == attribute_views(element.attributes@),
            count == attributes_named(views.take(i as int), name@).len(),
            count <= i,
            count > 0 ==> first < i && attributes_named(views.take(i as int), name@)[0]
                == element.attributes@[first as int]@,
        decreases element.attributes.len() - i,
    {
        proof {
            assert(views.take(i as int + 1).drop_last() =~= views.take(i as int));
            assert(views.take(i as int + 1).last() == element.attributes@[i as int]@);
        }
        if same_text(element.attributes[i].name.as_str(), name) {
            if count == 0 {
                first = i;
            }
            count = count + 1;
        }
        i = i + 1;
    }
    proof {
        assert(views.take(element.attributes.len() as int) =~= views);
    }
    if count == 0 {
        Err(DecodeError::Missing(name))
    } else if count == 1 {
        Ok(element.attributes[first].value.clone())
    } else {
        Err(DecodeError::Duplicate(name))
    }
}

/// The number that the attribute `name` holds.
pub fn get_attribute_i32(element: &Element, name: &'static str) -> (r: Result<i32, DecodeError>)
    ensures
        r == attribute_i32(element@, name),
{
    match get_attribute(element, name) {
        Ok(text) => {
            let inner = trim(text.as_str());
            match parse_i32(inner.as_str()) {
                Some(value) => Ok(value),
                None => Err(DecodeError::Invalid(name, ValueError::ExpectedNumber)),
            }
        },
        Err(e) => Err(e),
    }
}

/// An element without attributes and children that holds `text`.
pub fn make_leaf(name: &str, text: &str) -> (r: Element)
    ensures
        r@ == leaf(name@, text@),
{
    let r = Element {
        name: name.to_owned(),
        attributes: Vec::new(),
        children: Vec::new(),
        text: text.to_owned(),
    };
    proof {
        assert(r@.attributes =~= Seq::<AttributeView>::empty());
        assert(r@.children =~= Seq::<ElementView>::empty());
    }
    r
}

/// An attribute with the given name and value.
pub fn make_attribute(name: &str, value: &str) -> (r: Attribute)
    ensures
        r@ == (AttributeView { name: name@, value: value@ }),
{
    Attribute { name: name.to_owned(), value: value.to_owned() }
}

/// An element with the given parts.
pub fn make_element(
    name: &str,
    attributes: Vec<Attribute>,
    children: Vec<Element>,
    text: String,
) -> (r: Element)
    ensures
        r@ == (ElementView {
            name: name@,
            attributes: attribute_views(attributes@),
            children: element_views(children@),
            text: text@,
        }),
{
    Element { name: name.to_owned(), attributes, children, text }
}

/// No children yet.
pub fn no_children() -> (r: Vec<Element>)
    ensures
        element_views(r@) == Seq::<ElementView>::empty(),
{
    let r: Vec<Element> = Vec::new();
    proof {
        assert(element_views(r@) =~= Seq::<ElementView>::empty());
    }
    r
}

/// No attributes.
pub fn no_attributes() -> (r: Vec<Attribute>)
    ensures
        attribute_views(r@) == Seq::<AttributeView>::empty(),
{
    let r: Vec<Attribute> = Vec::new();
    proof {
        assert(attribute_views(r@) =~= Seq::<AttributeView>::empty());
    }
    r
}

/// A list of attributes that holds `attribute` alone.
pub fn one_attribute(attribute: Attribute) -> (r: Vec<Attribute>)
    ensures
        attribute_views(r@) == Seq::<AttributeView>::empty().push(attribute@),
{
    let mut r: Vec<Attribute> = Vec::new();
    r.push(attribute);
    proof {
        assert(attribute_views(r@) =~= Seq::<AttributeView>::empty().push(attribute@));
    }
    r
}

/// Adds `child` as the last child.
pub fn add_child(children: &mut Vec<Element>, child: Element)
    ensures
        element_views(final(children)@) == element_views(old(children)@).push(child@),
{
    proof {
        lemma_element_views_push(children@, child);
    }
    children.push(child);
}

/// Adds `child` as the last child, where there is one.
pub fn add_optional_child(children: &mut Vec<Element>, child: Option<Element>)
    ensures
        element_views(final(children)@) == with_optional(
            element_views(old(children)@),
            child.deep_view(),
        ),
{
    proof {
        reveal(with_optional);
    }
    match child {
        Some(c) => {
            add_child(children, c);
        },
        None => {},
    }
}

/// The leaf that an optional text is written as.
pub open spec fn optional_leaf(name: Seq<char>, text: Option<Seq<char>>) -> Option<ElementView> {
    match text {
        Some(t) => Some(leaf(name, t)),
        None => None,
    }
}

/// The leaf that an optional text is written as.
pub fn make_optional_leaf(name: &str, text: &Option<String>) -> (r: Option<Element>)
    ensures
        r.deep_view() == optional_leaf(name@, text.deep_view()),
{
    match text {
        Some(t) => Some(make_leaf(name, t.as_str())),
        None => None,
    }
}

/// The leaf that an optional dispatch location is written as.
pub open spec fn location_leaf(name: Seq<char>, location: Option<Location>) -> Option<
    ElementView,
> {
    match location {
        Some(l) => Some(leaf(name, l.wire_text())),
        None => None,
    }
}

/// The leaf that an optional dispatch location is written as.
pub fn make_location_leaf(name: &str, location: &Option<Location>) -> (r: Option<Element>)
    ensures
        r.deep_view() == location_leaf(name@, *location),
{
    match location {
        Some(l) => {
            let text = l.encode();
            Some(make_leaf(name, text.as_str()))
        },
        None => None,
    }
}

/// The leaf that a list of add-ons is written as: none for the empty list.
pub open spec fn addoptions_leaf(name: Seq<char>, values: Seq<Addoption>) -> Option<ElementView> {
    if values.len() == 0 {
        None
    } else {
        Some(leaf(name, addoption_list_text(values)))
    }
}

/// The leaf that a list of add-ons is written as: none for the empty list.
pub fn make_addoptions_leaf(name: &str, values: &Vec<Addoption>) -> (r: Option<Element>)
    ensures
        r.deep_view() == addoptions_leaf(name@, values@),
{
    if values.len() == 0 {
        None
    } else {
        let text = crate::fields::serialize_addoption_list_to_str(values.as_slice());
        Some(make_leaf(name, text.as_str()))
    }
}

/// The text of a number.
pub fn number_text(value: i32) -> (r: String)
    ensures
        r@ == decimal_text(value as int),
{
    i32_to_string(value)
}

/// The text of a consent flag.
pub fn consent_token(value: bool) -> (r: &'static str)
    ensures
        r@ == consent_text(value),
{
    crate::fields::serialize_bool_to_str_yes_no_german(value)
}

/// The text of a plain boolean.
pub fn bool_token(value: bool) -> (r: &'static str)
    ensures
        r@ == bool_text(value),
{
    crate::fields::encode_bool(value)
}

/// The text of the child at place `index` among the `count` children with
/// the local name `name`; fewer and more than `count` such children are
/// refused.
pub open spec fn nth_child_text(
    element: ElementView,
    name: &'static str,
    index: int,
    count: int,
) -> Result<Seq<char>, DecodeError> {
    let found = children_named(element.children, name@);
    if found.len() < count {
        Err(DecodeError::Missing(name))
    } else if found.len() > count {
        Err(DecodeError::Duplicate(name))
    } else {
        Ok(found[index].text)
    }
}

/// The text of the child at place `index` among the `count` children with
/// the local name `name`.
pub fn get_nth_child_text(element: &Element, name: &'static str, index: usize, count: usize) -> (r:
    Result<String, DecodeError>)
    requires
        index < count,
    ensures
        match r {
            Ok(text) => nth_child_text(element@, name, index as int, count as int) == Ok::<
                Seq<char>,
                DecodeError,
            >(text@),
            Err(e) => nth_child_text(element@, name, index as int, count as int) == Err::<
                Seq<char>,
                DecodeError,
            >(e),
        },
{
    let found = find_children(element, name);
    if found.len() < count {
        Err(DecodeError::Missing(name))
    } else if found.len() > count {
        Err(DecodeError::Duplicate(name))
    } else {
        Ok(found[index].text.clone())
    }
}

} // verus!
