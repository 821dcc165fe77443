//! The mapping between the wire records and the element tree: which field is
//! an attribute, which a child element and which the element's own text, which
//! may be absent, and what each one's text looks like.

use vstd::prelude::*;
use crate::api::AccountInfo;
use crate::api::AccountInfoView;
use crate::api::Auth;
use crate::api::AuthView;
use crate::api::Command;
use crate::api::CommandView;
use crate::api::Company;
use crate::api::CompanyView;
use crate::api::CostumerCredit;
use crate::api::CostumerCreditView;
use crate::api::CostumerData;
use crate::api::CostumerDataView;
use crate::api::Info;
use crate::api::InfoView;
use crate::api::Options;
use crate::api::OptionsView;
use crate::api::Order;
use crate::api::OrderView;
use crate::api::Pixelletter;
use crate::api::PixelletterView;
use crate::api::Ref;
use crate::api::RefView;
use crate::api::Response;
use crate::api::ResponseResult;
use crate::api::ResponseResultView;
use crate::api::ResponseView;
use crate::api::Text;
use crate::api::TextView;
use crate::api::Title;
use crate::api::TitleView;
use crate::decimal::decimal_text;
use crate::fields::bool_text;
use crate::fields::consent_text;
use crate::fields::lemma_addoption_list_round_trip;
use crate::fields::ActionType;
use crate::fields::Addoption;
use crate::fields::Location;
use crate::fields::lemma_consent_round_trip;
use crate::node::add_child;
use crate::node::add_optional_child;
use crate::node::addoptions_leaf;
use crate::node::attribute_i32;
use crate::node::attribute_text;
use crate::node::bool_token;
use crate::node::child_action;
use crate::node::child_addoptions;
use crate::node::child_bool;
use crate::node::child_consent;
use crate::node::child_text;
use crate::node::consent_token;
use crate::node::find_child;
use crate::node::find_child_location;
use crate::node::find_child_text;
use crate::node::get_attribute;
use crate::node::get_attribute_i32;
use crate::node::get_child;
use crate::node::get_child_action;
use crate::node::get_child_addoptions;
use crate::node::get_child_bool;
use crate::node::get_child_consent;
use crate::node::get_child_text;
use crate::node::get_nth_child_text;
use crate::node::leaf;
use crate::node::lemma_action_text_round_trip;
use crate::node::lemma_attributes_named_push;
use crate::node::lemma_bool_text_round_trip;
use crate::node::lemma_children_named_optional;
use crate::node::lemma_children_named_push;
use crate::node::lemma_location_text_round_trip;
use crate::node::lemma_number_round_trip;
use crate::node::lemma_plain_name;
use crate::node::local_name;
use crate::node::lemma_prefixed_name;
use crate::node::location_leaf;
use crate::node::make_addoptions_leaf;
use crate::node::make_attribute;
use crate::node::make_element;
use crate::node::make_leaf;
use crate::node::make_location_leaf;
use crate::node::make_optional_leaf;
use crate::node::no_attributes;
use crate::node::no_children;
use crate::node::nth_child_text;
use crate::node::number_text;
use crate::node::one_attribute;
use crate::node::optional_child;
use crate::node::optional_child_location;
use crate::node::optional_child_text;
use crate::node::optional_leaf;
use crate::node::required_child;
use crate::node::with_optional;
use crate::node::DecodeError;
use crate::xml::AttributeView;
use crate::xml::Element;
use crate::xml::ElementView;

verus! {

/// The element that a reference is written as, under the given name.
pub open spec fn reference_element(value: RefView, name: Seq<char>) -> ElementView {
    ElementView {
        name,
        attributes: Seq::empty(),
        children: Seq::empty(),
        text: match value.text {
            Some(text) => text,
            None => Seq::empty(),
        },
    }
}

/// The element that a reference is written as, where there is one.
pub open spec fn optional_reference_element(
    value: Option<RefView>,
    name: Seq<char>,
) -> Option<ElementView> {
    match value {
        Some(v) => Some(reference_element(v, name)),
        None => None,
    }
}

/// What an element holds when it is read as a reference. The fields are read in
/// the order of the record, and the first one that cannot be read decides the
/// error.
pub open spec fn reference_from_element(element: ElementView) -> Result<RefView, DecodeError> {
    Ok(
        RefView {
            text: if element.text.len() == 0 {
                None
            } else {
                Some(element.text)
            },
        },
    )
}

/// What the child `name` holds when it is read as a reference, where there is
/// such a child.
pub open spec fn optional_reference_child(
    element: ElementView,
    name: &'static str,
) -> Result<Option<RefView>, DecodeError> {
    match optional_child(element, name) {
        Ok(Some(child)) => match reference_from_element(child) {
            Ok(value) => Ok(Some(value)),
            Err(e) => Err(e),
        },
        Ok(None) => Ok(None),
        Err(e) => Err(e),
    }
}

impl Ref {
    /// Writes the record as an element with the given name.
    pub fn to_element(&self, name: &str) -> (r: Element)
        ensures
            r@ == reference_element(self@, name@),
    {
        let attributes = no_attributes();
        let children = no_children();
        let text = match &self.text {
            Some(text) => text.clone(),
            None => String::new(),
        };
        make_element(name, attributes, children, text)
    }

    /// Writes the record as an element with the given name, where there is one.
    pub fn optional_element(value: &Option<Ref>, name: &str) -> (r: Option<Element>)
        ensures
            r.deep_view() == optional_reference_element(value.deep_view(), name@),
    {
        match value {
            Some(v) => Some(v.to_element(name)),
            None => None,
        }
    }

    /// Reads the record from an element.
    pub fn from_element(element: &Element) -> (r: Result<Ref, DecodeError>)
        ensures
            match r {
                Ok(value) => reference_from_element(element@) == Ok::<RefView, DecodeError>(value@),
                Err(e) => reference_from_element(element@) == Err::<RefView, DecodeError>(e),
            },
    {
        let text = if element.text.as_str().is_empty() {
            None
        } else {
            Some(element.text.clone())
        };
        Ok(Ref { text })
    }

    /// Reads the record from the child `name` of an element, where there is
    /// such a child.
    pub fn from_optional_child(
        element: &Element,
        name: &'static str,
    ) -> (r: Result<Option<Ref>, DecodeError>)
        ensures
            match r {
                Ok(value) => optional_reference_child(element@, name)
                    == Ok::<Option<RefView>, DecodeError>(value.deep_view()),
                Err(e) => optional_reference_child(element@, name)
                    == Err::<Option<RefView>, DecodeError>(e),
            },
    {
        match find_child(element, name) {
            Ok(Some(child)) => match Ref::from_element(child) {
                Ok(value) => Ok(Some(value)),
                Err(e) => Err(e),
            },
            Ok(None) => Ok(None),
            Err(e) => Err(e),
        }
    }
}

/// Whether a reference is read back as it was written. A reference whose text
/// is present and empty is not: it is written like one without text.
pub open spec fn reference_round_trips(value: RefView) -> bool {
    match value.text {
        Some(text) => text.len() > 0,
        None => true,
    }
}

/// Writing a reference as an element and reading the element again gives the
/// record back: every field as it was, and every absent field absent.
pub proof fn lemma_reference_round_trip(value: RefView, name: Seq<char>)
    requires
        reference_round_trips(value),
    ensures
        reference_from_element(reference_element(value, name)) == Ok::<RefView, DecodeError>(value),
{
}

/// The element that the authentication is written as, under the given name.
pub open spec fn auth_element(value: AuthView, name: Seq<char>) -> ElementView {
    let children = Seq::empty()
        .push(leaf("email"@, value.email))
        .push(leaf("password"@, value.password))
        .push(leaf("agb"@, consent_text(value.agb)))
        .push(leaf("widerrufsverzicht"@, consent_text(value.widerrufsverzicht)))
        .push(leaf("testmodus"@, bool_text(value.testmodus)));
    let children = with_optional(children, optional_reference_element(value.auth_ref, "ref"@));
    ElementView {
        name,
        attributes: Seq::empty(),
        children,
        text: Seq::empty(),
    }
}

/// The element that the authentication is written as, where there is one.
pub open spec fn optional_auth_element(
    value: Option<AuthView>,
    name: Seq<char>,
) -> Option<ElementView> {
    match value {
        Some(v) => Some(auth_element(v, name)),
        None => None,
    }
}

/// What an element holds when it is read as the authentication. The fields are
/// read in the order of the record, and the first one that cannot be read
/// decides the error.
pub open spec fn auth_from_element(element: ElementView) -> Result<AuthView, DecodeError> {
    let email = child_text(element, "email");
    let password = child_text(element, "password");
    let agb = child_consent(element, "agb");
    let widerrufsverzicht = child_consent(element, "widerrufsverzicht");
    let testmodus = child_bool(element, "testmodus");
    let auth_ref = optional_reference_child(element, "ref");
    if email is Err {
        Err(email->Err_0)
    } else if password is Err {
        Err(password->Err_0)
    } else if agb is Err {
        Err(agb->Err_0)
    } else if widerrufsverzicht is Err {
        Err(widerrufsverzicht->Err_0)
    } else if testmodus is Err {
        Err(testmodus->Err_0)
    } else if auth_ref is Err {
        Err(auth_ref->Err_0)
    } else {
        Ok(
            AuthView {
                email: email->Ok_0,
                password: password->Ok_0,
                agb: agb->Ok_0,
                widerrufsverzicht: widerrufsverzicht->Ok_0,
                testmodus: testmodus->Ok_0,
                auth_ref: auth_ref->Ok_0,
            },
        )
    }
}

/// What the child `name` holds when it is read as the authentication, where
/// there is such a child.
pub open spec fn optional_auth_child(
    element: ElementView,
    name: &'static str,
) -> Result<Option<AuthView>, DecodeError> {
    match optional_child(element, name) {
        Ok(Some(child)) => match auth_from_element(child) {
            Ok(value) => Ok(Some(value)),
            Err(e) => Err(e),
        },
        Ok(None) => Ok(None),
        Err(e) => Err(e),
    }
}

impl Auth {
    /// Writes the record as an element with the given name.
    pub fn to_element(&self, name: &str) -> (r: Element)
        ensures
            r@ == auth_element(self@, name@),
    {
        let attributes = no_attributes();
        let mut children = no_children();
        add_child(&mut children, make_leaf("email", self.email.as_str()));
        add_child(&mut children, make_leaf("password", self.password.as_str()));
        add_child(&mut children, make_leaf("agb", consent_token(self.agb)));
        add_child(
            &mut children,
            make_leaf("widerrufsverzicht", consent_token(self.widerrufsverzicht)),
        );
        add_child(&mut children, make_leaf("testmodus", bool_token(self.testmodus)));
        add_optional_child(&mut children, Ref::optional_element(&self.auth_ref, "ref"));
        make_element(name, attributes, children, String::new())
    }

    /// Writes the record as an element with the given name, where there is one.
    pub fn optional_element(value: &Option<Auth>, name: &str) -> (r: Option<Element>)
        ensures
            r.deep_view() == optional_auth_element(value.deep_view(), name@),
    {
        match value {
            Some(v) => Some(v.to_element(name)),
            None => None,
        }
    }

    /// Reads the record from an element.
    pub fn from_element(element: &Element) -> (r: Result<Auth, DecodeError>)
        ensures
            match r {
                Ok(value) => auth_from_element(element@) == Ok::<AuthView, DecodeError>(value@),
                Err(e) => auth_from_element(element@) == Err::<AuthView, DecodeError>(e),
            },
    {
        let email = get_child_text(element, "email")?;
        let password = get_child_text(element, "password")?;
        let agb = get_child_consent(element, "agb")?;
        let widerrufsverzicht = get_child_consent(element, "widerrufsverzicht")?;
        let testmodus = get_child_bool(element, "testmodus")?;
        let auth_ref = Ref::from_optional_child(element, "ref")?;
        Ok(Auth { email, password, agb, widerrufsverzicht, testmodus, auth_ref })
    }

    /// Reads the record from the child `name` of an element, where there is
    /// such a child.
    pub fn from_optional_child(
        element: &Element,
        name: &'static str,
    ) -> (r: Result<Option<Auth>, DecodeError>)
        ensures
            match r {
                Ok(value) => optional_auth_child(element@, name)
                    == Ok::<Option<AuthView>, DecodeError>(value.deep_view()),
                Err(e) => optional_auth_child(element@, name)
                    == Err::<Option<AuthView>, DecodeError>(e),
            },
    {
        match find_child(element, name) {
            Ok(Some(child)) => match Auth::from_element(child) {
                Ok(value) => Ok(Some(value)),
                Err(e) => Err(e),
            },
            Ok(None) => Ok(None),
            Err(e) => Err(e),
        }
    }
}

/// Whether the authentication is read back as it was written. A reference whose
/// text is present and empty is not: it is written like one without text.
pub open spec fn auth_round_trips(value: AuthView) -> bool {
    match value.auth_ref {
        Some(v) => reference_round_trips(v),
        None => true,
    }
}

/// The names of the children of the authentication: none of the plain ones
/// holds a colon, and no two of them are the same.
proof fn lemma_auth_names()
    ensures
        local_name("email"@) == "email"@,
        "email"@.len() == 5,
        local_name("password"@) == "password"@,
        "password"@.len() == 8,
        local_name("agb"@) == "agb"@,
        "agb"@.len() == 3,
        local_name("widerrufsverzicht"@) == "widerrufsverzicht"@,
        "widerrufsverzicht"@.len() == 17,
        local_name("testmodus"@) == "testmodus"@,
        "testmodus"@.len() == 9,
        local_name("ref"@) == "ref"@,
        "ref"@.len() == 3,
        "agb"@[0] != "ref"@[0],
{
    reveal_strlit("email");
    lemma_plain_name("email"@);
    reveal_strlit("password");
    lemma_plain_name("password"@);
    reveal_strlit("agb");
    lemma_plain_name("agb"@);
    reveal_strlit("widerrufsverzicht");
    lemma_plain_name("widerrufsverzicht"@);
    reveal_strlit("testmodus");
    lemma_plain_name("testmodus"@);
    reveal_strlit("ref");
    lemma_plain_name("ref"@);
}

/// Writing the authentication as an element and reading the element again gives
/// the record back: every field as it was, and every absent field absent.
#[verifier::rlimit(40)]
pub proof fn lemma_auth_round_trip(value: AuthView, name: Seq<char>)
    requires
        auth_round_trips(value),
    ensures
        auth_from_element(auth_element(value, name)) == Ok::<AuthView, DecodeError>(value),
{
    broadcast use {lemma_children_named_push, lemma_children_named_optional};
    lemma_auth_names();
    lemma_consent_round_trip(value.agb);
    lemma_consent_round_trip(value.widerrufsverzicht);
    lemma_bool_text_round_trip(value.testmodus);
    if value.auth_ref is Some {
        lemma_reference_round_trip(value.auth_ref->0, "ref"@);
    }
}

/// The element that a typed letter is written as, under the given name.
pub open spec fn text_element(value: TextView, name: Seq<char>) -> ElementView {
    let children = Seq::empty()
        .push(leaf("address"@, value.address))
        .push(leaf("message"@, value.message));
    ElementView {
        name,
        attributes: Seq::empty(),
        children,
        text: Seq::empty(),
    }
}

/// The element that a typed letter is written as, where there is one.
pub open spec fn optional_text_element(
    value: Option<TextView>,
    name: Seq<char>,
) -> Option<ElementView> {
    match value {
        Some(v) => Some(text_element(v, name)),
        None => None,
    }
}

/// What an element holds when it is read as a typed letter. The fields are read
/// in the order of the record, and the first one that cannot be read decides
/// the error.
pub open spec fn text_from_element(element: ElementView) -> Result<TextView, DecodeError> {
    let address = child_text(element, "address");
    let message = child_text(element, "message");
    if address is Err {
        Err(address->Err_0)
    } else if message is Err {
        Err(message->Err_0)
    } else {
        Ok(
            TextView {
                address: address->Ok_0,
                message: message->Ok_0,
            },
        )
    }
}

/// What the child `name` holds when it is read as a typed letter, where there
/// is such a child.
pub open spec fn optional_text_child(
    element: ElementView,
    name: &'static str,
) -> Result<Option<TextView>, DecodeError> {
    match optional_child(element, name) {
        Ok(Some(child)) => match text_from_element(child) {
            Ok(value) => Ok(Some(value)),
            Err(e) => Err(e),
        },
        Ok(None) => Ok(None),
        Err(e) => Err(e),
    }
}

impl Text {
    /// Writes the record as an element with the given name.
    pub fn to_element(&self, name: &str) -> (r: Element)
        ensures
            r@ == text_element(self@, name@),
    {
        let attributes = no_attributes();
        let mut children = no_children();
        add_child(&mut children, make_leaf("address", self.address.as_str()));
        add_child(&mut children, make_leaf("message", self.message.as_str()));
        make_element(name, attributes, children, String::new())
    }

    /// Writes the record as an element with the given name, where there is one.
    pub fn optional_element(value: &Option<Text>, name: &str) -> (r: Option<Element>)
        ensures
            r.deep_view() == optional_text_element(value.deep_view(), name@),
    {
        match value {
            Some(v) => Some(v.to_element(name)),
            None => None,
        }
    }

    /// Reads the record from an element.
    pub fn from_element(element: &Element) -> (r: Result<Text, DecodeError>)
        ensures
            match r {
                Ok(value) => text_from_element(element@) == Ok::<TextView, DecodeError>(value@),
                Err(e) => text_from_element(element@) == Err::<TextView, DecodeError>(e),
            },
    {
        let address = get_child_text(element, "address")?;
        let message = get_child_text(element, "message")?;
        Ok(Text { address, message })
    }

    /// Reads the record from the child `name` of an element, where there is
    /// such a child.
    pub fn from_optional_child(
        element: &Element,
        name: &'static str,
    ) -> (r: Result<Option<Text>, DecodeError>)
        ensures
            match r {
                Ok(value) => optional_text_child(element@, name)
                    == Ok::<Option<TextView>, DecodeError>(value.deep_view()),
                Err(e) => optional_text_child(element@, name)
                    == Err::<Option<TextView>, DecodeError>(e),
            },
    {
        match find_child(element, name) {
            Ok(Some(child)) => match Text::from_element(child) {
                Ok(value) => Ok(Some(value)),
                Err(e) => Err(e),
            },
            Ok(None) => Ok(None),
            Err(e) => Err(e),
        }
    }
}

/// The names of the children of a typed letter: none of the plain ones holds a
/// colon, and no two of them are the same.
proof fn lemma_text_names()
    ensures
        local_name("address"@) == "address"@,
        "address"@.len() == 7,
        local_name("message"@) == "message"@,
        "message"@.len() == 7,
        "address"@[0] != "message"@[0],
{
    reveal_strlit("address");
    lemma_plain_name("address"@);
    reveal_strlit("message");
    lemma_plain_name("message"@);
}

/// Writing a typed letter as an element and reading the element again gives the
/// record back: every field as it was, and every absent field absent.
pub proof fn lemma_text_round_trip(value: TextView, name: Seq<char>)
    ensures
        text_from_element(text_element(value, name)) == Ok::<TextView, DecodeError>(value),
{
    broadcast use {lemma_children_named_push, lemma_children_named_optional};
    lemma_text_names();
}

/// The element that the delivery parameters is written as, under the given
/// name.
pub open spec fn options_element(value: OptionsView, name: Seq<char>) -> ElementView {
    let children = Seq::empty()
        .push(leaf("action"@, value.action.wire_text()));
    let children = with_optional(children, optional_leaf("transaction"@, value.transaction));
    let children = children
        .push(leaf("control"@, value.control));
    let children = with_optional(children, optional_leaf("fax"@, value.fax));
    let children = with_optional(children, location_leaf("location"@, value.location));
    let children = with_optional(children, optional_leaf("destination"@, value.destination));
    let children = with_optional(children, addoptions_leaf("addoption"@, value.addoption));
    let children = with_optional(children, optional_leaf("font"@, value.font));
    let children = children
        .push(leaf("returnaddress"@, value.returnaddress));
    ElementView {
        name,
        attributes: Seq::empty(),
        children,
        text: Seq::empty(),
    }
}

/// What an element holds when it is read as the delivery parameters. The fields
/// are read in the order of the record, and the first one that cannot be read
/// decides the error.
pub open spec fn options_from_element(element: ElementView) -> Result<OptionsView, DecodeError> {
    let action = child_action(element, "action");
    let transaction = optional_child_text(element, "transaction");
    let control = child_text(element, "control");
    let fax = optional_child_text(element, "fax");
    let location = optional_child_location(element, "location");
    let destination = optional_child_text(element, "destination");
    let addoption = child_addoptions(element, "addoption");
    let font = optional_child_text(element, "font");
    let returnaddress = child_text(element, "returnaddress");
    if action is Err {
        Err(action->Err_0)
    } else if transaction is Err {
        Err(transaction->Err_0)
    } else if control is Err {
        Err(control->Err_0)
    } else if fax is Err {
        Err(fax->Err_0)
    } else if location is Err {
        Err(location->Err_0)
    } else if destination is Err {
        Err(destination->Err_0)
    } else if addoption is Err {
        Err(addoption->Err_0)
    } else if font is Err {
        Err(font->Err_0)
    } else if returnaddress is Err {
        Err(returnaddress->Err_0)
    } else {
        Ok(
            OptionsView {
                action: action->Ok_0,
                transaction: transaction->Ok_0,
                control: control->Ok_0,
                fax: fax->Ok_0,
                location: location->Ok_0,
                destination: destination->Ok_0,
                addoption: addoption->Ok_0,
                font: font->Ok_0,
                returnaddress: returnaddress->Ok_0,
            },
        )
    }
}

/// What the child `name` holds when it is read as the delivery parameters.
pub open spec fn options_child(
    element: ElementView,
    name: &'static str,
) -> Result<OptionsView, DecodeError> {
    match required_child(element, name) {
        Ok(child) => options_from_element(child),
        Err(e) => Err(e),
    }
}

impl Options {
    /// Writes the record as an element with the given name.
    pub fn to_element(&self, name: &str) -> (r: Element)
        ensures
            r@ == options_element(self@, name@),
    {
        let attributes = no_attributes();
        let mut children = no_children();
        let action = self.action.encode();
        add_child(&mut children, make_leaf("action", action.as_str()));
        add_optional_child(&mut children, make_optional_leaf("transaction", &self.transaction));
        add_child(&mut children, make_leaf("control", self.control.as_str()));
        add_optional_child(&mut children, make_optional_leaf("fax", &self.fax));
        add_optional_child(&mut children, make_location_leaf("location", &self.location));
        add_optional_child(&mut children, make_optional_leaf("destination", &self.destination));
        add_optional_child(&mut children, make_addoptions_leaf("addoption", &self.addoption));
        add_optional_child(&mut children, make_optional_leaf("font", &self.font));
        add_child(&mut children, make_leaf("returnaddress", self.returnaddress.as_str()));
        make_element(name, attributes, children, String::new())
    }

    /// Reads the record from an element.
    pub fn from_element(element: &Element) -> (r: Result<Options, DecodeError>)
        ensures
            match r {
                Ok(value) => options_from_element(element@)
                    == Ok::<OptionsView, DecodeError>(value@),
                Err(e) => options_from_element(element@) == Err::<OptionsView, DecodeError>(e),
            },
    {
        let action = get_child_action(element, "action")?;
        let transaction = find_child_text(element, "transaction")?;
        let control = get_child_text(element, "control")?;
        let fax = find_child_text(element, "fax")?;
        let location = find_child_location(element, "location")?;
        let destination = find_child_text(element, "destination")?;
        let addoption = get_child_addoptions(element, "addoption")?;
        let font = find_child_text(element, "font")?;
        let returnaddress = get_child_text(element, "returnaddress")?;
        Ok(
            Options {
                action,
                transaction,
                control,
                fax,
                location,
                destination,
                addoption,
                font,
                returnaddress,
            },
        )
    }

    /// Reads the record from the child `name` of an element.
    pub fn from_child(element: &Element, name: &'static str) -> (r: Result<Options, DecodeError>)
        ensures
            match r {
                Ok(value) => options_child(element@, name)
                    == Ok::<OptionsView, DecodeError>(value@),
                Err(e) => options_child(element@, name) == Err::<OptionsView, DecodeError>(e),
            },
    {
        match get_child(element, name) {
            Ok(child) => Options::from_element(child),
            Err(e) => Err(e),
        }
    }
}

/// The names of the children of the delivery parameters: none of the plain ones
/// holds a colon, and no two of them are the same.
proof fn lemma_options_names()
    ensures
        local_name("action"@) == "action"@,
        "action"@.len() == 6,
        local_name("transaction"@) == "transaction"@,
        "transaction"@.len() == 11,
        local_name("control"@) == "control"@,
        "control"@.len() == 7,
        local_name("fax"@) == "fax"@,
        "fax"@.len() == 3,
        local_name("location"@) == "location"@,
        "location"@.len() == 8,
        local_name("destination"@) == "destination"@,
        "destination"@.len() == 11,
        local_name("addoption"@) == "addoption"@,
        "addoption"@.len() == 9,
        local_name("font"@) == "font"@,
        "font"@.len() == 4,
        local_name("returnaddress"@) == "returnaddress"@,
        "returnaddress"@.len() == 13,
        "transaction"@[0] != "destination"@[0],
{
    reveal_strlit("action");
    lemma_plain_name("action"@);
    reveal_strlit("transaction");
    lemma_plain_name("transaction"@);
    reveal_strlit("control");
    lemma_plain_name("control"@);
    reveal_strlit("fax");
    lemma_plain_name("fax"@);
    reveal_strlit("location");
    lemma_plain_name("location"@);
    reveal_strlit("destination");
    lemma_plain_name("destination"@);
    reveal_strlit("addoption");
    lemma_plain_name("addoption"@);
    reveal_strlit("font");
    lemma_plain_name("font"@);
    reveal_strlit("returnaddress");
    lemma_plain_name("returnaddress"@);
}

/// The field `action` is read back from the element that the delivery
/// parameters is written as.
proof fn lemma_options_reads_action(value: OptionsView, name: Seq<char>)
    ensures
        child_action(options_element(value, name), "action") == Ok::<ActionType, DecodeError>(
            value.action,
        ),
{
    broadcast use {lemma_children_named_push, lemma_children_named_optional};
    lemma_options_names();
    lemma_action_text_round_trip(value.action);
}

/// The field `transaction` is read back from the element that the delivery
/// parameters is written as.
proof fn lemma_options_reads_transaction(value: OptionsView, name: Seq<char>)
    ensures
        optional_child_text(options_element(value, name), "transaction")
            == Ok::<Option<Seq<char>>, DecodeError>(
            value.transaction,
        ),
{
    broadcast use {lemma_children_named_push, lemma_children_named_optional};
    lemma_options_names();
}

/// The field `control` is read back from the element that the delivery
/// parameters is written as.
proof fn lemma_options_reads_control(value: OptionsView, name: Seq<char>)
    ensures
        child_text(options_element(value, name), "control") == Ok::<Seq<char>, DecodeError>(
            value.control,
        ),
{
    broadcast use {lemma_children_named_push, lemma_children_named_optional};
    lemma_options_names();
}

/// The field `fax` is read back from the element that the delivery parameters
/// is written as.
proof fn lemma_options_reads_fax(value: OptionsView, name: Seq<char>)
    ensures
        optional_child_text(options_element(value, name), "fax")
            == Ok::<Option<Seq<char>>, DecodeError>(
            value.fax,
        ),
{
    broadcast use {lemma_children_named_push, lemma_children_named_optional};
    lemma_options_names();
}

/// The field `location` is read back from the element that the delivery
/// parameters is written as.
proof fn lemma_options_reads_location(value: OptionsView, name: Seq<char>)
    ensures
        optional_child_location(options_element(value, name), "location")
            == Ok::<Option<Location>, DecodeError>(
            value.location,
        ),
{
    broadcast use {lemma_children_named_push, lemma_children_named_optional};
    lemma_options_names();
    if value.location is Some {
        lemma_location_text_round_trip(value.location->0);
    }
}

/// The field `destination` is read back from the element that the delivery
/// parameters is written as.
proof fn lemma_options_reads_destination(value: OptionsView, name: Seq<char>)
    ensures
        optional_child_text(options_element(value, name), "destination")
            == Ok::<Option<Seq<char>>, DecodeError>(
            value.destination,
        ),
{
    broadcast use {lemma_children_named_push, lemma_children_named_optional};
    lemma_options_names();
}

/// The field `addoption` is read back from the element that the delivery
/// parameters is written as.
proof fn lemma_options_reads_addoption(value: OptionsView, name: Seq<char>)
    ensures
        child_addoptions(options_element(value, name), "addoption")
            == Ok::<Seq<Addoption>, DecodeError>(
            value.addoption,
        ),
{
    broadcast use {lemma_children_named_push, lemma_children_named_optional};
    lemma_options_names();
    lemma_addoption_list_round_trip(value.addoption);
}

/// The field `font` is read back from the element that the delivery parameters
/// is written as.
proof fn lemma_options_reads_font(value: OptionsView, name: Seq<char>)
    ensures
        optional_child_text(options_element(value, name), "font")
            == Ok::<Option<Seq<char>>, DecodeError>(
            value.font,
        ),
{
    broadcast use {lemma_children_named_push, lemma_children_named_optional};
    lemma_options_names();
}

/// The field `returnaddress` is read back from the element that the delivery
/// parameters is written as.
proof fn lemma_options_reads_returnaddress(value: OptionsView, name: Seq<char>)
    ensures
        child_text(options_element(value, name), "returnaddress") == Ok::<Seq<char>, DecodeError>(
            value.returnaddress,
        ),
{
    broadcast use {lemma_children_named_push, lemma_children_named_optional};
    lemma_options_names();
}

/// Writing the delivery parameters as an element and reading the element again
/// gives the record back: every field as it was, and every absent field absent.
pub proof fn lemma_options_round_trip(value: OptionsView, name: Seq<char>)
    ensures
        options_from_element(options_element(value, name)) == Ok::<OptionsView, DecodeError>(value),
{
    lemma_options_reads_action(value, name);
    lemma_options_reads_transaction(value, name);
    lemma_options_reads_control(value, name);
    lemma_options_reads_fax(value, name);
    lemma_options_reads_location(value, name);
    lemma_options_reads_destination(value, name);
    lemma_options_reads_addoption(value, name);
    lemma_options_reads_font(value, name);
    lemma_options_reads_returnaddress(value, name);
}

/// The element that an order is written as, under the given name.
pub open spec fn order_element(value: OrderView, name: Seq<char>) -> ElementView {
    let children = Seq::empty()
        .push(options_element(value.options, "options"@));
    let children = with_optional(children, optional_text_element(value.text, "text"@));
    ElementView {
        name,
        attributes: Seq::empty().push(AttributeView { name: "type"@, value: value.content_type }),
        children,
        text: Seq::empty(),
    }
}

/// The element that an order is written as, where there is one.
pub open spec fn optional_order_element(
    value: Option<OrderView>,
    name: Seq<char>,
) -> Option<ElementView> {
    match value {
        Some(v) => Some(order_element(v, name)),
        None => None,
    }
}

/// What an element holds when it is read as an order. The fields are read in
/// the order of the record, and the first one that cannot be read decides the
/// error.
pub open spec fn order_from_element(element: ElementView) -> Result<OrderView, DecodeError> {
    let content_type = attribute_text(element, "type");
    let options = options_child(element, "options");
    let text = optional_text_child(element, "text");
    if content_type is Err {
        Err(content_type->Err_0)
    } else if options is Err {
        Err(options->Err_0)
    } else if text is Err {
        Err(text->Err_0)
    } else {
        Ok(
            OrderView {
                content_type: content_type->Ok_0,
                options: options->Ok_0,
                text: text->Ok_0,
            },
        )
    }
}

/// What the child `name` holds when it is read as an order, where there is such
/// a child.
pub open spec fn optional_order_child(
    element: ElementView,
    name: &'static str,
) -> Result<Option<OrderView>, DecodeError> {
    match optional_child(element, name) {
        Ok(Some(child)) => match order_from_element(child) {
            Ok(value) => Ok(Some(value)),
            Err(e) => Err(e),
        },
        Ok(None) => Ok(None),
        Err(e) => Err(e),
    }
}

impl Order {
    /// Writes the record as an element with the given name.
    pub fn to_element(&self, name: &str) -> (r: Element)
        ensures
            r@ == order_element(self@, name@),
    {
        let attributes = one_attribute(make_attribute("type", self.content_type.as_str()));
        let mut children = no_children();
        add_child(&mut children, self.options.to_element("options"));
        add_optional_child(&mut children, Text::optional_element(&self.text, "text"));
        make_element(name, attributes, children, String::new())
    }

    /// Writes the record as an element with the given name, where there is one.
    pub fn optional_element(value: &Option<Order>, name: &str) -> (r: Option<Element>)
        ensures
            r.deep_view() == optional_order_element(value.deep_view(), name@),
    {
        match value {
            Some(v) => Some(v.to_element(name)),
            None => None,
        }
    }

    /// Reads the record from an element.
    pub fn from_element(element: &Element) -> (r: Result<Order, DecodeError>)
        ensures
            match r {
                Ok(value) => order_from_element(element@) == Ok::<OrderView, DecodeError>(value@),
                Err(e) => order_from_element(element@) == Err::<OrderView, DecodeError>(e),
            },
    {
        let content_type = get_attribute(element, "type")?;
        let options = Options::from_child(element, "options")?;
        let text = Text::from_optional_child(element, "text")?;
        Ok(Order { content_type, options, text })
    }

    /// Reads the record from the child `name` of an element, where there is
    /// such a child.
    pub fn from_optional_child(
        element: &Element,
        name: &'static str,
    ) -> (r: Result<Option<Order>, DecodeError>)
        ensures
            match r {
                Ok(value) => optional_order_child(element@, name)
                    == Ok::<Option<OrderView>, DecodeError>(value.deep_view()),
                Err(e) => optional_order_child(element@, name)
                    == Err::<Option<OrderView>, DecodeError>(e),
            },
    {
        match find_child(element, name) {
            Ok(Some(child)) => match Order::from_element(child) {
                Ok(value) => Ok(Some(value)),
                Err(e) => Err(e),
            },
            Ok(None) => Ok(None),
            Err(e) => Err(e),
        }
    }
}

/// The names of the children of an order: none of the plain ones holds a colon,
/// and no two of them are the same.
proof fn lemma_order_names()
    ensures
        local_name("options"@) == "options"@,
        "options"@.len() == 7,
        local_name("text"@) == "text"@,
        "text"@.len() == 4,
{
    reveal_strlit("options");
    lemma_plain_name("options"@);
    reveal_strlit("text");
    lemma_plain_name("text"@);
}

/// Writing an order as an element and reading the element again gives the
/// record back: every field as it was, and every absent field absent.
pub proof fn lemma_order_round_trip(value: OrderView, name: Seq<char>)
    ensures
        order_from_element(order_element(value, name)) == Ok::<OrderView, DecodeError>(value),
{
    broadcast use {lemma_children_named_push, lemma_children_named_optional};
    broadcast use lemma_attributes_named_push;
    reveal_strlit("type");
    lemma_order_names();
    lemma_options_round_trip(value.options, "options"@);
    if value.text is Some {
        lemma_text_round_trip(value.text->0, "text"@);
    }
}

/// The element that the kind of an account query is written as, under the given
/// name.
pub open spec fn account_info_element(value: AccountInfoView, name: Seq<char>) -> ElementView {
    ElementView {
        name,
        attributes: Seq::empty(
        ).push(AttributeView { name: "type"@, value: value.account_info_type }),
        children: Seq::empty(),
        text: Seq::empty(),
    }
}

/// What an element holds when it is read as the kind of an account query. The
/// fields are read in the order of the record, and the first one that cannot be
/// read decides the error.
pub open spec fn account_info_from_element(
    element: ElementView,
) -> Result<AccountInfoView, DecodeError> {
    let account_info_type = attribute_text(element, "type");
    if account_info_type is Err {
        Err(account_info_type->Err_0)
    } else {
        Ok(
            AccountInfoView {
                account_info_type: account_info_type->Ok_0,
            },
        )
    }
}

/// What the child `name` holds when it is read as the kind of an account query.
pub open spec fn account_info_child(
    element: ElementView,
    name: &'static str,
) -> Result<AccountInfoView, DecodeError> {
    match required_child(element, name) {
        Ok(child) => account_info_from_element(child),
        Err(e) => Err(e),
    }
}

impl AccountInfo {
    /// Writes the record as an element with the given name.
    pub fn to_element(&self, name: &str) -> (r: Element)
        ensures
            r@ == account_info_element(self@, name@),
    {
        let attributes = one_attribute(make_attribute("type", self.account_info_type.as_str()));
        let children = no_children();
        make_element(name, attributes, children, String::new())
    }

    /// Reads the record from an element.
    pub fn from_element(element: &Element) -> (r: Result<AccountInfo, DecodeError>)
        ensures
            match r {
                Ok(value) => account_info_from_element(element@)
                    == Ok::<AccountInfoView, DecodeError>(value@),
                Err(e) => account_info_from_element(element@)
                    == Err::<AccountInfoView, DecodeError>(e),
            },
    {
        let account_info_type = get_attribute(element, "type")?;
        Ok(AccountInfo { account_info_type })
    }

    /// Reads the record from the child `name` of an element.
    pub fn from_child(
        element: &Element,
        name: &'static str,
    ) -> (r: Result<AccountInfo, DecodeError>)
        ensures
            match r {
                Ok(value) => account_info_child(element@, name)
                    == Ok::<AccountInfoView, DecodeError>(value@),
                Err(e) => account_info_child(element@, name)
                    == Err::<AccountInfoView, DecodeError>(e),
            },
    {
        match get_child(element, name) {
            Ok(child) => AccountInfo::from_element(child),
            Err(e) => Err(e),
        }
    }
}

/// Writing the kind of an account query as an element and reading the element
/// again gives the record back: every field as it was, and every absent field
/// absent.
pub proof fn lemma_account_info_round_trip(value: AccountInfoView, name: Seq<char>)
    ensures
        account_info_from_element(account_info_element(value, name))
            == Ok::<AccountInfoView, DecodeError>(value),
{
    broadcast use lemma_attributes_named_push;
    reveal_strlit("type");
}

/// The element that an account query is written as, under the given name.
pub open spec fn info_element(value: InfoView, name: Seq<char>) -> ElementView {
    let children = Seq::empty()
        .push(account_info_element(value.account_info, "account:info"@));
    ElementView {
        name,
        attributes: Seq::empty(),
        children,
        text: Seq::empty(),
    }
}

/// The element that an account query is written as, where there is one.
pub open spec fn optional_info_element(
    value: Option<InfoView>,
    name: Seq<char>,
) -> Option<ElementView> {
    match value {
        Some(v) => Some(info_element(v, name)),
        None => None,
    }
}

/// What an element holds when it is read as an account query. The fields are
/// read in the order of the record, and the first one that cannot be read
/// decides the error.
pub open spec fn info_from_element(element: ElementView) -> Result<InfoView, DecodeError> {
    let account_info = account_info_child(element, "info");
    if account_info is Err {
        Err(account_info->Err_0)
    } else {
        Ok(
            InfoView {
                account_info: account_info->Ok_0,
            },
        )
    }
}

/// What the child `name` holds when it is read as an account query, where there
/// is such a child.
pub open spec fn optional_info_child(
    element: ElementView,
    name: &'static str,
) -> Result<Option<InfoView>, DecodeError> {
    match optional_child(element, name) {
        Ok(Some(child)) => match info_from_element(child) {
            Ok(value) => Ok(Some(value)),
            Err(e) => Err(e),
        },
        Ok(None) => Ok(None),
        Err(e) => Err(e),
    }
}

impl Info {
    /// Writes the record as an element with the given name.
    pub fn to_element(&self, name: &str) -> (r: Element)
        ensures
            r@ == info_element(self@, name@),
    {
        let attributes = no_attributes();
        let mut children = no_children();
        add_child(&mut children, self.account_info.to_element("account:info"));
        make_element(name, attributes, children, String::new())
    }

    /// Writes the record as an element with the given name, where there is one.
    pub fn optional_element(value: &Option<Info>, name: &str) -> (r: Option<Element>)
        ensures
            r.deep_view() == optional_info_element(value.deep_view(), name@),
    {
        match value {
            Some(v) => Some(v.to_element(name)),
            None => None,
        }
    }

    /// Reads the record from an element.
    pub fn from_element(element: &Element) -> (r: Result<Info, DecodeError>)
        ensures
            match r {
                Ok(value) => info_from_element(element@) == Ok::<InfoView, DecodeError>(value@),
                Err(e) => info_from_element(element@) == Err::<InfoView, DecodeError>(e),
            },
    {
        let account_info = AccountInfo::from_child(element, "info")?;
        Ok(Info { account_info })
    }

    /// Reads the record from the child `name` of an element, where there is
    /// such a child.
    pub fn from_optional_child(
        element: &Element,
        name: &'static str,
    ) -> (r: Result<Option<Info>, DecodeError>)
        ensures
            match r {
                Ok(value) => optional_info_child(element@, name)
                    == Ok::<Option<InfoView>, DecodeError>(value.deep_view()),
                Err(e) => optional_info_child(element@, name)
                    == Err::<Option<InfoView>, DecodeError>(e),
            },
    {
        match find_child(element, name) {
            Ok(Some(child)) => match Info::from_element(child) {
                Ok(value) => Ok(Some(value)),
                Err(e) => Err(e),
            },
            Ok(None) => Ok(None),
            Err(e) => Err(e),
        }
    }
}

/// The names of the children of an account query: none of the plain ones holds
/// a colon, and no two of them are the same.
proof fn lemma_info_names()
    ensures
        local_name("info"@) == "info"@,
        "info"@.len() == 4,
        local_name("account:info"@) == "info"@,
{
    reveal_strlit("info");
    lemma_plain_name("info"@);
    reveal_strlit("account:info");
    reveal_strlit("account");
    assert("account:info"@ =~= "account"@ + seq![':'] + "info"@);
    lemma_prefixed_name("account"@, "info"@);
}

/// Writing an account query as an element and reading the element again gives
/// the record back: every field as it was, and every absent field absent.
pub proof fn lemma_info_round_trip(value: InfoView, name: Seq<char>)
    ensures
        info_from_element(info_element(value, name)) == Ok::<InfoView, DecodeError>(value),
{
    broadcast use {lemma_children_named_push, lemma_children_named_optional};
    lemma_info_names();
    lemma_account_info_round_trip(value.account_info, "account:info"@);
}

/// The element that a command is written as, under the given name.
pub open spec fn command_element(value: CommandView, name: Seq<char>) -> ElementView {
    let children = with_optional(Seq::empty(), optional_order_element(value.order, "order"@));
    let children = with_optional(children, optional_info_element(value.info, "info"@));
    let children = with_optional(children, optional_leaf("id"@, value.id));
    ElementView {
        name,
        attributes: Seq::empty(),
        children,
        text: Seq::empty(),
    }
}

/// The element that a command is written as, where there is one.
pub open spec fn optional_command_element(
    value: Option<CommandView>,
    name: Seq<char>,
) -> Option<ElementView> {
    match value {
        Some(v) => Some(command_element(v, name)),
        None => None,
    }
}

/// What an element holds when it is read as a command. The fields are read in
/// the order of the record, and the first one that cannot be read decides the
/// error.
pub open spec fn command_from_element(element: ElementView) -> Result<CommandView, DecodeError> {
    let order = optional_order_child(element, "order");
    let info = optional_info_child(element, "info");
    let id = optional_child_text(element, "id");
    if order is Err {
        Err(order->Err_0)
    } else if info is Err {
        Err(info->Err_0)
    } else if id is Err {
        Err(id->Err_0)
    } else {
        Ok(
            CommandView {
                order: order->Ok_0,
                info: info->Ok_0,
                id: id->Ok_0,
            },
        )
    }
}

/// What the child `name` holds when it is read as a command, where there is
/// such a child.
pub open spec fn optional_command_child(
    element: ElementView,
    name: &'static str,
) -> Result<Option<CommandView>, DecodeError> {
    match optional_child(element, name) {
        Ok(Some(child)) => match command_from_element(child) {
            Ok(value) => Ok(Some(value)),
            Err(e) => Err(e),
        },
        Ok(None) => Ok(None),
        Err(e) => Err(e),
    }
}

impl Command {
    /// Writes the record as an element with the given name.
    pub fn to_element(&self, name: &str) -> (r: Element)
        ensures
            r@ == command_element(self@, name@),
    {
        let attributes = no_attributes();
        let mut children = no_children();
        add_optional_child(&mut children, Order::optional_element(&self.order, "order"));
        add_optional_child(&mut children, Info::optional_element(&self.info, "info"));
        add_optional_child(&mut children, make_optional_leaf("id", &self.id));
        make_element(name, attributes, children, String::new())
    }

    /// Writes the record as an element with the given name, where there is one.
    pub fn optional_element(value: &Option<Command>, name: &str) -> (r: Option<Element>)
        ensures
            r.deep_view() == optional_command_element(value.deep_view(), name@),
    {
        match value {
            Some(v) => Some(v.to_element(name)),
            None => None,
        }
    }

    /// Reads the record from an element.
    pub fn from_element(element: &Element) -> (r: Result<Command, DecodeError>)
        ensures
            match r {
                Ok(value) => command_from_element(element@)
                    == Ok::<CommandView, DecodeError>(value@),
                Err(e) => command_from_element(element@) == Err::<CommandView, DecodeError>(e),
            },
    {
        let order = Order::from_optional_child(element, "order")?;
        let info = Info::from_optional_child(element, "info")?;
        let id = find_child_text(element, "id")?;
        Ok(Command { order, info, id })
    }

    /// Reads the record from the child `name` of an element, where there is
    /// such a child.
    pub fn from_optional_child(
        element: &Element,
        name: &'static str,
    ) -> (r: Result<Option<Command>, DecodeError>)
        ensures
            match r {
                Ok(value) => optional_command_child(element@, name)
                    == Ok::<Option<CommandView>, DecodeError>(value.deep_view()),
                Err(e) => optional_command_child(element@, name)
                    == Err::<Option<CommandView>, DecodeError>(e),
            },
    {
        match find_child(element, name) {
            Ok(Some(child)) => match Command::from_element(child) {
                Ok(value) => Ok(Some(value)),
                Err(e) => Err(e),
            },
            Ok(None) => Ok(None),
            Err(e) => Err(e),
        }
    }
}

/// The names of the children of a command: none of the plain ones holds a
/// colon, and no two of them are the same.
proof fn lemma_command_names()
    ensures
        local_name("order"@) == "order"@,
        "order"@.len() == 5,
        local_name("info"@) == "info"@,
        "info"@.len() == 4,
        local_name("id"@) == "id"@,
        "id"@.len() == 2,
{
    reveal_strlit("order");
    lemma_plain_name("order"@);
    reveal_strlit("info");
    lemma_plain_name("info"@);
    reveal_strlit("id");
    lemma_plain_name("id"@);
}

/// Writing a command as an element and reading the element again gives the
/// record back: every field as it was, and every absent field absent.
pub proof fn lemma_command_round_trip(value: CommandView, name: Seq<char>)
    ensures
        command_from_element(command_element(value, name)) == Ok::<CommandView, DecodeError>(value),
{
    broadcast use {lemma_children_named_push, lemma_children_named_optional};
    lemma_command_names();
    if value.order is Some {
        lemma_order_round_trip(value.order->0, "order"@);
    }
    if value.info is Some {
        lemma_info_round_trip(value.info->0, "info"@);
    }
}

/// The element that the result of an answer is written as, under the given
/// name.
pub open spec fn result_element(value: ResponseResultView, name: Seq<char>) -> ElementView {
    let children = Seq::empty()
        .push(leaf("msg"@, value.msg));
    ElementView {
        name,
        attributes: Seq::empty(
        ).push(AttributeView { name: "code"@, value: decimal_text(value.code as int) }),
        children,
        text: Seq::empty(),
    }
}

/// What an element holds when it is read as the result of an answer. The fields
/// are read in the order of the record, and the first one that cannot be read
/// decides the error.
pub open spec fn result_from_element(
    element: ElementView,
) -> Result<ResponseResultView, DecodeError> {
    let code = attribute_i32(element, "code");
    let msg = child_text(element, "msg");
    if code is Err {
        Err(code->Err_0)
    } else if msg is Err {
        Err(msg->Err_0)
    } else {
        Ok(
            ResponseResultView {
                code: code->Ok_0,
                msg: msg->Ok_0,
            },
        )
    }
}

/// What the child `name` holds when it is read as the result of an answer.
pub open spec fn result_child(
    element: ElementView,
    name: &'static str,
) -> Result<ResponseResultView, DecodeError> {
    match required_child(element, name) {
        Ok(child) => result_from_element(child),
        Err(e) => Err(e),
    }
}

impl ResponseResult {
    /// Writes the record as an element with the given name.
    pub fn to_element(&self, name: &str) -> (r: Element)
        ensures
            r@ == result_element(self@, name@),
    {
        let code = number_text(self.code);
        let attributes = one_attribute(make_attribute("code", code.as_str()));
        let mut children = no_children();
        add_child(&mut children, make_leaf("msg", self.msg.as_str()));
        make_element(name, attributes, children, String::new())
    }

    /// Reads the record from an element.
    pub fn from_element(element: &Element) -> (r: Result<ResponseResult, DecodeError>)
        ensures
            match r {
                Ok(value) => result_from_element(element@)
                    == Ok::<ResponseResultView, DecodeError>(value@),
                Err(e) => result_from_element(element@)
                    == Err::<ResponseResultView, DecodeError>(e),
            },
    {
        let code = get_attribute_i32(element, "code")?;
        let msg = get_child_text(element, "msg")?;
        Ok(ResponseResult { code, msg })
    }

    /// Reads the record from the child `name` of an element.
    pub fn from_child(
        element: &Element,
        name: &'static str,
    ) -> (r: Result<ResponseResult, DecodeError>)
        ensures
            match r {
                Ok(value) => result_child(element@, name)
                    == Ok::<ResponseResultView, DecodeError>(value@),
                Err(e) => result_child(element@, name) == Err::<ResponseResultView, DecodeError>(e),
            },
    {
        match get_child(element, name) {
            Ok(child) => ResponseResult::from_element(child),
            Err(e) => Err(e),
        }
    }
}

/// The names of the children of the result of an answer: none of the plain ones
/// holds a colon, and no two of them are the same.
proof fn lemma_result_names()
    ensures
        local_name("msg"@) == "msg"@,
        "msg"@.len() == 3,
{
    reveal_strlit("msg");
    lemma_plain_name("msg"@);
}

/// Writing the result of an answer as an element and reading the element again
/// gives the record back: every field as it was, and every absent field absent.
pub proof fn lemma_result_round_trip(value: ResponseResultView, name: Seq<char>)
    ensures
        result_from_element(result_element(value, name))
            == Ok::<ResponseResultView, DecodeError>(value),
{
    broadcast use {lemma_children_named_push, lemma_children_named_optional};
    broadcast use lemma_attributes_named_push;
    reveal_strlit("code");
    lemma_result_names();
    lemma_number_round_trip(value.code);
}

/// The element that an answer is written as, under the given name.
pub open spec fn response_element(value: ResponseView, name: Seq<char>) -> ElementView {
    let children = Seq::empty()
        .push(result_element(value.result, "result"@));
    let children = with_optional(children, optional_leaf("transaction"@, value.transaction));
    ElementView {
        name,
        attributes: Seq::empty(),
        children,
        text: Seq::empty(),
    }
}

/// The element that an answer is written as, where there is one.
pub open spec fn optional_response_element(
    value: Option<ResponseView>,
    name: Seq<char>,
) -> Option<ElementView> {
    match value {
        Some(v) => Some(response_element(v, name)),
        None => None,
    }
}

/// What an element holds when it is read as an answer. The fields are read in
/// the order of the record, and the first one that cannot be read decides the
/// error.
pub open spec fn response_from_element(element: ElementView) -> Result<ResponseView, DecodeError> {
    let result = result_child(element, "result");
    let transaction = optional_child_text(element, "transaction");
    if result is Err {
        Err(result->Err_0)
    } else if transaction is Err {
        Err(transaction->Err_0)
    } else {
        Ok(
            ResponseView {
                result: result->Ok_0,
                transaction: transaction->Ok_0,
            },
        )
    }
}

/// What the child `name` holds when it is read as an answer, where there is
/// such a child.
pub open spec fn optional_response_child(
    element: ElementView,
    name: &'static str,
) -> Result<Option<ResponseView>, DecodeError> {
    match optional_child(element, name) {
        Ok(Some(child)) => match response_from_element(child) {
            Ok(value) => Ok(Some(value)),
            Err(e) => Err(e),
        },
        Ok(None) => Ok(None),
        Err(e) => Err(e),
    }
}

impl Response {
    /// Writes the record as an element with the given name.
    pub fn to_element(&self, name: &str) -> (r: Element)
        ensures
            r@ == response_element(self@, name@),
    {
        let attributes = no_attributes();
        let mut children = no_children();
        add_child(&mut children, self.result.to_element("result"));
        add_optional_child(&mut children, make_optional_leaf("transaction", &self.transaction));
        make_element(name, attributes, children, String::new())
    }

    /// Writes the record as an element with the given name, where there is one.
    pub fn optional_element(value: &Option<Response>, name: &str) -> (r: Option<Element>)
        ensures
            r.deep_view() == optional_response_element(value.deep_view(), name@),
    {
        match value {
            Some(v) => Some(v.to_element(name)),
            None => None,
        }
    }

    /// Reads the record from an element.
    pub fn from_element(element: &Element) -> (r: Result<Response, DecodeError>)
        ensures
            match r {
                Ok(value) => response_from_element(element@)
                    == Ok::<ResponseView, DecodeError>(value@),
                Err(e) => response_from_element(element@) == Err::<ResponseView, DecodeError>(e),
            },
    {
        let result = ResponseResult::from_child(element, "result")?;
        let transaction = find_child_text(element, "transaction")?;
        Ok(Response { result, transaction })
    }

    /// Reads the record from the child `name` of an element, where there is
    /// such a child.
    pub fn from_optional_child(
        element: &Element,
        name: &'static str,
    ) -> (r: Result<Option<Response>, DecodeError>)
        ensures
            match r {
                Ok(value) => optional_response_child(element@, name)
                    == Ok::<Option<ResponseView>, DecodeError>(value.deep_view()),
                Err(e) => optional_response_child(element@, name)
                    == Err::<Option<ResponseView>, DecodeError>(e),
            },
    {
        match find_child(element, name) {
            Ok(Some(child)) => match Response::from_element(child) {
                Ok(value) => Ok(Some(value)),
                Err(e) => Err(e),
            },
            Ok(None) => Ok(None),
            Err(e) => Err(e),
        }
    }
}

/// The names of the children of an answer: none of the plain ones holds a
/// colon, and no two of them are the same.
proof fn lemma_response_names()
    ensures
        local_name("result"@) == "result"@,
        "result"@.len() == 6,
        local_name("transaction"@) == "transaction"@,
        "transaction"@.len() == 11,
{
    reveal_strlit("result");
    lemma_plain_name("result"@);
    reveal_strlit("transaction");
    lemma_plain_name("transaction"@);
}

/// Writing an answer as an element and reading the element again gives the
/// record back: every field as it was, and every absent field absent.
pub proof fn lemma_response_round_trip(value: ResponseView, name: Seq<char>)
    ensures
        response_from_element(response_element(value, name))
            == Ok::<ResponseView, DecodeError>(value),
{
    broadcast use {lemma_children_named_push, lemma_children_named_optional};
    lemma_response_names();
    lemma_result_round_trip(value.result, "result"@);
}

/// The element that the customer's company is written as, under the given name.
pub open spec fn company_element(value: CompanyView, name: Seq<char>) -> ElementView {
    ElementView {
        name,
        attributes: Seq::empty(),
        children: Seq::empty(),
        text: Seq::empty(),
    }
}

/// What an element holds when it is read as the customer's company. The fields
/// are read in the order of the record, and the first one that cannot be read
/// decides the error.
pub open spec fn company_from_element(element: ElementView) -> Result<CompanyView, DecodeError> {
    Ok(CompanyView {})
}

/// What the child `name` holds when it is read as the customer's company.
pub open spec fn company_child(
    element: ElementView,
    name: &'static str,
) -> Result<CompanyView, DecodeError> {
    match required_child(element, name) {
        Ok(child) => company_from_element(child),
        Err(e) => Err(e),
    }
}

impl Company {
    /// Writes the record as an element with the given name.
    pub fn to_element(&self, name: &str) -> (r: Element)
        ensures
            r@ == company_element(self@, name@),
    {
        let attributes = no_attributes();
        let children = no_children();
        make_element(name, attributes, children, String::new())
    }

    /// Reads the record from an element.
    pub fn from_element(element: &Element) -> (r: Result<Company, DecodeError>)
        ensures
            match r {
                Ok(value) => company_from_element(element@)
                    == Ok::<CompanyView, DecodeError>(value@),
                Err(e) => company_from_element(element@) == Err::<CompanyView, DecodeError>(e),
            },
    {
        Ok(Company {})
    }

    /// Reads the record from the child `name` of an element.
    pub fn from_child(element: &Element, name: &'static str) -> (r: Result<Company, DecodeError>)
        ensures
            match r {
                Ok(value) => company_child(element@, name)
                    == Ok::<CompanyView, DecodeError>(value@),
                Err(e) => company_child(element@, name) == Err::<CompanyView, DecodeError>(e),
            },
    {
        match get_child(element, name) {
            Ok(child) => Company::from_element(child),
            Err(e) => Err(e),
        }
    }
}

/// Writing the customer's company as an element and reading the element again
/// gives the record back: every field as it was, and every absent field absent.
pub proof fn lemma_company_round_trip(value: CompanyView, name: Seq<char>)
    ensures
        company_from_element(company_element(value, name)) == Ok::<CompanyView, DecodeError>(value),
{
}

/// The element that the customer's title is written as, under the given name.
pub open spec fn title_element(value: TitleView, name: Seq<char>) -> ElementView {
    ElementView {
        name,
        attributes: Seq::empty(),
        children: Seq::empty(),
        text: Seq::empty(),
    }
}

/// What an element holds when it is read as the customer's title. The fields
/// are read in the order of the record, and the first one that cannot be read
/// decides the error.
pub open spec fn title_from_element(element: ElementView) -> Result<TitleView, DecodeError> {
    Ok(TitleView {})
}

/// What the child `name` holds when it is read as the customer's title.
pub open spec fn title_child(
    element: ElementView,
    name: &'static str,
) -> Result<TitleView, DecodeError> {
    match required_child(element, name) {
        Ok(child) => title_from_element(child),
        Err(e) => Err(e),
    }
}

impl Title {
    /// Writes the record as an element with the given name.
    pub fn to_element(&self, name: &str) -> (r: Element)
        ensures
            r@ == title_element(self@, name@),
    {
        let attributes = no_attributes();
        let children = no_children();
        make_element(name, attributes, children, String::new())
    }

    /// Reads the record from an element.
    pub fn from_element(element: &Element) -> (r: Result<Title, DecodeError>)
        ensures
            match r {
                Ok(value) => title_from_element(element@) == Ok::<TitleView, DecodeError>(value@),
                Err(e) => title_from_element(element@) == Err::<TitleView, DecodeError>(e),
            },
    {
        Ok(Title {})
    }

    /// Reads the record from the child `name` of an element.
    pub fn from_child(element: &Element, name: &'static str) -> (r: Result<Title, DecodeError>)
        ensures
            match r {
                Ok(value) => title_child(element@, name) == Ok::<TitleView, DecodeError>(value@),
                Err(e) => title_child(element@, name) == Err::<TitleView, DecodeError>(e),
            },
    {
        match get_child(element, name) {
            Ok(child) => Title::from_element(child),
            Err(e) => Err(e),
        }
    }
}

/// Writing the customer's title as an element and reading the element again
/// gives the record back: every field as it was, and every absent field absent.
pub proof fn lemma_title_round_trip(value: TitleView, name: Seq<char>)
    ensures
        title_from_element(title_element(value, name)) == Ok::<TitleView, DecodeError>(value),
{
}

/// The element that the customer's master data is written as, under the given
/// name.
pub open spec fn costumer_data_element(value: CostumerDataView, name: Seq<char>) -> ElementView {
    let children = Seq::empty()
        .push(company_element(value.company, "company"@))
        .push(leaf("sex"@, value.sex))
        .push(title_element(value.title, "title"@))
        .push(leaf("firstname"@, value.firstname))
        .push(leaf("lastname"@, value.lastname))
        .push(leaf("street"@, value.street))
        .push(leaf("pcode"@, value.pcode))
        .push(leaf("city"@, value.city))
        .push(leaf("country"@, value.country))
        .push(leaf("prefix"@, value.tel_prefix))
        .push(leaf("tel"@, value.tel))
        .push(leaf("prefix"@, value.fax_prefix))
        .push(leaf("fax"@, value.fax))
        .push(leaf("prefix"@, value.mobil_prefix))
        .push(leaf("mobil"@, value.mobil))
        .push(leaf("email"@, value.email))
        .push(leaf("type"@, value.payment_type));
    ElementView {
        name,
        attributes: Seq::empty(),
        children,
        text: Seq::empty(),
    }
}

/// The element that the customer's master data is written as, where there is
/// one.
pub open spec fn optional_costumer_data_element(
    value: Option<CostumerDataView>,
    name: Seq<char>,
) -> Option<ElementView> {
    match value {
        Some(v) => Some(costumer_data_element(v, name)),
        None => None,
    }
}

/// What an element holds when it is read as the customer's master data. The
/// fields are read in the order of the record, and the first one that cannot be
/// read decides the error.
pub open spec fn costumer_data_from_element(
    element: ElementView,
) -> Result<CostumerDataView, DecodeError> {
    let company = company_child(element, "company");
    let sex = child_text(element, "sex");
    let title = title_child(element, "title");
    let firstname = child_text(element, "firstname");
    let lastname = child_text(element, "lastname");
    let street = child_text(element, "street");
    let pcode = child_text(element, "pcode");
    let city = child_text(element, "city");
    let country = child_text(element, "country");
    let tel_prefix = nth_child_text(element, "prefix", 0, 3);
    let tel = child_text(element, "tel");
    let fax_prefix = nth_child_text(element, "prefix", 1, 3);
    let fax = child_text(element, "fax");
    let mobil_prefix = nth_child_text(element, "prefix", 2, 3);
    let mobil = child_text(element, "mobil");
    let email = child_text(element, "email");
    let payment_type = child_text(element, "type");
    if company is Err {
        Err(company->Err_0)
    } else if sex is Err {
        Err(sex->Err_0)
    } else if title is Err {
        Err(title->Err_0)
    } else if firstname is Err {
        Err(firstname->Err_0)
    } else if lastname is Err {
        Err(lastname->Err_0)
    } else if street is Err {
        Err(street->Err_0)
    } else if pcode is Err {
        Err(pcode->Err_0)
    } else if city is Err {
        Err(city->Err_0)
    } else if country is Err {
        Err(country->Err_0)
    } else if tel_prefix is Err {
        Err(tel_prefix->Err_0)
    } else if tel is Err {
        Err(tel->Err_0)
    } else if fax_prefix is Err {
        Err(fax_prefix->Err_0)
    } else if fax is Err {
        Err(fax->Err_0)
    } else if mobil_prefix is Err {
        Err(mobil_prefix->Err_0)
    } else if mobil is Err {
        Err(mobil->Err_0)
    } else if email is Err {
        Err(email->Err_0)
    } else if payment_type is Err {
        Err(payment_type->Err_0)
    } else {
        Ok(
            CostumerDataView {
                company: company->Ok_0,
                sex: sex->Ok_0,
                title: title->Ok_0,
                firstname: firstname->Ok_0,
                lastname: lastname->Ok_0,
                street: street->Ok_0,
                pcode: pcode->Ok_0,
                city: city->Ok_0,
                country: country->Ok_0,
                tel_prefix: tel_prefix->Ok_0,
                tel: tel->Ok_0,
                fax_prefix: fax_prefix->Ok_0,
                fax: fax->Ok_0,
                mobil_prefix: mobil_prefix->Ok_0,
                mobil: mobil->Ok_0,
                email: email->Ok_0,
                payment_type: payment_type->Ok_0,
            },
        )
    }
}

/// What the child `name` holds when it is read as the customer's master data,
/// where there is such a child.
pub open spec fn optional_costumer_data_child(
    element: ElementView,
    name: &'static str,
) -> Result<Option<CostumerDataView>, DecodeError> {
    match optional_child(element, name) {
        Ok(Some(child)) => match costumer_data_from_element(child) {
            Ok(value) => Ok(Some(value)),
            Err(e) => Err(e),
        },
        Ok(None) => Ok(None),
        Err(e) => Err(e),
    }
}

impl CostumerData {
    /// Writes the record as an element with the given name.
    pub fn to_element(&self, name: &str) -> (r: Element)
        ensures
            r@ == costumer_data_element(self@, name@),
    {
        let attributes = no_attributes();
        let mut children = no_children();
        add_child(&mut children, self.company.to_element("company"));
        add_child(&mut children, make_leaf("sex", self.sex.as_str()));
        add_child(&mut children, self.title.to_element("title"));
        add_child(&mut children, make_leaf("firstname", self.firstname.as_str()));
        add_child(&mut children, make_leaf("lastname", self.lastname.as_str()));
        add_child(&mut children, make_leaf("street", self.street.as_str()));
        add_child(&mut children, make_leaf("pcode", self.pcode.as_str()));
        add_child(&mut children, make_leaf("city", self.city.as_str()));
        add_child(&mut children, make_leaf("country", self.country.as_str()));
        add_child(&mut children, make_leaf("prefix", self.tel_prefix.as_str()));
        add_child(&mut children, make_leaf("tel", self.tel.as_str()));
        add_child(&mut children, make_leaf("prefix", self.fax_prefix.as_str()));
        add_child(&mut children, make_leaf("fax", self.fax.as_str()));
        add_child(&mut children, make_leaf("prefix", self.mobil_prefix.as_str()));
        add_child(&mut children, make_leaf("mobil", self.mobil.as_str()));
        add_child(&mut children, make_leaf("email", self.email.as_str()));
        add_child(&mut children, make_leaf("type", self.payment_type.as_str()));
        make_element(name, attributes, children, String::new())
    }

    /// Writes the record as an element with the given name, where there is one.
    pub fn optional_element(value: &Option<CostumerData>, name: &str) -> (r: Option<Element>)
        ensures
            r.deep_view() == optional_costumer_data_element(value.deep_view(), name@),
    {
        match value {
            Some(v) => Some(v.to_element(name)),
            None => None,
        }
    }

    /// Reads the record from an element.
    pub fn from_element(element: &Element) -> (r: Result<CostumerData, DecodeError>)
        ensures
            match r {
                Ok(value) => costumer_data_from_element(element@)
                    == Ok::<CostumerDataView, DecodeError>(value@),
                Err(e) => costumer_data_from_element(element@)
                    == Err::<CostumerDataView, DecodeError>(e),
            },
    {
        let company = Company::from_child(element, "company")?;
        let sex = get_child_text(element, "sex")?;
        let title = Title::from_child(element, "title")?;
        let firstname = get_child_text(element, "firstname")?;
        let lastname = get_child_text(element, "lastname")?;
        let street = get_child_text(element, "street")?;
        let pcode = get_child_text(element, "pcode")?;
        let city = get_child_text(element, "city")?;
        let country = get_child_text(element, "country")?;
        let tel_prefix = get_nth_child_text(element, "prefix", 0, 3)?;
        let tel = get_child_text(element, "tel")?;
        let fax_prefix = get_nth_child_text(element, "prefix", 1, 3)?;
        let fax = get_child_text(element, "fax")?;
        let mobil_prefix = get_nth_child_text(element, "prefix", 2, 3)?;
        let mobil = get_child_text(element, "mobil")?;
        let email = get_child_text(element, "email")?;
        let payment_type = get_child_text(element, "type")?;
        Ok(
            CostumerData {
                company,
                sex,
                title,
                firstname,
                lastname,
                street,
                pcode,
                city,
                country,
                tel_prefix,
                tel,
                fax_prefix,
                fax,
                mobil_prefix,
                mobil,
                email,
                payment_type,
            },
        )
    }

    /// Reads the record from the child `name` of an element, where there is
    /// such a child.
    pub fn from_optional_child(
        element: &Element,
        name: &'static str,
    ) -> (r: Result<Option<CostumerData>, DecodeError>)
        ensures
            match r {
                Ok(value) => optional_costumer_data_child(element@, name)
                    == Ok::<Option<CostumerDataView>, DecodeError>(value.deep_view()),
                Err(e) => optional_costumer_data_child(element@, name)
                    == Err::<Option<CostumerDataView>, DecodeError>(e),
            },
    {
        match find_child(element, name) {
            Ok(Some(child)) => match CostumerData::from_element(child) {
                Ok(value) => Ok(Some(value)),
                Err(e) => Err(e),
            },
            Ok(None) => Ok(None),
            Err(e) => Err(e),
        }
    }
}

/// The names of the children of the customer's master data: none of the plain
/// ones holds a colon, and no two of them are the same.
proof fn lemma_costumer_data_names()
    ensures
        local_name("company"@) == "company"@,
        "company"@.len() == 7,
        local_name("sex"@) == "sex"@,
        "sex"@.len() == 3,
        local_name("title"@) == "title"@,
        "title"@.len() == 5,
        local_name("firstname"@) == "firstname"@,
        "firstname"@.len() == 9,
        local_name("lastname"@) == "lastname"@,
        "lastname"@.len() == 8,
        local_name("street"@) == "street"@,
        "street"@.len() == 6,
        local_name("pcode"@) == "pcode"@,
        "pcode"@.len() == 5,
        local_name("city"@) == "city"@,
        "city"@.len() == 4,
        local_name("country"@) == "country"@,
        "country"@.len() == 7,
        local_name("prefix"@) == "prefix"@,
        "prefix"@.len() == 6,
        local_name("tel"@) == "tel"@,
        "tel"@.len() == 3,
        local_name("fax"@) == "fax"@,
        "fax"@.len() == 3,
        local_name("mobil"@) == "mobil"@,
        "mobil"@.len() == 5,
        local_name("email"@) == "email"@,
        "email"@.len() == 5,
        local_name("type"@) == "type"@,
        "type"@.len() == 4,
        "company"@[2] != "country"@[2],
        "sex"@[0] != "tel"@[0],
        "sex"@[0] != "fax"@[0],
        "title"@[0] != "pcode"@[0],
        "title"@[0] != "mobil"@[0],
        "title"@[0] != "email"@[0],
        "street"@[0] != "prefix"@[0],
        "pcode"@[0] != "mobil"@[0],
        "pcode"@[0] != "email"@[0],
        "city"@[0] != "type"@[0],
        "tel"@[0] != "fax"@[0],
        "mobil"@[0] != "email"@[0],
{
    reveal_strlit("company");
    lemma_plain_name("company"@);
    reveal_strlit("sex");
    lemma_plain_name("sex"@);
    reveal_strlit("title");
    lemma_plain_name("title"@);
    reveal_strlit("firstname");
    lemma_plain_name("firstname"@);
    reveal_strlit("lastname");
    lemma_plain_name("lastname"@);
    reveal_strlit("street");
    lemma_plain_name("street"@);
    reveal_strlit("pcode");
    lemma_plain_name("pcode"@);
    reveal_strlit("city");
    lemma_plain_name("city"@);
    reveal_strlit("country");
    lemma_plain_name("country"@);
    reveal_strlit("prefix");
    lemma_plain_name("prefix"@);
    reveal_strlit("tel");
    lemma_plain_name("tel"@);
    reveal_strlit("fax");
    lemma_plain_name("fax"@);
    reveal_strlit("mobil");
    lemma_plain_name("mobil"@);
    reveal_strlit("email");
    lemma_plain_name("email"@);
    reveal_strlit("type");
    lemma_plain_name("type"@);
}

/// Writing the customer's master data as an element and reading the element
/// again gives the record back: every field as it was, and every absent field
/// absent.
#[verifier::rlimit(40)]
pub proof fn lemma_costumer_data_round_trip(value: CostumerDataView, name: Seq<char>)
    ensures
        costumer_data_from_element(costumer_data_element(value, name))
            == Ok::<CostumerDataView, DecodeError>(value),
{
    broadcast use {lemma_children_named_push, lemma_children_named_optional};
    lemma_costumer_data_names();
    lemma_company_round_trip(value.company, "company"@);
    lemma_title_round_trip(value.title, "title"@);
}

/// The element that the customer's credit is written as, under the given name.
pub open spec fn costumer_credit_element(
    value: CostumerCreditView,
    name: Seq<char>,
) -> ElementView {
    ElementView {
        name,
        attributes: Seq::empty().push(AttributeView { name: "currency"@, value: value.currency }),
        children: Seq::empty(),
        text: Seq::empty(),
    }
}

/// The element that the customer's credit is written as, where there is one.
pub open spec fn optional_costumer_credit_element(
    value: Option<CostumerCreditView>,
    name: Seq<char>,
) -> Option<ElementView> {
    match value {
        Some(v) => Some(costumer_credit_element(v, name)),
        None => None,
    }
}

/// What an element holds when it is read as the customer's credit. The fields
/// are read in the order of the record, and the first one that cannot be read
/// decides the error.
pub open spec fn costumer_credit_from_element(
    element: ElementView,
) -> Result<CostumerCreditView, DecodeError> {
    let currency = attribute_text(element, "currency");
    if currency is Err {
        Err(currency->Err_0)
    } else {
        Ok(
            CostumerCreditView {
                currency: currency->Ok_0,
            },
        )
    }
}

/// What the child `name` holds when it is read as the customer's credit, where
/// there is such a child.
pub open spec fn optional_costumer_credit_child(
    element: ElementView,
    name: &'static str,
) -> Result<Option<CostumerCreditView>, DecodeError> {
    match optional_child(element, name) {
        Ok(Some(child)) => match costumer_credit_from_element(child) {
            Ok(value) => Ok(Some(value)),
            Err(e) => Err(e),
        },
        Ok(None) => Ok(None),
        Err(e) => Err(e),
    }
}

impl CostumerCredit {
    /// Writes the record as an element with the given name.
    pub fn to_element(&self, name: &str) -> (r: Element)
        ensures
            r@ == costumer_credit_element(self@, name@),
    {
        let attributes = one_attribute(make_attribute("currency", self.currency.as_str()));
        let children = no_children();
        make_element(name, attributes, children, String::new())
    }

    /// Writes the record as an element with the given name, where there is one.
    pub fn optional_element(value: &Option<CostumerCredit>, name: &str) -> (r: Option<Element>)
        ensures
            r.deep_view() == optional_costumer_credit_element(value.deep_view(), name@),
    {
        match value {
            Some(v) => Some(v.to_element(name)),
            None => None,
        }
    }

    /// Reads the record from an element.
    pub fn from_element(element: &Element) -> (r: Result<CostumerCredit, DecodeError>)
        ensures
            match r {
                Ok(value) => costumer_credit_from_element(element@)
                    == Ok::<CostumerCreditView, DecodeError>(value@),
                Err(e) => costumer_credit_from_element(element@)
                    == Err::<CostumerCreditView, DecodeError>(e),
            },
    {
        let currency = get_attribute(element, "currency")?;
        Ok(CostumerCredit { currency })
    }

    /// Reads the record from the child `name` of an element, where there is
    /// such a child.
    pub fn from_optional_child(
        element: &Element,
        name: &'static str,
    ) -> (r: Result<Option<CostumerCredit>, DecodeError>)
        ensures
            match r {
                Ok(value) => optional_costumer_credit_child(element@, name)
                    == Ok::<Option<CostumerCreditView>, DecodeError>(value.deep_view()),
                Err(e) => optional_costumer_credit_child(element@, name)
                    == Err::<Option<CostumerCreditView>, DecodeError>(e),
            },
    {
        match find_child(element, name) {
            Ok(Some(child)) => match CostumerCredit::from_element(child) {
                Ok(value) => Ok(Some(value)),
                Err(e) => Err(e),
            },
            Ok(None) => Ok(None),
            Err(e) => Err(e),
        }
    }
}

/// Writing the customer's credit as an element and reading the element again
/// gives the record back: every field as it was, and every absent field absent.
pub proof fn lemma_costumer_credit_round_trip(value: CostumerCreditView, name: Seq<char>)
    ensures
        costumer_credit_from_element(costumer_credit_element(value, name))
            == Ok::<CostumerCreditView, DecodeError>(value),
{
    broadcast use lemma_attributes_named_push;
    reveal_strlit("currency");
}

/// The element that the root record is written as, under the given name.
pub open spec fn pixelletter_element(value: PixelletterView, name: Seq<char>) -> ElementView {
    let children = with_optional(Seq::empty(), optional_auth_element(value.auth, "auth"@));
    let children = with_optional(children, optional_command_element(value.command, "command"@));
    let children = with_optional(children, optional_response_element(value.response, "response"@));
    let children = with_optional(children, optional_leaf("id"@, value.costumer_id));
    let children = with_optional(
        children,
        optional_costumer_data_element(value.costumer_data, "data"@),
    );
    let children = with_optional(
        children,
        optional_costumer_credit_element(value.costumer_credit, "credit"@),
    );
    ElementView {
        name,
        attributes: Seq::empty().push(AttributeView { name: "version"@, value: value.version }),
        children,
        text: Seq::empty(),
    }
}

/// What an element holds when it is read as the root record. The fields are
/// read in the order of the record, and the first one that cannot be read
/// decides the error.
pub open spec fn pixelletter_from_element(
    element: ElementView,
) -> Result<PixelletterView, DecodeError> {
    let version = attribute_text(element, "version");
    let auth = optional_auth_child(element, "auth");
    let command = optional_command_child(element, "command");
    let response = optional_response_child(element, "response");
    let costumer_id = optional_child_text(element, "id");
    let costumer_data = optional_costumer_data_child(element, "data");
    let costumer_credit = optional_costumer_credit_child(element, "credit");
    if version is Err {
        Err(version->Err_0)
    } else if auth is Err {
        Err(auth->Err_0)
    } else if command is Err {
        Err(command->Err_0)
    } else if response is Err {
        Err(response->Err_0)
    } else if costumer_id is Err {
        Err(costumer_id->Err_0)
    } else if costumer_data is Err {
        Err(costumer_data->Err_0)
    } else if costumer_credit is Err {
        Err(costumer_credit->Err_0)
    } else {
        Ok(
            PixelletterView {
                version: version->Ok_0,
                auth: auth->Ok_0,
                command: command->Ok_0,
                response: response->Ok_0,
                costumer_id: costumer_id->Ok_0,
                costumer_data: costumer_data->Ok_0,
                costumer_credit: costumer_credit->Ok_0,
            },
        )
    }
}

impl Pixelletter {
    /// Writes the record as an element with the given name.
    pub fn to_element(&self, name: &str) -> (r: Element)
        ensures
            r@ == pixelletter_element(self@, name@),
    {
        let attributes = one_attribute(make_attribute("version", self.version.as_str()));
        let mut children = no_children();
        add_optional_child(&mut children, Auth::optional_element(&self.auth, "auth"));
        add_optional_child(&mut children, Command::optional_element(&self.command, "command"));
        add_optional_child(&mut children, Response::optional_element(&self.response, "response"));
        add_optional_child(&mut children, make_optional_leaf("id", &self.costumer_id));
        add_optional_child(
            &mut children,
            CostumerData::optional_element(&self.costumer_data, "data"),
        );
        add_optional_child(
            &mut children,
            CostumerCredit::optional_element(&self.costumer_credit, "credit"),
        );
        make_element(name, attributes, children, String::new())
    }

    /// Reads the record from an element.
    pub fn from_element(element: &Element) -> (r: Result<Pixelletter, DecodeError>)
        ensures
            match r {
                Ok(value) => pixelletter_from_element(element@)
                    == Ok::<PixelletterView, DecodeError>(value@),
                Err(e) => pixelletter_from_element(element@)
                    == Err::<PixelletterView, DecodeError>(e),
            },
    {
        let version = get_attribute(element, "version")?;
        let auth = Auth::from_optional_child(element, "auth")?;
        let command = Command::from_optional_child(element, "command")?;
        let response = Response::from_optional_child(element, "response")?;
        let costumer_id = find_child_text(element, "id")?;
        let costumer_data = CostumerData::from_optional_child(element, "data")?;
        let costumer_credit = CostumerCredit::from_optional_child(element, "credit")?;
        Ok(
            Pixelletter {
                version,
                auth,
                command,
                response,
                costumer_id,
                costumer_data,
                costumer_credit,
            },
        )
    }
}

/// Whether the root record is read back as it was written. A reference whose
/// text is present and empty is not: it is written like one without text.
pub open spec fn pixelletter_round_trips(value: PixelletterView) -> bool {
    match value.auth {
        Some(v) => auth_round_trips(v),
        None => true,
    }
}

/// The names of the children of the root record: none of the plain ones holds a
/// colon, and no two of them are the same.
proof fn lemma_pixelletter_names()
    ensures
        local_name("auth"@) == "auth"@,
        "auth"@.len() == 4,
        local_name("command"@) == "command"@,
        "command"@.len() == 7,
        local_name("response"@) == "response"@,
        "response"@.len() == 8,
        local_name("id"@) == "id"@,
        "id"@.len() == 2,
        local_name("data"@) == "data"@,
        "data"@.len() == 4,
        local_name("credit"@) == "credit"@,
        "credit"@.len() == 6,
        "auth"@[0] != "data"@[0],
{
    reveal_strlit("auth");
    lemma_plain_name("auth"@);
    reveal_strlit("command");
    lemma_plain_name("command"@);
    reveal_strlit("response");
    lemma_plain_name("response"@);
    reveal_strlit("id");
    lemma_plain_name("id"@);
    reveal_strlit("data");
    lemma_plain_name("data"@);
    reveal_strlit("credit");
    lemma_plain_name("credit"@);
}

/// The field `auth` is read back from the element that the root record is
/// written as.
proof fn lemma_pixelletter_reads_auth(value: PixelletterView, name: Seq<char>)
    requires
        pixelletter_round_trips(value),
    ensures
        optional_auth_child(pixelletter_element(value, name), "auth")
            == Ok::<Option<AuthView>, DecodeError>(
            value.auth,
        ),
{
    broadcast use {lemma_children_named_push, lemma_children_named_optional};
    lemma_pixelletter_names();
    if value.auth is Some {
        lemma_auth_round_trip(value.auth->0, "auth"@);
    }
}

/// The field `command` is read back from the element that the root record is
/// written as.
proof fn lemma_pixelletter_reads_command(value: PixelletterView, name: Seq<char>)
    ensures
        optional_command_child(pixelletter_element(value, name), "command")
            == Ok::<Option<CommandView>, DecodeError>(
            value.command,
        ),
{
    broadcast use {lemma_children_named_push, lemma_children_named_optional};
    lemma_pixelletter_names();
    if value.command is Some {
        lemma_command_round_trip(value.command->0, "command"@);
    }
}

/// The field `response` is read back from the element that the root record is
/// written as.
proof fn lemma_pixelletter_reads_response(value: PixelletterView, name: Seq<char>)
    ensures
        optional_response_child(pixelletter_element(value, name), "response")
            == Ok::<Option<ResponseView>, DecodeError>(
            value.response,
        ),
{
    broadcast use {lemma_children_named_push, lemma_children_named_optional};
    lemma_pixelletter_names();
    if value.response is Some {
        lemma_response_round_trip(value.response->0, "response"@);
    }
}

/// The field `costumer_id` is read back from the element that the root record
/// is written as.
proof fn lemma_pixelletter_reads_costumer_id(value: PixelletterView, name: Seq<char>)
    ensures
        optional_child_text(pixelletter_element(value, name), "id")
            == Ok::<Option<Seq<char>>, DecodeError>(
            value.costumer_id,
        ),
{
    broadcast use {lemma_children_named_push, lemma_children_named_optional};
    lemma_pixelletter_names();
}

/// The field `costumer_data` is read back from the element that the root record
/// is written as.
proof fn lemma_pixelletter_reads_costumer_data(value: PixelletterView, name: Seq<char>)
    ensures
        optional_costumer_data_child(pixelletter_element(value, name), "data")
            == Ok::<Option<CostumerDataView>, DecodeError>(
            value.costumer_data,
        ),
{
    broadcast use {lemma_children_named_push, lemma_children_named_optional};
    lemma_pixelletter_names();
    if value.costumer_data is Some {
        lemma_costumer_data_round_trip(value.costumer_data->0, "data"@);
    }
}

/// The field `costumer_credit` is read back from the element that the root
/// record is written as.
proof fn lemma_pixelletter_reads_costumer_credit(value: PixelletterView, name: Seq<char>)
    ensures
        optional_costumer_credit_child(pixelletter_element(value, name), "credit")
            == Ok::<Option<CostumerCreditView>, DecodeError>(
            value.costumer_credit,
        ),
{
    broadcast use {lemma_children_named_push, lemma_children_named_optional};
    lemma_pixelletter_names();
    if value.costumer_credit is Some {
        lemma_costumer_credit_round_trip(value.costumer_credit->0, "credit"@);
    }
}

/// Writing the root record as an element and reading the element again gives
/// the record back: every field as it was, and every absent field absent.
pub proof fn lemma_pixelletter_round_trip(value: PixelletterView, name: Seq<char>)
    requires
        pixelletter_round_trips(value),
    ensures
        pixelletter_from_element(pixelletter_element(value, name))
            == Ok::<PixelletterView, DecodeError>(value),
{
    lemma_pixelletter_reads_auth(value, name);
    lemma_pixelletter_reads_command(value, name);
    lemma_pixelletter_reads_response(value, name);
    lemma_pixelletter_reads_costumer_id(value, name);
    lemma_pixelletter_reads_costumer_data(value, name);
    lemma_pixelletter_reads_costumer_credit(value, name);
    broadcast use lemma_attributes_named_push;
    reveal_strlit("version");
}

/// The element that the root record is written as.
pub open spec fn document_element(value: PixelletterView) -> ElementView {
    pixelletter_element(value, "pixelletter"@)
}

/// Writing the root record as an element and reading the element again gives
/// the record back: every populated field as it was, and every absent field
/// absent.
pub proof fn lemma_document_round_trip(value: PixelletterView)
    requires
        pixelletter_round_trips(value),
    ensures
        pixelletter_from_element(document_element(value)) == Ok::<PixelletterView, DecodeError>(
            value,
        ),
{
    lemma_pixelletter_round_trip(value, "pixelletter"@);
}

} // verus!
