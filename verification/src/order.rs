//! Assembling an order from what the caller gives, and interpreting the
//! gateway's answer to it.

use vstd::prelude::*;
use vstd::string::*;
use crate::api::clone_addoptions;
use crate::api::clone_text;
use crate::api::Auth;
use crate::api::AuthView;
use crate::api::Command;
use crate::api::CommandView;
use crate::api::Options;
use crate::api::OptionsView;
use crate::api::Order;
use crate::api::OrderView;
use crate::api::Pixelletter;
use crate::api::PixelletterView;
use crate::api::ResponseResult;
use crate::api::ResponseResultView;
use crate::decimal::decimal_text;
use crate::fields::ActionType;
use crate::fields::Addoption;
use crate::fields::Location;
use crate::node::DecodeError;
use crate::taxonomy::is_documented;
use crate::taxonomy::lemma_documented_has_text;
use crate::taxonomy::lemma_text_of_view;
use crate::taxonomy::taxonomy_text;
use crate::taxonomy::FailureView;
use crate::taxonomy::PixelletterErrorCode;
use crate::wire::decoded_document;
use crate::wire::request_document;
use crate::wire::upload_name;
use crate::wire::upload_part_name;

verus! {

/// Whether a text is the two-letter code of a country in ISO 3166-1, as
/// `isocountry` knows them.
pub uninterp spec fn is_iso_alpha2(code: Seq<char>) -> bool;

/// Asks `isocountry::CountryCode::for_alpha2` whether `code` is the
/// two-letter code of a country: it is exactly when a country is found.
#[verifier::external_body]
fn known_country(code: &str) -> (r: bool)
    ensures
        r == is_iso_alpha2(code@),
{
    isocountry::CountryCode::for_alpha2(code).is_ok()
}

/// Why an order was not assembled.
#[derive(Debug, Clone, Copy, PartialEq, Eq, Structural)]
pub enum OrderError {
    /// Neither a letter nor a fax number was given.
    NoDeliveryChannel,
    /// Both attachments and a text were given, or neither.
    AmbiguousContent,
    /// The list of attachments was given and is empty.
    EmptyAttachments,
}

impl OrderError {
    /// The sentence that describes the error.
    pub open spec fn text(self) -> Seq<char> {
        match self {
            OrderError::NoDeliveryChannel => "Neither `letter` nor `fax` are set!"@,
            OrderError::AmbiguousContent => "Set either `files` or `text`!"@,
            OrderError::EmptyAttachments => "`files` is empty!"@,
        }
    }

    /// The sentence that describes the error.
    pub fn message(&self) -> (r: &'static str)
        ensures
            r@ == self.text(),
    {
        match self {
            OrderError::NoDeliveryChannel => "Neither `letter` nor `fax` are set!",
            OrderError::AmbiguousContent => "Set either `files` or `text`!",
            OrderError::EmptyAttachments => "`files` is empty!",
        }
    }
}

/// A letter to be sent: where it goes, from which site, and with which
/// add-on services. The destination is always the code of a country.
#[derive(Debug, PartialEq, Eq)]
pub struct Letter {
    destination: String,
    location: Option<Location>,
    services: Option<Vec<Addoption>>,
}

/// What a [`Letter`] holds, as a mathematical value.
pub struct LetterView {
    pub destination: Seq<char>,
    pub location: Option<Location>,
    pub services: Option<Seq<Addoption>>,
}

impl View for Letter {
    type V = LetterView;

    closed spec fn view(&self) -> LetterView {
        LetterView {
            destination: self.destination@,
            location: self.location,
            services: match self.services {
                Some(list) => Some(list@),
                None => None,
            },
        }
    }
}

impl Letter {
    #[verifier::type_invariant]
    spec fn destination_is_a_country(self) -> bool {
        is_iso_alpha2(self.destination@)
    }

    /// A letter to the country with the two-letter code `destination`;
    /// `None` where that is no country's code.
    pub fn new(
        destination: &str,
        location: Option<Location>,
        services: Option<Vec<Addoption>>,
    ) -> (r: Option<Letter>)
        ensures
            r is Some <==> is_iso_alpha2(destination@),
            r matches Some(letter) ==> letter@ == (LetterView {
                destination: destination@,
                location,
                services: match services {
                    Some(list) => Some(list@),
                    None => None,
                },
            }),
    {
        if known_country(destination) {
            Some(Letter { destination: destination.to_owned(), location, services })
        } else {
            None
        }
    }

    /// The two-letter code of the country the letter goes to.
    pub fn destination(&self) -> (r: &str)
        ensures
            r@ == self@.destination,
            is_iso_alpha2(r@),
    {
        proof {
            use_type_invariant(self);
        }
        self.destination.as_str()
    }

    /// The site the letter is dispatched from, where one was chosen.
    pub fn location(&self) -> (r: Option<Location>)
        ensures
            r == self@.location,
    {
        self.location
    }

    /// The add-on services of the letter; none where none were chosen.
    pub fn services(&self) -> (r: Vec<Addoption>)
        ensures
            r@ == match self@.services {
                Some(list) => list,
                None => Seq::empty(),
            },
    {
        match &self.services {
            Some(list) => clone_addoptions(list),
            None => Vec::new(),
        }
    }
}

/// The content of a typed letter: the addressee block, the body, the font and
/// the return address.
#[derive(Debug, PartialEq, Eq)]
pub struct Text {
    pub address: String,
    pub message: String,
    pub font: String,
    pub return_address: String,
}

/// What a [`Text`] holds, as a mathematical value.
pub struct TextContentView {
    pub address: Seq<char>,
    pub message: Seq<char>,
    pub font: Seq<char>,
    pub return_address: Seq<char>,
}

impl View for Text {
    type V = TextContentView;

    open spec fn view(&self) -> TextContentView {
        TextContentView {
            address: self.address@,
            message: self.message@,
            font: self.font@,
            return_address: self.return_address@,
        }
    }
}

/// What an optional letter holds.
pub open spec fn optional_letter(letter: Option<Letter>) -> Option<LetterView> {
    match letter {
        Some(l) => Some(l@),
        None => None,
    }
}

/// What an optional text holds.
pub open spec fn optional_text(text: Option<Text>) -> Option<TextContentView> {
    match text {
        Some(t) => Some(t@),
        None => None,
    }
}

/// The number of attachments that an optional count stands for.
pub open spec fn optional_count(files: Option<usize>) -> Option<nat> {
    match files {
        Some(n) => Some(n as nat),
        None => None,
    }
}

/// The number of attachments that an optional list holds.
pub open spec fn attachment_count<A>(files: Option<Vec<A>>) -> Option<nat> {
    match files {
        Some(list) => Some(list@.len()),
        None => None,
    }
}

/// The first rule that a request breaks, in the order in which the rules are
/// held against it: a delivery channel must be given; exactly one of
/// attachments and text must be given; a list of attachments must not be
/// empty. `files` is the number of attachments, where a list was given.
pub open spec fn order_fault(letter: bool, fax: bool, files: Option<nat>, text: bool) -> Option<
    OrderError,
> {
    if !letter && !fax {
        Some(OrderError::NoDeliveryChannel)
    } else if (files is Some) == text {
        Some(OrderError::AmbiguousContent)
    } else if files == Some(0nat) {
        Some(OrderError::EmptyAttachments)
    } else {
        None
    }
}

/// The action that follows from what was given: a letter, a fax, or both.
pub open spec fn derived_action(letter: bool, fax: bool) -> ActionType {
    if letter && fax {
        ActionType::LetterAndFax
    } else if fax {
        ActionType::Fax
    } else {
        ActionType::Letter
    }
}

/// The content type that follows from what was given: `upload` for
/// attachments, `text` for a typed letter.
pub open spec fn derived_content_type(files: bool) -> Seq<char> {
    if files {
        "upload"@
    } else {
        "text"@
    }
}

/// The delivery parameters that follow from what was given. Destination,
/// dispatch location and add-ons come from the letter, font and return
/// address from the text; the control field is empty.
pub open spec fn derived_options(
    letter: Option<LetterView>,
    fax: Option<Seq<char>>,
    text: Option<TextContentView>,
    transaction: Option<Seq<char>>,
) -> OptionsView {
    OptionsView {
        action: derived_action(letter is Some, fax is Some),
        transaction,
        control: Seq::empty(),
        fax,
        location: match letter {
            Some(l) => l.location,
            None => None,
        },
        destination: match letter {
            Some(l) => Some(l.destination),
            None => None,
        },
        addoption: match letter {
            Some(l) => match l.services {
                Some(list) => list,
                None => Seq::empty(),
            },
            None => Seq::empty(),
        },
        font: match text {
            Some(t) => Some(t.font),
            None => None,
        },
        returnaddress: match text {
            Some(t) => t.return_address,
            None => Seq::empty(),
        },
    }
}

/// The root record of the request that follows from what was given.
pub open spec fn derived_envelope(
    auth: AuthView,
    letter: Option<LetterView>,
    fax: Option<Seq<char>>,
    files: bool,
    text: Option<TextContentView>,
    transaction: Option<Seq<char>>,
) -> PixelletterView {
    PixelletterView {
        version: "1.3"@,
        auth: Some(auth),
        command: Some(
            CommandView {
                order: Some(
                    OrderView {
                        content_type: derived_content_type(files),
                        options: derived_options(letter, fax, text, transaction),
                        text: match text {
                            Some(t) => Some(
                                crate::api::TextView { address: t.address, message: t.message },
                            ),
                            None => None,
                        },
                    },
                ),
                info: None,
                id: None,
            },
        ),
        response: None,
        costumer_id: None,
        costumer_data: None,
        costumer_credit: None,
    }
}

/// What assembling a request gives: the first rule it breaks, or its root
/// record.
pub open spec fn assembled(
    auth: AuthView,
    letter: Option<LetterView>,
    fax: Option<Seq<char>>,
    files: Option<nat>,
    text: Option<TextContentView>,
    transaction: Option<Seq<char>>,
) -> Result<PixelletterView, OrderError> {
    match order_fault(letter is Some, fax is Some, files, text is Some) {
        Some(fault) => Err(fault),
        None => Ok(derived_envelope(auth, letter, fax, files is Some, text, transaction)),
    }
}

/// One attachment of a request, under the name of its part.
#[derive(Debug)]
pub struct Upload<A> {
    pub name: String,
    pub attachment: A,
}

/// A request that is ready to be posted: its root record, the document of
/// the part `xml`, and the attachments under the names of their parts.
#[derive(Debug)]
pub struct OrderRequest<A> {
    pub envelope: Pixelletter,
    pub document: String,
    pub uploads: Vec<Upload<A>>,
}

/// The attachments of `files` are handed on in their order, each under the
/// name of its place.
pub open spec fn uploads_of<A>(uploads: Seq<Upload<A>>, files: Seq<A>) -> bool {
    &&& uploads.len() == files.len()
    &&& forall|i: int|
        0 <= i < files.len() ==> (#[trigger] uploads[i]).attachment == files[i] && uploads[i].name@
            == upload_part_name(i as nat)
}

/// What an answer's result means: the gateway's message for code 100, the
/// failure that the table holds for a documented code, and for every other
/// code, negative ones and zero too, a failure that carries the code as it
/// came and the gateway's message.
pub open spec fn interpreted(result: ResponseResultView) -> Result<Seq<char>, FailureView> {
    if result.code == 100 {
        Ok(result.msg)
    } else if is_documented(result.code as int) {
        Err(FailureView { code: result.code as int, message: None })
    } else {
        Err(FailureView { code: result.code as int, message: Some(result.msg) })
    }
}

/// Why a request did not succeed, once an answer came back.
#[derive(Debug, PartialEq, Eq)]
pub enum ResponseError {
    /// The answer could not be read.
    Malformed(DecodeError),
    /// The answer holds no response section.
    NoResponse,
    /// The gateway refused the request.
    Gateway(PixelletterErrorCode),
}

impl ResponseError {
    /// The sentence that describes the error.
    pub open spec fn text(self) -> Seq<char> {
        match self {
            ResponseError::Malformed(_) => "The response is not a valid document"@,
            ResponseError::NoResponse => "No `response` field"@,
            ResponseError::Gateway(failure) => failure.text(),
        }
    }

    /// The sentence that describes the error.
    pub fn message(&self) -> (r: String)
        ensures
            r@ == self.text(),
    {
        match self {
            ResponseError::Malformed(_) => String::from_str("The response is not a valid document"),
            ResponseError::NoResponse => String::from_str("No `response` field"),
            ResponseError::Gateway(failure) => failure.message(),
        }
    }
}

/// Says what an answer's result means.
pub fn interpret_result(result: &ResponseResult) -> (r: Result<String, PixelletterErrorCode>)
    ensures
        match r {
            Ok(message) => interpreted(result@) == Ok::<Seq<char>, FailureView>(message@),
            Err(failure) => interpreted(result@) == Err::<Seq<char>, FailureView>(failure@),
        },
{
    if result.code == 100 {
        Ok(result.msg.clone())
    } else {
        match PixelletterErrorCode::from_code(result.code) {
            Some(failure) => Err(failure),
            None => Err(
                PixelletterErrorCode::Other { code: result.code, message: result.msg.clone() },
            ),
        }
    }
}

/// What reading an answer's root record gives: the gateway's message on
/// success, and otherwise why the request did not succeed.
pub open spec fn envelope_outcome(envelope: PixelletterView) -> Result<
    Seq<char>,
    Option<FailureView>,
> {
    match envelope.response {
        Some(response) => match interpreted(response.result) {
            Ok(message) => Ok(message),
            Err(failure) => Err(Some(failure)),
        },
        None => Err(None),
    }
}

/// Says what an answer's root record means.
pub fn interpret_envelope(envelope: &Pixelletter) -> (r: Result<String, ResponseError>)
    ensures
        match r {
            Ok(message) => envelope_outcome(envelope@) == Ok::<Seq<char>, Option<FailureView>>(
                message@,
            ),
            Err(ResponseError::Gateway(failure)) => envelope_outcome(envelope@) == Err::<
                Seq<char>,
                Option<FailureView>,
            >(Some(failure@)),
            Err(ResponseError::NoResponse) => envelope_outcome(envelope@) == Err::<
                Seq<char>,
                Option<FailureView>,
            >(None),
            Err(ResponseError::Malformed(_)) => false,
        },
{
    match &envelope.response {
        Some(response) => match interpret_result(&response.result) {
            Ok(message) => Ok(message),
            Err(failure) => Err(ResponseError::Gateway(failure)),
        },
        None => Err(ResponseError::NoResponse),
    }
}

/// What a [`ResponseError`] holds, as a mathematical value.
pub enum ResponseErrorView {
    Malformed(DecodeError),
    NoResponse,
    Gateway(FailureView),
}

impl View for ResponseError {
    type V = ResponseErrorView;

    open spec fn view(&self) -> ResponseErrorView {
        match self {
            ResponseError::Malformed(e) => ResponseErrorView::Malformed(*e),
            ResponseError::NoResponse => ResponseErrorView::NoResponse,
            ResponseError::Gateway(failure) => ResponseErrorView::Gateway(failure@),
        }
    }
}

/// What the gateway's answer means: the gateway's message on success, and
/// otherwise why the request did not succeed. An answer that cannot be read
/// is malformed, for the reason that reading it gives.
pub open spec fn response_outcome(text: Seq<char>) -> Result<Seq<char>, ResponseErrorView> {
    match decoded_document(text) {
        Ok(envelope) => match envelope_outcome(envelope) {
            Ok(message) => Ok(message),
            Err(Some(failure)) => Err(ResponseErrorView::Gateway(failure)),
            Err(None) => Err(ResponseErrorView::NoResponse),
        },
        Err(e) => Err(ResponseErrorView::Malformed(e)),
    }
}

/// Reads the gateway's answer and says what it means.
pub fn interpret_response(text: &str) -> (r: Result<String, ResponseError>)
    ensures
        match r {
            Ok(message) => response_outcome(text@) == Ok::<Seq<char>, ResponseErrorView>(
                message@,
            ),
            Err(e) => response_outcome(text@) == Err::<Seq<char>, ResponseErrorView>(e@),
        },
{
    match Pixelletter::from_xml(text) {
        Ok(envelope) => interpret_envelope(&envelope),
        Err(e) => Err(ResponseError::Malformed(e)),
    }
}

/// A request with neither a letter nor a fax number is rejected, whatever
/// else it holds.
pub proof fn lemma_no_delivery_channel_is_rejected(
    auth: AuthView,
    files: Option<nat>,
    text: Option<TextContentView>,
    transaction: Option<Seq<char>>,
)
    ensures
        assembled(auth, None, None, files, text, transaction) == Err::<
            PixelletterView,
            OrderError,
        >(OrderError::NoDeliveryChannel),
{
}

/// A request that has a delivery channel and gives both attachments and a
/// text is rejected.
pub proof fn lemma_files_and_text_are_rejected(
    auth: AuthView,
    letter: Option<LetterView>,
    fax: Option<Seq<char>>,
    files: nat,
    text: TextContentView,
    transaction: Option<Seq<char>>,
)
    requires
        letter is Some || fax is Some,
    ensures
        assembled(auth, letter, fax, Some(files), Some(text), transaction) == Err::<
            PixelletterView,
            OrderError,
        >(OrderError::AmbiguousContent),
{
}

/// A request that has a delivery channel and gives neither attachments nor a
/// text is rejected.
pub proof fn lemma_missing_content_is_rejected(
    auth: AuthView,
    letter: Option<LetterView>,
    fax: Option<Seq<char>>,
    transaction: Option<Seq<char>>,
)
    requires
        letter is Some || fax is Some,
    ensures
        assembled(auth, letter, fax, None, None, transaction) == Err::<
            PixelletterView,
            OrderError,
        >(OrderError::AmbiguousContent),
{
}

/// A request that has a delivery channel and no text and gives an empty list
/// of attachments is rejected, and not as one whose attachments were left
/// out.
pub proof fn lemma_empty_attachments_are_rejected(
    auth: AuthView,
    letter: Option<LetterView>,
    fax: Option<Seq<char>>,
    transaction: Option<Seq<char>>,
)
    requires
        letter is Some || fax is Some,
    ensures
        assembled(auth, letter, fax, Some(0nat), None, transaction) == Err::<
            PixelletterView,
            OrderError,
        >(OrderError::EmptyAttachments),
{
}

/// Every request that breaks no rule is assembled, and a request is rejected
/// only for a rule that it breaks.
pub proof fn lemma_assembled_when_no_rule_is_broken(
    auth: AuthView,
    letter: Option<LetterView>,
    fax: Option<Seq<char>>,
    files: Option<nat>,
    text: Option<TextContentView>,
    transaction: Option<Seq<char>>,
)
    ensures
        assembled(auth, letter, fax, files, text, transaction) is Ok <==> (letter is Some
            || fax is Some) && (files is Some) != (text is Some) && files != Some(0nat),
{
}

/// The delivery parameters of a request that was assembled.
pub open spec fn assembled_options(envelope: Result<PixelletterView, OrderError>) -> OptionsView {
    envelope->Ok_0.command->0.order->0.options
}

/// A letter without a fax number is assembled with the action `Letter` and
/// the letter's destination.
pub proof fn lemma_letter_only(
    auth: AuthView,
    letter: LetterView,
    files: Option<nat>,
    text: Option<TextContentView>,
    transaction: Option<Seq<char>>,
)
    requires
        (files is Some) != (text is Some),
        files != Some(0nat),
    ensures
        assembled(auth, Some(letter), None, files, text, transaction) is Ok,
        assembled_options(
            assembled(auth, Some(letter), None, files, text, transaction),
        ).action == ActionType::Letter,
        assembled_options(
            assembled(auth, Some(letter), None, files, text, transaction),
        ).destination == Some(letter.destination),
        assembled_options(assembled(auth, Some(letter), None, files, text, transaction)).fax
            == None::<Seq<char>>,
{
}

/// A fax number without a letter is assembled with the action `Fax` and no
/// destination.
pub proof fn lemma_fax_only(
    auth: AuthView,
    fax: Seq<char>,
    files: Option<nat>,
    text: Option<TextContentView>,
    transaction: Option<Seq<char>>,
)
    requires
        (files is Some) != (text is Some),
        files != Some(0nat),
    ensures
        assembled(auth, None, Some(fax), files, text, transaction) is Ok,
        assembled_options(assembled(auth, None, Some(fax), files, text, transaction)).action
            == ActionType::Fax,
        assembled_options(
            assembled(auth, None, Some(fax), files, text, transaction),
        ).destination == None::<Seq<char>>,
        assembled_options(assembled(auth, None, Some(fax), files, text, transaction)).fax
            == Some(fax),
{
}

/// A letter together with a fax number is assembled with the action
/// `LetterAndFax`, and the content type follows from the content alone:
/// `upload` for attachments, `text` for a typed letter.
pub proof fn lemma_letter_and_fax(
    auth: AuthView,
    letter: LetterView,
    fax: Seq<char>,
    files: Option<nat>,
    text: Option<TextContentView>,
    transaction: Option<Seq<char>>,
)
    requires
        (files is Some) != (text is Some),
        files != Some(0nat),
    ensures
        assembled(auth, Some(letter), Some(fax), files, text, transaction) is Ok,
        assembled_options(
            assembled(auth, Some(letter), Some(fax), files, text, transaction),
        ).action == ActionType::LetterAndFax,
        files is Some ==> assembled(
            auth,
            Some(letter),
            Some(fax),
            files,
            text,
            transaction,
        )->Ok_0.command->0.order->0.content_type == "upload"@,
        text is Some ==> assembled(
            auth,
            Some(letter),
            Some(fax),
            files,
            text,
            transaction,
        )->Ok_0.command->0.order->0.content_type == "text"@,
{
}

/// Code 100 is the only success, and its value is the gateway's own message;
/// a documented code gives the failure of that code, and any other code a
/// failure that carries the code and the gateway's message.
pub proof fn lemma_interpreted(result: ResponseResultView)
    ensures
        interpreted(result) is Ok <==> result.code == 100,
        result.code == 100 ==> interpreted(result) == Ok::<Seq<char>, FailureView>(result.msg),
        result.code != 100 && is_documented(result.code as int) ==> interpreted(result) == Err::<
            Seq<char>,
            FailureView,
        >(FailureView { code: result.code as int, message: None }),
        result.code != 100 && !is_documented(result.code as int) ==> interpreted(result) == Err::<
            Seq<char>,
            FailureView,
        >(FailureView { code: result.code as int, message: Some(result.msg) }),
{
}

/// The failure that stands for an undocumented code is shown with that code
/// as it came, in decimal and with its sign, and with the gateway's message.
pub proof fn lemma_undocumented_code_text(
    result: ResponseResultView,
    failure: PixelletterErrorCode,
)
    requires
        result.code != 100,
        !is_documented(result.code as int),
        interpreted(result) == Err::<Seq<char>, FailureView>(failure@),
    ensures
        failure@.code == result.code,
        failure.text() == "Unknown error code "@ + decimal_text(result.code as int) + ": "@
            + result.msg,
{
    lemma_text_of_view(failure);
}

/// The failure that stands for a documented code is shown with the table's
/// explanation of that code.
pub proof fn lemma_documented_code_text(
    result: ResponseResultView,
    failure: PixelletterErrorCode,
)
    requires
        result.code != 100,
        is_documented(result.code as int),
        interpreted(result) == Err::<Seq<char>, FailureView>(failure@),
    ensures
        failure@.code == result.code,
        taxonomy_text(result.code as int) == Some(failure.text()),
{
    lemma_text_of_view(failure);
    lemma_documented_has_text(result.code as int);
}

/// The account that orders are made for.
#[derive(Debug, PartialEq, Eq)]
pub struct Client {
    pub auth: Auth,
}

impl Client {
    /// A client for the given account. The test mode is off unless it is
    /// asked for, and no reference is attached.
    pub fn new(
        email: String,
        password: String,
        agb: bool,
        widerrufsverzicht: bool,
        testing_mode: Option<bool>,
    ) -> (r: Client)
        ensures
            r.auth@ == (AuthView {
                email: email@,
                password: password@,
                agb,
                widerrufsverzicht,
                testmodus: match testing_mode {
                    Some(on) => on,
                    None => false,
                },
                auth_ref: None,
            }),
    {
        Client {
            auth: Auth {
                email,
                password,
                agb,
                widerrufsverzicht,
                testmodus: match testing_mode {
                    Some(on) => on,
                    None => false,
                },
                auth_ref: None,
            },
        }
    }

    /// Holds a request against the rules and derives its root record.
    /// `files` is the number of attachments, where a list was given.
    pub fn assemble(
        &self,
        letter: &Option<Letter>,
        fax: &Option<String>,
        files: Option<usize>,
        text: &Option<Text>,
        transaction: &Option<String>,
    ) -> (r: Result<Pixelletter, OrderError>)
        ensures
            match r {
                Ok(envelope) => assembled(
                    self.auth@,
                    optional_letter(*letter),
                    fax.deep_view(),
                    optional_count(files),
                    optional_text(*text),
                    transaction.deep_view(),
                ) == Ok::<PixelletterView, OrderError>(envelope@),
                Err(fault) => assembled(
                    self.auth@,
                    optional_letter(*letter),
                    fax.deep_view(),
                    optional_count(files),
                    optional_text(*text),
                    transaction.deep_view(),
                ) == Err::<PixelletterView, OrderError>(fault),
            },
            r matches Ok(envelope) ==> (letter is Some ==> is_iso_alpha2(
                envelope@.command->0.order->0.options.destination->0,
            )),
    {
        if letter.is_none() && fax.is_none() {
            return Err(OrderError::NoDeliveryChannel);
        }
        if files.is_some() == text.is_some() {
            return Err(OrderError::AmbiguousContent);
        }
        match files {
            Some(count) => {
                if count == 0 {
                    return Err(OrderError::EmptyAttachments);
                }
            },
            None => {},
        }
        let action = match (letter, fax) {
            (Some(_), Some(_)) => ActionType::LetterAndFax,
            (None, Some(_)) => ActionType::Fax,
            _ => ActionType::Letter,
        };
        let content_type = if files.is_some() {
            "upload"
        } else {
            "text"
        };
        let options = Options {
            action,
            transaction: clone_text(transaction),
            control: String::new(),
            fax: clone_text(fax),
            location: match letter {
                Some(l) => l.location(),
                None => None,
            },
            destination: match letter {
                Some(l) => Some(l.destination().to_owned()),
                None => None,
            },
            addoption: match letter {
                Some(l) => l.services(),
                None => Vec::new(),
            },
            font: match text {
                Some(t) => Some(t.font.clone()),
                None => None,
            },
            returnaddress: match text {
                Some(t) => t.return_address.clone(),
                None => String::new(),
            },
        };
        let envelope = Pixelletter {
            version: String::from_str("1.3"),
            auth: Some(self.auth.clone()),
            command: Some(
                Command {
                    order: Some(
                        Order {
                            content_type: String::from_str(content_type),
                            options,
                            text: match text {
                                Some(t) => Some(
                                    crate::api::Text {
                                        address: t.address.clone(),
                                        message: t.message.clone(),
                                    },
                                ),
                                None => None,
                            },
                        },
                    ),
                    info: None,
                    id: None,
                },
            ),
            response: None,
            costumer_id: None,
            costumer_data: None,
            costumer_credit: None,
        };
        Ok(envelope)
    }

    /// Assembles an order and makes it ready to be posted: the request is
    /// held against the rules, its root record is derived and written as the
    /// document of the part `xml`, and each attachment gets the name of its
    /// part.
    pub fn order<A>(
        &self,
        letter: Option<Letter>,
        fax: Option<String>,
        files: Option<Vec<A>>,
        text: Option<Text>,
        transaction: Option<String>,
    ) -> (r: Result<OrderRequest<A>, OrderError>)
        ensures
            match r {
                Ok(request) => assembled(
                    self.auth@,
                    optional_letter(letter),
                    fax.deep_view(),
                    attachment_count(files),
                    optional_text(text),
                    transaction.deep_view(),
                ) == Ok::<PixelletterView, OrderError>(request.envelope@) && request.document@
                    == request_document(request.envelope@) && uploads_of(
                    request.uploads@,
                    match files {
                        Some(list) => list@,
                        None => Seq::empty(),
                    },
                ),
                Err(fault) => assembled(
                    self.auth@,
                    optional_letter(letter),
                    fax.deep_view(),
                    attachment_count(files),
                    optional_text(text),
                    transaction.deep_view(),
                ) == Err::<PixelletterView, OrderError>(fault),
            },
    {
        let count = match &files {
            Some(list) => Some(list.len()),
            None => None,
        };
        let envelope = match self.assemble(&letter, &fax, count, &text, &transaction) {
            Ok(envelope) => envelope,
            Err(fault) => {
                return Err(fault);
            },
        };
        let document = envelope.to_request_document();
        let uploads = match files {
            Some(list) => name_uploads(list),
            None => Vec::new(),
        };
        Ok(OrderRequest { envelope, document, uploads })
    }
}

/// Gives each attachment the name of its part, in the order of the list.
pub fn name_uploads<A>(files: Vec<A>) -> (r: Vec<Upload<A>>)
    ensures
        uploads_of(r@, files@),
{
    let mut uploads: Vec<Upload<A>> = Vec::new();
    let ghost all = files@;
    for attachment in it: files
        invariant
            it.seq() == all,
            uploads.len() == it.index(),
            forall|i: int|
                0 <= i < uploads.len() ==> (#[trigger] uploads@[i]).attachment == all[i]
                    && uploads@[i].name@ == upload_part_name(i as nat),
    {
        let name = upload_name(uploads.len());
        uploads.push(Upload { name, attachment });
    }
    uploads
}

} // verus!
