use pixelletter::api::{ActionType, Addoption, Location, Pixelletter, PixelletterErrorCode, ResponseResult};
use pixelletter::node::DecodeError;
use pixelletter::order::{
    interpret_envelope, interpret_response, interpret_result, name_uploads, OrderError,
    ResponseError,
};
use pixelletter::wire::{upload_name, BASE_URL, XML_HEADER, XML_PART};
use pixelletter::{Client, Letter, Text};

fn client() -> Client {
    Client::new("a@b.de".to_owned(), "secret".to_owned(), true, false, None)
}

fn letter() -> Option<Letter> {
    Some(Letter::new("DE", None, None).unwrap())
}

fn text() -> Option<Text> {
    Some(Text {
        address: "Erika Mustermann".to_owned(),
        message: "Hello".to_owned(),
        font: "Arial".to_owned(),
        return_address: "Sender".to_owned(),
    })
}

fn fax() -> Option<String> {
    Some("+49 89 1234".to_owned())
}

#[test]
fn a_client_holds_the_account_and_tests_only_on_request() {
    let c = client();
    assert_eq!(c.auth.email, "a@b.de");
    assert_eq!(c.auth.password, "secret");
    assert!(c.auth.agb);
    assert!(!c.auth.widerrufsverzicht);
    assert!(!c.auth.testmodus);
    assert_eq!(c.auth.auth_ref, None);
    assert!(Client::new(String::new(), String::new(), false, true, Some(true)).auth.testmodus);
    assert!(!Client::new(String::new(), String::new(), false, true, Some(false)).auth.testmodus);
}

#[test]
fn a_letter_goes_to_a_country() {
    let l = Letter::new("AT", Some(Location::Hausleiten), Some(vec![Addoption::Color])).unwrap();
    assert_eq!(l.destination(), "AT");
    assert_eq!(l.location(), Some(Location::Hausleiten));
    assert_eq!(l.services(), vec![Addoption::Color]);
    assert_eq!(Letter::new("DE", None, None).unwrap().services(), vec![]);
    for code in ["", "de", "D", "DEU", "XX", "D E", "276"] {
        assert_eq!(Letter::new(code, None, None), None, "{code:?}");
    }
}

#[test]
fn a_request_without_letter_and_fax_is_rejected() {
    let r = client().order(None, None, Some(vec![vec![1u8]]), None, None);
    assert_eq!(r.unwrap_err(), OrderError::NoDeliveryChannel);
    let r = client().order::<Vec<u8>>(None, None, None, None, None);
    assert_eq!(r.unwrap_err(), OrderError::NoDeliveryChannel);
    assert_eq!(OrderError::NoDeliveryChannel.message(), "Neither `letter` nor `fax` are set!");
}

#[test]
fn a_request_with_files_and_text_is_rejected() {
    let r = client().order(letter(), None, Some(vec![vec![1u8]]), text(), None);
    assert_eq!(r.unwrap_err(), OrderError::AmbiguousContent);
    assert_eq!(OrderError::AmbiguousContent.message(), "Set either `files` or `text`!");
}

#[test]
fn a_request_with_neither_files_nor_text_is_rejected() {
    let r = client().order::<Vec<u8>>(letter(), fax(), None, None, None);
    assert_eq!(r.unwrap_err(), OrderError::AmbiguousContent);
}

#[test]
fn a_request_with_an_empty_list_of_files_is_rejected() {
    let r = client().order::<Vec<u8>>(letter(), None, Some(vec![]), None, None);
    assert_eq!(r.unwrap_err(), OrderError::EmptyAttachments);
    assert_eq!(OrderError::EmptyAttachments.message(), "`files` is empty!");
}

#[test]
fn the_first_broken_rule_decides() {
    let r = client().order::<Vec<u8>>(None, None, Some(vec![]), text(), None);
    assert_eq!(r.unwrap_err(), OrderError::NoDeliveryChannel);
    let r = client().order::<Vec<u8>>(letter(), None, Some(vec![]), text(), None);
    assert_eq!(r.unwrap_err(), OrderError::AmbiguousContent);
}

#[test]
fn a_letter_alone_gives_action_letter_and_its_destination() {
    let request = client().order(letter(), None, Some(vec![vec![1u8, 2]]), None, None).unwrap();
    let order = request.envelope.command.clone().unwrap().order.unwrap();
    assert_eq!(order.content_type, "upload");
    assert_eq!(order.options.action, ActionType::Letter);
    assert_eq!(order.options.destination, Some("DE".to_owned()));
    assert_eq!(order.options.fax, None);
    assert_eq!(order.options.location, None);
    assert_eq!(order.options.addoption, vec![]);
    assert_eq!(order.options.font, None);
    assert_eq!(order.options.returnaddress, "");
    assert_eq!(order.options.control, "");
    assert_eq!(order.options.transaction, None);
    assert_eq!(order.text, None);
    assert_eq!(request.envelope.version, "1.3");
    assert_eq!(request.envelope.auth, Some(client().auth));
    assert_eq!(request.envelope.response, None);
}

#[test]
fn a_fax_alone_gives_action_fax() {
    let request = client().order::<Vec<u8>>(None, fax(), None, text(), Some("tx".to_owned())).unwrap();
    let order = request.envelope.command.unwrap().order.unwrap();
    assert_eq!(order.content_type, "text");
    assert_eq!(order.options.action, ActionType::Fax);
    assert_eq!(order.options.fax, fax());
    assert_eq!(order.options.destination, None);
    assert_eq!(order.options.font, Some("Arial".to_owned()));
    assert_eq!(order.options.returnaddress, "Sender");
    assert_eq!(order.options.transaction, Some("tx".to_owned()));
    assert_eq!(
        order.text,
        Some(pixelletter::api::Text { address: "Erika Mustermann".to_owned(), message: "Hello".to_owned() })
    );
    assert!(request.uploads.is_empty());
}

#[test]
fn letter_and_fax_give_both_and_the_content_type_follows_the_content() {
    let with_files = client().order(letter(), fax(), Some(vec![vec![0u8]]), None, None).unwrap();
    let order = with_files.envelope.command.unwrap().order.unwrap();
    assert_eq!(order.options.action, ActionType::LetterAndFax);
    assert_eq!(order.content_type, "upload");
    let with_text = client().order::<Vec<u8>>(letter(), fax(), None, text(), None).unwrap();
    let order = with_text.envelope.command.unwrap().order.unwrap();
    assert_eq!(order.options.action, ActionType::LetterAndFax);
    assert_eq!(order.content_type, "text");
}

#[test]
fn the_letter_gives_location_and_add_ons() {
    let l = Letter::new("CH", Some(Location::Hamburg), Some(vec![Addoption::Einschreiben, Addoption::Green]));
    let request = client().order::<Vec<u8>>(l, None, None, text(), None).unwrap();
    let options = request.envelope.command.unwrap().order.unwrap().options;
    assert_eq!(options.destination, Some("CH".to_owned()));
    assert_eq!(options.location, Some(Location::Hamburg));
    assert_eq!(options.addoption, vec![Addoption::Einschreiben, Addoption::Green]);
}

#[test]
fn assembling_alone_needs_only_the_number_of_files() {
    let c = client();
    assert_eq!(c.assemble(&None, &None, Some(1), &None, &None), Err(OrderError::NoDeliveryChannel));
    assert_eq!(c.assemble(&letter(), &None, Some(0), &None, &None), Err(OrderError::EmptyAttachments));
    let envelope = c.assemble(&letter(), &None, Some(3), &None, &None).unwrap();
    assert_eq!(envelope, c.order(letter(), None, Some(vec![1, 2, 3]), None, None).unwrap().envelope);
}

#[test]
fn the_request_carries_the_document_and_the_named_uploads() {
    let files = vec!["first".to_owned(), "second".to_owned(), "third".to_owned()];
    let request = client().order(letter(), None, Some(files.clone()), None, None).unwrap();
    assert_eq!(request.document, format!("{}{}", XML_HEADER, request.envelope.to_xml()));
    assert!(request.document.starts_with("<?xml version=\"1.0\" encoding=\"UTF-8\" standalone=\"yes\"?><pixelletter version=\"1.3\">"));
    assert_eq!(Pixelletter::from_xml(&request.document).as_ref(), Ok(&request.envelope));
    let names: Vec<&str> = request.uploads.iter().map(|u| u.name.as_str()).collect();
    assert_eq!(names, vec!["uploadfile0", "uploadfile1", "uploadfile2"]);
    let parts: Vec<String> = request.uploads.into_iter().map(|u| u.attachment).collect();
    assert_eq!(parts, files);
    assert_eq!(XML_PART, "xml");
    assert_eq!(BASE_URL, "https://www.pixelletter.de/xml/index.php");
}

#[test]
fn upload_parts_are_numbered_from_zero() {
    assert_eq!(upload_name(0), "uploadfile0");
    assert_eq!(upload_name(9), "uploadfile9");
    assert_eq!(upload_name(10), "uploadfile10");
    assert_eq!(upload_name(123), "uploadfile123");
    let uploads = name_uploads((0..12).collect::<Vec<u32>>());
    assert_eq!(uploads.len(), 12);
    assert_eq!(uploads[11].name, "uploadfile11");
    assert_eq!(uploads[11].attachment, 11);
    assert!(name_uploads(Vec::<u8>::new()).is_empty());
}

#[test]
fn code_100_is_success_with_the_gateways_message() {
    let result = ResponseResult { code: 100, msg: "OK".to_owned() };
    assert_eq!(interpret_result(&result), Ok("OK".to_owned()));
}

#[test]
fn code_21_is_the_insufficient_balance_failure() {
    let result = ResponseResult { code: 21, msg: "ignored".to_owned() };
    let failure = interpret_result(&result).unwrap_err();
    assert_eq!(failure, PixelletterErrorCode::Code21);
    assert_eq!(
        failure.message(),
        "Ihr Guthaben reicht nicht aus. Bitte loggen Sie sich im Kundenbereich ein und laden Sie Ihr Guthaben auf."
    );
}

#[test]
fn an_undocumented_code_is_a_generic_failure_that_carries_it() {
    let result = ResponseResult { code: 9999, msg: "strange".to_owned() };
    let failure = interpret_result(&result).unwrap_err();
    assert_eq!(failure, PixelletterErrorCode::Other { code: 9999, message: "strange".to_owned() });
    assert_eq!(failure.message(), "Unknown error code 9999: strange");
    for code in [0, 96, 99, 101, 200, 240, 256, 356] {
        let failure = interpret_result(&ResponseResult { code, msg: String::new() }).unwrap_err();
        assert_eq!(failure, PixelletterErrorCode::Other { code, message: String::new() });
    }
}

#[test]
fn a_negative_code_is_carried_as_it_came() {
    let failure = interpret_result(&ResponseResult { code: -1, msg: "below".to_owned() }).unwrap_err();
    assert_eq!(failure, PixelletterErrorCode::Other { code: -1, message: "below".to_owned() });
    assert_eq!(failure.code(), -1);
    assert_eq!(failure.message(), "Unknown error code -1: below");
    let failure = interpret_result(&ResponseResult { code: i32::MIN, msg: String::new() }).unwrap_err();
    assert_eq!(failure, PixelletterErrorCode::Other { code: i32::MIN, message: String::new() });
    assert_eq!(failure.message(), "Unknown error code -2147483648: ");
    let failure = interpret_result(&ResponseResult { code: i32::MAX, msg: String::new() }).unwrap_err();
    assert_eq!(failure.message(), "Unknown error code 2147483647: ");
    let answer = "<pixelletter version=\"1.3\"><response><result code=\"-7\"><msg>x</msg></result></response></pixelletter>";
    assert_eq!(
        interpret_response(answer),
        Err(ResponseError::Gateway(PixelletterErrorCode::Other { code: -7, message: "x".to_owned() }))
    );
}

#[test]
fn an_answer_is_read_and_interpreted() {
    let ok = "<pixelletter version=\"1.3\"><response><result code=\"100\"><msg>OK</msg></result></response></pixelletter>";
    assert_eq!(interpret_response(ok), Ok("OK".to_owned()));
    let broke = "<pixelletter version=\"1.3\"><response><result code=\"21\"><msg>x</msg></result></response></pixelletter>";
    assert_eq!(interpret_response(broke), Err(ResponseError::Gateway(PixelletterErrorCode::Code21)));
    let odd = "<pixelletter version=\"1.3\"><response><result code=\"9999\"><msg>x</msg></result></response></pixelletter>";
    assert_eq!(
        interpret_response(odd),
        Err(ResponseError::Gateway(PixelletterErrorCode::Other { code: 9999, message: "x".to_owned() }))
    );
}

#[test]
fn an_answer_without_response_or_without_sense_is_told_apart() {
    assert_eq!(interpret_response("<pixelletter version=\"1.3\"/>"), Err(ResponseError::NoResponse));
    assert_eq!(ResponseError::NoResponse.message(), "No `response` field");
    assert_eq!(
        interpret_response("<html><body>502</body>"),
        Err(ResponseError::Malformed(DecodeError::NotWellFormed))
    );
    assert_eq!(
        interpret_response("<pixelletter version=\"1.3\"><response/></pixelletter>"),
        Err(ResponseError::Malformed(DecodeError::Missing("result")))
    );
    assert_eq!(interpret_envelope(&Pixelletter::default()), Err(ResponseError::NoResponse));
    assert_eq!(
        ResponseError::Gateway(PixelletterErrorCode::Code6).message(),
        "Dieser Auftrag wurde bereits erteilt."
    );
}
