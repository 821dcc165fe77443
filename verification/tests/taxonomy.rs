use pixelletter::api::{error_code_to_msg, PixelletterErrorCode};

#[test]
fn insufficient_balance_is_code_21() {
    assert_eq!(
        error_code_to_msg(21),
        Some("Ihr Guthaben reicht nicht aus. Bitte loggen Sie sich im Kundenbereich ein und laden Sie Ihr Guthaben auf.")
    );
}

#[test]
fn first_and_last_code_of_each_range_are_documented() {
    assert_eq!(
        error_code_to_msg(1),
        Some("Die Datei konnte nicht erzeugt werden. Bitte versuchen Sie es noch einmal.")
    );
    assert_eq!(
        error_code_to_msg(95),
        Some("Sie haben Ihre e-mailadresse noch nicht bestätigt. Bitte klicken Sie auf den Link unserer e-mail. Anschliessend können Sie sich an dieser Stelle anmelden.")
    );
    assert_eq!(error_code_to_msg(201), Some("Bitte wählen Sie Ihr Geschlecht (Herr/Frau) aus."));
    assert_eq!(error_code_to_msg(239), Some("Es ist ein unbekannter Fehler aufgetreten."));
}

#[test]
fn exactly_the_two_ranges_are_documented() {
    for code in 0..=255u8 {
        let documented = (1..=95).contains(&code) || (201..=239).contains(&code);
        assert_eq!(error_code_to_msg(code).is_some(), documented, "code {code}");
        assert_eq!(PixelletterErrorCode::from_code(code as i32).is_some(), documented);
    }
    for code in [-1, i32::MIN, 256, 500, 9999, i32::MAX] {
        assert_eq!(PixelletterErrorCode::from_code(code), None);
    }
}

#[test]
fn codes_that_share_a_message_stay_apart() {
    assert_eq!(error_code_to_msg(2), error_code_to_msg(3));
    assert_eq!(error_code_to_msg(65), error_code_to_msg(202));
    assert_eq!(error_code_to_msg(66), error_code_to_msg(203));
    assert_eq!(error_code_to_msg(67), error_code_to_msg(204));
    assert_eq!(error_code_to_msg(70), error_code_to_msg(209));
    assert_eq!(PixelletterErrorCode::from_code(2), Some(PixelletterErrorCode::Code2));
    assert_eq!(PixelletterErrorCode::from_code(3), Some(PixelletterErrorCode::Code3));
    assert_ne!(PixelletterErrorCode::from_code(65), PixelletterErrorCode::from_code(202));
}

#[test]
fn a_failure_knows_its_code_and_its_message() {
    for code in (1..=95).chain(201..=239) {
        let failure = PixelletterErrorCode::from_code(code).unwrap();
        assert_eq!(failure.code(), code);
        assert_eq!(failure.message(), error_code_to_msg(code as u8).unwrap());
        assert_eq!(failure.clone(), failure);
    }
    assert_eq!(
        PixelletterErrorCode::Code13.message(),
        "Bitte bestätigen Sie die Allgemeinen Geschäftsbedingungen mit \"ja\"."
    );
}

#[test]
fn an_unknown_code_is_reported_with_code_and_message() {
    let failure = PixelletterErrorCode::Other { code: 9999, message: "whatever".to_owned() };
    assert_eq!(failure.code(), 9999);
    assert_eq!(failure.message(), "Unknown error code 9999: whatever");
    assert_eq!(failure.clone(), failure);
    let empty = PixelletterErrorCode::Other { code: 0, message: String::new() };
    assert_eq!(empty.message(), "Unknown error code 0: ");
}
