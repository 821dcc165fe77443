use pixelletter::decimal::{i32_to_string, parse_i32, parse_u8, u64_to_string};
use pixelletter::fields::{
    decode_bool, deserialize_addoption_list_from_str, deserialize_bool_from_str_yes_no_german,
    encode_bool, serialize_addoption_list_to_str, serialize_bool_to_str_yes_no_german, ActionType,
    Addoption, Location, ValueError,
};

#[test]
fn action_codes_are_one_two_three() {
    assert_eq!(ActionType::Letter.to_u8(), 1);
    assert_eq!(ActionType::Fax.to_u8(), 2);
    assert_eq!(ActionType::LetterAndFax.to_u8(), 3);
    assert_eq!(ActionType::Letter.encode(), "1");
    assert_eq!(ActionType::LetterAndFax.encode(), "3");
}

#[test]
fn every_action_survives_encode_then_decode() {
    for v in [ActionType::Letter, ActionType::Fax, ActionType::LetterAndFax] {
        assert_eq!(ActionType::try_from(v.to_u8()), Ok(v));
        assert_eq!(ActionType::decode(&v.encode()), Ok(v));
    }
}

#[test]
fn every_location_survives_encode_then_decode() {
    for v in [Location::Munich, Location::Hausleiten, Location::Hamburg] {
        assert_eq!(Location::try_from(v.to_u8()), Ok(v));
        assert_eq!(Location::decode(&v.encode()), Ok(v));
    }
    assert_eq!(Location::Munich.to_u8(), 1);
    assert_eq!(Location::Hausleiten.to_u8(), 2);
    assert_eq!(Location::Hamburg.to_u8(), 3);
}

#[test]
fn every_addoption_survives_encode_then_decode() {
    let all = [
        (Addoption::Einschreiben, 27u8),
        (Addoption::Rueckschein, 28),
        (Addoption::Eigenhaendig, 29),
        (Addoption::EinschreibenEinwurf, 30),
        (Addoption::Color, 33),
        (Addoption::Green, 44),
    ];
    for (v, code) in all {
        assert_eq!(v.to_u8(), code);
        assert_eq!(Addoption::try_from(code), Ok(v));
        assert_eq!(Addoption::decode(&v.encode()), Ok(v));
    }
}

#[test]
fn scalar_enumerations_refuse_numbers_outside_the_vocabulary() {
    assert_eq!(ActionType::try_from(0), Err("Invalid value!"));
    assert_eq!(ActionType::try_from(4), Err("Invalid value!"));
    assert_eq!(Location::try_from(4), Err("Invalid value!"));
    for gap in [0u8, 26, 31, 32, 34, 43, 45, 255] {
        assert_eq!(Addoption::try_from(gap), Err("Invalid value!"));
    }
    assert_eq!(ActionType::decode("4"), Err(ValueError::UnknownCode));
    assert_eq!(Location::decode("0"), Err(ValueError::UnknownCode));
    assert_eq!(Addoption::decode("31"), Err(ValueError::UnknownCode));
    assert_eq!(ActionType::decode("one"), Err(ValueError::ExpectedNumber));
    assert_eq!(ActionType::decode(""), Err(ValueError::ExpectedNumber));
    assert_eq!(ActionType::decode("300"), Err(ValueError::ExpectedNumber));
}

#[test]
fn default_action_is_letter_and_default_location_is_munich() {
    assert_eq!(ActionType::default(), ActionType::Letter);
    assert_eq!(Location::default(), Location::Munich);
}

#[test]
fn addoption_list_is_joined_with_commas() {
    assert_eq!(
        serialize_addoption_list_to_str(&[Addoption::Einschreiben, Addoption::Color]),
        "27,33"
    );
    assert_eq!(serialize_addoption_list_to_str(&[Addoption::Green]), "44");
    assert_eq!(serialize_addoption_list_to_str(&[]), "");
}

#[test]
fn addoption_list_survives_encode_then_decode() {
    let list = vec![Addoption::Einschreiben, Addoption::Color];
    let text = serialize_addoption_list_to_str(&list);
    assert_eq!(deserialize_addoption_list_from_str(&text), list);
    let all = vec![
        Addoption::Green,
        Addoption::Color,
        Addoption::EinschreibenEinwurf,
        Addoption::Eigenhaendig,
        Addoption::Rueckschein,
        Addoption::Einschreiben,
        Addoption::Green,
    ];
    let text = serialize_addoption_list_to_str(&all);
    assert_eq!(text, "44,33,30,29,28,27,44");
    assert_eq!(deserialize_addoption_list_from_str(&text), all);
}

#[test]
fn addoption_list_drops_unknown_tokens_and_keeps_order() {
    assert_eq!(
        deserialize_addoption_list_from_str("27,999,44"),
        vec![Addoption::Einschreiben, Addoption::Green]
    );
    assert_eq!(deserialize_addoption_list_from_str(""), vec![]);
    assert_eq!(deserialize_addoption_list_from_str(","), vec![]);
    assert_eq!(deserialize_addoption_list_from_str("27,"), vec![Addoption::Einschreiben]);
    assert_eq!(deserialize_addoption_list_from_str(",27"), vec![Addoption::Einschreiben]);
    assert_eq!(
        deserialize_addoption_list_from_str("27,,33"),
        vec![Addoption::Einschreiben, Addoption::Color]
    );
    assert_eq!(deserialize_addoption_list_from_str("27, 33"), vec![Addoption::Einschreiben]);
    assert_eq!(deserialize_addoption_list_from_str("abc,31,-27,1"), vec![]);
    assert_eq!(
        deserialize_addoption_list_from_str("+27,027,0000033"),
        vec![Addoption::Einschreiben, Addoption::Einschreiben, Addoption::Color]
    );
    assert_eq!(deserialize_addoption_list_from_str("283,256,44"), vec![Addoption::Green]);
}

#[test]
fn consent_flags_are_ja_and_nein() {
    assert_eq!(serialize_bool_to_str_yes_no_german(true), "ja");
    assert_eq!(serialize_bool_to_str_yes_no_german(false), "nein");
    assert_eq!(deserialize_bool_from_str_yes_no_german("ja"), Ok(true));
    assert_eq!(deserialize_bool_from_str_yes_no_german("nein"), Ok(false));
}

#[test]
fn consent_flags_refuse_everything_else() {
    for text in ["maybe", "", "Ja", "JA", "true", "false", " ja", "ja ", "1"] {
        assert_eq!(
            deserialize_bool_from_str_yes_no_german(text),
            Err(ValueError::ExpectedJaOrNein)
        );
    }
}

#[test]
fn test_mode_flag_is_a_plain_boolean() {
    assert_eq!(encode_bool(true), "true");
    assert_eq!(encode_bool(false), "false");
    assert_eq!(decode_bool("true"), Ok(true));
    assert_eq!(decode_bool("1"), Ok(true));
    assert_eq!(decode_bool("false"), Ok(false));
    assert_eq!(decode_bool("0"), Ok(false));
    assert_eq!(decode_bool("ja"), Err(ValueError::ExpectedBoolean));
    assert_eq!(decode_bool(""), Err(ValueError::ExpectedBoolean));
    assert_eq!(decode_bool("TRUE"), Err(ValueError::ExpectedBoolean));
}

#[test]
fn unsigned_numbers_parse_like_the_standard_library() {
    for text in ["0", "7", "27", "255", "256", "+5", "+", "-", "-0", "-5", "", " 1", "1 ", "0x1", "000", "0255", "00256", "1e1", "٣"] {
        assert_eq!(parse_u8(text), text.parse::<u8>().ok(), "{text:?}");
    }
}

#[test]
fn signed_numbers_parse_like_the_standard_library() {
    for text in [
        "0", "-0", "+0", "100", "-100", "+100", "2147483647", "2147483648", "-2147483648",
        "-2147483649", "99999999999999999999", "-99999999999999999999", "", "+", "-", "--1", "+-1",
        "1-", " 1", "0000000000000000000000012", "-0000000000000000000000012", "12a",
    ] {
        assert_eq!(parse_i32(text), text.parse::<i32>().ok(), "{text:?}");
    }
}

#[test]
fn numbers_are_formatted_like_the_standard_library() {
    for n in [0u64, 1, 9, 10, 11, 99, 100, 101, 255, 1000, 4294967295, u64::MAX] {
        assert_eq!(u64_to_string(n), n.to_string());
    }
    for n in [0i32, 1, -1, 9, -9, 10, -10, 100, 9999, -9999, i32::MAX, i32::MIN] {
        assert_eq!(i32_to_string(n), n.to_string());
        assert_eq!(parse_i32(&i32_to_string(n)), Some(n));
    }
}
