use pixelletter::api::{
    AccountInfo, ActionType, Addoption, Auth, Command, Company, CostumerCredit, CostumerData, Info,
    Location, Options, Order, Pixelletter, Ref, Response, ResponseResult, Text, Title,
};
use pixelletter::fields::ValueError;
use pixelletter::node::DecodeError;
use pixelletter::reader::parse_document;
use pixelletter::wire::XML_HEADER;

fn auth() -> Auth {
    Auth {
        email: "a@b.de".to_owned(),
        password: "secret".to_owned(),
        agb: true,
        widerrufsverzicht: false,
        testmodus: true,
        auth_ref: None,
    }
}

fn upload_order() -> Pixelletter {
    Pixelletter {
        version: "1.3".to_owned(),
        auth: Some(auth()),
        command: Some(Command {
            order: Some(Order {
                content_type: "upload".to_owned(),
                options: Options {
                    action: ActionType::Letter,
                    transaction: None,
                    control: String::new(),
                    fax: None,
                    location: None,
                    destination: Some("DE".to_owned()),
                    addoption: vec![],
                    font: None,
                    returnaddress: String::new(),
                },
                text: None,
            }),
            info: None,
            id: None,
        }),
        response: None,
        costumer_id: None,
        costumer_data: None,
        costumer_credit: None,
    }
}

fn full() -> Pixelletter {
    Pixelletter {
        version: "1.3".to_owned(),
        auth: Some(Auth {
            email: "a@b.de".to_owned(),
            password: "p<&>\"' ü".to_owned(),
            agb: true,
            widerrufsverzicht: true,
            testmodus: false,
            auth_ref: Some(Ref { text: Some("my reference".to_owned()) }),
        }),
        command: Some(Command {
            order: Some(Order {
                content_type: "text".to_owned(),
                options: Options {
                    action: ActionType::LetterAndFax,
                    transaction: Some("tx-1".to_owned()),
                    control: "c".to_owned(),
                    fax: Some("+49 89 123".to_owned()),
                    location: Some(Location::Hamburg),
                    destination: Some("AT".to_owned()),
                    addoption: vec![Addoption::Einschreiben, Addoption::Color],
                    font: Some("Arial".to_owned()),
                    returnaddress: "Sender, Street 1, 12345 Town".to_owned(),
                },
                text: Some(Text {
                    address: "Erika Mustermann\nHeidestr. 17\n51147 Köln".to_owned(),
                    message: "Dear Erika,\n\n1 < 2 & 3 > 2.".to_owned(),
                }),
            }),
            info: Some(Info { account_info: AccountInfo { account_info_type: "all".to_owned() } }),
            id: Some("17".to_owned()),
        }),
        response: Some(Response {
            result: ResponseResult { code: -100, msg: "OK".to_owned() },
            transaction: Some("tx-1".to_owned()),
        }),
        costumer_id: Some("4711".to_owned()),
        costumer_data: Some(CostumerData {
            company: Company {},
            sex: "f".to_owned(),
            title: Title {},
            firstname: "Erika".to_owned(),
            lastname: "Mustermann".to_owned(),
            street: "Heidestr. 17".to_owned(),
            pcode: "51147".to_owned(),
            city: "Köln".to_owned(),
            country: "DE".to_owned(),
            tel_prefix: "0221".to_owned(),
            tel: "123".to_owned(),
            fax_prefix: "0222".to_owned(),
            fax: "456".to_owned(),
            mobil_prefix: "0171".to_owned(),
            mobil: "789".to_owned(),
            email: "erika@example.org".to_owned(),
            payment_type: "credit".to_owned(),
        }),
        costumer_credit: Some(CostumerCredit { currency: "EUR".to_owned() }),
    }
}

#[test]
fn an_upload_order_is_written_as_the_gateway_expects_it() {
    assert_eq!(
        upload_order().to_xml(),
        "<pixelletter version=\"1.3\"><auth><email>a@b.de</email><password>secret</password>\
         <agb>ja</agb><widerrufsverzicht>nein</widerrufsverzicht><testmodus>true</testmodus></auth>\
         <command><order type=\"upload\"><options><action>1</action><control/>\
         <destination>DE</destination><returnaddress/></options></order></command></pixelletter>"
    );
}

#[test]
fn the_posted_document_begins_with_the_declaration() {
    let document = upload_order().to_request_document();
    assert_eq!(XML_HEADER, "<?xml version=\"1.0\" encoding=\"UTF-8\" standalone=\"yes\"?>");
    assert_eq!(document, format!("{}{}", XML_HEADER, upload_order().to_xml()));
    assert_eq!(Pixelletter::from_xml(&document), Ok(upload_order()));
}

#[test]
fn a_fully_populated_record_is_written_field_by_field() {
    assert_eq!(
        full().to_xml(),
        "<pixelletter version=\"1.3\">\
         <auth><email>a@b.de</email><password>p&lt;&amp;&gt;\"' ü</password><agb>ja</agb>\
         <widerrufsverzicht>ja</widerrufsverzicht><testmodus>false</testmodus>\
         <ref>my reference</ref></auth>\
         <command><order type=\"text\"><options><action>3</action>\
         <transaction>tx-1</transaction><control>c</control><fax>+49 89 123</fax>\
         <location>3</location><destination>AT</destination><addoption>27,33</addoption>\
         <font>Arial</font><returnaddress>Sender, Street 1, 12345 Town</returnaddress></options>\
         <text><address>Erika Mustermann\nHeidestr. 17\n51147 Köln</address>\
         <message>Dear Erika,\n\n1 &lt; 2 &amp; 3 &gt; 2.</message></text></order>\
         <info><account:info type=\"all\"/></info><id>17</id></command>\
         <response><result code=\"-100\"><msg>OK</msg></result>\
         <transaction>tx-1</transaction></response>\
         <id>4711</id>\
         <data><company/><sex>f</sex><title/><firstname>Erika</firstname>\
         <lastname>Mustermann</lastname><street>Heidestr. 17</street><pcode>51147</pcode>\
         <city>Köln</city><country>DE</country><prefix>0221</prefix><tel>123</tel>\
         <prefix>0222</prefix><fax>456</fax><prefix>0171</prefix><mobil>789</mobil>\
         <email>erika@example.org</email><type>credit</type></data>\
         <credit currency=\"EUR\"/></pixelletter>"
    );
}

#[test]
fn a_fully_populated_record_survives_a_round_trip() {
    let record = full();
    let element = record.to_element("pixelletter");
    assert_eq!(Pixelletter::from_element(&element), Ok(full()));
    assert_eq!(Pixelletter::from_xml(&record.to_xml()), Ok(full()));
}

#[test]
fn absent_fields_stay_absent_after_a_round_trip() {
    let bare = Pixelletter { version: "1.3".to_owned(), ..Pixelletter::default() };
    assert_eq!(bare.to_xml(), "<pixelletter version=\"1.3\"/>");
    assert_eq!(Pixelletter::from_xml(&bare.to_xml()), Ok(bare));
    let order = upload_order();
    assert_eq!(Pixelletter::from_xml(&order.to_xml()), Ok(upload_order()));
    let answer = Pixelletter {
        version: "1.3".to_owned(),
        response: Some(Response {
            result: ResponseResult { code: 100, msg: String::new() },
            transaction: None,
        }),
        ..Pixelletter::default()
    };
    assert_eq!(
        answer.to_xml(),
        "<pixelletter version=\"1.3\"><response><result code=\"100\"><msg/></result></response></pixelletter>"
    );
    assert_eq!(Pixelletter::from_xml(&answer.to_xml()), Ok(answer));
}

#[test]
fn a_reference_with_empty_text_is_read_back_without_text() {
    let mut record = upload_order();
    record.auth.as_mut().unwrap().auth_ref = Some(Ref { text: Some(String::new()) });
    let back = Pixelletter::from_xml(&record.to_xml()).unwrap();
    assert_eq!(back.auth.unwrap().auth_ref, Some(Ref { text: None }));
}

#[test]
fn an_answer_of_the_gateway_is_read() {
    let text = "<?xml version=\"1.0\" encoding=\"UTF-8\"?>\n<pixelletter version=\"1.3\">\n  <response>\n    <result code=\"100\">\n      <msg>Auftrag erfolgreich &amp; angenommen</msg>\n    </result>\n    <transaction>42</transaction>\n    <unknown>ignored</unknown>\n  </response>\n</pixelletter>\n";
    assert_eq!(
        Pixelletter::from_xml(text),
        Ok(Pixelletter {
            version: "1.3".to_owned(),
            response: Some(Response {
                result: ResponseResult {
                    code: 100,
                    msg: "Auftrag erfolgreich & angenommen".to_owned(),
                },
                transaction: Some("42".to_owned()),
            }),
            ..Pixelletter::default()
        })
    );
}

#[test]
fn the_account_info_is_read_with_and_without_prefix() {
    let expected = Pixelletter {
        version: "1.3".to_owned(),
        command: Some(Command {
            order: None,
            info: Some(Info { account_info: AccountInfo { account_info_type: "x".to_owned() } }),
            id: None,
        }),
        ..Pixelletter::default()
    };
    for text in [
        "<pixelletter version=\"1.3\"><command><info><info type=\"x\"/></info></command></pixelletter>",
        "<pixelletter version=\"1.3\"><command><info><account:info type=\"x\"/></info></command></pixelletter>",
    ] {
        assert_eq!(Pixelletter::from_xml(text).as_ref(), Ok(&expected));
    }
    assert_eq!(
        expected.to_xml(),
        "<pixelletter version=\"1.3\"><command><info><account:info type=\"x\"/></info></command></pixelletter>"
    );
}

#[test]
fn a_missing_required_field_is_named() {
    let cases = [
        ("<pixelletter/>", "version"),
        ("<pixelletter version=\"1\"><auth><email>e</email><agb>ja</agb></auth></pixelletter>", "password"),
        ("<pixelletter version=\"1\"><response/></pixelletter>", "result"),
        ("<pixelletter version=\"1\"><response><result><msg>m</msg></result></response></pixelletter>", "code"),
        ("<pixelletter version=\"1\"><response><result code=\"1\"/></response></pixelletter>", "msg"),
        ("<pixelletter version=\"1\"><command><order type=\"text\"/></command></pixelletter>", "options"),
        ("<pixelletter version=\"1\"><command><order><options/></order></command></pixelletter>", "type"),
        ("<pixelletter version=\"1\"><command><order type=\"text\"><options/></order></command></pixelletter>", "action"),
        ("<pixelletter version=\"1\"><command><info/></command></pixelletter>", "info"),
        ("<pixelletter version=\"1\"><credit/></pixelletter>", "currency"),
        ("<pixelletter version=\"1\"><data><company/><sex/><title/><firstname/><lastname/><street/><pcode/><city/><country/><prefix/><tel/><prefix/><fax/><mobil/><email/><type/></data></pixelletter>", "prefix"),
    ];
    for (text, name) in cases {
        assert_eq!(Pixelletter::from_xml(text), Err(DecodeError::Missing(name)), "{text}");
    }
}

#[test]
fn a_field_that_stands_twice_is_named() {
    let cases = [
        ("<pixelletter version=\"1\"><auth/><auth/></pixelletter>", "auth"),
        ("<pixelletter version=\"1\"><id>1</id><id>2</id></pixelletter>", "id"),
        ("<pixelletter version=\"1\"><response><result code=\"1\"><msg/><msg/></result></response></pixelletter>", "msg"),
        ("<pixelletter version=\"1\"><data><company/><sex/><title/><firstname/><lastname/><street/><pcode/><city/><country/><prefix/><tel/><prefix/><fax/><prefix/><prefix/><mobil/><email/><type/></data></pixelletter>", "prefix"),
    ];
    for (text, name) in cases {
        assert_eq!(Pixelletter::from_xml(text), Err(DecodeError::Duplicate(name)), "{text}");
    }
}

#[test]
fn a_field_with_a_value_outside_its_vocabulary_is_named() {
    let order = |options: &str| {
        format!("<pixelletter version=\"1\"><command><order type=\"text\"><options>{options}</options></order></command></pixelletter>")
    };
    assert_eq!(
        Pixelletter::from_xml(&order("<action>4</action><control/><returnaddress/>")),
        Err(DecodeError::Invalid("action", ValueError::UnknownCode))
    );
    assert_eq!(
        Pixelletter::from_xml(&order("<action>x</action><control/><returnaddress/>")),
        Err(DecodeError::Invalid("action", ValueError::ExpectedNumber))
    );
    assert_eq!(
        Pixelletter::from_xml(&order("<action>1</action><control/><location>9</location><returnaddress/>")),
        Err(DecodeError::Invalid("location", ValueError::UnknownCode))
    );
    let auth = |agb: &str, test: &str| {
        format!("<pixelletter version=\"1\"><auth><email/><password/><agb>{agb}</agb><widerrufsverzicht>nein</widerrufsverzicht><testmodus>{test}</testmodus></auth></pixelletter>")
    };
    assert_eq!(
        Pixelletter::from_xml(&auth("maybe", "true")),
        Err(DecodeError::Invalid("agb", ValueError::ExpectedJaOrNein))
    );
    assert_eq!(
        Pixelletter::from_xml(&auth("ja", "ja")),
        Err(DecodeError::Invalid("testmodus", ValueError::ExpectedBoolean))
    );
    assert!(Pixelletter::from_xml(&auth("ja", "0")).is_ok());
    assert_eq!(
        Pixelletter::from_xml("<pixelletter version=\"1\"><response><result code=\"1x\"><msg/></result></response></pixelletter>"),
        Err(DecodeError::Invalid("code", ValueError::ExpectedNumber))
    );
    assert_eq!(
        Pixelletter::from_xml("<pixelletter version=\"1\"><response><result code=\" 21 \"><msg/></result></response></pixelletter>")
            .unwrap()
            .response
            .unwrap()
            .result
            .code,
        21
    );
}

#[test]
fn unknown_add_ons_in_a_list_are_dropped_not_refused() {
    let text = "<pixelletter version=\"1\"><command><order type=\"text\"><options><action>1</action><control/><addoption>27,999,44</addoption><returnaddress/></options></order></command></pixelletter>";
    let record = Pixelletter::from_xml(text).unwrap();
    assert_eq!(
        record.command.unwrap().order.unwrap().options.addoption,
        vec![Addoption::Einschreiben, Addoption::Green]
    );
}

#[test]
fn text_that_is_no_document_is_refused_as_such() {
    for text in ["", "no xml", "<pixelletter version=\"1\">", "<a></b>"] {
        assert_eq!(Pixelletter::from_xml(text), Err(DecodeError::NotWellFormed));
    }
}

#[test]
fn records_are_read_from_elements_directly() {
    let root = parse_document("<any><address>A</address><message>M</message></any>").unwrap();
    assert_eq!(Text::from_element(&root), Ok(Text { address: "A".to_owned(), message: "M".to_owned() }));
    let written = Text { address: "A".to_owned(), message: String::new() }.to_element("text");
    assert_eq!(written.to_xml(), "<text><address>A</address><message/></text>");
    assert_eq!(Ref { text: None }.to_element("ref").to_xml(), "<ref/>");
    assert_eq!(Ref { text: Some("r".to_owned()) }.to_element("ref").to_xml(), "<ref>r</ref>");
}

#[test]
fn a_copy_of_a_record_equals_the_record() {
    assert_eq!(full().clone(), full());
    assert_eq!(Pixelletter::default().version, "");
}

#[test]
fn white_space_is_passed_over_around_numbers_and_booleans_only() {
    let text = "<pixelletter version=\"1\">\n <auth>\n  <email> a@b.de </email>\n  <password>p</password>\n  <agb>ja</agb>\n  <widerrufsverzicht>nein</widerrufsverzicht>\n  <testmodus> true\n</testmodus>\n </auth>\n <command>\n  <order type=\"text\">\n   <options>\n    <action>\n 3 </action>\n    <control/>\n    <location> 2</location>\n    <returnaddress> r </returnaddress>\n   </options>\n  </order>\n </command>\n</pixelletter>";
    let record = Pixelletter::from_xml(text).unwrap();
    let auth = record.auth.unwrap();
    assert_eq!(auth.email, " a@b.de ");
    assert!(auth.testmodus);
    let options = record.command.unwrap().order.unwrap().options;
    assert_eq!(options.action, ActionType::LetterAndFax);
    assert_eq!(options.location, Some(Location::Hausleiten));
    assert_eq!(options.returnaddress, " r ");
    let consent = "<pixelletter version=\"1\"><auth><email/><password/><agb> ja </agb><widerrufsverzicht>nein</widerrufsverzicht><testmodus>true</testmodus></auth></pixelletter>";
    assert_eq!(
        Pixelletter::from_xml(consent),
        Err(DecodeError::Invalid("agb", ValueError::ExpectedJaOrNein))
    );
}

#[test]
fn texts_with_white_space_and_special_characters_survive_a_round_trip() {
    let mut record = full();
    let order = record.command.as_mut().unwrap().order.as_mut().unwrap();
    order.text = Some(Text {
        address: "  Erika Mustermann\n  Heidestr. 17\n".to_owned(),
        message: "\tline one\r\nline two <b>&amp;</b> ]]> \u{1F600}\n\n".to_owned(),
    });
    order.options.returnaddress = " ".to_owned();
    order.options.fax = Some(String::new());
    order.content_type = "a \"quoted\" <type>\t&\n'x'".to_owned();
    let back = Pixelletter::from_xml(&record.to_request_document()).unwrap();
    assert_eq!(back, record);
}
