use pixelletter::api::{
    AccountInfo, ActionType, Addoption, Auth, Command, Company, CostumerCredit, CostumerData, Info,
    Location, Options, Order, Pixelletter, Ref, Response, ResponseResult, Text, Title,
};
use pixelletter::fields::{serialize_addoption_list_to_str, serialize_bool_to_str_yes_no_german};
use pixelletter::reader::predefined_entity;
use pixelletter::xml::escape_text;
use serde::ser::{Serialize, SerializeStruct, Serializer};

/// A record seen through serde: attributes under names that begin with `@`,
/// absent parts left out, the element's own text under `$text`.
struct Seen<'a, T>(&'a T);

impl Serialize for Seen<'_, Pixelletter> {
    fn serialize<S: Serializer>(&self, serializer: S) -> Result<S::Ok, S::Error> {
        let mut s = serializer.serialize_struct("pixelletter", 7)?;
        s.serialize_field("@version", &self.0.version)?;
        if let Some(auth) = &self.0.auth {
            s.serialize_field("auth", &Seen(auth))?;
        }
        if let Some(command) = &self.0.command {
            s.serialize_field("command", &Seen(command))?;
        }
        if let Some(response) = &self.0.response {
            s.serialize_field("response", &Seen(response))?;
        }
        if let Some(id) = &self.0.costumer_id {
            s.serialize_field("id", id)?;
        }
        if let Some(data) = &self.0.costumer_data {
            s.serialize_field("data", &Seen(data))?;
        }
        if let Some(credit) = &self.0.costumer_credit {
            s.serialize_field("credit", &Seen(credit))?;
        }
        s.end()
    }
}

impl Serialize for Seen<'_, Auth> {
    fn serialize<S: Serializer>(&self, serializer: S) -> Result<S::Ok, S::Error> {
        let mut s = serializer.serialize_struct("Auth", 6)?;
        s.serialize_field("email", &self.0.email)?;
        s.serialize_field("password", &self.0.password)?;
        s.serialize_field("agb", serialize_bool_to_str_yes_no_german(self.0.agb))?;
        s.serialize_field(
            "widerrufsverzicht",
            serialize_bool_to_str_yes_no_german(self.0.widerrufsverzicht),
        )?;
        s.serialize_field("testmodus", &self.0.testmodus)?;
        if let Some(reference) = &self.0.auth_ref {
            s.serialize_field("ref", &Seen(reference))?;
        }
        s.end()
    }
}

impl Serialize for Seen<'_, Ref> {
    fn serialize<S: Serializer>(&self, serializer: S) -> Result<S::Ok, S::Error> {
        let mut s = serializer.serialize_struct("Ref", 1)?;
        s.serialize_field("$text", &self.0.text)?;
        s.end()
    }
}

impl Serialize for Seen<'_, Command> {
    fn serialize<S: Serializer>(&self, serializer: S) -> Result<S::Ok, S::Error> {
        let mut s = serializer.serialize_struct("Command", 3)?;
        if let Some(order) = &self.0.order {
            s.serialize_field("order", &Seen(order))?;
        }
        if let Some(info) = &self.0.info {
            s.serialize_field("info", &Seen(info))?;
        }
        if let Some(id) = &self.0.id {
            s.serialize_field("id", id)?;
        }
        s.end()
    }
}

impl Serialize for Seen<'_, Order> {
    fn serialize<S: Serializer>(&self, serializer: S) -> Result<S::Ok, S::Error> {
        let mut s = serializer.serialize_struct("Order", 3)?;
        s.serialize_field("@type", &self.0.content_type)?;
        s.serialize_field("options", &Seen(&self.0.options))?;
        if let Some(text) = &self.0.text {
            s.serialize_field("text", &Seen(text))?;
        }
        s.end()
    }
}

impl Serialize for Seen<'_, Options> {
    fn serialize<S: Serializer>(&self, serializer: S) -> Result<S::Ok, S::Error> {
        let mut s = serializer.serialize_struct("Options", 9)?;
        s.serialize_field("action", &self.0.action.to_u8())?;
        if let Some(transaction) = &self.0.transaction {
            s.serialize_field("transaction", transaction)?;
        }
        s.serialize_field("control", &self.0.control)?;
        if let Some(fax) = &self.0.fax {
            s.serialize_field("fax", fax)?;
        }
        if let Some(location) = &self.0.location {
            s.serialize_field("location", &location.to_u8())?;
        }
        if let Some(destination) = &self.0.destination {
            s.serialize_field("destination", destination)?;
        }
        if !self.0.addoption.is_empty() {
            s.serialize_field("addoption", &serialize_addoption_list_to_str(&self.0.addoption))?;
        }
        if let Some(font) = &self.0.font {
            s.serialize_field("font", font)?;
        }
        s.serialize_field("returnaddress", &self.0.returnaddress)?;
        s.end()
    }
}

impl Serialize for Seen<'_, Text> {
    fn serialize<S: Serializer>(&self, serializer: S) -> Result<S::Ok, S::Error> {
        let mut s = serializer.serialize_struct("Text", 2)?;
        s.serialize_field("address", &self.0.address)?;
        s.serialize_field("message", &self.0.message)?;
        s.end()
    }
}

impl Serialize for Seen<'_, Info> {
    fn serialize<S: Serializer>(&self, serializer: S) -> Result<S::Ok, S::Error> {
        let mut s = serializer.serialize_struct("Info", 1)?;
        s.serialize_field("account:info", &Seen(&self.0.account_info))?;
        s.end()
    }
}

impl Serialize for Seen<'_, AccountInfo> {
    fn serialize<S: Serializer>(&self, serializer: S) -> Result<S::Ok, S::Error> {
        let mut s = serializer.serialize_struct("AccountInfo", 1)?;
        s.serialize_field("@type", &self.0.account_info_type)?;
        s.end()
    }
}

impl Serialize for Seen<'_, Response> {
    fn serialize<S: Serializer>(&self, serializer: S) -> Result<S::Ok, S::Error> {
        let mut s = serializer.serialize_struct("Response", 2)?;
        s.serialize_field("result", &Seen(&self.0.result))?;
        if let Some(transaction) = &self.0.transaction {
            s.serialize_field("transaction", transaction)?;
        }
        s.end()
    }
}

impl Serialize for Seen<'_, ResponseResult> {
    fn serialize<S: Serializer>(&self, serializer: S) -> Result<S::Ok, S::Error> {
        let mut s = serializer.serialize_struct("ResponseResult", 2)?;
        s.serialize_field("@code", &self.0.code)?;
        s.serialize_field("msg", &self.0.msg)?;
        s.end()
    }
}

impl Serialize for Seen<'_, Company> {
    fn serialize<S: Serializer>(&self, serializer: S) -> Result<S::Ok, S::Error> {
        serializer.serialize_struct("Company", 0)?.end()
    }
}

impl Serialize for Seen<'_, Title> {
    fn serialize<S: Serializer>(&self, serializer: S) -> Result<S::Ok, S::Error> {
        serializer.serialize_struct("Title", 0)?.end()
    }
}

impl Serialize for Seen<'_, CostumerData> {
    fn serialize<S: Serializer>(&self, serializer: S) -> Result<S::Ok, S::Error> {
        let d = self.0;
        let mut s = serializer.serialize_struct("CostumerData", 17)?;
        s.serialize_field("company", &Seen(&d.company))?;
        s.serialize_field("sex", &d.sex)?;
        s.serialize_field("title", &Seen(&d.title))?;
        s.serialize_field("firstname", &d.firstname)?;
        s.serialize_field("lastname", &d.lastname)?;
        s.serialize_field("street", &d.street)?;
        s.serialize_field("pcode", &d.pcode)?;
        s.serialize_field("city", &d.city)?;
        s.serialize_field("country", &d.country)?;
        s.serialize_field("prefix", &d.tel_prefix)?;
        s.serialize_field("tel", &d.tel)?;
        s.serialize_field("prefix", &d.fax_prefix)?;
        s.serialize_field("fax", &d.fax)?;
        s.serialize_field("prefix", &d.mobil_prefix)?;
        s.serialize_field("mobil", &d.mobil)?;
        s.serialize_field("email", &d.email)?;
        s.serialize_field("type", &d.payment_type)?;
        s.end()
    }
}

impl Serialize for Seen<'_, CostumerCredit> {
    fn serialize<S: Serializer>(&self, serializer: S) -> Result<S::Ok, S::Error> {
        let mut s = serializer.serialize_struct("CostumerCredit", 1)?;
        s.serialize_field("@currency", &self.0.currency)?;
        s.end()
    }
}

fn through_serde(record: &Pixelletter) -> String {
    quick_xml::se::to_string(&Seen(record)).unwrap()
}

fn order_record(text: &str, fax: Option<&str>, addoption: Vec<Addoption>) -> Pixelletter {
    Pixelletter {
        version: "1.3".to_owned(),
        auth: Some(Auth {
            email: "a@b.de".to_owned(),
            password: text.to_owned(),
            agb: true,
            widerrufsverzicht: false,
            testmodus: false,
            auth_ref: Some(Ref { text: Some("r".to_owned()) }),
        }),
        command: Some(Command {
            order: Some(Order {
                content_type: "text".to_owned(),
                options: Options {
                    action: ActionType::LetterAndFax,
                    transaction: Some("t".to_owned()),
                    control: String::new(),
                    fax: fax.map(str::to_owned),
                    location: Some(Location::Hausleiten),
                    destination: Some("DE".to_owned()),
                    addoption,
                    font: None,
                    returnaddress: text.to_owned(),
                },
                text: Some(Text { address: text.to_owned(), message: String::new() }),
            }),
            info: Some(Info { account_info: AccountInfo { account_info_type: "all".to_owned() } }),
            id: None,
        }),
        response: Some(Response {
            result: ResponseResult { code: 100, msg: text.to_owned() },
            transaction: Some(text.to_owned()),
        }),
        costumer_id: Some("1".to_owned()),
        costumer_data: Some(CostumerData {
            tel_prefix: "1".to_owned(),
            fax_prefix: "2".to_owned(),
            mobil_prefix: "3".to_owned(),
            city: text.to_owned(),
            ..CostumerData::default()
        }),
        costumer_credit: Some(CostumerCredit { currency: "EUR".to_owned() }),
    }
}

#[test]
fn records_are_written_as_the_serde_serializer_writes_them() {
    let records = [
        Pixelletter { version: "1.3".to_owned(), ..Pixelletter::default() },
        order_record("plain", None, vec![]),
        order_record("", Some(""), vec![Addoption::Green]),
        order_record(
            " a < b & c > d \"quoted\" 'single' ü \u{1F600} \r\n\t ]]> ",
            Some("+49 (0) 89 / 1234"),
            vec![Addoption::Einschreiben, Addoption::Color, Addoption::Rueckschein],
        ),
    ];
    for record in &records {
        assert_eq!(record.to_xml(), through_serde(record));
    }
}

#[test]
fn attribute_values_are_written_as_the_serde_serializer_writes_them() {
    for value in ["upload", "", "a < b & c > d \"quoted\" \r\n\t ü", "x y", "it's", "'", "'\"'&apos;"] {
        let mut record = order_record("t", None, vec![]);
        record.version = value.to_owned();
        record.costumer_credit = Some(CostumerCredit { currency: value.to_owned() });
        record.response.as_mut().unwrap().result.code = -42;
        assert_eq!(record.to_xml(), through_serde(&record));
    }
}

#[test]
fn element_text_is_escaped_as_quick_xml_escapes_it() {
    for text in [
        "",
        "plain",
        "a < b & c > d",
        "<<>>&&",
        "\"quoted\" 'single'",
        "\r\n\t\r",
        "&amp; &#13; ]]>",
        "\u{fc}\u{1F600}<\u{e4}",
    ] {
        assert_eq!(escape_text(text), quick_xml::escape::partial_escape(text), "{text:?}");
    }
}

#[test]
fn predefined_entities_are_those_of_quick_xml() {
    for name in ["lt", "gt", "amp", "apos", "quot", "", "LT", "nbsp", "copy", "#60", "lt;", "quot "] {
        assert_eq!(predefined_entity(name), quick_xml::escape::resolve_xml_entity(name), "{name:?}");
    }
}
