//! The closed vocabularies of the wire format and the encode and decode rule
//! of every field that is not plain text: numeric enumerations, the two
//! consent flags, the test-mode flag and the comma-joined add-on list.

use vstd::prelude::*;
use vstd::string::*;
use crate::decimal::chars_of;
use crate::decimal::decimal_digits;
use crate::decimal::is_digit;
use crate::decimal::lemma_decimal_digits;
use crate::decimal::lemma_parse_unsigned_of_decimal;
use crate::decimal::parse_u8;
use crate::decimal::parse_u8_in;
use crate::decimal::parse_unsigned;
use crate::decimal::u64_to_string;
use crate::scan::find_from;
use crate::scan::first_index;
use crate::scan::lemma_first_index_at;
use crate::scan::same_text;

verus! {

/// Why a field's text was not accepted.
#[derive(Debug, Clone, Copy, PartialEq, Eq, Structural)]
pub enum ValueError {
    /// A consent flag held something other than `ja` or `nein`.
    ExpectedJaOrNein,
    /// A boolean held something other than `true`, `1`, `false` or `0`.
    ExpectedBoolean,
    /// A numeric field held something that does not parse as its integer type.
    ExpectedNumber,
    /// A numeric enumeration held a number outside its vocabulary.
    UnknownCode,
}

/// What an order asks the gateway to do.
#[derive(Debug, Clone, Copy, PartialEq, Eq, Structural)]
pub enum ActionType {
    Letter,
    Fax,
    LetterAndFax,
}

/// The site a letter is dispatched from.
#[derive(Debug, Clone, Copy, PartialEq, Eq, Structural)]
pub enum Location {
    Munich,
    Hausleiten,
    Hamburg,
}

/// An add-on service of a letter.
#[derive(Debug, Clone, Copy, PartialEq, Eq, Structural)]
pub enum Addoption {
    Einschreiben,
    Rueckschein,
    Eigenhaendig,
    EinschreibenEinwurf,
    Color,
    Green,
}

impl ActionType {
    /// The integer that stands for the action on the wire.
    pub open spec fn wire_value(self) -> int {
        match self {
            ActionType::Letter => 1,
            ActionType::Fax => 2,
            ActionType::LetterAndFax => 3,
        }
    }

    /// The action that an integer stands for, if any.
    pub open spec fn from_wire(value: int) -> Option<ActionType> {
        if value == 1 {
            Some(ActionType::Letter)
        } else if value == 2 {
            Some(ActionType::Fax)
        } else if value == 3 {
            Some(ActionType::LetterAndFax)
        } else {
            None
        }
    }

    /// The element text of an action.
    pub open spec fn wire_text(self) -> Seq<char> {
        decimal_digits(self.wire_value() as nat)
    }

    /// The action that an element text stands for.
    pub open spec fn parse(text: Seq<char>) -> Result<ActionType, ValueError> {
        match parse_unsigned(text, 255) {
            Some(n) => match ActionType::from_wire(n as int) {
                Some(a) => Ok(a),
                None => Err(ValueError::UnknownCode),
            },
            None => Err(ValueError::ExpectedNumber),
        }
    }

    /// The integer that stands for the action on the wire.
    pub fn to_u8(&self) -> (r: u8)
        ensures
            r == self.wire_value(),
    {
        match self {
            ActionType::Letter => 1,
            ActionType::Fax => 2,
            ActionType::LetterAndFax => 3,
        }
    }

    /// The action that `value` stands for; an integer outside the vocabulary
    /// is refused.
    pub fn try_from(value: u8) -> (r: Result<ActionType, &'static str>)
        ensures
            match r {
                Ok(a) => ActionType::from_wire(value as int) == Some(a),
                Err(why) => ActionType::from_wire(value as int) is None && why@
                    == "Invalid value!"@,
            },
    {
        match value {
            1 => Ok(ActionType::Letter),
            2 => Ok(ActionType::Fax),
            3 => Ok(ActionType::LetterAndFax),
            _ => Err("Invalid value!"),
        }
    }

    /// Writes the action as element text.
    pub fn encode(&self) -> (r: String)
        ensures
            r@ == self.wire_text(),
    {
        u64_to_string(self.to_u8() as u64)
    }

    /// Reads an action from element text.
    pub fn decode(text: &str) -> (r: Result<ActionType, ValueError>)
        ensures
            r == ActionType::parse(text@),
    {
        match parse_u8(text) {
            Some(n) => match ActionType::try_from(n) {
                Ok(a) => Ok(a),
                Err(_) => Err(ValueError::UnknownCode),
            },
            None => Err(ValueError::ExpectedNumber),
        }
    }
}

impl Default for ActionType {
    fn default() -> (r: ActionType)
        ensures
            r == ActionType::Letter,
    {
        ActionType::Letter
    }
}

impl Location {
    /// The integer that stands for the site on the wire.
    pub open spec fn wire_value(self) -> int {
        match self {
            Location::Munich => 1,
            Location::Hausleiten => 2,
            Location::Hamburg => 3,
        }
    }

    /// The site that an integer stands for, if any.
    pub open spec fn from_wire(value: int) -> Option<Location> {
        if value == 1 {
            Some(Location::Munich)
        } else if value == 2 {
            Some(Location::Hausleiten)
        } else if value == 3 {
            Some(Location::Hamburg)
        } else {
            None
        }
    }

    /// The element text of a site.
    pub open spec fn wire_text(self) -> Seq<char> {
        decimal_digits(self.wire_value() as nat)
    }

    /// The site that an element text stands for.
    pub open spec fn parse(text: Seq<char>) -> Result<Location, ValueError> {
        match parse_unsigned(text, 255) {
            Some(n) => match Location::from_wire(n as int) {
                Some(a) => Ok(a),
                None => Err(ValueError::UnknownCode),
            },
            None => Err(ValueError::ExpectedNumber),
        }
    }

    /// The integer that stands for the site on the wire.
    pub fn to_u8(&self) -> (r: u8)
        ensures
            r == self.wire_value(),
    {
        match self {
            Location::Munich => 1,
            Location::Hausleiten => 2,
            Location::Hamburg => 3,
        }
    }

    /// The site that `value` stands for; an integer outside the vocabulary is
    /// refused.
    pub fn try_from(value: u8) -> (r: Result<Location, &'static str>)
        ensures
            match r {
                Ok(a) => Location::from_wire(value as int) == Some(a),
                Err(why) => Location::from_wire(value as int) is None && why@
                    == "Invalid value!"@,
            },
    {
        match value {
            1 => Ok(Location::Munich),
            2 => Ok(Location::Hausleiten),
            3 => Ok(Location::Hamburg),
            _ => Err("Invalid value!"),
        }
    }

    /// Writes the site as element text.
    pub fn encode(&self) -> (r: String)
        ensures
            r@ == self.wire_text(),
    {
        u64_to_string(self.to_u8() as u64)
    }

    /// Reads a site from element text.
    pub fn decode(text: &str) -> (r: Result<Location, ValueError>)
        ensures
            r == Location::parse(text@),
    {
        match parse_u8(text) {
            Some(n) => match Location::try_from(n) {
                Ok(a) => Ok(a),
                Err(_) => Err(ValueError::UnknownCode),
            },
            None => Err(ValueError::ExpectedNumber),
        }
    }
}

impl Default for Location {
    fn default() -> (r: Location)
        ensures
            r == Location::Munich,
    {
        Location::Munich
    }
}

impl Addoption {
    /// The integer that stands for the add-on on the wire. The vocabulary is
    /// not a range: 31, 32 and 34 to 43 stand for nothing.
    pub open spec fn wire_value(self) -> int {
        match self {
            Addoption::Einschreiben => 27,
            Addoption::Rueckschein => 28,
            Addoption::Eigenhaendig => 29,
            Addoption::EinschreibenEinwurf => 30,
            Addoption::Color => 33,
            Addoption::Green => 44,
        }
    }

    /// The add-on that an integer stands for, if any.
    pub open spec fn from_wire(value: int) -> Option<Addoption> {
        if value == 27 {
            Some(Addoption::Einschreiben)
        } else if value == 28 {
            Some(Addoption::Rueckschein)
        } else if value == 29 {
            Some(Addoption::Eigenhaendig)
        } else if value == 30 {
            Some(Addoption::EinschreibenEinwurf)
        } else if value == 33 {
            Some(Addoption::Color)
        } else if value == 44 {
            Some(Addoption::Green)
        } else {
            None
        }
    }

    /// The text of one add-on code.
    pub open spec fn wire_text(self) -> Seq<char> {
        decimal_digits(self.wire_value() as nat)
    }

    /// The add-on that a text stands for.
    pub open spec fn parse(text: Seq<char>) -> Result<Addoption, ValueError> {
        match parse_unsigned(text, 255) {
            Some(n) => match Addoption::from_wire(n as int) {
                Some(a) => Ok(a),
                None => Err(ValueError::UnknownCode),
            },
            None => Err(ValueError::ExpectedNumber),
        }
    }

    /// The integer that stands for the add-on on the wire.
    pub fn to_u8(&self) -> (r: u8)
        ensures
            r == self.wire_value(),
    {
        match self {
            Addoption::Einschreiben => 27,
            Addoption::Rueckschein => 28,
            Addoption::Eigenhaendig => 29,
            Addoption::EinschreibenEinwurf => 30,
            Addoption::Color => 33,
            Addoption::Green => 44,
        }
    }

    /// The add-on that `value` stands for; an integer outside the vocabulary
    /// is refused.
    pub fn try_from(value: u8) -> (r: Result<Addoption, &'static str>)
        ensures
            match r {
                Ok(a) => Addoption::from_wire(value as int) == Some(a),
                Err(why) => Addoption::from_wire(value as int) is None && why@
                    == "Invalid value!"@,
            },
    {
        match value {
            27 => Ok(Addoption::Einschreiben),
            28 => Ok(Addoption::Rueckschein),
            29 => Ok(Addoption::Eigenhaendig),
            30 => Ok(Addoption::EinschreibenEinwurf),
            33 => Ok(Addoption::Color),
            44 => Ok(Addoption::Green),
            _ => Err("Invalid value!"),
        }
    }

    /// Writes the add-on as text.
    pub fn encode(&self) -> (r: String)
        ensures
            r@ == self.wire_text(),
    {
        u64_to_string(self.to_u8() as u64)
    }

    /// Reads one add-on from text; unlike the list decoder this refuses a
    /// number outside the vocabulary.
    pub fn decode(text: &str) -> (r: Result<Addoption, ValueError>)
        ensures
            r == Addoption::parse(text@),
    {
        match parse_u8(text) {
            Some(n) => match Addoption::try_from(n) {
                Ok(a) => Ok(a),
                Err(_) => Err(ValueError::UnknownCode),
            },
            None => Err(ValueError::ExpectedNumber),
        }
    }
}

/// Encoding an action and decoding the result gives the action back, as a
/// number and as text.
pub proof fn lemma_action_round_trip(v: ActionType)
    ensures
        ActionType::from_wire(v.wire_value()) == Some(v),
        ActionType::parse(v.wire_text()) == Ok::<ActionType, ValueError>(v),
{
    lemma_parse_unsigned_of_decimal(v.wire_value() as nat, 255);
}

/// Encoding a dispatch location and decoding the result gives the location
/// back, as a number and as text.
pub proof fn lemma_location_round_trip(v: Location)
    ensures
        Location::from_wire(v.wire_value()) == Some(v),
        Location::parse(v.wire_text()) == Ok::<Location, ValueError>(v),
{
    lemma_parse_unsigned_of_decimal(v.wire_value() as nat, 255);
}

/// Encoding an add-on and decoding the result gives the add-on back, as a
/// number and as text.
pub proof fn lemma_addoption_round_trip(v: Addoption)
    ensures
        Addoption::from_wire(v.wire_value()) == Some(v),
        Addoption::parse(v.wire_text()) == Ok::<Addoption, ValueError>(v),
{
    lemma_parse_unsigned_of_decimal(v.wire_value() as nat, 255);
}

/// The token of a consent flag.
pub open spec fn consent_text(value: bool) -> Seq<char> {
    if value {
        "ja"@
    } else {
        "nein"@
    }
}

/// The consent flag that a token stands for: exactly `ja` and `nein` are
/// accepted.
pub open spec fn parse_consent(text: Seq<char>) -> Result<bool, ValueError> {
    if text == "ja"@ {
        Ok(true)
    } else if text == "nein"@ {
        Ok(false)
    } else {
        Err(ValueError::ExpectedJaOrNein)
    }
}

/// Writes a consent flag as its token.
pub fn serialize_bool_to_str_yes_no_german(value: bool) -> (r: &'static str)
    ensures
        r@ == consent_text(value),
{
    if value {
        "ja"
    } else {
        "nein"
    }
}

/// Reads a consent flag from its token.
pub fn deserialize_bool_from_str_yes_no_german(value: &str) -> (r: Result<bool, ValueError>)
    ensures
        r == parse_consent(value@),
{
    if same_text(value, "ja") {
        Ok(true)
    } else if same_text(value, "nein") {
        Ok(false)
    } else {
        Err(ValueError::ExpectedJaOrNein)
    }
}

/// Encoding a consent flag and decoding the token gives the flag back.
pub proof fn lemma_consent_round_trip(value: bool)
    ensures
        parse_consent(consent_text(value)) == Ok::<bool, ValueError>(value),
{
    reveal_strlit("ja");
    reveal_strlit("nein");
    assert("ja"@.len() != "nein"@.len());
}

/// The literal of a plain boolean.
pub open spec fn bool_text(value: bool) -> Seq<char> {
    if value {
        "true"@
    } else {
        "false"@
    }
}

/// The boolean that a literal stands for: `true` and `1`, `false` and `0`.
pub open spec fn parse_bool(text: Seq<char>) -> Result<bool, ValueError> {
    if text == "true"@ || text == "1"@ {
        Ok(true)
    } else if text == "false"@ || text == "0"@ {
        Ok(false)
    } else {
        Err(ValueError::ExpectedBoolean)
    }
}

/// Writes a plain boolean as its literal.
pub fn encode_bool(value: bool) -> (r: &'static str)
    ensures
        r@ == bool_text(value),
{
    if value {
        "true"
    } else {
        "false"
    }
}

/// Reads a plain boolean from its literal.
pub fn decode_bool(text: &str) -> (r: Result<bool, ValueError>)
    ensures
        r == parse_bool(text@),
{
    if same_text(text, "true") || same_text(text, "1") {
        Ok(true)
    } else if same_text(text, "false") || same_text(text, "0") {
        Ok(false)
    } else {
        Err(ValueError::ExpectedBoolean)
    }
}

/// Encoding a plain boolean and decoding the literal gives the boolean back.
pub proof fn lemma_bool_round_trip(value: bool)
    ensures
        parse_bool(bool_text(value)) == Ok::<bool, ValueError>(value),
{
    reveal_strlit("true");
    reveal_strlit("false");
    reveal_strlit("1");
    reveal_strlit("0");
    assert("true"@.len() == 4);
    assert("false"@.len() == 5);
    assert("1"@.len() == 1);
    assert("0"@.len() == 1);
}

/// The comma-joined text of a list of add-ons.
pub open spec fn addoption_list_text(values: Seq<Addoption>) -> Seq<char>
    decreases values.len(),
{
    if values.len() == 0 {
        Seq::empty()
    } else if values.len() == 1 {
        values[0].wire_text()
    } else {
        values[0].wire_text() + seq![','] + addoption_list_text(values.drop_first())
    }
}

/// The add-ons that one token contributes: itself when it is a number of the
/// vocabulary, nothing otherwise.
pub open spec fn token_addoptions(token: Seq<char>) -> Seq<Addoption> {
    match Addoption::parse(token) {
        Ok(a) => seq![a],
        Err(_) => Seq::empty(),
    }
}

/// The add-ons that a comma-separated text stands for: each token that is a
/// number of the vocabulary, in the order of the text; every other token is
/// dropped.
pub open spec fn parse_addoption_list(text: Seq<char>) -> Seq<Addoption>
    decreases text.len(),
{
    let k = first_index(text, ',');
    if 0 <= k < text.len() {
        token_addoptions(text.take(k)) + parse_addoption_list(text.skip(k + 1))
    } else {
        token_addoptions(text)
    }
}

/// Joining a list of add-ons with commas and splitting the text again gives
/// the list back, in order.
pub proof fn lemma_addoption_list_round_trip(values: Seq<Addoption>)
    ensures
        parse_addoption_list(addoption_list_text(values)) == values,
    decreases values.len(),
{
    let text = addoption_list_text(values);
    if values.len() == 0 {
        assert(text.len() == 0);
        assert(first_index(text, ',') == 0);
        assert(parse_unsigned(text, 255) is None);
        assert(parse_addoption_list(text) =~= values);
    } else {
        let head = values[0].wire_text();
        lemma_decimal_digits(values[0].wire_value() as nat);
        lemma_addoption_round_trip(values[0]);
        assert forall|i: int| 0 <= i < head.len() implies #[trigger] head[i] != ',' by {
            assert(is_digit(head[i]));
        }
        if values.len() == 1 {
            assert(text == head);
            lemma_first_index_at(text, ',', text.len() as int);
            assert(parse_addoption_list(text) =~= values);
        } else {
            let rest = values.drop_first();
            lemma_addoption_list_round_trip(rest);
            assert(text == head + seq![','] + addoption_list_text(rest));
            let k = head.len() as int;
            assert forall|i: int| 0 <= i < k implies #[trigger] text[i] != ',' by {
                assert(text[i] == head[i]);
            }
            assert(text[k] == ',');
            lemma_first_index_at(text, ',', k);
            assert(text.take(k) =~= head);
            assert(text.skip(k + 1) =~= addoption_list_text(rest));
            assert(parse_addoption_list(text) =~= seq![values[0]] + rest);
            assert(seq![values[0]] + rest =~= values);
        }
    }
}

/// Writes a list of add-ons as one comma-joined text.
pub fn serialize_addoption_list_to_str(values: &[Addoption]) -> (r: String)
    ensures
        r@ == addoption_list_text(values@),
{
    let mut out = String::new();
    let n = values.len();
    let mut i: usize = n;
    proof {
        assert(values@.skip(n as int) =~= Seq::<Addoption>::empty());
        assert(out@ =~= addoption_list_text(values@.skip(n as int)));
    }
    while i > 0
        invariant
            0 <= i <= n,
            n == values@.len(),
            out@ == addoption_list_text(values@.skip(i as int)),
        decreases i,
    {
        i = i - 1;
        let mut next = values[i].encode();
        let ghost tail = values@.skip(i as int + 1);
        let ghost here = values@.skip(i as int);
        proof {
            assert(here.drop_first() =~= tail);
            assert(here[0] == values@[i as int]);
        }
        if i + 1 < n {
            proof {
                reveal_strlit(",");
            }
            next.append(",");
            next.append(out.as_str());
            proof {
                assert(",".view() =~= seq![',']);
                assert(next@ =~= addoption_list_text(here));
            }
        } else {
            proof {
                assert(here.len() == 1);
                assert(next@ =~= addoption_list_text(here));
            }
        }
        out = next;
    }
    proof {
        assert(values@.skip(0) =~= values@);
    }
    out
}

/// Reads a list of add-ons from a comma-joined text. A token that is not a
/// number, or a number outside the vocabulary, is dropped and the rest of the
/// list is kept.
pub fn deserialize_addoption_list_from_str(value: &str) -> (r: Vec<Addoption>)
    ensures
        r@ == parse_addoption_list(value@),
{
    let chars = chars_of(value);
    let n = chars.len();
    let mut out: Vec<Addoption> = Vec::new();
    let mut start: usize = 0;
    let mut done = false;
    proof {
        assert(chars@.skip(0) =~= chars@);
    }
    while !done
        invariant
            n == chars.len(),
            chars@ == value@,
            0 <= start <= n,
            !done ==> parse_addoption_list(value@) == out@ + parse_addoption_list(
                chars@.skip(start as int),
            ),
            done ==> parse_addoption_list(value@) == out@,
        decreases n - start + (if done { 0int } else { 1int }),
    {
        let ghost rest = chars@.skip(start as int);
        let end = find_from(&chars, start, ',');
        proof {
            assert(rest.take(end - start) =~= chars@.subrange(start as int, end as int));
            if end < n {
                assert(rest.skip(end - start + 1) =~= chars@.skip(end as int + 1));
            } else {
                assert(rest =~= chars@.subrange(start as int, end as int));
            }
        }
        let ghost before = out@;
        match parse_u8_in(&chars, start, end) {
            Some(code) => match Addoption::try_from(code) {
                Ok(a) => {
                    out.push(a);
                },
                Err(_) => {},
            },
            None => {},
        }
        proof {
            let token = chars@.subrange(start as int, end as int);
            assert(out@ =~= before + token_addoptions(token));
        }
        if end < n {
            start = end + 1;
        } else {
            done = true;
        }
    }
    out
}

} // verus!
