//! The gateway's table of result codes: every documented code with its fixed
//! explanation, and the typed failure that a response is turned into.

use vstd::prelude::*;
use vstd::string::*;
use crate::decimal::decimal_text;
use crate::decimal::i32_to_string;

verus! {

/// A failure reported by the gateway: one variant for each documented result
/// code, and `Other` for a code that the table does not hold.
#[derive(Debug, PartialEq, Eq)]
pub enum PixelletterErrorCode {
    Code1,
    Code2,
    Code3,
    Code4,
    Code5,
    Code6,
    Code7,
    Code8,
    Code9,
    Code10,
    Code11,
    Code12,
    Code13,
    Code14,
    Code15,
    Code16,
    Code17,
    Code18,
    Code19,
    Code20,
    Code21,
    Code22,
    Code23,
    Code24,
    Code25,
    Code26,
    Code27,
    Code28,
    Code29,
    Code30,
    Code31,
    Code32,
    Code33,
    Code34,
    Code35,
    Code36,
    Code37,
    Code38,
    Code39,
    Code40,
    Code41,
    Code42,
    Code43,
    Code44,
    Code45,
    Code46,
    Code47,
    Code48,
    Code49,
    Code50,
    Code51,
    Code52,
    Code53,
    Code54,
    Code55,
    Code56,
    Code57,
    Code58,
    Code59,
    Code60,
    Code61,
    Code62,
    Code63,
    Code64,
    Code65,
    Code66,
    Code67,
    Code68,
    Code69,
    Code70,
    Code71,
    Code72,
    Code73,
    Code74,
    Code75,
    Code76,
    Code77,
    Code78,
    Code79,
    Code80,
    Code81,
    Code82,
    Code83,
    Code84,
    Code85,
    Code86,
    Code87,
    Code88,
    Code89,
    Code90,
    Code91,
    Code92,
    Code93,
    Code94,
    Code95,
    Code201,
    Code202,
    Code203,
    Code204,
    Code205,
    Code206,
    Code207,
    Code208,
    Code209,
    Code210,
    Code211,
    Code212,
    Code213,
    Code214,
    Code215,
    Code216,
    Code217,
    Code218,
    Code219,
    Code220,
    Code221,
    Code222,
    Code223,
    Code224,
    Code225,
    Code226,
    Code227,
    Code228,
    Code229,
    Code230,
    Code231,
    Code232,
    Code233,
    Code234,
    Code235,
    Code236,
    Code237,
    Code238,
    Code239,
    /// A code that the table does not hold, as the gateway sent it (it may
    /// be zero or negative), with the gateway's own message.
    Other { code: i32, message: String },
}

/// What a failure holds, as a mathematical value: its code and, for a code
/// that the table does not hold, the gateway's own message.
pub struct FailureView {
    pub code: int,
    pub message: Option<Seq<char>>,
}

/// The fixed explanation of a documented result code. The documented codes
/// are 1 to 95 and 201 to 239; every other number has none.
pub open spec fn taxonomy_text(code: int) -> Option<Seq<char>> {
    if code == 1 {
        Some("Die Datei konnte nicht erzeugt werden. Bitte versuchen Sie es noch einmal."@)
    } else if code == 2 {
        Some("Unbekannter Fehler. Bitte versuchen Sie es noch einmal."@)
    } else if code == 3 {
        Some("Unbekannter Fehler. Bitte versuchen Sie es noch einmal."@)
    } else if code == 4 {
        Some("Die angegebene e-mail-Adresse oder das Passwort sind nicht korrekt."@)
    } else if code == 5 {
        Some("Unberechtigter Seiten-Aufruf. Bitte beginnen Sie von vorne."@)
    } else if code == 6 {
        Some("Dieser Auftrag wurde bereits erteilt."@)
    } else if code == 7 {
        Some("Ihr Account ist gesperrt. Bitte wenden Sie sich an uns."@)
    } else if code == 8 {
        Some("Es wurden keine korrekten XML-Daten übermittelt."@)
    } else if code == 9 {
        Some("Es wurde kein Wert im Feld type angeben. Bitte wählen Sie zwischen den Values text oder upload."@)
    } else if code == 10 {
        Some("Der Datei-Typ ist nicht korrekt. Uploads sind nur mit korrekter Datei-Endung möglich."@)
    } else if code == 11 {
        Some("Die Konvertierung des Dokuments ist fehlgeschlagen, bitte versuchen Sie es mit einer anderen Datei-Endung."@)
    } else if code == 12 {
        Some("Die Datei konnte nicht übertragen werden."@)
    } else if code == 13 {
        Some("Bitte bestätigen Sie die Allgemeinen Geschäftsbedingungen mit \"ja\"."@)
    } else if code == 14 {
        Some("Bitte geben Sie an, ob Sie auf das Widerrufsrecht verzichten möchten."@)
    } else if code == 15 {
        Some("Es wurde keine Adresse für den Empfänger angegeben oder es wurde kein Dateianhang mitgesendet."@)
    } else if code == 16 {
        Some("Es wurde kein Text für den Briefinhalt angegeben."@)
    } else if code == 17 {
        Some("Sind Sie sicher, dass Sie vom Widerrufsrecht gebrauch machen möchten? Dies führt zu einer Verzögerung von 2 Wochen beim Versand Ihres Auftrags. Bitte treffen Sie eine Auswahl und klicken Sie erneut auf den Bestellknopf."@)
    } else if code == 18 {
        Some("Es wurde eine Faxzustellung gewünscht, aber keine gültige Faxnummer angegeben."@)
    } else if code == 19 {
        Some("Es wurde keine action definiert. Bitte geben Sie 1 (für Briefversand), 2 (für Fax-Versand) oder 3 (für Brief- und Faxversand) an."@)
    } else if code == 20 {
        Some("Die Datei darf max. 50 MB groß sein."@)
    } else if code == 21 {
        Some("Ihr Guthaben reicht nicht aus. Bitte loggen Sie sich im Kundenbereich ein und laden Sie Ihr Guthaben auf."@)
    } else if code == 22 {
        Some("Falsche Angabe von Zusatzleistungen."@)
    } else if code == 23 {
        Some("Die gewählte Zusatzleistung ist bis zum 14.03.2009 nicht verfügbar."@)
    } else if code == 24 {
        Some("Der Versandort München ist bis zum 04.09.2006 nicht verfügbar."@)
    } else if code == 25 {
        Some("Kein oder ein falsches Empfängerland angegeben. Diese Angabe ist obligatorisch. Im e-mail-Template geben Sie bitte die Zeile # destination: DE bzw. das entsprechende Länderkürzel ein. Wenn Sie die HTTPS-Schnittstelle nutzen finden Sie Infos in der aktuellen Doku."@)
    } else if code == 26 {
        Some("Die ausgewählte Zusatzleistung kann in das gewählte Empfängerland nicht versendet werden. Bitte wählen Sie, sofern zutreffend, Deutschland als Zielland aus."@)
    } else if code == 27 {
        Some("Die ausgewählte Zusatzleistung kann über das gewählte Briefzentrum nicht versendet werden. Bitte wählen Sie München als Versandort aus."@)
    } else if code == 28 {
        Some("Die ausgewählte Zusatzleistung kann über das gewählte Briefzentrum nicht versendet werden. Bitte wählen Sie Hausleiten/Wien als Versandort aus."@)
    } else if code == 29 {
        Some("Die ausgewählte Zusatzleistung kann in das gewählte Empfängerland nicht versendet werden. Bitte wählen Sie ein Zielland innerhalb Europas aus."@)
    } else if code == 30 {
        Some("Der angegebene Name des Begünstigten ist fehlerhaft. Geben Sie mind. 1 und max. 27 Zeichen an und verwenden Sie nur diese Zeichen 0-9 A-Z äöüß.,&-/+*$% und Leerzeichen."@)
    } else if code == 31 {
        Some("Der angegebene Name der Bank des Begünstigten ist fehlerhaft. Geben Sie mind. 1 und max. 27 Zeichen an und verwenden Sie nur diese Zeichen 0-9 A-Z äöüß.,&-/+*$% und Leerzeichen."@)
    } else if code == 32 {
        Some("Die erste Zeile des angegebenen Verwendungszwecks ist fehlerhaft. Geben Sie mind. 0 und max. 27 Zeichen an und verwenden Sie nur diese Zeichen 0-9 A-Z äöüß.,&-/+*$% und Leerzeichen."@)
    } else if code == 33 {
        Some("Die zweite Zeile des angegebenen Verwendungszwecks ist fehlerhaft. Geben Sie mind. 1 und max. 27 Zeichen an und verwenden Sie nur diese Zeichen 0-9 A-Z äöüß.,&-/+*$% und Leerzeichen."@)
    } else if code == 34 {
        Some("Der angegebene Betrag der Nachnahme ist fehlerhaft. Geben Sie den Betrag ohne tausender Trennzeichen im Format XXXX,XX an."@)
    } else if code == 35 {
        Some("Der angegebene Betrag der Nachnahme ist zu hoch oder zu niedrig. Geben Sie einen Euro-Betrag von min. 3,00 EUR und max. 1600,00 EUR an."@)
    } else if code == 36 {
        Some("Die angegebene Kontonummer des Begünstigten ist fehlerhaft. Geben Sie zwischen 6 und 10 Ziffern an."@)
    } else if code == 37 {
        Some("Die angegebene Bankleitzahl des Begünstigten ist fehlerhaft. Geben Sie genau 8 Ziffern an."@)
    } else if code == 38 {
        Some("Farbdrucke können derzeit nicht über das ausgewählt Briefzentrum verschickt werden. Bitte wählen Sie ein anderes Briefzentrum."@)
    } else if code == 39 {
        Some("Es wurde keine e-mailadresse für den Absender der Signaturbenachrichtung an den Kunden definiert."@)
    } else if code == 40 {
        Some("Die Länge der e-mailadresse für den Absender der Signaturbenachrichtung an den Kunden ist zu groß. Maximal können 255 Zeichen angeben werden."@)
    } else if code == 41 {
        Some("Es wurde keine e-mailadresse für den Empfänger der Signaturbenachrichtung an den Kunden definiert."@)
    } else if code == 42 {
        Some("Die Länge der e-mailadresse für den Empfänger der Signaturbenachrichtung an den Kunden ist zu groß. Maximal können 255 Zeichen angeben werden."@)
    } else if code == 43 {
        Some("Es wurde kein e-mail-Betreff für die Signaturbenachrichtung definiert."@)
    } else if code == 44 {
        Some("Der Betreff der e-mail für die Signaturbenachrichtung ist zu lang.  Maximal können 255 Zeichen angeben werden."@)
    } else if code == 45 {
        Some("Es wurde kein e-mail-Text für die Signaturbenachrichtung definiert."@)
    } else if code == 46 {
        Some("Um elektronische Signaturen zu beauftragen, müssen Sie sich einmalig kostenfrei im Kundenbereich unter dem Menüpunkt \"Elektr. Signaturen\" freischalten."@)
    } else if code == 47 {
        Some("Die PDF-Datei ist verschlüsselt. Bitte laden Sie eine unverschlüsselte PDF-Datei hoch die keine Bearbeitungseinschränkungen beinhaltet."@)
    } else if code == 48 {
        Some("Die verwendete Transaction-ID wurde bereits verwendet. (Spezielle Kundeneinstellung)"@)
    } else if code == 49 {
        Some("Für den Auftrag zur digitalen Signatur wurde keine Datei übermittelt."@)
    } else if code == 50 {
        Some("In der PDF-Datei wurde kein Zeiger auf die xref-Tabelle gefunden."@)
    } else if code == 51 {
        Some("Es wurde kein Upload-Template mit dieser Nummer gefunden."@)
    } else if code == 52 {
        Some("Beim Wert Template wurde keine Template-Nummer definiert."@)
    } else if code == 53 {
        Some("Derzeit sind aus technischen Gründen nur Uploads von PDF-Dateien möglich."@)
    } else if code == 54 {
        Some("Es ist ein Fehler bei der PGP-Entschlüsselung aufgetreten."@)
    } else if code == 55 {
        Some("Der Auftrag kann nicht gefunden werden."@)
    } else if code == 56 {
        Some("Die Nummerierung der Bulkaufträge ist nicht fortlaufend."@)
    } else if code == 57 {
        Some("Bulkaufträge können nur mit dem type-Wert template übermittelt werden."@)
    } else if code == 58 {
        Some("Es wurde eine für Bulkaufträge ungültige action angegben. Die action muss 5 sein."@)
    } else if code == 59 {
        Some("Die Angabe von Werten für den Tag control ist bei Bulkaufträge nicht möglich."@)
    } else if code == 60 {
        Some("Die Angabe von Werten für den Tag addoption ist bei Bulkaufträge nicht möglich."@)
    } else if code == 61 {
        Some("Die Angabe location muss bei Bulkaufträge immer 1 sein."@)
    } else if code == 62 {
        Some("Es wurde ein ungültiger Ländercode als Zielland (destination) angeben."@)
    } else if code == 63 {
        Some("Es wurde eine ungültige Nr für die Absenderzeile (sendernr) angeben."@)
    } else if code == 64 {
        Some("Es wurde eine ungültige Angabe für das Geschlecht (gender) angeben."@)
    } else if code == 65 {
        Some("Es wurde kein Vornamen angeben."@)
    } else if code == 66 {
        Some("Es wurde kein Nachname angeben."@)
    } else if code == 67 {
        Some("Es wurde keine Strasse angeben."@)
    } else if code == 68 {
        Some("Es wurde keine Postleitzahl angeben."@)
    } else if code == 69 {
        Some("Es wurde keine gültige Postleitzahl angeben."@)
    } else if code == 70 {
        Some("Es wurde kein Ort angeben."@)
    } else if code == 71 {
        Some("Der Auftrag konnte nicht in die Datenbank geschrieben werden."@)
    } else if code == 72 {
        Some("Das Foto muss im JPG-Format übermittelt werden."@)
    } else if code == 73 {
        Some("Die Anschrift bei Postkarten darf max. 6 Zeilen haben."@)
    } else if code == 74 {
        Some("Der Text für diese Postkarte ist zu lang."@)
    } else if code == 75 {
        Some("Das Foto darf nicht größer als 6 MB sein."@)
    } else if code == 76 {
        Some("Es wurde kein Foto übermittelt."@)
    } else if code == 77 {
        Some("Der Gutscheincode ist ungültig."@)
    } else if code == 78 {
        Some("Die angegebene URL ist ungültig."@)
    } else if code == 79 {
        Some("Die Unterstützung von Cookies ist deaktiviert. Bitte aktivieren Sie diese über die Einstellungen in Ihrem Browser."@)
    } else if code == 80 {
        Some("Der Gutscheincode ist nicht für diese Dienstleistung einlösbar."@)
    } else if code == 81 {
        Some("Die Session ist abgelaufen, bitte loggen Sie sich erneut ein."@)
    } else if code == 82 {
        Some("Die gewählte Dienstleistung kann nicht mehr angeboten werden."@)
    } else if code == 83 {
        Some("Bitte geben Sie mindestens einen Betrag von 5,00 EUR ein."@)
    } else if code == 84 {
        Some("Bitte geben Sie mindestens einen Betrag von 10,00 EUR ein."@)
    } else if code == 85 {
        Some("Bitte geben Sie mindestens einen Betrag von 25,00 EUR ein."@)
    } else if code == 86 {
        Some("Bitte geben Sie mindestens einen Betrag von 1,00 EUR ein."@)
    } else if code == 87 {
        Some("Bitte geben Sie einen gültigen Betrag (z.B. 10,00) ein."@)
    } else if code == 88 {
        Some("Um Premiumadress nutzen zu können, müssen Sie einen Premiumadress-Zugang bei der Post haben und unser Support muss diesen für Sie in den Kundeneinstellungen hinterlegt haben."@)
    } else if code == 89 {
        Some("Allgemeiner Fehler bei der PDF-Verarbeitung."@)
    } else if code == 90 {
        Some("Es können nur maximal 1000,00 EUR aufgeladen werden. Bitte nutzen Sie alternativ z.B. eine Banküberweisung."@)
    } else if code == 91 {
        Some("Ihre e-mailadresse war nicht erreichbar und wurde deshalb deaktiviert. Für weitere Instruktionen loggen Sie sich bitte im Kundenbereich ein."@)
    } else if code == 92 {
        Some("Das von Ihnen gesetzte Transaktions-Limit wurde erreicht. Bitte kontaktieren Sie ggf. den Support."@)
    } else if code == 93 {
        Some("Die PDF-Datei ist defekt."@)
    } else if code == 94 {
        Some("Bitte geben Sie mindestens einen Betrag von 0,01 EUR ein."@)
    } else if code == 95 {
        Some("Sie haben Ihre e-mailadresse noch nicht bestätigt. Bitte klicken Sie auf den Link unserer e-mail. Anschliessend können Sie sich an dieser Stelle anmelden."@)
    } else if code == 201 {
        Some("Bitte wählen Sie Ihr Geschlecht (Herr/Frau) aus."@)
    } else if code == 202 {
        Some("Es wurde kein Vornamen angeben."@)
    } else if code == 203 {
        Some("Es wurde kein Nachname angeben."@)
    } else if code == 204 {
        Some("Es wurde keine Strasse angeben."@)
    } else if code == 205 {
        Some("Es wurde keine gültige Strasse angeben. Bitte verwenden Sie keine Postfach-Anschriften."@)
    } else if code == 206 {
        Some("Es wurde keine Postleitzahl (PLZ) angeben."@)
    } else if code == 207 {
        Some("Die PLZ ist nicht korrekt. Für eine Anschrift in Deutschland müssen Sie eine 5-stellige Postleitzahl angeben."@)
    } else if code == 208 {
        Some("Die PLZ ist nicht korrekt. Für eine Anschrift in Österreich oder der Schweiz müssen Sie eine 4-stellige Postleitzahl angeben."@)
    } else if code == 209 {
        Some("Es wurde kein Ort angeben."@)
    } else if code == 210 {
        Some("Es wurde keine gültige Vorwahl für die Telefonnummer angeben."@)
    } else if code == 211 {
        Some("Es wurde keine gültige Durchwahl für die Telefonnummer angeben."@)
    } else if code == 212 {
        Some("Es wurde keine gültige Vorwahl für die Faxnummer angeben. Falls Sie kein Fax besitzen lassen Sie das Feld komplett leer."@)
    } else if code == 213 {
        Some("Es wurde keine gültige Durchwahl für die Faxnummer angeben. Falls Sie kein Fax besitzen lassen Sie das Feld komplett leer."@)
    } else if code == 214 {
        Some("Die angegebene Faxnummer ist nicht vollständig. Falls Sie kein Fax besitzen lassen Sie bitte das Vorwahl- und Durchwahl-Feld komplett leer."@)
    } else if code == 215 {
        Some("Es wurde keine gültige Vorwahl für die Handynummer angeben. Falls Sie kein Handy besitzen lassen Sie das Feld komplett leer."@)
    } else if code == 216 {
        Some("Es wurde keine gültige Durchwahl für die Handynummer angeben. Falls Sie kein Handy besitzen lassen Sie das Feld komplett leer."@)
    } else if code == 217 {
        Some("Die angegebene Handynummer ist nicht vollständig. Bitte geben Sie eine Vorwahl ein."@)
    } else if code == 218 {
        Some("Es wurde keine e-mail-Adresse angeben."@)
    } else if code == 219 {
        Some("Es wurde keine gültige e-mail-Adresse angeben."@)
    } else if code == 220 {
        Some("Es wurde keine gültige e-mail-Adresse für den Rechnungsempfänger angeben."@)
    } else if code == 221 {
        Some("Es wurde keine gültige e-mail-Adresse für die Statusbenachrichtungen angeben."@)
    } else if code == 222 {
        Some("Es existiert bereits ein Kunde mit dieser e-mailadresse"@)
    } else if code == 223 {
        Some("Es ist ein Fehler aufgetreten. Bitte beginnen Sie erneut von der Startseite"@)
    } else if code == 224 {
        Some("Es wurden keine zu bestellenden Dokumente gefunden. Bitte beginnen Sie erneut von der Startseite"@)
    } else if code == 225 {
        Some("Es wurde keine Änderung durchgeführt, da alle geänderten Daten mit denen identisch sind, die wir gespeichert haben."@)
    } else if code == 226 {
        Some("Es wurde keine Änderung durchgeführt, da dieser Account lediglich ein Demo-Account ist."@)
    } else if code == 227 {
        Some("Die angegebene Bankverbindung (Kontonummer und BLZ) ist nicht korrekt."@)
    } else if code == 228 {
        Some("Die angegebene Bankverbindung (Kontonummer und BLZ) ist nicht korrekt. Sie haben wahrscheinlich die Felder vertauscht. Ändern Sie das und versuchen Sie es erneut."@)
    } else if code == 229 {
        Some("Es wurde keine Zahlungsart ausgewählt. Bitte klicken Sie Bankeinzug oder Guthaben an."@)
    } else if code == 230 {
        Some("Es wurde keine Kontonummer angegeben."@)
    } else if code == 231 {
        Some("Es wurde keine Bankleitzahl (BLZ) angegeben."@)
    } else if code == 232 {
        Some("Es wurde kein Konto-Inhaber für die Bankverbindung angegeben."@)
    } else if code == 233 {
        Some("Sie müssen die AGB akzeptieren, um sich als Neukunde anmelden zu können."@)
    } else if code == 234 {
        Some("Es wurde kein Land angeben."@)
    } else if code == 235 {
        Some("Es wurde kein gültiger Ländercode angeben."@)
    } else if code == 236 {
        Some("Es wurde kein gültiges Geburtsdatum angeben."@)
    } else if code == 237 {
        Some("Bitte geben Sie als Titel nicht Herr/Frau oder ähnliches an, sondern nur Titel wie Prof. Dr."@)
    } else if code == 238 {
        Some("Ihr Account weist zu viele fehlgeschlagene Faxe auf und wurde für den Faxversand gesperrt. Bitte wenden Sie sich ggf. an unseren Support."@)
    } else if code == 239 {
        Some("Es ist ein unbekannter Fehler aufgetreten."@)
    } else {
        None
    }
}

/// The code is one of the documented ones.
pub open spec fn is_documented(code: int) -> bool {
    1 <= code <= 95 || 201 <= code <= 239
}

impl FailureView {
    /// The text shown for the failure: the table's explanation where the
    /// failure carries no message of the gateway, and else the generic
    /// sentence with the code in decimal, signed, and the gateway's message.
    pub open spec fn text(self) -> Seq<char> {
        match self.message {
            Some(message) => "Unknown error code "@ + decimal_text(self.code) + ": "@ + message,
            None => taxonomy_text(self.code).unwrap(),
        }
    }
}

impl PixelletterErrorCode {
    /// The numeric result code that the failure stands for.
    pub open spec fn code_value(self) -> int {
        match self {
            PixelletterErrorCode::Code1 => 1,
            PixelletterErrorCode::Code2 => 2,
            PixelletterErrorCode::Code3 => 3,
            PixelletterErrorCode::Code4 => 4,
            PixelletterErrorCode::Code5 => 5,
            PixelletterErrorCode::Code6 => 6,
            PixelletterErrorCode::Code7 => 7,
            PixelletterErrorCode::Code8 => 8,
            PixelletterErrorCode::Code9 => 9,
            PixelletterErrorCode::Code10 => 10,
            PixelletterErrorCode::Code11 => 11,
            PixelletterErrorCode::Code12 => 12,
            PixelletterErrorCode::Code13 => 13,
            PixelletterErrorCode::Code14 => 14,
            PixelletterErrorCode::Code15 => 15,
            PixelletterErrorCode::Code16 => 16,
            PixelletterErrorCode::Code17 => 17,
            PixelletterErrorCode::Code18 => 18,
            PixelletterErrorCode::Code19 => 19,
            PixelletterErrorCode::Code20 => 20,
            PixelletterErrorCode::Code21 => 21,
            PixelletterErrorCode::Code22 => 22,
            PixelletterErrorCode::Code23 => 23,
            PixelletterErrorCode::Code24 => 24,
            PixelletterErrorCode::Code25 => 25,
            PixelletterErrorCode::Code26 => 26,
            PixelletterErrorCode::Code27 => 27,
            PixelletterErrorCode::Code28 => 28,
            PixelletterErrorCode::Code29 => 29,
            PixelletterErrorCode::Code30 => 30,
            PixelletterErrorCode::Code31 => 31,
            PixelletterErrorCode::Code32 => 32,
            PixelletterErrorCode::Code33 => 33,
            PixelletterErrorCode::Code34 => 34,
            PixelletterErrorCode::Code35 => 35,
            PixelletterErrorCode::Code36 => 36,
            PixelletterErrorCode::Code37 => 37,
            PixelletterErrorCode::Code38 => 38,
            PixelletterErrorCode::Code39 => 39,
            PixelletterErrorCode::Code40 => 40,
            PixelletterErrorCode::Code41 => 41,
            PixelletterErrorCode::Code42 => 42,
            PixelletterErrorCode::Code43 => 43,
            PixelletterErrorCode::Code44 => 44,
            PixelletterErrorCode::Code45 => 45,
            PixelletterErrorCode::Code46 => 46,
            PixelletterErrorCode::Code47 => 47,
            PixelletterErrorCode::Code48 => 48,
            PixelletterErrorCode::Code49 => 49,
            PixelletterErrorCode::Code50 => 50,
            PixelletterErrorCode::Code51 => 51,
            PixelletterErrorCode::Code52 => 52,
            PixelletterErrorCode::Code53 => 53,
            PixelletterErrorCode::Code54 => 54,
            PixelletterErrorCode::Code55 => 55,
            PixelletterErrorCode::Code56 => 56,
            PixelletterErrorCode::Code57 => 57,
            PixelletterErrorCode::Code58 => 58,
            PixelletterErrorCode::Code59 => 59,
            PixelletterErrorCode::Code60 => 60,
            PixelletterErrorCode::Code61 => 61,
            PixelletterErrorCode::Code62 => 62,
            PixelletterErrorCode::Code63 => 63,
            PixelletterErrorCode::Code64 => 64,
            PixelletterErrorCode::Code65 => 65,
            PixelletterErrorCode::Code66 => 66,
            PixelletterErrorCode::Code67 => 67,
            PixelletterErrorCode::Code68 => 68,
            PixelletterErrorCode::Code69 => 69,
            PixelletterErrorCode::Code70 => 70,
            PixelletterErrorCode::Code71 => 71,
            PixelletterErrorCode::Code72 => 72,
            PixelletterErrorCode::Code73 => 73,
            PixelletterErrorCode::Code74 => 74,
            PixelletterErrorCode::Code75 => 75,
            PixelletterErrorCode::Code76 => 76,
            PixelletterErrorCode::Code77 => 77,
            PixelletterErrorCode::Code78 => 78,
            PixelletterErrorCode::Code79 => 79,
            PixelletterErrorCode::Code80 => 80,
            PixelletterErrorCode::Code81 => 81,
            PixelletterErrorCode::Code82 => 82,
            PixelletterErrorCode::Code83 => 83,
            PixelletterErrorCode::Code84 => 84,
            PixelletterErrorCode::Code85 => 85,
            PixelletterErrorCode::Code86 => 86,
            PixelletterErrorCode::Code87 => 87,
            PixelletterErrorCode::Code88 => 88,
            PixelletterErrorCode::Code89 => 89,
            PixelletterErrorCode::Code90 => 90,
            PixelletterErrorCode::Code91 => 91,
            PixelletterErrorCode::Code92 => 92,
            PixelletterErrorCode::Code93 => 93,
            PixelletterErrorCode::Code94 => 94,
            PixelletterErrorCode::Code95 => 95,
            PixelletterErrorCode::Code201 => 201,
            PixelletterErrorCode::Code202 => 202,
            PixelletterErrorCode::Code203 => 203,
            PixelletterErrorCode::Code204 => 204,
            PixelletterErrorCode::Code205 => 205,
            PixelletterErrorCode::Code206 => 206,
            PixelletterErrorCode::Code207 => 207,
            PixelletterErrorCode::Code208 => 208,
            PixelletterErrorCode::Code209 => 209,
            PixelletterErrorCode::Code210 => 210,
            PixelletterErrorCode::Code211 => 211,
            PixelletterErrorCode::Code212 => 212,
            PixelletterErrorCode::Code213 => 213,
            PixelletterErrorCode::Code214 => 214,
            PixelletterErrorCode::Code215 => 215,
            PixelletterErrorCode::Code216 => 216,
            PixelletterErrorCode::Code217 => 217,
            PixelletterErrorCode::Code218 => 218,
            PixelletterErrorCode::Code219 => 219,
            PixelletterErrorCode::Code220 => 220,
            PixelletterErrorCode::Code221 => 221,
            PixelletterErrorCode::Code222 => 222,
            PixelletterErrorCode::Code223 => 223,
            PixelletterErrorCode::Code224 => 224,
            PixelletterErrorCode::Code225 => 225,
            PixelletterErrorCode::Code226 => 226,
            PixelletterErrorCode::Code227 => 227,
            PixelletterErrorCode::Code228 => 228,
            PixelletterErrorCode::Code229 => 229,
            PixelletterErrorCode::Code230 => 230,
            PixelletterErrorCode::Code231 => 231,
            PixelletterErrorCode::Code232 => 232,
            PixelletterErrorCode::Code233 => 233,
            PixelletterErrorCode::Code234 => 234,
            PixelletterErrorCode::Code235 => 235,
            PixelletterErrorCode::Code236 => 236,
            PixelletterErrorCode::Code237 => 237,
            PixelletterErrorCode::Code238 => 238,
            PixelletterErrorCode::Code239 => 239,
            PixelletterErrorCode::Other { code, .. } => code as int,
        }
    }

    /// The text shown for the failure: the table's explanation of a
    /// documented code, and for `Other` a generic sentence that carries the
    /// code and the gateway's own message.
    pub open spec fn text(self) -> Seq<char> {
        match self {
            PixelletterErrorCode::Other { code, message } => "Unknown error code "@
                + decimal_text(code as int) + ": "@ + message@,
            _ => taxonomy_text(self.code_value()).unwrap(),
        }
    }

    /// The numeric result code that the failure stands for.
    pub fn code(&self) -> (r: i32)
        ensures
            r == self.code_value(),
    {
        match self {
            PixelletterErrorCode::Code1 => 1,
            PixelletterErrorCode::Code2 => 2,
            PixelletterErrorCode::Code3 => 3,
            PixelletterErrorCode::Code4 => 4,
            PixelletterErrorCode::Code5 => 5,
            PixelletterErrorCode::Code6 => 6,
            PixelletterErrorCode::Code7 => 7,
            PixelletterErrorCode::Code8 => 8,
            PixelletterErrorCode::Code9 => 9,
            PixelletterErrorCode::Code10 => 10,
            PixelletterErrorCode::Code11 => 11,
            PixelletterErrorCode::Code12 => 12,
            PixelletterErrorCode::Code13 => 13,
            PixelletterErrorCode::Code14 => 14,
            PixelletterErrorCode::Code15 => 15,
            PixelletterErrorCode::Code16 => 16,
            PixelletterErrorCode::Code17 => 17,
            PixelletterErrorCode::Code18 => 18,
            PixelletterErrorCode::Code19 => 19,
            PixelletterErrorCode::Code20 => 20,
            PixelletterErrorCode::Code21 => 21,
            PixelletterErrorCode::Code22 => 22,
            PixelletterErrorCode::Code23 => 23,
            PixelletterErrorCode::Code24 => 24,
            PixelletterErrorCode::Code25 => 25,
            PixelletterErrorCode::Code26 => 26,
            PixelletterErrorCode::Code27 => 27,
            PixelletterErrorCode::Code28 => 28,
            PixelletterErrorCode::Code29 => 29,
            PixelletterErrorCode::Code30 => 30,
            PixelletterErrorCode::Code31 => 31,
            PixelletterErrorCode::Code32 => 32,
            PixelletterErrorCode::Code33 => 33,
            PixelletterErrorCode::Code34 => 34,
            PixelletterErrorCode::Code35 => 35,
            PixelletterErrorCode::Code36 => 36,
            PixelletterErrorCode::Code37 => 37,
            PixelletterErrorCode::Code38 => 38,
            PixelletterErrorCode::Code39 => 39,
            PixelletterErrorCode::Code40 => 40,
            PixelletterErrorCode::Code41 => 41,
            PixelletterErrorCode::Code42 => 42,
            PixelletterErrorCode::Code43 => 43,
            PixelletterErrorCode::Code44 => 44,
            PixelletterErrorCode::Code45 => 45,
            PixelletterErrorCode::Code46 => 46,
            PixelletterErrorCode::Code47 => 47,
            PixelletterErrorCode::Code48 => 48,
            PixelletterErrorCode::Code49 => 49,
            PixelletterErrorCode::Code50 => 50,
            PixelletterErrorCode::Code51 => 51,
            PixelletterErrorCode::Code52 => 52,
            PixelletterErrorCode::Code53 => 53,
            PixelletterErrorCode::Code54 => 54,
            PixelletterErrorCode::Code55 => 55,
            PixelletterErrorCode::Code56 => 56,
            PixelletterErrorCode::Code57 => 57,
            PixelletterErrorCode::Code58 => 58,
            PixelletterErrorCode::Code59 => 59,
            PixelletterErrorCode::Code60 => 60,
            PixelletterErrorCode::Code61 => 61,
            PixelletterErrorCode::Code62 => 62,
            PixelletterErrorCode::Code63 => 63,
            PixelletterErrorCode::Code64 => 64,
            PixelletterErrorCode::Code65 => 65,
            PixelletterErrorCode::Code66 => 66,
            PixelletterErrorCode::Code67 => 67,
            PixelletterErrorCode::Code68 => 68,
            PixelletterErrorCode::Code69 => 69,
            PixelletterErrorCode::Code70 => 70,
            PixelletterErrorCode::Code71 => 71,
            PixelletterErrorCode::Code72 => 72,
            PixelletterErrorCode::Code73 => 73,
            PixelletterErrorCode::Code74 => 74,
            PixelletterErrorCode::Code75 => 75,
            PixelletterErrorCode::Code76 => 76,
            PixelletterErrorCode::Code77 => 77,
            PixelletterErrorCode::Code78 => 78,
            PixelletterErrorCode::Code79 => 79,
            PixelletterErrorCode::Code80 => 80,
            PixelletterErrorCode::Code81 => 81,
            PixelletterErrorCode::Code82 => 82,
            PixelletterErrorCode::Code83 => 83,
            PixelletterErrorCode::Code84 => 84,
            PixelletterErrorCode::Code85 => 85,
            PixelletterErrorCode::Code86 => 86,
            PixelletterErrorCode::Code87 => 87,
            PixelletterErrorCode::Code88 => 88,
            PixelletterErrorCode::Code89 => 89,
            PixelletterErrorCode::Code90 => 90,
            PixelletterErrorCode::Code91 => 91,
            PixelletterErrorCode::Code92 => 92,
            PixelletterErrorCode::Code93 => 93,
            PixelletterErrorCode::Code94 => 94,
            PixelletterErrorCode::Code95 => 95,
            PixelletterErrorCode::Code201 => 201,
            PixelletterErrorCode::Code202 => 202,
            PixelletterErrorCode::Code203 => 203,
            PixelletterErrorCode::Code204 => 204,
            PixelletterErrorCode::Code205 => 205,
            PixelletterErrorCode::Code206 => 206,
            PixelletterErrorCode::Code207 => 207,
            PixelletterErrorCode::Code208 => 208,
            PixelletterErrorCode::Code209 => 209,
            PixelletterErrorCode::Code210 => 210,
            PixelletterErrorCode::Code211 => 211,
            PixelletterErrorCode::Code212 => 212,
            PixelletterErrorCode::Code213 => 213,
            PixelletterErrorCode::Code214 => 214,
            PixelletterErrorCode::Code215 => 215,
            PixelletterErrorCode::Code216 => 216,
            PixelletterErrorCode::Code217 => 217,
            PixelletterErrorCode::Code218 => 218,
            PixelletterErrorCode::Code219 => 219,
            PixelletterErrorCode::Code220 => 220,
            PixelletterErrorCode::Code221 => 221,
            PixelletterErrorCode::Code222 => 222,
            PixelletterErrorCode::Code223 => 223,
            PixelletterErrorCode::Code224 => 224,
            PixelletterErrorCode::Code225 => 225,
            PixelletterErrorCode::Code226 => 226,
            PixelletterErrorCode::Code227 => 227,
            PixelletterErrorCode::Code228 => 228,
            PixelletterErrorCode::Code229 => 229,
            PixelletterErrorCode::Code230 => 230,
            PixelletterErrorCode::Code231 => 231,
            PixelletterErrorCode::Code232 => 232,
            PixelletterErrorCode::Code233 => 233,
            PixelletterErrorCode::Code234 => 234,
            PixelletterErrorCode::Code235 => 235,
            PixelletterErrorCode::Code236 => 236,
            PixelletterErrorCode::Code237 => 237,
            PixelletterErrorCode::Code238 => 238,
            PixelletterErrorCode::Code239 => 239,
            PixelletterErrorCode::Other { code, .. } => *code,
        }
    }

    /// The failure that stands for a documented code; `None` for every other
    /// number.
    pub fn from_code(code: i32) -> (r: Option<PixelletterErrorCode>)
        ensures
            r is Some <==> is_documented(code as int),
            r matches Some(e) ==> !(e is Other) && e.code_value() == code,
    {
        match code {
            1 => Some(PixelletterErrorCode::Code1),
            2 => Some(PixelletterErrorCode::Code2),
            3 => Some(PixelletterErrorCode::Code3),
            4 => Some(PixelletterErrorCode::Code4),
            5 => Some(PixelletterErrorCode::Code5),
            6 => Some(PixelletterErrorCode::Code6),
            7 => Some(PixelletterErrorCode::Code7),
            8 => Some(PixelletterErrorCode::Code8),
            9 => Some(PixelletterErrorCode::Code9),
            10 => Some(PixelletterErrorCode::Code10),
            11 => Some(PixelletterErrorCode::Code11),
            12 => Some(PixelletterErrorCode::Code12),
            13 => Some(PixelletterErrorCode::Code13),
            14 => Some(PixelletterErrorCode::Code14),
            15 => Some(PixelletterErrorCode::Code15),
            16 => Some(PixelletterErrorCode::Code16),
            17 => Some(PixelletterErrorCode::Code17),
            18 => Some(PixelletterErrorCode::Code18),
            19 => Some(PixelletterErrorCode::Code19),
            20 => Some(PixelletterErrorCode::Code20),
            21 => Some(PixelletterErrorCode::Code21),
            22 => Some(PixelletterErrorCode::Code22),
            23 => Some(PixelletterErrorCode::Code23),
            24 => Some(PixelletterErrorCode::Code24),
            25 => Some(PixelletterErrorCode::Code25),
            26 => Some(PixelletterErrorCode::Code26),
            27 => Some(PixelletterErrorCode::Code27),
            28 => Some(PixelletterErrorCode::Code28),
            29 => Some(PixelletterErrorCode::Code29),
            30 => Some(PixelletterErrorCode::Code30),
            31 => Some(PixelletterErrorCode::Code31),
            32 => Some(PixelletterErrorCode::Code32),
            33 => Some(PixelletterErrorCode::Code33),
            34 => Some(PixelletterErrorCode::Code34),
            35 => Some(PixelletterErrorCode::Code35),
            36 => Some(PixelletterErrorCode::Code36),
            37 => Some(PixelletterErrorCode::Code37),
            38 => Some(PixelletterErrorCode::Code38),
            39 => Some(PixelletterErrorCode::Code39),
            40 => Some(PixelletterErrorCode::Code40),
            41 => Some(PixelletterErrorCode::Code41),
            42 => Some(PixelletterErrorCode::Code42),
            43 => Some(PixelletterErrorCode::Code43),
            44 => Some(PixelletterErrorCode::Code44),
            45 => Some(PixelletterErrorCode::Code45),
            46 => Some(PixelletterErrorCode::Code46),
            47 => Some(PixelletterErrorCode::Code47),
            48 => Some(PixelletterErrorCode::Code48),
            49 => Some(PixelletterErrorCode::Code49),
            50 => Some(PixelletterErrorCode::Code50),
            51 => Some(PixelletterErrorCode::Code51),
            52 => Some(PixelletterErrorCode::Code52),
            53 => Some(PixelletterErrorCode::Code53),
            54 => Some(PixelletterErrorCode::Code54),
            55 => Some(PixelletterErrorCode::Code55),
            56 => Some(PixelletterErrorCode::Code56),
            57 => Some(PixelletterErrorCode::Code57),
            58 => Some(PixelletterErrorCode::Code58),
            59 => Some(PixelletterErrorCode::Code59),
            60 => Some(PixelletterErrorCode::Code60),
            61 => Some(PixelletterErrorCode::Code61),
            62 => Some(PixelletterErrorCode::Code62),
            63 => Some(PixelletterErrorCode::Code63),
            64 => Some(PixelletterErrorCode::Code64),
            65 => Some(PixelletterErrorCode::Code65),
            66 => Some(PixelletterErrorCode::Code66),
            67 => Some(PixelletterErrorCode::Code67),
            68 => Some(PixelletterErrorCode::Code68),
            69 => Some(PixelletterErrorCode::Code69),
            70 => Some(PixelletterErrorCode::Code70),
            71 => Some(PixelletterErrorCode::Code71),
            72 => Some(PixelletterErrorCode::Code72),
            73 => Some(PixelletterErrorCode::Code73),
            74 => Some(PixelletterErrorCode::Code74),
            75 => Some(PixelletterErrorCode::Code75),
            76 => Some(PixelletterErrorCode::Code76),
            77 => Some(PixelletterErrorCode::Code77),
            78 => Some(PixelletterErrorCode::Code78),
            79 => Some(PixelletterErrorCode::Code79),
            80 => Some(PixelletterErrorCode::Code80),
            81 => Some(PixelletterErrorCode::Code81),
            82 => Some(PixelletterErrorCode::Code82),
            83 => Some(PixelletterErrorCode::Code83),
            84 => Some(PixelletterErrorCode::Code84),
            85 => Some(PixelletterErrorCode::Code85),
            86 => Some(PixelletterErrorCode::Code86),
            87 => Some(PixelletterErrorCode::Code87),
            88 => Some(PixelletterErrorCode::Code88),
            89 => Some(PixelletterErrorCode::Code89),
            90 => Some(PixelletterErrorCode::Code90),
            91 => Some(PixelletterErrorCode::Code91),
            92 => Some(PixelletterErrorCode::Code92),
            93 => Some(PixelletterErrorCode::Code93),
            94 => Some(PixelletterErrorCode::Code94),
            95 => Some(PixelletterErrorCode::Code95),
            201 => Some(PixelletterErrorCode::Code201),
            202 => Some(PixelletterErrorCode::Code202),
            203 => Some(PixelletterErrorCode::Code203),
            204 => Some(PixelletterErrorCode::Code204),
            205 => Some(PixelletterErrorCode::Code205),
            206 => Some(PixelletterErrorCode::Code206),
            207 => Some(PixelletterErrorCode::Code207),
            208 => Some(PixelletterErrorCode::Code208),
            209 => Some(PixelletterErrorCode::Code209),
            210 => Some(PixelletterErrorCode::Code210),
            211 => Some(PixelletterErrorCode::Code211),
            212 => Some(PixelletterErrorCode::Code212),
            213 => Some(PixelletterErrorCode::Code213),
            214 => Some(PixelletterErrorCode::Code214),
            215 => Some(PixelletterErrorCode::Code215),
            216 => Some(PixelletterErrorCode::Code216),
            217 => Some(PixelletterErrorCode::Code217),
            218 => Some(PixelletterErrorCode::Code218),
            219 => Some(PixelletterErrorCode::Code219),
            220 => Some(PixelletterErrorCode::Code220),
            221 => Some(PixelletterErrorCode::Code221),
            222 => Some(PixelletterErrorCode::Code222),
            223 => Some(PixelletterErrorCode::Code223),
            224 => Some(PixelletterErrorCode::Code224),
            225 => Some(PixelletterErrorCode::Code225),
            226 => Some(PixelletterErrorCode::Code226),
            227 => Some(PixelletterErrorCode::Code227),
            228 => Some(PixelletterErrorCode::Code228),
            229 => Some(PixelletterErrorCode::Code229),
            230 => Some(PixelletterErrorCode::Code230),
            231 => Some(PixelletterErrorCode::Code231),
            232 => Some(PixelletterErrorCode::Code232),
            233 => Some(PixelletterErrorCode::Code233),
            234 => Some(PixelletterErrorCode::Code234),
            235 => Some(PixelletterErrorCode::Code235),
            236 => Some(PixelletterErrorCode::Code236),
            237 => Some(PixelletterErrorCode::Code237),
            238 => Some(PixelletterErrorCode::Code238),
            239 => Some(PixelletterErrorCode::Code239),
            _ => None,
        }
    }

    /// The text shown for the failure.
    pub fn message(&self) -> (r: String)
        ensures
            r@ == self.text(),
    {
        match self {
            PixelletterErrorCode::Other { code, message } => {
                let mut out = String::from_str("Unknown error code ");
                let number = i32_to_string(*code);
                out.append(number.as_str());
                out.append(": ");
                out.append(message.as_str());
                assert(out@ =~= self.text());
                out
            },
            _ => {
                let code = self.code();
                proof {
                    lemma_documented_has_text(code as int);
                }
                match error_code_to_msg(code as u8) {
                    Some(text) => String::from_str(text),
                    None => String::new(),
                }
            },
        }
    }
}

impl View for PixelletterErrorCode {
    type V = FailureView;

    open spec fn view(&self) -> FailureView {
        FailureView {
            code: self.code_value(),
            message: match self {
                PixelletterErrorCode::Other { message, .. } => Some(message@),
                _ => None,
            },
        }
    }
}

impl Clone for PixelletterErrorCode {
    fn clone(&self) -> (r: PixelletterErrorCode)
        ensures
            r@ == self@,
    {
        match self {
            PixelletterErrorCode::Code1 => PixelletterErrorCode::Code1,
            PixelletterErrorCode::Code2 => PixelletterErrorCode::Code2,
            PixelletterErrorCode::Code3 => PixelletterErrorCode::Code3,
            PixelletterErrorCode::Code4 => PixelletterErrorCode::Code4,
            PixelletterErrorCode::Code5 => PixelletterErrorCode::Code5,
            PixelletterErrorCode::Code6 => PixelletterErrorCode::Code6,
            PixelletterErrorCode::Code7 => PixelletterErrorCode::Code7,
            PixelletterErrorCode::Code8 => PixelletterErrorCode::Code8,
            PixelletterErrorCode::Code9 => PixelletterErrorCode::Code9,
            PixelletterErrorCode::Code10 => PixelletterErrorCode::Code10,
            PixelletterErrorCode::Code11 => PixelletterErrorCode::Code11,
            PixelletterErrorCode::Code12 => PixelletterErrorCode::Code12,
            PixelletterErrorCode::Code13 => PixelletterErrorCode::Code13,
            PixelletterErrorCode::Code14 => PixelletterErrorCode::Code14,
            PixelletterErrorCode::Code15 => PixelletterErrorCode::Code15,
            PixelletterErrorCode::Code16 => PixelletterErrorCode::Code16,
            PixelletterErrorCode::Code17 => PixelletterErrorCode::Code17,
            PixelletterErrorCode::Code18 => PixelletterErrorCode::Code18,
            PixelletterErrorCode::Code19 => PixelletterErrorCode::Code19,
            PixelletterErrorCode::Code20 => PixelletterErrorCode::Code20,
            PixelletterErrorCode::Code21 => PixelletterErrorCode::Code21,
            PixelletterErrorCode::Code22 => PixelletterErrorCode::Code22,
            PixelletterErrorCode::Code23 => PixelletterErrorCode::Code23,
            PixelletterErrorCode::Code24 => PixelletterErrorCode::Code24,
            PixelletterErrorCode::Code25 => PixelletterErrorCode::Code25,
            PixelletterErrorCode::Code26 => PixelletterErrorCode::Code26,
            PixelletterErrorCode::Code27 => PixelletterErrorCode::Code27,
            PixelletterErrorCode::Code28 => PixelletterErrorCode::Code28,
            PixelletterErrorCode::Code29 => PixelletterErrorCode::Code29,
            PixelletterErrorCode::Code30 => PixelletterErrorCode::Code30,
            PixelletterErrorCode::Code31 => PixelletterErrorCode::Code31,
            PixelletterErrorCode::Code32 => PixelletterErrorCode::Code32,
            PixelletterErrorCode::Code33 => PixelletterErrorCode::Code33,
            PixelletterErrorCode::Code34 => PixelletterErrorCode::Code34,
            PixelletterErrorCode::Code35 => PixelletterErrorCode::Code35,
            PixelletterErrorCode::Code36 => PixelletterErrorCode::Code36,
            PixelletterErrorCode::Code37 => PixelletterErrorCode::Code37,
            PixelletterErrorCode::Code38 => PixelletterErrorCode::Code38,
            PixelletterErrorCode::Code39 => PixelletterErrorCode::Code39,
            PixelletterErrorCode::Code40 => PixelletterErrorCode::Code40,
            PixelletterErrorCode::Code41 => PixelletterErrorCode::Code41,
            PixelletterErrorCode::Code42 => PixelletterErrorCode::Code42,
            PixelletterErrorCode::Code43 => PixelletterErrorCode::Code43,
            PixelletterErrorCode::Code44 => PixelletterErrorCode::Code44,
            PixelletterErrorCode::Code45 => PixelletterErrorCode::Code45,
            PixelletterErrorCode::Code46 => PixelletterErrorCode::Code46,
            PixelletterErrorCode::Code47 => PixelletterErrorCode::Code47,
            PixelletterErrorCode::Code48 => PixelletterErrorCode::Code48,
            PixelletterErrorCode::Code49 => PixelletterErrorCode::Code49,
            PixelletterErrorCode::Code50 => PixelletterErrorCode::Code50,
            PixelletterErrorCode::Code51 => PixelletterErrorCode::Code51,
            PixelletterErrorCode::Code52 => PixelletterErrorCode::Code52,
            PixelletterErrorCode::Code53 => PixelletterErrorCode::Code53,
            PixelletterErrorCode::Code54 => PixelletterErrorCode::Code54,
            PixelletterErrorCode::Code55 => PixelletterErrorCode::Code55,
            PixelletterErrorCode::Code56 => PixelletterErrorCode::Code56,
            PixelletterErrorCode::Code57 => PixelletterErrorCode::Code57,
            PixelletterErrorCode::Code58 => PixelletterErrorCode::Code58,
            PixelletterErrorCode::Code59 => PixelletterErrorCode::Code59,
            PixelletterErrorCode::Code60 => PixelletterErrorCode::Code60,
            PixelletterErrorCode::Code61 => PixelletterErrorCode::Code61,
            PixelletterErrorCode::Code62 => PixelletterErrorCode::Code62,
            PixelletterErrorCode::Code63 => PixelletterErrorCode::Code63,
            PixelletterErrorCode::Code64 => PixelletterErrorCode::Code64,
            PixelletterErrorCode::Code65 => PixelletterErrorCode::Code65,
            PixelletterErrorCode::Code66 => PixelletterErrorCode::Code66,
            PixelletterErrorCode::Code67 => PixelletterErrorCode::Code67,
            PixelletterErrorCode::Code68 => PixelletterErrorCode::Code68,
            PixelletterErrorCode::Code69 => PixelletterErrorCode::Code69,
            PixelletterErrorCode::Code70 => PixelletterErrorCode::Code70,
            PixelletterErrorCode::Code71 => PixelletterErrorCode::Code71,
            PixelletterErrorCode::Code72 => PixelletterErrorCode::Code72,
            PixelletterErrorCode::Code73 => PixelletterErrorCode::Code73,
            PixelletterErrorCode::Code74 => PixelletterErrorCode::Code74,
            PixelletterErrorCode::Code75 => PixelletterErrorCode::Code75,
            PixelletterErrorCode::Code76 => PixelletterErrorCode::Code76,
            PixelletterErrorCode::Code77 => PixelletterErrorCode::Code77,
            PixelletterErrorCode::Code78 => PixelletterErrorCode::Code78,
            PixelletterErrorCode::Code79 => PixelletterErrorCode::Code79,
            PixelletterErrorCode::Code80 => PixelletterErrorCode::Code80,
            PixelletterErrorCode::Code81 => PixelletterErrorCode::Code81,
            PixelletterErrorCode::Code82 => PixelletterErrorCode::Code82,
            PixelletterErrorCode::Code83 => PixelletterErrorCode::Code83,
            PixelletterErrorCode::Code84 => PixelletterErrorCode::Code84,
            PixelletterErrorCode::Code85 => PixelletterErrorCode::Code85,
            PixelletterErrorCode::Code86 => PixelletterErrorCode::Code86,
            PixelletterErrorCode::Code87 => PixelletterErrorCode::Code87,
            PixelletterErrorCode::Code88 => PixelletterErrorCode::Code88,
            PixelletterErrorCode::Code89 => PixelletterErrorCode::Code89,
            PixelletterErrorCode::Code90 => PixelletterErrorCode::Code90,
            PixelletterErrorCode::Code91 => PixelletterErrorCode::Code91,
            PixelletterErrorCode::Code92 => PixelletterErrorCode::Code92,
            PixelletterErrorCode::Code93 => PixelletterErrorCode::Code93,
            PixelletterErrorCode::Code94 => PixelletterErrorCode::Code94,
            PixelletterErrorCode::Code95 => PixelletterErrorCode::Code95,
            PixelletterErrorCode::Code201 => PixelletterErrorCode::Code201,
            PixelletterErrorCode::Code202 => PixelletterErrorCode::Code202,
            PixelletterErrorCode::Code203 => PixelletterErrorCode::Code203,
            PixelletterErrorCode::Code204 => PixelletterErrorCode::Code204,
            PixelletterErrorCode::Code205 => PixelletterErrorCode::Code205,
            PixelletterErrorCode::Code206 => PixelletterErrorCode::Code206,
            PixelletterErrorCode::Code207 => PixelletterErrorCode::Code207,
            PixelletterErrorCode::Code208 => PixelletterErrorCode::Code208,
            PixelletterErrorCode::Code209 => PixelletterErrorCode::Code209,
            PixelletterErrorCode::Code210 => PixelletterErrorCode::Code210,
            PixelletterErrorCode::Code211 => PixelletterErrorCode::Code211,
            PixelletterErrorCode::Code212 => PixelletterErrorCode::Code212,
            PixelletterErrorCode::Code213 => PixelletterErrorCode::Code213,
            PixelletterErrorCode::Code214 => PixelletterErrorCode::Code214,
            PixelletterErrorCode::Code215 => PixelletterErrorCode::Code215,
            PixelletterErrorCode::Code216 => PixelletterErrorCode::Code216,
            PixelletterErrorCode::Code217 => PixelletterErrorCode::Code217,
            PixelletterErrorCode::Code218 => PixelletterErrorCode::Code218,
            PixelletterErrorCode::Code219 => PixelletterErrorCode::Code219,
            PixelletterErrorCode::Code220 => PixelletterErrorCode::Code220,
            PixelletterErrorCode::Code221 => PixelletterErrorCode::Code221,
            PixelletterErrorCode::Code222 => PixelletterErrorCode::Code222,
            PixelletterErrorCode::Code223 => PixelletterErrorCode::Code223,
            PixelletterErrorCode::Code224 => PixelletterErrorCode::Code224,
            PixelletterErrorCode::Code225 => PixelletterErrorCode::Code225,
            PixelletterErrorCode::Code226 => PixelletterErrorCode::Code226,
            PixelletterErrorCode::Code227 => PixelletterErrorCode::Code227,
            PixelletterErrorCode::Code228 => PixelletterErrorCode::Code228,
            PixelletterErrorCode::Code229 => PixelletterErrorCode::Code229,
            PixelletterErrorCode::Code230 => PixelletterErrorCode::Code230,
            PixelletterErrorCode::Code231 => PixelletterErrorCode::Code231,
            PixelletterErrorCode::Code232 => PixelletterErrorCode::Code232,
            PixelletterErrorCode::Code233 => PixelletterErrorCode::Code233,
            PixelletterErrorCode::Code234 => PixelletterErrorCode::Code234,
            PixelletterErrorCode::Code235 => PixelletterErrorCode::Code235,
            PixelletterErrorCode::Code236 => PixelletterErrorCode::Code236,
            PixelletterErrorCode::Code237 => PixelletterErrorCode::Code237,
            PixelletterErrorCode::Code238 => PixelletterErrorCode::Code238,
            PixelletterErrorCode::Code239 => PixelletterErrorCode::Code239,
            PixelletterErrorCode::Other { code, message } => PixelletterErrorCode::Other {
                code: *code,
                message: message.clone(),
            },
        }
    }
}

/// The text shown for a failure follows from what the failure holds: the
/// table's explanation of its code where it carries no message of the
/// gateway, and where it carries one, the generic sentence with the code as
/// it came, negative or not, and that message.
pub proof fn lemma_text_of_view(failure: PixelletterErrorCode)
    ensures
        failure.text() == failure@.text(),
        failure@.message is None ==> is_documented(failure@.code),
{
}

/// Exactly the documented codes have an explanation.
pub proof fn lemma_documented_has_text(code: int)
    ensures
        taxonomy_text(code) is Some <==> is_documented(code),
{
}

/// Two failures for documented codes that carry the same number are the same
/// failure.
pub proof fn lemma_code_value_unique(a: PixelletterErrorCode, b: PixelletterErrorCode)
    requires
        !(a is Other),
        !(b is Other),
        a.code_value() == b.code_value(),
    ensures
        a == b,
{
}

/// Looks a result code up in the table: the fixed explanation of a documented
/// code, `None` for any other number.
pub fn error_code_to_msg(code: u8) -> (r: Option<&'static str>)
    ensures
        match r {
            Some(text) => taxonomy_text(code as int) == Some(text@),
            None => taxonomy_text(code as int) is None,
        },
{
    match code {
        1 => Some("Die Datei konnte nicht erzeugt werden. Bitte versuchen Sie es noch einmal."),
        2 => Some("Unbekannter Fehler. Bitte versuchen Sie es noch einmal."),
        3 => Some("Unbekannter Fehler. Bitte versuchen Sie es noch einmal."),
        4 => Some("Die angegebene e-mail-Adresse oder das Passwort sind nicht korrekt."),
        5 => Some("Unberechtigter Seiten-Aufruf. Bitte beginnen Sie von vorne."),
        6 => Some("Dieser Auftrag wurde bereits erteilt."),
        7 => Some("Ihr Account ist gesperrt. Bitte wenden Sie sich an uns."),
        8 => Some("Es wurden keine korrekten XML-Daten übermittelt."),
        9 => Some("Es wurde kein Wert im Feld type angeben. Bitte wählen Sie zwischen den Values text oder upload."),
        10 => Some("Der Datei-Typ ist nicht korrekt. Uploads sind nur mit korrekter Datei-Endung möglich."),
        11 => Some("Die Konvertierung des Dokuments ist fehlgeschlagen, bitte versuchen Sie es mit einer anderen Datei-Endung."),
        12 => Some("Die Datei konnte nicht übertragen werden."),
        13 => Some("Bitte bestätigen Sie die Allgemeinen Geschäftsbedingungen mit \"ja\"."),
        14 => Some("Bitte geben Sie an, ob Sie auf das Widerrufsrecht verzichten möchten."),
        15 => Some("Es wurde keine Adresse für den Empfänger angegeben oder es wurde kein Dateianhang mitgesendet."),
        16 => Some("Es wurde kein Text für den Briefinhalt angegeben."),
        17 => Some("Sind Sie sicher, dass Sie vom Widerrufsrecht gebrauch machen möchten? Dies führt zu einer Verzögerung von 2 Wochen beim Versand Ihres Auftrags. Bitte treffen Sie eine Auswahl und klicken Sie erneut auf den Bestellknopf."),
        18 => Some("Es wurde eine Faxzustellung gewünscht, aber keine gültige Faxnummer angegeben."),
        19 => Some("Es wurde keine action definiert. Bitte geben Sie 1 (für Briefversand), 2 (für Fax-Versand) oder 3 (für Brief- und Faxversand) an."),
        20 => Some("Die Datei darf max. 50 MB groß sein."),
        21 => Some("Ihr Guthaben reicht nicht aus. Bitte loggen Sie sich im Kundenbereich ein und laden Sie Ihr Guthaben auf."),
        22 => Some("Falsche Angabe von Zusatzleistungen."),
        23 => Some("Die gewählte Zusatzleistung ist bis zum 14.03.2009 nicht verfügbar."),
        24 => Some("Der Versandort München ist bis zum 04.09.2006 nicht verfügbar."),
        25 => Some("Kein oder ein falsches Empfängerland angegeben. Diese Angabe ist obligatorisch. Im e-mail-Template geben Sie bitte die Zeile # destination: DE bzw. das entsprechende Länderkürzel ein. Wenn Sie die HTTPS-Schnittstelle nutzen finden Sie Infos in der aktuellen Doku."),
        26 => Some("Die ausgewählte Zusatzleistung kann in das gewählte Empfängerland nicht versendet werden. Bitte wählen Sie, sofern zutreffend, Deutschland als Zielland aus."),
        27 => Some("Die ausgewählte Zusatzleistung kann über das gewählte Briefzentrum nicht versendet werden. Bitte wählen Sie München als Versandort aus."),
        28 => Some("Die ausgewählte Zusatzleistung kann über das gewählte Briefzentrum nicht versendet werden. Bitte wählen Sie Hausleiten/Wien als Versandort aus."),
        29 => Some("Die ausgewählte Zusatzleistung kann in das gewählte Empfängerland nicht versendet werden. Bitte wählen Sie ein Zielland innerhalb Europas aus."),
        30 => Some("Der angegebene Name des Begünstigten ist fehlerhaft. Geben Sie mind. 1 und max. 27 Zeichen an und verwenden Sie nur diese Zeichen 0-9 A-Z äöüß.,&-/+*$% und Leerzeichen."),
        31 => Some("Der angegebene Name der Bank des Begünstigten ist fehlerhaft. Geben Sie mind. 1 und max. 27 Zeichen an und verwenden Sie nur diese Zeichen 0-9 A-Z äöüß.,&-/+*$% und Leerzeichen."),
        32 => Some("Die erste Zeile des angegebenen Verwendungszwecks ist fehlerhaft. Geben Sie mind. 0 und max. 27 Zeichen an und verwenden Sie nur diese Zeichen 0-9 A-Z äöüß.,&-/+*$% und Leerzeichen."),
        33 => Some("Die zweite Zeile des angegebenen Verwendungszwecks ist fehlerhaft. Geben Sie mind. 1 und max. 27 Zeichen an und verwenden Sie nur diese Zeichen 0-9 A-Z äöüß.,&-/+*$% und Leerzeichen."),
        34 => Some("Der angegebene Betrag der Nachnahme ist fehlerhaft. Geben Sie den Betrag ohne tausender Trennzeichen im Format XXXX,XX an."),
        35 => Some("Der angegebene Betrag der Nachnahme ist zu hoch oder zu niedrig. Geben Sie einen Euro-Betrag von min. 3,00 EUR und max. 1600,00 EUR an."),
        36 => Some("Die angegebene Kontonummer des Begünstigten ist fehlerhaft. Geben Sie zwischen 6 und 10 Ziffern an."),
        37 => Some("Die angegebene Bankleitzahl des Begünstigten ist fehlerhaft. Geben Sie genau 8 Ziffern an."),
        38 => Some("Farbdrucke können derzeit nicht über das ausgewählt Briefzentrum verschickt werden. Bitte wählen Sie ein anderes Briefzentrum."),
        39 => Some("Es wurde keine e-mailadresse für den Absender der Signaturbenachrichtung an den Kunden definiert."),
        40 => Some("Die Länge der e-mailadresse für den Absender der Signaturbenachrichtung an den Kunden ist zu groß. Maximal können 255 Zeichen angeben werden."),
        41 => Some("Es wurde keine e-mailadresse für den Empfänger der Signaturbenachrichtung an den Kunden definiert."),
        42 => Some("Die Länge der e-mailadresse für den Empfänger der Signaturbenachrichtung an den Kunden ist zu groß. Maximal können 255 Zeichen angeben werden."),
        43 => Some("Es wurde kein e-mail-Betreff für die Signaturbenachrichtung definiert."),
        44 => Some("Der Betreff der e-mail für die Signaturbenachrichtung ist zu lang.  Maximal können 255 Zeichen angeben werden."),
        45 => Some("Es wurde kein e-mail-Text für die Signaturbenachrichtung definiert."),
        46 => Some("Um elektronische Signaturen zu beauftragen, müssen Sie sich einmalig kostenfrei im Kundenbereich unter dem Menüpunkt \"Elektr. Signaturen\" freischalten."),
        47 => Some("Die PDF-Datei ist verschlüsselt. Bitte laden Sie eine unverschlüsselte PDF-Datei hoch die keine Bearbeitungseinschränkungen beinhaltet."),
        48 => Some("Die verwendete Transaction-ID wurde bereits verwendet. (Spezielle Kundeneinstellung)"),
        49 => Some("Für den Auftrag zur digitalen Signatur wurde keine Datei übermittelt."),
        50 => Some("In der PDF-Datei wurde kein Zeiger auf die xref-Tabelle gefunden."),
        51 => Some("Es wurde kein Upload-Template mit dieser Nummer gefunden."),
        52 => Some("Beim Wert Template wurde keine Template-Nummer definiert."),
        53 => Some("Derzeit sind aus technischen Gründen nur Uploads von PDF-Dateien möglich."),
        54 => Some("Es ist ein Fehler bei der PGP-Entschlüsselung aufgetreten."),
        55 => Some("Der Auftrag kann nicht gefunden werden."),
        56 => Some("Die Nummerierung der Bulkaufträge ist nicht fortlaufend."),
        57 => Some("Bulkaufträge können nur mit dem type-Wert template übermittelt werden."),
        58 => Some("Es wurde eine für Bulkaufträge ungültige action angegben. Die action muss 5 sein."),
        59 => Some("Die Angabe von Werten für den Tag control ist bei Bulkaufträge nicht möglich."),
        60 => Some("Die Angabe von Werten für den Tag addoption ist bei Bulkaufträge nicht möglich."),
        61 => Some("Die Angabe location muss bei Bulkaufträge immer 1 sein."),
        62 => Some("Es wurde ein ungültiger Ländercode als Zielland (destination) angeben."),
        63 => Some("Es wurde eine ungültige Nr für die Absenderzeile (sendernr) angeben."),
        64 => Some("Es wurde eine ungültige Angabe für das Geschlecht (gender) angeben."),
        65 => Some("Es wurde kein Vornamen angeben."),
        66 => Some("Es wurde kein Nachname angeben."),
        67 => Some("Es wurde keine Strasse angeben."),
        68 => Some("Es wurde keine Postleitzahl angeben."),
        69 => Some("Es wurde keine gültige Postleitzahl angeben."),
        70 => Some("Es wurde kein Ort angeben."),
        71 => Some("Der Auftrag konnte nicht in die Datenbank geschrieben werden."),
        72 => Some("Das Foto muss im JPG-Format übermittelt werden."),
        73 => Some("Die Anschrift bei Postkarten darf max. 6 Zeilen haben."),
        74 => Some("Der Text für diese Postkarte ist zu lang."),
        75 => Some("Das Foto darf nicht größer als 6 MB sein."),
        76 => Some("Es wurde kein Foto übermittelt."),
        77 => Some("Der Gutscheincode ist ungültig."),
        78 => Some("Die angegebene URL ist ungültig."),
        79 => Some("Die Unterstützung von Cookies ist deaktiviert. Bitte aktivieren Sie diese über die Einstellungen in Ihrem Browser."),
        80 => Some("Der Gutscheincode ist nicht für diese Dienstleistung einlösbar."),
        81 => Some("Die Session ist abgelaufen, bitte loggen Sie sich erneut ein."),
        82 => Some("Die gewählte Dienstleistung kann nicht mehr angeboten werden."),
        83 => Some("Bitte geben Sie mindestens einen Betrag von 5,00 EUR ein."),
        84 => Some("Bitte geben Sie mindestens einen Betrag von 10,00 EUR ein."),
        85 => Some("Bitte geben Sie mindestens einen Betrag von 25,00 EUR ein."),
        86 => Some("Bitte geben Sie mindestens einen Betrag von 1,00 EUR ein."),
        87 => Some("Bitte geben Sie einen gültigen Betrag (z.B. 10,00) ein."),
        88 => Some("Um Premiumadress nutzen zu können, müssen Sie einen Premiumadress-Zugang bei der Post haben und unser Support muss diesen für Sie in den Kundeneinstellungen hinterlegt haben."),
        89 => Some("Allgemeiner Fehler bei der PDF-Verarbeitung."),
        90 => Some("Es können nur maximal 1000,00 EUR aufgeladen werden. Bitte nutzen Sie alternativ z.B. eine Banküberweisung."),
        91 => Some("Ihre e-mailadresse war nicht erreichbar und wurde deshalb deaktiviert. Für weitere Instruktionen loggen Sie sich bitte im Kundenbereich ein."),
        92 => Some("Das von Ihnen gesetzte Transaktions-Limit wurde erreicht. Bitte kontaktieren Sie ggf. den Support."),
        93 => Some("Die PDF-Datei ist defekt."),
        94 => Some("Bitte geben Sie mindestens einen Betrag von 0,01 EUR ein."),
        95 => Some("Sie haben Ihre e-mailadresse noch nicht bestätigt. Bitte klicken Sie auf den Link unserer e-mail. Anschliessend können Sie sich an dieser Stelle anmelden."),
        201 => Some("Bitte wählen Sie Ihr Geschlecht (Herr/Frau) aus."),
        202 => Some("Es wurde kein Vornamen angeben."),
        203 => Some("Es wurde kein Nachname angeben."),
        204 => Some("Es wurde keine Strasse angeben."),
        205 => Some("Es wurde keine gültige Strasse angeben. Bitte verwenden Sie keine Postfach-Anschriften."),
        206 => Some("Es wurde keine Postleitzahl (PLZ) angeben."),
        207 => Some("Die PLZ ist nicht korrekt. Für eine Anschrift in Deutschland müssen Sie eine 5-stellige Postleitzahl angeben."),
        208 => Some("Die PLZ ist nicht korrekt. Für eine Anschrift in Österreich oder der Schweiz müssen Sie eine 4-stellige Postleitzahl angeben."),
        209 => Some("Es wurde kein Ort angeben."),
        210 => Some("Es wurde keine gültige Vorwahl für die Telefonnummer angeben."),
        211 => Some("Es wurde keine gültige Durchwahl für die Telefonnummer angeben."),
        212 => Some("Es wurde keine gültige Vorwahl für die Faxnummer angeben. Falls Sie kein Fax besitzen lassen Sie das Feld komplett leer."),
        213 => Some("Es wurde keine gültige Durchwahl für die Faxnummer angeben. Falls Sie kein Fax besitzen lassen Sie das Feld komplett leer."),
        214 => Some("Die angegebene Faxnummer ist nicht vollständig. Falls Sie kein Fax besitzen lassen Sie bitte das Vorwahl- und Durchwahl-Feld komplett leer."),
        215 => Some("Es wurde keine gültige Vorwahl für die Handynummer angeben. Falls Sie kein Handy besitzen lassen Sie das Feld komplett leer."),
        216 => Some("Es wurde keine gültige Durchwahl für die Handynummer angeben. Falls Sie kein Handy besitzen lassen Sie das Feld komplett leer."),
        217 => Some("Die angegebene Handynummer ist nicht vollständig. Bitte geben Sie eine Vorwahl ein."),
        218 => Some("Es wurde keine e-mail-Adresse angeben."),
        219 => Some("Es wurde keine gültige e-mail-Adresse angeben."),
        220 => Some("Es wurde keine gültige e-mail-Adresse für den Rechnungsempfänger angeben."),
        221 => Some("Es wurde keine gültige e-mail-Adresse für die Statusbenachrichtungen angeben."),
        222 => Some("Es existiert bereits ein Kunde mit dieser e-mailadresse"),
        223 => Some("Es ist ein Fehler aufgetreten. Bitte beginnen Sie erneut von der Startseite"),
        224 => Some("Es wurden keine zu bestellenden Dokumente gefunden. Bitte beginnen Sie erneut von der Startseite"),
        225 => Some("Es wurde keine Änderung durchgeführt, da alle geänderten Daten mit denen identisch sind, die wir gespeichert haben."),
        226 => Some("Es wurde keine Änderung durchgeführt, da dieser Account lediglich ein Demo-Account ist."),
        227 => Some("Die angegebene Bankverbindung (Kontonummer und BLZ) ist nicht korrekt."),
        228 => Some("Die angegebene Bankverbindung (Kontonummer und BLZ) ist nicht korrekt. Sie haben wahrscheinlich die Felder vertauscht. Ändern Sie das und versuchen Sie es erneut."),
        229 => Some("Es wurde keine Zahlungsart ausgewählt. Bitte klicken Sie Bankeinzug oder Guthaben an."),
        230 => Some("Es wurde keine Kontonummer angegeben."),
        231 => Some("Es wurde keine Bankleitzahl (BLZ) angegeben."),
        232 => Some("Es wurde kein Konto-Inhaber für die Bankverbindung angegeben."),
        233 => Some("Sie müssen die AGB akzeptieren, um sich als Neukunde anmelden zu können."),
        234 => Some("Es wurde kein Land angeben."),
        235 => Some("Es wurde kein gültiger Ländercode angeben."),
        236 => Some("Es wurde kein gültiges Geburtsdatum angeben."),
        237 => Some("Bitte geben Sie als Titel nicht Herr/Frau oder ähnliches an, sondern nur Titel wie Prof. Dr."),
        238 => Some("Ihr Account weist zu viele fehlgeschlagene Faxe auf und wurde für den Faxversand gesperrt. Bitte wenden Sie sich ggf. an unseren Support."),
        239 => Some("Es ist ein unbekannter Fehler aufgetreten."),
        _ => None,
    }
}

} // verus!
