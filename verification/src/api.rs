//! The wire model: one record for each section of the gateway's XML
//! documents, and for each record the mathematical value that the contracts
//! of this library speak of.

use vstd::prelude::*;
pub use crate::fields::ActionType;
pub use crate::fields::Addoption;
pub use crate::fields::Location;
pub use crate::taxonomy::error_code_to_msg;
pub use crate::taxonomy::PixelletterErrorCode;

verus! {

/// The root record of a request or a response: the protocol version and
/// whichever sections the operation needs.
#[derive(Debug, PartialEq, Eq)]
pub struct Pixelletter {
    pub version: String,
    pub auth: Option<Auth>,
    pub command: Option<Command>,
    pub response: Option<Response>,
    pub costumer_id: Option<String>,
    pub costumer_data: Option<CostumerData>,
    pub costumer_credit: Option<CostumerCredit>,
}

/// What a [`Pixelletter`] holds, as a mathematical value.
pub struct PixelletterView {
    pub version: Seq<char>,
    pub auth: Option<AuthView>,
    pub command: Option<CommandView>,
    pub response: Option<ResponseView>,
    pub costumer_id: Option<Seq<char>>,
    pub costumer_data: Option<CostumerDataView>,
    pub costumer_credit: Option<CostumerCreditView>,
}

impl DeepView for Pixelletter {
    type V = PixelletterView;

    open spec fn deep_view(&self) -> PixelletterView {
        PixelletterView {
            version: self.version@,
            auth: self.auth.deep_view(),
            command: self.command.deep_view(),
            response: self.response.deep_view(),
            costumer_id: self.costumer_id.deep_view(),
            costumer_data: self.costumer_data.deep_view(),
            costumer_credit: self.costumer_credit.deep_view(),
        }
    }
}

impl View for Pixelletter {
    type V = PixelletterView;

    open spec fn view(&self) -> PixelletterView {
        self.deep_view()
    }
}

impl PixelletterView {
    /// The record with every text empty and every optional part absent.
    pub open spec fn blank() -> PixelletterView {
        PixelletterView {
            version: Seq::empty(),
            auth: None,
            command: None,
            response: None,
            costumer_id: None,
            costumer_data: None,
            costumer_credit: None,
        }
    }
}

impl Default for Pixelletter {
    fn default() -> (r: Pixelletter)
        ensures
            r@ == PixelletterView::blank(),
    {
        Pixelletter {
            version: String::new(),
            auth: None,
            command: None,
            response: None,
            costumer_id: None,
            costumer_data: None,
            costumer_credit: None,
        }
    }
}

impl Clone for Pixelletter {
    fn clone(&self) -> (r: Pixelletter)
        ensures
            r@ == self@,
    {
        Pixelletter {
            version: self.version.clone(),
            auth: match &self.auth {
                Some(v) => Some(v.clone()),
                None => None,
            },
            command: match &self.command {
                Some(v) => Some(v.clone()),
                None => None,
            },
            response: match &self.response {
                Some(v) => Some(v.clone()),
                None => None,
            },
            costumer_id: clone_text(&self.costumer_id),
            costumer_data: match &self.costumer_data {
                Some(v) => Some(v.clone()),
                None => None,
            },
            costumer_credit: match &self.costumer_credit {
                Some(v) => Some(v.clone()),
                None => None,
            },
        }
    }
}

/// The account a request is made for, with the two consent flags and the
/// test-mode flag.
#[derive(Debug, PartialEq, Eq)]
pub struct Auth {
    pub email: String,
    pub password: String,
    pub agb: bool,
    pub widerrufsverzicht: bool,
    pub testmodus: bool,
    pub auth_ref: Option<Ref>,
}

/// What a [`Auth`] holds, as a mathematical value.
pub struct AuthView {
    pub email: Seq<char>,
    pub password: Seq<char>,
    pub agb: bool,
    pub widerrufsverzicht: bool,
    pub testmodus: bool,
    pub auth_ref: Option<RefView>,
}

impl DeepView for Auth {
    type V = AuthView;

    open spec fn deep_view(&self) -> AuthView {
        AuthView {
            email: self.email@,
            password: self.password@,
            agb: self.agb,
            widerrufsverzicht: self.widerrufsverzicht,
            testmodus: self.testmodus,
            auth_ref: self.auth_ref.deep_view(),
        }
    }
}

impl View for Auth {
    type V = AuthView;

    open spec fn view(&self) -> AuthView {
        self.deep_view()
    }
}

impl AuthView {
    /// The record with every text empty and every optional part absent.
    pub open spec fn blank() -> AuthView {
        AuthView {
            email: Seq::empty(),
            password: Seq::empty(),
            agb: false,
            widerrufsverzicht: false,
            testmodus: false,
            auth_ref: None,
        }
    }
}

impl Default for Auth {
    fn default() -> (r: Auth)
        ensures
            r@ == AuthView::blank(),
    {
        Auth {
            email: String::new(),
            password: String::new(),
            agb: false,
            widerrufsverzicht: false,
            testmodus: false,
            auth_ref: None,
        }
    }
}

impl Clone for Auth {
    fn clone(&self) -> (r: Auth)
        ensures
            r@ == self@,
    {
        Auth {
            email: self.email.clone(),
            password: self.password.clone(),
            agb: self.agb,
            widerrufsverzicht: self.widerrufsverzicht,
            testmodus: self.testmodus,
            auth_ref: match &self.auth_ref {
                Some(v) => Some(v.clone()),
                None => None,
            },
        }
    }
}

/// A free-text reference attached to the authentication.
#[derive(Debug, PartialEq, Eq)]
pub struct Ref {
    pub text: Option<String>,
}

/// What a [`Ref`] holds, as a mathematical value.
pub struct RefView {
    pub text: Option<Seq<char>>,
}

impl DeepView for Ref {
    type V = RefView;

    open spec fn deep_view(&self) -> RefView {
        RefView {
            text: self.text.deep_view(),
        }
    }
}

impl View for Ref {
    type V = RefView;

    open spec fn view(&self) -> RefView {
        self.deep_view()
    }
}

impl RefView {
    /// The record with every text empty and every optional part absent.
    pub open spec fn blank() -> RefView {
        RefView {
            text: None,
        }
    }
}

impl Default for Ref {
    fn default() -> (r: Ref)
        ensures
            r@ == RefView::blank(),
    {
        Ref {
            text: None,
        }
    }
}

impl Clone for Ref {
    fn clone(&self) -> (r: Ref)
        ensures
            r@ == self@,
    {
        Ref {
            text: clone_text(&self.text),
        }
    }
}

/// What the request asks for: an order or an account query.
#[derive(Debug, PartialEq, Eq)]
pub struct Command {
    pub order: Option<Order>,
    pub info: Option<Info>,
    pub id: Option<String>,
}

/// What a [`Command`] holds, as a mathematical value.
pub struct CommandView {
    pub order: Option<OrderView>,
    pub info: Option<InfoView>,
    pub id: Option<Seq<char>>,
}

impl DeepView for Command {
    type V = CommandView;

    open spec fn deep_view(&self) -> CommandView {
        CommandView {
            order: self.order.deep_view(),
            info: self.info.deep_view(),
            id: self.id.deep_view(),
        }
    }
}

impl View for Command {
    type V = CommandView;

    open spec fn view(&self) -> CommandView {
        self.deep_view()
    }
}

impl CommandView {
    /// The record with every text empty and every optional part absent.
    pub open spec fn blank() -> CommandView {
        CommandView {
            order: None,
            info: None,
            id: None,
        }
    }
}

impl Default for Command {
    fn default() -> (r: Command)
        ensures
            r@ == CommandView::blank(),
    {
        Command {
            order: None,
            info: None,
            id: None,
        }
    }
}

impl Clone for Command {
    fn clone(&self) -> (r: Command)
        ensures
            r@ == self@,
    {
        Command {
            order: match &self.order {
                Some(v) => Some(v.clone()),
                None => None,
            },
            info: match &self.info {
                Some(v) => Some(v.clone()),
                None => None,
            },
            id: clone_text(&self.id),
        }
    }
}

/// One letter or fax submission.
#[derive(Debug, PartialEq, Eq)]
pub struct Order {
    pub content_type: String,
    pub options: Options,
    pub text: Option<Text>,
}

/// What a [`Order`] holds, as a mathematical value.
pub struct OrderView {
    pub content_type: Seq<char>,
    pub options: OptionsView,
    pub text: Option<TextView>,
}

impl DeepView for Order {
    type V = OrderView;

    open spec fn deep_view(&self) -> OrderView {
        OrderView {
            content_type: self.content_type@,
            options: self.options@,
            text: self.text.deep_view(),
        }
    }
}

impl View for Order {
    type V = OrderView;

    open spec fn view(&self) -> OrderView {
        self.deep_view()
    }
}

impl OrderView {
    /// The record with every text empty and every optional part absent.
    pub open spec fn blank() -> OrderView {
        OrderView {
            content_type: Seq::empty(),
            options: OptionsView::blank(),
            text: None,
        }
    }
}

impl Default for Order {
    fn default() -> (r: Order)
        ensures
            r@ == OrderView::blank(),
    {
        Order {
            content_type: String::new(),
            options: Options::default(),
            text: None,
        }
    }
}

impl Clone for Order {
    fn clone(&self) -> (r: Order)
        ensures
            r@ == self@,
    {
        Order {
            content_type: self.content_type.clone(),
            options: self.options.clone(),
            text: match &self.text {
                Some(v) => Some(v.clone()),
                None => None,
            },
        }
    }
}

/// The delivery parameters of an order.
#[derive(Debug, PartialEq, Eq)]
pub struct Options {
    pub action: ActionType,
    pub transaction: Option<String>,
    pub control: String,
    pub fax: Option<String>,
    pub location: Option<Location>,
    pub destination: Option<String>,
    pub addoption: Vec<Addoption>,
    pub font: Option<String>,
    pub returnaddress: String,
}

/// What a [`Options`] holds, as a mathematical value.
pub struct OptionsView {
    pub action: ActionType,
    pub transaction: Option<Seq<char>>,
    pub control: Seq<char>,
    pub fax: Option<Seq<char>>,
    pub location: Option<Location>,
    pub destination: Option<Seq<char>>,
    pub addoption: Seq<Addoption>,
    pub font: Option<Seq<char>>,
    pub returnaddress: Seq<char>,
}

impl DeepView for Options {
    type V = OptionsView;

    open spec fn deep_view(&self) -> OptionsView {
        OptionsView {
            action: self.action,
            transaction: self.transaction.deep_view(),
            control: self.control@,
            fax: self.fax.deep_view(),
            location: self.location,
            destination: self.destination.deep_view(),
            addoption: self.addoption@,
            font: self.font.deep_view(),
            returnaddress: self.returnaddress@,
        }
    }
}

impl View for Options {
    type V = OptionsView;

    open spec fn view(&self) -> OptionsView {
        self.deep_view()
    }
}

impl OptionsView {
    /// The record with every text empty and every optional part absent.
    pub open spec fn blank() -> OptionsView {
        OptionsView {
            action: ActionType::Letter,
            transaction: None,
            control: Seq::empty(),
            fax: None,
            location: None,
            destination: None,
            addoption: Seq::empty(),
            font: None,
            returnaddress: Seq::empty(),
        }
    }
}

impl Default for Options {
    fn default() -> (r: Options)
        ensures
            r@ == OptionsView::blank(),
    {
        Options {
            action: ActionType::default(),
            transaction: None,
            control: String::new(),
            fax: None,
            location: None,
            destination: None,
            addoption: Vec::new(),
            font: None,
            returnaddress: String::new(),
        }
    }
}

impl Clone for Options {
    fn clone(&self) -> (r: Options)
        ensures
            r@ == self@,
    {
        Options {
            action: self.action,
            transaction: clone_text(&self.transaction),
            control: self.control.clone(),
            fax: clone_text(&self.fax),
            location: self.location,
            destination: clone_text(&self.destination),
            addoption: clone_addoptions(&self.addoption),
            font: clone_text(&self.font),
            returnaddress: self.returnaddress.clone(),
        }
    }
}

/// The addressee block and the body of a typed letter.
#[derive(Debug, PartialEq, Eq)]
pub struct Text {
    pub address: String,
    pub message: String,
}

/// What a [`Text`] holds, as a mathematical value.
pub struct TextView {
    pub address: Seq<char>,
    pub message: Seq<char>,
}

impl DeepView for Text {
    type V = TextView;

    open spec fn deep_view(&self) -> TextView {
        TextView {
            address: self.address@,
            message: self.message@,
        }
    }
}

impl View for Text {
    type V = TextView;

    open spec fn view(&self) -> TextView {
        self.deep_view()
    }
}

impl TextView {
    /// The record with every text empty and every optional part absent.
    pub open spec fn blank() -> TextView {
        TextView {
            address: Seq::empty(),
            message: Seq::empty(),
        }
    }
}

impl Default for Text {
    fn default() -> (r: Text)
        ensures
            r@ == TextView::blank(),
    {
        Text {
            address: String::new(),
            message: String::new(),
        }
    }
}

impl Clone for Text {
    fn clone(&self) -> (r: Text)
        ensures
            r@ == self@,
    {
        Text {
            address: self.address.clone(),
            message: self.message.clone(),
        }
    }
}

/// An account query.
#[derive(Debug, PartialEq, Eq)]
pub struct Info {
    pub account_info: AccountInfo,
}

/// What a [`Info`] holds, as a mathematical value.
pub struct InfoView {
    pub account_info: AccountInfoView,
}

impl DeepView for Info {
    type V = InfoView;

    open spec fn deep_view(&self) -> InfoView {
        InfoView {
            account_info: self.account_info@,
        }
    }
}

impl View for Info {
    type V = InfoView;

    open spec fn view(&self) -> InfoView {
        self.deep_view()
    }
}

impl InfoView {
    /// The record with every text empty and every optional part absent.
    pub open spec fn blank() -> InfoView {
        InfoView {
            account_info: AccountInfoView::blank(),
        }
    }
}

impl Default for Info {
    fn default() -> (r: Info)
        ensures
            r@ == InfoView::blank(),
    {
        Info {
            account_info: AccountInfo::default(),
        }
    }
}

impl Clone for Info {
    fn clone(&self) -> (r: Info)
        ensures
            r@ == self@,
    {
        Info {
            account_info: self.account_info.clone(),
        }
    }
}

/// Which account information is asked for.
#[derive(Debug, PartialEq, Eq)]
pub struct AccountInfo {
    pub account_info_type: String,
}

/// What a [`AccountInfo`] holds, as a mathematical value.
pub struct AccountInfoView {
    pub account_info_type: Seq<char>,
}

impl DeepView for AccountInfo {
    type V = AccountInfoView;

    open spec fn deep_view(&self) -> AccountInfoView {
        AccountInfoView {
            account_info_type: self.account_info_type@,
        }
    }
}

impl View for AccountInfo {
    type V = AccountInfoView;

    open spec fn view(&self) -> AccountInfoView {
        self.deep_view()
    }
}

impl AccountInfoView {
    /// The record with every text empty and every optional part absent.
    pub open spec fn blank() -> AccountInfoView {
        AccountInfoView {
            account_info_type: Seq::empty(),
        }
    }
}

impl Default for AccountInfo {
    fn default() -> (r: AccountInfo)
        ensures
            r@ == AccountInfoView::blank(),
    {
        AccountInfo {
            account_info_type: String::new(),
        }
    }
}

impl Clone for AccountInfo {
    fn clone(&self) -> (r: AccountInfo)
        ensures
            r@ == self@,
    {
        AccountInfo {
            account_info_type: self.account_info_type.clone(),
        }
    }
}

/// The gateway's answer.
#[derive(Debug, PartialEq, Eq)]
pub struct Response {
    pub result: ResponseResult,
    pub transaction: Option<String>,
}

/// What a [`Response`] holds, as a mathematical value.
pub struct ResponseView {
    pub result: ResponseResultView,
    pub transaction: Option<Seq<char>>,
}

impl DeepView for Response {
    type V = ResponseView;

    open spec fn deep_view(&self) -> ResponseView {
        ResponseView {
            result: self.result@,
            transaction: self.transaction.deep_view(),
        }
    }
}

impl View for Response {
    type V = ResponseView;

    open spec fn view(&self) -> ResponseView {
        self.deep_view()
    }
}

impl ResponseView {
    /// The record with every text empty and every optional part absent.
    pub open spec fn blank() -> ResponseView {
        ResponseView {
            result: ResponseResultView::blank(),
            transaction: None,
        }
    }
}

impl Default for Response {
    fn default() -> (r: Response)
        ensures
            r@ == ResponseView::blank(),
    {
        Response {
            result: ResponseResult::default(),
            transaction: None,
        }
    }
}

impl Clone for Response {
    fn clone(&self) -> (r: Response)
        ensures
            r@ == self@,
    {
        Response {
            result: self.result.clone(),
            transaction: clone_text(&self.transaction),
        }
    }
}

/// The result code of an answer and the gateway's message.
#[derive(Debug, PartialEq, Eq)]
pub struct ResponseResult {
    pub code: i32,
    pub msg: String,
}

/// What a [`ResponseResult`] holds, as a mathematical value.
pub struct ResponseResultView {
    pub code: i32,
    pub msg: Seq<char>,
}

impl DeepView for ResponseResult {
    type V = ResponseResultView;

    open spec fn deep_view(&self) -> ResponseResultView {
        ResponseResultView {
            code: self.code,
            msg: self.msg@,
        }
    }
}

impl View for ResponseResult {
    type V = ResponseResultView;

    open spec fn view(&self) -> ResponseResultView {
        self.deep_view()
    }
}

impl ResponseResultView {
    /// The record with every text empty and every optional part absent.
    pub open spec fn blank() -> ResponseResultView {
        ResponseResultView {
            code: 0,
            msg: Seq::empty(),
        }
    }
}

impl Default for ResponseResult {
    fn default() -> (r: ResponseResult)
        ensures
            r@ == ResponseResultView::blank(),
    {
        ResponseResult {
            code: 0,
            msg: String::new(),
        }
    }
}

impl Clone for ResponseResult {
    fn clone(&self) -> (r: ResponseResult)
        ensures
            r@ == self@,
    {
        ResponseResult {
            code: self.code,
            msg: self.msg.clone(),
        }
    }
}

/// The customer's master data.
#[derive(Debug, PartialEq, Eq)]
pub struct CostumerData {
    pub company: Company,
    pub sex: String,
    pub title: Title,
    pub firstname: String,
    pub lastname: String,
    pub street: String,
    pub pcode: String,
    pub city: String,
    pub country: String,
    pub tel_prefix: String,
    pub tel: String,
    pub fax_prefix: String,
    pub fax: String,
    pub mobil_prefix: String,
    pub mobil: String,
    pub email: String,
    pub payment_type: String,
}

/// What a [`CostumerData`] holds, as a mathematical value.
pub struct CostumerDataView {
    pub company: CompanyView,
    pub sex: Seq<char>,
    pub title: TitleView,
    pub firstname: Seq<char>,
    pub lastname: Seq<char>,
    pub street: Seq<char>,
    pub pcode: Seq<char>,
    pub city: Seq<char>,
    pub country: Seq<char>,
    pub tel_prefix: Seq<char>,
    pub tel: Seq<char>,
    pub fax_prefix: Seq<char>,
    pub fax: Seq<char>,
    pub mobil_prefix: Seq<char>,
    pub mobil: Seq<char>,
    pub email: Seq<char>,
    pub payment_type: Seq<char>,
}

impl DeepView for CostumerData {
    type V = CostumerDataView;

    open spec fn deep_view(&self) -> CostumerDataView {
        CostumerDataView {
            company: self.company@,
            sex: self.sex@,
            title: self.title@,
            firstname: self.firstname@,
            lastname: self.lastname@,
            street: self.street@,
            pcode: self.pcode@,
            city: self.city@,
            country: self.country@,
            tel_prefix: self.tel_prefix@,
            tel: self.tel@,
            fax_prefix: self.fax_prefix@,
            fax: self.fax@,
            mobil_prefix: self.mobil_prefix@,
            mobil: self.mobil@,
            email: self.email@,
            payment_type: self.payment_type@,
        }
    }
}

impl View for CostumerData {
    type V = CostumerDataView;

    open spec fn view(&self) -> CostumerDataView {
        self.deep_view()
    }
}

impl CostumerDataView {
    /// The record with every text empty and every optional part absent.
    pub open spec fn blank() -> CostumerDataView {
        CostumerDataView {
            company: CompanyView::blank(),
            sex: Seq::empty(),
            title: TitleView::blank(),
            firstname: Seq::empty(),
            lastname: Seq::empty(),
            street: Seq::empty(),
            pcode: Seq::empty(),
            city: Seq::empty(),
            country: Seq::empty(),
            tel_prefix: Seq::empty(),
            tel: Seq::empty(),
            fax_prefix: Seq::empty(),
            fax: Seq::empty(),
            mobil_prefix: Seq::empty(),
            mobil: Seq::empty(),
            email: Seq::empty(),
            payment_type: Seq::empty(),
        }
    }
}

impl Default for CostumerData {
    fn default() -> (r: CostumerData)
        ensures
            r@ == CostumerDataView::blank(),
    {
        CostumerData {
            company: Company::default(),
            sex: String::new(),
            title: Title::default(),
            firstname: String::new(),
            lastname: String::new(),
            street: String::new(),
            pcode: String::new(),
            city: String::new(),
            country: String::new(),
            tel_prefix: String::new(),
            tel: String::new(),
            fax_prefix: String::new(),
            fax: String::new(),
            mobil_prefix: String::new(),
            mobil: String::new(),
            email: String::new(),
            payment_type: String::new(),
        }
    }
}

impl Clone for CostumerData {
    fn clone(&self) -> (r: CostumerData)
        ensures
            r@ == self@,
    {
        CostumerData {
            company: self.company.clone(),
            sex: self.sex.clone(),
            title: self.title.clone(),
            firstname: self.firstname.clone(),
            lastname: self.lastname.clone(),
            street: self.street.clone(),
            pcode: self.pcode.clone(),
            city: self.city.clone(),
            country: self.country.clone(),
            tel_prefix: self.tel_prefix.clone(),
            tel: self.tel.clone(),
            fax_prefix: self.fax_prefix.clone(),
            fax: self.fax.clone(),
            mobil_prefix: self.mobil_prefix.clone(),
            mobil: self.mobil.clone(),
            email: self.email.clone(),
            payment_type: self.payment_type.clone(),
        }
    }
}

/// The customer's company; the gateway defines no content for it.
#[derive(Debug, PartialEq, Eq)]
pub struct Company {}

/// What a [`Company`] holds, as a mathematical value.
pub struct CompanyView {}

impl DeepView for Company {
    type V = CompanyView;

    open spec fn deep_view(&self) -> CompanyView {
        CompanyView {}
    }
}

impl View for Company {
    type V = CompanyView;

    open spec fn view(&self) -> CompanyView {
        self.deep_view()
    }
}

impl CompanyView {
    /// The record with every text empty and every optional part absent.
    pub open spec fn blank() -> CompanyView {
        CompanyView {}
    }
}

impl Default for Company {
    fn default() -> (r: Company)
        ensures
            r@ == CompanyView::blank(),
    {
        Company {}
    }
}

impl Clone for Company {
    fn clone(&self) -> (r: Company)
        ensures
            r@ == self@,
    {
        Company {}
    }
}

/// The customer's title; the gateway defines no content for it.
#[derive(Debug, PartialEq, Eq)]
pub struct Title {}

/// What a [`Title`] holds, as a mathematical value.
pub struct TitleView {}

impl DeepView for Title {
    type V = TitleView;

    open spec fn deep_view(&self) -> TitleView {
        TitleView {}
    }
}

impl View for Title {
    type V = TitleView;

    open spec fn view(&self) -> TitleView {
        self.deep_view()
    }
}

impl TitleView {
    /// The record with every text empty and every optional part absent.
    pub open spec fn blank() -> TitleView {
        TitleView {}
    }
}

impl Default for Title {
    fn default() -> (r: Title)
        ensures
            r@ == TitleView::blank(),
    {
        Title {}
    }
}

impl Clone for Title {
    fn clone(&self) -> (r: Title)
        ensures
            r@ == self@,
    {
        Title {}
    }
}

/// The customer's credit.
#[derive(Debug, PartialEq, Eq)]
pub struct CostumerCredit {
    pub currency: String,
}

/// What a [`CostumerCredit`] holds, as a mathematical value.
pub struct CostumerCreditView {
    pub currency: Seq<char>,
}

impl DeepView for CostumerCredit {
    type V = CostumerCreditView;

    open spec fn deep_view(&self) -> CostumerCreditView {
        CostumerCreditView {
            currency: self.currency@,
        }
    }
}

impl View for CostumerCredit {
    type V = CostumerCreditView;

    open spec fn view(&self) -> CostumerCreditView {
        self.deep_view()
    }
}

impl CostumerCreditView {
    /// The record with every text empty and every optional part absent.
    pub open spec fn blank() -> CostumerCreditView {
        CostumerCreditView {
            currency: Seq::empty(),
        }
    }
}

impl Default for CostumerCredit {
    fn default() -> (r: CostumerCredit)
        ensures
            r@ == CostumerCreditView::blank(),
    {
        CostumerCredit {
            currency: String::new(),
        }
    }
}

impl Clone for CostumerCredit {
    fn clone(&self) -> (r: CostumerCredit)
        ensures
            r@ == self@,
    {
        CostumerCredit {
            currency: self.currency.clone(),
        }
    }
}

/// A copy of an optional text.
pub fn clone_text(text: &Option<String>) -> (r: Option<String>)
    ensures
        r.deep_view() == text.deep_view(),
{
    match text {
        Some(t) => Some(t.clone()),
        None => None,
    }
}

/// A copy of a list of add-ons.
pub fn clone_addoptions(values: &Vec<Addoption>) -> (r: Vec<Addoption>)
    ensures
        r@ == values@,
{
    let mut out: Vec<Addoption> = Vec::new();
    let mut i: usize = 0;
    while i < values.len()
        invariant
            0 <= i <= values.len(),
            out@ == values@.take(i as int),
        decreases values.len() - i,
    {
        out.push(values[i]);
        i = i + 1;
    }
    proof {
        assert(values@.take(values.len() as int) =~= values@);
    }
    out
}

} // verus!
