//! Payment providers: the messages of the Autosales platform and of the
//! mock provider, and the decisions their clients make.
use vstd::prelude::*;
use vstd::string::*;

use crate::text::{decimal_text, format_i64, int_text, string_of};
use crate::values::{format_uuid, uuid_text};

verus! {

broadcast use vstd::string::group_string_axioms;

/// Data of the first authentication step: a temporary token.
#[derive(Debug)]
pub struct AutosalesPlatformAuthStep1Data {
    pub temp: String,
}

/// Data of the second authentication step: the session token.
#[derive(Debug)]
pub struct AutosalesPlatformAuthStep2Data {
    pub token: String,
}

/// First authentication step: login and password.
#[derive(Debug)]
pub struct AutosalesPlatformAuthStep1Request {
    pub version: i64,
    pub login: String,
    pub password: String,
}

/// Second authentication step: the temporary token and a one-time code.
#[derive(Debug)]
pub struct AutosalesPlatformAuthStep2Request {
    pub version: i64,
    pub temp: String,
    pub key: String,
}

/// The bank of payment requisites.
#[derive(Debug)]
pub struct AutosalesPlatformOrderInitializedDataRequisiteBank {
    pub name: String,
}

/// The holder of payment requisites.
#[derive(Debug)]
pub struct AutosalesPlatformOrderInitializedDataRequisitePeople {
    pub surname: String,
    pub name: String,
    pub patronymic: String,
}

/// The requisites shown with an order's status.
#[derive(Debug)]
pub struct AutosalesPlatformOrderStatusRequisiteData {
    pub country: String,
    pub bank_img: String,
    pub bank_name: String,
    pub currency: String,
    pub emoji: String,
    pub value: String,
    /// The requisite's type (`type` on the wire).
    pub kind: String,
}

/// The states of an order on the Autosales platform.
#[derive(Clone, Copy, Debug, PartialEq, Eq, Structural)]
pub enum AutosalesPlatformOrderStatusType {
    MerchInitialized,
    TraderSuccess,
    MerchSuccess,
    SystemTimerEndMerchProcessSuccess,
    SystemTimerEndMerchCheckDownSuccess,
    AdminAppealSuccess,
    TraderCheckQuery,
    TraderAppeal,
    SystemTimerEndMerchInitializedCancel,
    OrderCancel,
    MerchCancel,
    SystemTimerEndTraderCheckQueryCancel,
    AdminAppealCancel,
}

/// The status of an order.
#[derive(Debug)]
pub struct AutosalesPlatformOrderStatus {
    pub token: String,
    pub status: AutosalesPlatformOrderStatusType,
    pub appeal_fake_status: Option<String>,
    pub appeal_url_file: Option<String>,
    pub requisite_data: AutosalesPlatformOrderStatusRequisiteData,
    pub token_link: Option<String>,
    pub amount_order_requested: String,
    pub amount_order_charged: String,
    pub datetime_created_cosmetics: String,
    pub datetime_created_datetime: String,
}

/// The data of an order-status answer.
#[derive(Debug)]
pub struct AutosalesPlatformOrderStatusData {
    pub status: AutosalesPlatformOrderStatus,
}

/// How a customer pays (`1` for a card, `2` for SBP on the wire).
#[derive(Clone, Copy, Debug, PartialEq, Eq, Structural)]
pub enum AutosalesPlatformPaymentMethod {
    Card,
    SBP,
}

/// A request to open a payment order.
#[derive(Debug)]
pub struct AutosalesPlatformInitializeOrderRequest {
    pub amount: i64,
    pub id_pay_method: AutosalesPlatformPaymentMethod,
}

/// A payment receipt sent for an order.
#[derive(Debug)]
pub struct AutosalesPlatformSendReceiptRequest {
    pub object_token: String,
    pub url_file: String,
}

/// A request about one order, named by its token.
#[derive(Debug)]
pub struct AutosalesPlatformObjectTokenPayload {
    pub object_token: String,
}

/// An authenticated request: the API version, the session token and the payload.
#[derive(Debug)]
pub struct AutosalesPlatformRequest<T> {
    pub version: String,
    pub user_token: String,
    pub payload: T,
}

/// The calls the client makes to the Autosales platform.
#[derive(Clone, Copy, Debug, PartialEq, Eq, Structural)]
pub enum AutosalesOperation {
    AuthStep1,
    AuthStep2,
    InitOrder,
    CancelOrder,
    ProcessOrder,
    SendReceipt,
    GetOrderStatus,
}

/// The endpoint of each call.
pub open spec fn operation_endpoint(op: AutosalesOperation) -> Seq<char> {
    match op {
        AutosalesOperation::AuthStep1 => "api/method/client/auth/step1"@,
        AutosalesOperation::AuthStep2 => "api/method/client/auth/step2"@,
        AutosalesOperation::InitOrder => "api/method/merch/payin/order_initialized/standart"@,
        AutosalesOperation::CancelOrder => "api/method/merch/payin/order_cancel"@,
        AutosalesOperation::ProcessOrder => "api/method/merch/payin/order_process"@,
        AutosalesOperation::SendReceipt => "api/method/merch/payin/order_check_down"@,
        AutosalesOperation::GetOrderStatus => "api/method/merch/payin/order_get_status"@,
    }
}

/// The API version each call is made with.
pub open spec fn operation_version(op: AutosalesOperation) -> i64 {
    match op {
        AutosalesOperation::InitOrder => 3,
        AutosalesOperation::SendReceipt => 2,
        _ => 1,
    }
}

impl AutosalesOperation {
    /// The endpoint of the call.
    pub fn endpoint(self) -> (r: &'static str)
        ensures
            r@ == operation_endpoint(self),
    {
        match self {
            AutosalesOperation::AuthStep1 => "api/method/client/auth/step1",
            AutosalesOperation::AuthStep2 => "api/method/client/auth/step2",
            AutosalesOperation::InitOrder => "api/method/merch/payin/order_initialized/standart",
            AutosalesOperation::CancelOrder => "api/method/merch/payin/order_cancel",
            AutosalesOperation::ProcessOrder => "api/method/merch/payin/order_process",
            AutosalesOperation::SendReceipt => "api/method/merch/payin/order_check_down",
            AutosalesOperation::GetOrderStatus => "api/method/merch/payin/order_get_status",
        }
    }

    /// The API version of the call.
    pub fn version(self) -> (r: i64)
        ensures
            r == operation_version(self),
    {
        match self {
            AutosalesOperation::InitOrder => 3,
            AutosalesOperation::SendReceipt => 2,
            _ => 1,
        }
    }
}

/// The address of an endpoint: the base URL, a slash, the endpoint.
pub fn endpoint_url(base: &str, endpoint: &str) -> (r: String)
    ensures
        r@ == base@ + "/"@ + endpoint@,
{
    let mut r = string_of(base);
    r.append("/");
    r.append(endpoint);
    r
}

/// Wraps a payload into an authenticated request of the given API version.
pub fn frame_request<T>(user_token: String, version: i64, payload: T) -> (r: AutosalesPlatformRequest<T>)
    ensures
        r.version@ == int_text(version as int),
        r.user_token == user_token,
        r.payload == payload,
{
    AutosalesPlatformRequest { version: format_i64(version), user_token, payload }
}

/// A session token of the platform and when it stops being used, in
/// microseconds since the Unix epoch.
#[derive(Debug)]
pub struct AutosalesToken {
    pub token: String,
    pub expires_at: i64,
}

/// How long a new session token is used: two days, in microseconds (the
/// platform keeps it three days after the last request).
pub const TOKEN_LIFETIME_MICROS: i64 = 172_800_000_000;

/// The cached token, while it has not expired at `now`.
pub fn cached_token(cache: &Option<AutosalesToken>, now: i64) -> (r: Option<String>)
    ensures
        match cache {
            Some(t) => if t.expires_at > now {
                r == Some(t.token)
            } else {
                r is None
            },
            None => r is None,
        },
{
    match cache {
        Some(t) => if t.expires_at > now {
            Some(t.token.clone())
        } else {
            None
        },
        None => None,
    }
}

/// The cache entry of a token obtained at `now`.
pub fn fresh_token(token: String, now: i64) -> (r: AutosalesToken)
    requires
        now <= i64::MAX - TOKEN_LIFETIME_MICROS,
    ensures
        r.token == token,
        r.expires_at == now + TOKEN_LIFETIME_MICROS,
{
    AutosalesToken { token, expires_at: now + TOKEN_LIFETIME_MICROS }
}


/// The bytes a base32 secret (RFC 4648, no padding) decodes to, if it decodes.
pub uninterp spec fn base32_secret_bytes(encoded: Seq<char>) -> Option<Seq<u8>>;

/// The text of `totp_rs`'s error for a secret that is no base32.
pub open spec fn secret_decode_error() -> Seq<char> {
    "Could not decode base32 secret."@
}

/// The text of `totp_rs`'s error for a secret of too few bytes: it gives the
/// secret's size in bits.
pub open spec fn secret_size_error(bytes: nat) -> Seq<char> {
    "The length of the shared secret MUST be at least 128 bits. "@ + decimal_text(bytes * 8)
        + " bits is not enough"@
}

/// Decodes a base32 secret (`totp_rs::Secret::Encoded(..).to_bytes()`); the
/// error is the text of the decoding error (`SecretParseError::ParseBase32`).
#[verifier::external_body]
fn decode_totp_secret(encoded: &str) -> (r: Result<Vec<u8>, String>)
    ensures
        match base32_secret_bytes(encoded@) {
            Some(b) => r matches Ok(v) && v@ == b,
            None => r matches Err(e) && e@ == secret_decode_error(),
        },
{
    totp_rs::Secret::Encoded(encoded.to_string()).to_bytes().map_err(|e| e.to_string())
}

/// All characters are ASCII digits.
pub open spec fn ascii_digits(s: Seq<char>) -> bool {
    forall|k: int| 0 <= k < s.len() ==> '0' <= #[trigger] s[k] && s[k] <= '9'
}

/// The one-time code of a SHA-1 TOTP of 6 digits with 30-second steps, for
/// the secret `secret` at time step `step` (the Unix time in seconds divided
/// by 30): `totp_rs::TOTP::generate`.
pub uninterp spec fn totp_sha1_code(secret: Seq<u8>, step: int) -> Seq<char>;

/// The code of the current 30-second step of a SHA-1 TOTP of 6 digits, one
/// step of skew and 30-second steps: `totp_rs::TOTP::new`, which refuses a
/// secret shorter than 16 bytes with its size in bits, then
/// `TOTP::generate_current`, which reads the clock, fails only on a clock
/// before the epoch, and writes the code of the secret for the step of that
/// time (the seconds since the epoch, a `u64`, divided by 30), zero-padded
/// to the 6 digits. Which step the clock gives is left unsaid.
#[verifier::external_body]
fn current_totp_code(secret: Vec<u8>) -> (r: Result<String, String>)
    ensures
        match r {
            Ok(code) => {
                &&& secret@.len() >= 16
                &&& exists|step: int|
                    0 <= step <= u64::MAX / 30 && code@ == #[trigger] totp_sha1_code(secret@, step)
                &&& code@.len() == 6
                &&& ascii_digits(code@)
            },
            Err(e) => secret@.len() < 16 ==> e@ == secret_size_error(secret@.len()),
        },
        secret@.len() < 16 ==> r is Err,
{
    let totp = totp_rs::TOTP::new(totp_rs::Algorithm::SHA1, 6, 1, 30, secret)
        .map_err(|e| e.to_string())?;
    totp.generate_current().map_err(|e| e.to_string())
}

/// The login data of the Autosales platform.
#[derive(Debug)]
pub struct AutosalesCredentials {
    pub url: String,
    pub login: String,
    pub password: String,
    pub two_fa: String,
}

impl AutosalesCredentials {
    /// The one-time code of the second authentication step, from the base32
    /// two-factor secret: refused, with `totp_rs`'s message, when the secret
    /// does not decode or is shorter than 16 bytes; else the six-digit TOTP
    /// code of the decoded secret for the current time step. Which step, and
    /// whether the clock can be read (it fails only on a clock before the
    /// epoch), rest on the time.
    pub fn generate_2fa_code(&self) -> (r: Result<String, String>)
        ensures
            base32_secret_bytes(self.two_fa@) is None ==> (r matches Err(e) && e@
                == secret_decode_error()),
            base32_secret_bytes(self.two_fa@) matches Some(b) ==> (b.len() < 16 ==> (r matches Err(
                e,
            ) && e@ == secret_size_error(b.len()))),
            r matches Ok(code) ==> {
                &&& base32_secret_bytes(self.two_fa@) matches Some(b)
                &&& b.len() >= 16
                &&& exists|step: int|
                    0 <= step <= u64::MAX / 30 && code@ == #[trigger] totp_sha1_code(b, step)
                &&& code@.len() == 6
                &&& ascii_digits(code@)
            },
    {
        let secret = decode_totp_secret(self.two_fa.as_str())?;
        current_totp_code(secret)
    }

    /// The first authentication step, with these credentials.
    pub fn auth_step_1_request(&self) -> (r: AutosalesPlatformAuthStep1Request)
        ensures
            r.version == 1,
            r.login == self.login,
            r.password == self.password,
    {
        AutosalesPlatformAuthStep1Request {
            version: 1,
            login: self.login.clone(),
            password: self.password.clone(),
        }
    }
}

/// The states of an invoice of the mock provider.
#[derive(Clone, Copy, Debug, PartialEq, Eq, Structural)]
pub enum MockProviderInvoiceStatus {
    Failed,
    Pending,
    Completed,
    Cancelled,
}

/// The status answer of the mock provider.
#[derive(Debug)]
pub struct MockProviderInvoiceStatusResponse {
    pub status: MockProviderInvoiceStatus,
}

/// An invoice event the mock provider sends; UUIDs by their 128-bit value
/// and the amount as the JSON number it was sent as.
#[derive(Debug)]
pub struct MockProviderInvoiceWebhookPayload {
    pub event: String,
    pub order_id: u128,
    pub invoice_id: u128,
    pub amount: serde_json::Number,
    pub status: MockProviderInvoiceStatus,
}

/// A webhook of the mock provider: a completed invoice pays its order;
/// any other status is refused.
pub fn handle_mock_webhook(req: &MockProviderInvoiceWebhookPayload) -> (r: Result<u128, String>)
    ensures
        req.status == MockProviderInvoiceStatus::Completed ==> r == Ok::<u128, String>(
            req.order_id,
        ),
        req.status != MockProviderInvoiceStatus::Completed ==> (r matches Err(m) && m@
            == "Mock payments provider: received unexpected event type"@),
{
    if req.status == MockProviderInvoiceStatus::Completed {
        Ok(req.order_id)
    } else {
        Err(string_of("Mock payments provider: received unexpected event type"))
    }
}

/// How the Autosales client begins its error messages.
pub open spec fn autosales_prefix() -> Seq<char> {
    "[Autosales platform payments provider] "@
}

/// How the mock provider's client begins its error messages.
pub open spec fn mock_prefix() -> Seq<char> {
    "Mock payments provider: "@
}

/// Which client a message is about, by the text it begins with.
#[derive(Clone, Copy, Debug, PartialEq, Eq, Structural)]
pub enum ProviderClient {
    Autosales,
    Mock,
}

/// The text the client's messages begin with.
pub open spec fn client_prefix(c: ProviderClient) -> Seq<char> {
    match c {
        ProviderClient::Autosales => autosales_prefix(),
        ProviderClient::Mock => mock_prefix(),
    }
}

fn prefix_of(c: ProviderClient) -> (r: String)
    ensures
        r@ == client_prefix(c),
{
    match c {
        ProviderClient::Autosales => string_of("[Autosales platform payments provider] "),
        ProviderClient::Mock => string_of("Mock payments provider: "),
    }
}

/// The message of a request that could not be sent or whose body could not
/// be read: the client's prefix and the error's text.
pub fn transport_failure(c: ProviderClient, error: &str) -> (r: String)
    ensures
        r@ == client_prefix(c) + error@,
{
    let mut r = prefix_of(c);
    r.append(error);
    r
}

/// What is done with a provider's answer, once its body is read.
#[derive(Debug)]
pub enum ResponseCheck {
    /// A success status: the body is read as JSON.
    ParseBody,
    /// Any other status: the request failed with this message.
    Failed(String),
}

/// The message of an answer with a status that is not a success.
pub open spec fn failed_status_message(
    c: ProviderClient,
    url: Seq<char>,
    status: Seq<char>,
    body: Seq<char>,
) -> Seq<char> {
    client_prefix(c) + "Request to "@ + url + " failed with status code: "@ + status + ", body: "@
        + body
}

/// Decides on an answer by its status code (a success is 200 to 299); a
/// failed request's message names the URL, the status as written (such as
/// `404 Not Found`) and the body.
pub fn check_response(c: ProviderClient, url: &str, status_code: u16, status: &str, body: &str) -> (r:
    ResponseCheck)
    ensures
        200 <= status_code <= 299 ==> r is ParseBody,
        !(200 <= status_code <= 299) ==> (r matches ResponseCheck::Failed(m) && m@
            == failed_status_message(c, url@, status@, body@)),
{
    if 200 <= status_code && status_code <= 299 {
        return ResponseCheck::ParseBody;
    }
    let mut m = prefix_of(c);
    m.append("Request to ");
    m.append(url);
    m.append(" failed with status code: ");
    m.append(status);
    m.append(", body: ");
    m.append(body);
    ResponseCheck::Failed(m)
}

/// The message of a successful answer whose body is not the JSON expected.
pub fn parse_failure(c: ProviderClient, url: &str, status: &str, body: &str, error: &str) -> (r:
    String)
    ensures
        r@ == client_prefix(c) + "Failed to parse response from "@ + url@
            + " failed with status code: "@ + status@ + ", body: "@ + body@ + ", error: "@
            + error@,
{
    let mut m = prefix_of(c);
    m.append("Failed to parse response from ");
    m.append(url);
    m.append(" failed with status code: ");
    m.append(status);
    m.append(", body: ");
    m.append(body);
    m.append(", error: ");
    m.append(error);
    m
}

/// The endpoint of the status of a mock invoice: `status/` and the invoice's UUID.
pub fn invoice_status_endpoint(invoice_id: u128) -> (r: String)
    ensures
        r@ == "status/"@ + uuid_text(invoice_id),
{
    let mut r = string_of("status/");
    let id = format_uuid(invoice_id);
    r.append(id.as_str());
    r
}

} // verus!
