//! The platform's gateway-agnostic data model: canonical statuses, credentials,
//! operation data of each flow, errors and the wire request.
use vstd::prelude::*;

verus! {

/// Canonical outcome of a payment attempt.
#[derive(Debug, Clone, Copy, PartialEq, Eq, Structural)]
pub enum AttemptStatus {
    Pending,
    Authorized,
    CaptureInitiated,
    Charged,
    CaptureFailed,
    Voided,
    VoidFailed,
    AuthorizationFailed,
    Failure,
}

/// Canonical outcome of a refund.
#[derive(Debug, Clone, Copy, PartialEq, Eq, Structural)]
pub enum RefundStatus {
    Pending,
    Success,
    Failure,
}


/// Why a call of the connector failed.
#[derive(Debug, Clone, Copy, PartialEq, Eq, Structural)]
pub enum ConnectorError {
    /// The credentials are not of the single supported shape (a header key).
    AuthTypeError,
    /// A field that the request needs is absent from the operation data.
    RequiredFieldMissing(RequiredField),
    /// The capture method is neither automatic nor manual.
    UnsupportedCaptureMethod,
    /// The payment instrument is neither a card nor the supported wallet.
    UnsupportedPaymentMethod,
    /// A field could not be formatted, or the body could not be encoded.
    RequestEncodingFailed,
    /// The response bytes do not have the expected shape.
    ResponseDeserializationFailed,
    /// The response lacks a mandatory fragment or carries an outcome that the
    /// flow cannot take.
    ResponseHandlingFailed,
    /// The flow needs a transaction id that an earlier call returned.
    MissingConnectorTransactionID,
    /// This connector takes no inbound webhooks.
    WebhooksNotImplemented,
}

/// The field whose absence made a request impossible to build.
#[derive(Debug, Clone, Copy, PartialEq, Eq, Structural)]
pub enum RequiredField {
    BillingAddress,
    FirstName,
    LastName,
    Address1,
    City,
    Zip,
    Country,
    Phone,
}

/// The credential configurations that the platform may hand a connector.
#[derive(Debug, Clone)]
pub enum ConnectorAuthType {
    HeaderKey { api_key: String },
    BodyKey { api_key: String, key1: String },
    SignatureKey { api_key: String, key1: String, api_secret: String },
}

/// When the funds of an authorisation are captured.
#[derive(Debug, Clone, Copy, PartialEq, Eq, Structural)]
pub enum CaptureMethod {
    Automatic,
    Manual,
    ManualMultiple,
    Scheduled,
}

/// Card data as the platform holds it.
#[derive(Debug, Clone)]
pub struct CardDetails {
    pub card_number: String,
    /// Two-digit month.
    pub card_exp_month: String,
    /// The year, of which the last two digits are sent.
    pub card_exp_year: String,
    pub card_cvc: String,
}

/// The issuer of a tokenised wallet payment.
#[derive(Debug, Clone, Copy, PartialEq, Eq, Structural)]
pub enum WalletIssuer {
    GooglePay,
    ApplePay,
    PayPal,
}

/// A tokenised wallet payload.
#[derive(Debug, Clone)]
pub struct WalletData {
    pub issuer: WalletIssuer,
    pub token: String,
}

/// The payment instrument of an operation.
#[derive(Debug, Clone)]
pub enum PaymentMethodData {
    Card(CardDetails),
    Wallet(WalletData),
    BankTransfer,
    PayLater,
}

/// A billing address with its contact fields.
#[derive(Debug, Clone)]
pub struct Address {
    pub first_name: Option<String>,
    pub last_name: Option<String>,
    pub line1: Option<String>,
    pub line2: Option<String>,
    pub city: Option<String>,
    pub state: Option<String>,
    pub zip: Option<String>,
    pub country: Option<String>,
    pub phone: Option<String>,
}

/// Operation data of an authorisation. Amounts are in minor units.
#[derive(Debug, Clone)]
pub struct PaymentsAuthorizeData {
    pub amount: i64,
    pub currency: String,
    pub capture_method: Option<CaptureMethod>,
    pub payment_method_data: PaymentMethodData,
    pub billing: Option<Address>,
}

/// Operation data of a verification, which charges nothing.
#[derive(Debug, Clone)]
pub struct VerifyRequestData {
    pub currency: String,
    pub payment_method_data: PaymentMethodData,
    pub billing: Option<Address>,
}

/// Operation data of a capture.
#[derive(Debug, Clone)]
pub struct PaymentsCaptureData {
    pub amount_to_capture: i64,
    pub currency: String,
    pub connector_transaction_id: Option<String>,
}

/// Operation data of a void.
#[derive(Debug, Clone)]
pub struct PaymentsCancelData {
    pub connector_transaction_id: Option<String>,
    pub cancellation_reason: Option<String>,
}

/// Operation data of a payment status query.
#[derive(Debug, Clone)]
pub struct PaymentsSyncData {
    pub connector_transaction_id: Option<String>,
}

/// Operation data of a refund and of a refund status query.
#[derive(Debug, Clone)]
pub struct RefundsData {
    pub refund_amount: i64,
    pub currency: String,
    /// The id of the payment that is refunded.
    pub connector_transaction_id: Option<String>,
    /// The id that the processor gave the refund.
    pub connector_refund_id: Option<String>,
}

/// The seven flows and the data of each.
#[derive(Debug, Clone)]
pub enum Operation {
    Authorize(PaymentsAuthorizeData),
    Verify(VerifyRequestData),
    Capture(PaymentsCaptureData),
    Void(PaymentsCancelData),
    PaymentSync(PaymentsSyncData),
    RefundExecute(RefundsData),
    RefundSync(RefundsData),
}

/// What the orchestrator hands the connector for one call.
#[derive(Debug, Clone)]
pub struct RouterData {
    pub connector_auth_type: ConnectorAuthType,
    pub request: Operation,
}

/// Resolved settings of this connector.
#[derive(Debug, Clone)]
pub struct ConnectorParams {
    /// The processor's base URL, ending in `/`.
    pub base_url: String,
}

/// Resolved settings of the connectors.
#[derive(Debug, Clone)]
pub struct Connectors {
    pub nmi: ConnectorParams,
}

/// A raw reply of the transport.
#[derive(Debug, Clone)]
pub struct Response {
    pub status_code: u16,
    pub response: Vec<u8>,
}

/// The generic error object that stands for a reply without a usable body.
#[derive(Debug, Clone)]
pub struct ErrorResponse {
    pub status_code: u16,
    pub code: String,
    pub message: String,
    pub reason: Option<String>,
}

/// HTTP method of a wire request.
#[derive(Debug, Clone, Copy, PartialEq, Eq, Structural)]
pub enum Method {
    Post,
}

/// A request ready for the transport.
#[derive(Debug, Clone)]
pub struct Request {
    pub method: Method,
    pub url: String,
    pub headers: Vec<(String, String)>,
    pub body: String,
}

/// The canonical result of a flow.
#[derive(Debug, Clone)]
pub enum FlowOutcome {
    Payment { status: AttemptStatus, resource_id: String },
    Refund { refund_status: RefundStatus, connector_refund_id: String },
}

/// What the orchestrator does after a redirect back from the processor.
#[derive(Debug, Clone, Copy, PartialEq, Eq, Structural)]
pub enum CallConnectorAction {
    Trigger,
    Avoid,
}

/// The view of a list of string pairs.
pub open spec fn pairs_view(v: Seq<(String, String)>) -> Seq<(Seq<char>, Seq<char>)> {
    v.map_values(|p: (String, String)| (p.0@, p.1@))
}

/// The view of an optional string.
pub open spec fn opt_view(o: Option<String>) -> Option<Seq<char>> {
    match o {
        Some(s) => Some(s@),
        None => None,
    }
}


/// What a canonical result says, as text.
pub enum OutcomeView {
    Payment(AttemptStatus, Seq<char>),
    Refund(RefundStatus, Seq<char>),
}

impl View for FlowOutcome {
    type V = OutcomeView;

    open spec fn view(&self) -> OutcomeView {
        match self {
            FlowOutcome::Payment { status, resource_id } => OutcomeView::Payment(*status, resource_id@),
            FlowOutcome::Refund { refund_status, connector_refund_id } => OutcomeView::Refund(
                *refund_status,
                connector_refund_id@,
            ),
        }
    }
}

/// An inbound webhook call.
#[derive(Debug, Clone)]
pub struct IncomingWebhookRequestDetails {
    pub headers: Vec<(String, String)>,
    pub body: Vec<u8>,
}

/// The event that an inbound webhook reports.
#[derive(Debug, Clone, Copy, PartialEq, Eq, Structural)]
pub enum IncomingWebhookEvent {
    PaymentIntentSuccess,
    EventNotSupported,
}


/// `serde_json::Value`, the type of a webhook's resource object; carried
/// through unopened.
#[verifier::external_type_specification]
#[verifier::external_body]
pub struct ExJsonValue(serde_json::Value);

} // verus!
