//! The connector: one dispatch table over the seven flows, binding each to its
//! request builder, endpoint and reply shape.
use vstd::prelude::*;
use crate::form::{decode_pairs, encode_pairs, form_decoded, form_encoded, lookup, push_field};
use crate::status::{
    attempt_status_of, condition_attempt_status, condition_of, condition_refund_status,
    echoed_type, flat_form_valid, flat_refund_status, flat_status, query_condition,
    query_transaction_id, refund_status_of, response_code, Condition, GenericResponse,
    QueryResponse, Response as ResponseCode,
};
use crate::text::body_text;
use crate::transformers::{
    authorize_fields, authorize_type, cancel_fields, capture_fields, refund_fields, sync_fields,
    header_key, verify_fields, Fields, NmiCancelRequest, NmiCaptureRequest, NmiPaymentsRequest,
    NmiRefundRequest, NmiSyncRequest, TransactionType,
};
use crate::types::{
    pairs_view, AttemptStatus, CallConnectorAction, CaptureMethod, PaymentMethodData, WalletIssuer, ConnectorError, Connectors, ErrorResponse,
    FlowOutcome, IncomingWebhookEvent, IncomingWebhookRequestDetails, Method, Operation,
    OutcomeView, RefundStatus, Request, Response, RouterData,
};

verus! {

/// The code of an error response that carries no processor error code.
pub const NO_ERROR_CODE: &'static str = "No error code";

/// The message of an error response that carries no processor message.
pub const NO_ERROR_MESSAGE: &'static str = "No error message";

/// The seven flows of the connector.
#[derive(Debug, Clone, Copy, PartialEq, Eq, Structural)]
pub enum Flow {
    Authorize,
    Verify,
    Capture,
    Void,
    PaymentSync,
    RefundExecute,
    RefundSync,
}

/// The processor endpoint that a flow calls.
#[derive(Debug, Clone, Copy, PartialEq, Eq, Structural)]
pub enum Endpoint {
    /// `api/transact.php`, answered in flat form.
    Transact,
    /// `api/query.php`, answered in tagged text.
    Query,
}

pub open spec fn flow_of(op: Operation) -> Flow {
    match op {
        Operation::Authorize(_) => Flow::Authorize,
        Operation::Verify(_) => Flow::Verify,
        Operation::Capture(_) => Flow::Capture,
        Operation::Void(_) => Flow::Void,
        Operation::PaymentSync(_) => Flow::PaymentSync,
        Operation::RefundExecute(_) => Flow::RefundExecute,
        Operation::RefundSync(_) => Flow::RefundSync,
    }
}

/// The sync flows query; every other flow transacts.
pub open spec fn endpoint_of(f: Flow) -> Endpoint {
    match f {
        Flow::PaymentSync | Flow::RefundSync => Endpoint::Query,
        _ => Endpoint::Transact,
    }
}

pub open spec fn endpoint_path(e: Endpoint) -> Seq<char> {
    match e {
        Endpoint::Transact => "api/transact.php"@,
        Endpoint::Query => "api/query.php"@,
    }
}

impl Operation {
    /// The flow of this operation.
    pub fn flow(&self) -> (r: Flow)
        ensures
            r == flow_of(*self),
    {
        match self {
            Operation::Authorize(_) => Flow::Authorize,
            Operation::Verify(_) => Flow::Verify,
            Operation::Capture(_) => Flow::Capture,
            Operation::Void(_) => Flow::Void,
            Operation::PaymentSync(_) => Flow::PaymentSync,
            Operation::RefundExecute(_) => Flow::RefundExecute,
            Operation::RefundSync(_) => Flow::RefundSync,
        }
    }
}

impl Flow {
    /// The endpoint that this flow calls.
    pub fn endpoint(&self) -> (r: Endpoint)
        ensures
            r == endpoint_of(*self),
    {
        match self {
            Flow::PaymentSync | Flow::RefundSync => Endpoint::Query,
            _ => Endpoint::Transact,
        }
    }
}

impl Endpoint {
    /// The path of this endpoint below the base URL.
    pub fn path(&self) -> (r: &'static str)
        ensures
            r@ == endpoint_path(*self),
    {
        match self {
            Endpoint::Transact => "api/transact.php",
            Endpoint::Query => "api/query.php",
        }
    }
}

/// The form fields of the request of a call, or the error that stops it.
pub open spec fn request_fields(req: RouterData) -> Result<Fields, ConnectorError> {
    let auth = req.connector_auth_type;
    match req.request {
        Operation::Authorize(d) => authorize_fields(d, auth),
        Operation::Verify(d) => verify_fields(d, auth),
        Operation::Capture(d) => capture_fields(d, auth),
        Operation::Void(d) => cancel_fields(d, auth),
        Operation::PaymentSync(d) => sync_fields(d.connector_transaction_id, auth),
        Operation::RefundExecute(d) => refund_fields(d, auth),
        Operation::RefundSync(d) => sync_fields(d.connector_refund_id, auth),
    }
}

/// The form fields of the request of a call: each flow builds its own record.
pub fn form_fields(req: &RouterData) -> (r: Result<Vec<(String, String)>, ConnectorError>)
    ensures
        match r {
            Ok(v) => request_fields(*req) == Ok::<Fields, ConnectorError>(pairs_view(v@)),
            Err(e) => request_fields(*req) == Err::<Fields, ConnectorError>(e),
        },
{
    let auth = &req.connector_auth_type;
    match &req.request {
        Operation::Authorize(d) => Ok(NmiPaymentsRequest::try_from_authorize(d, auth)?.form_fields()),
        Operation::Verify(d) => Ok(NmiPaymentsRequest::try_from_verify(d, auth)?.form_fields()),
        Operation::Capture(d) => Ok(NmiCaptureRequest::try_from(d, auth)?.form_fields()),
        Operation::Void(d) => Ok(NmiCancelRequest::try_from(d, auth)?.form_fields()),
        Operation::PaymentSync(d) => Ok(NmiSyncRequest::try_from(&d.connector_transaction_id, auth)?.form_fields()),
        Operation::RefundExecute(d) => Ok(NmiRefundRequest::try_from(d, auth)?.form_fields()),
        Operation::RefundSync(d) => Ok(NmiSyncRequest::try_from(&d.connector_refund_id, auth)?.form_fields()),
    }
}

/// The body of the request of a call: its form fields, encoded; or the error
/// that stops it.
pub open spec fn request_body(req: RouterData) -> Result<Seq<char>, ConnectorError> {
    match request_fields(req) {
        Err(e) => Err(e),
        Ok(f) => match form_encoded(f) {
            Some(b) => Ok(b),
            None => Err(ConnectorError::RequestEncodingFailed),
        },
    }
}

/// The transaction type that a transact flow sends, if it sends one.
pub open spec fn requested_type(op: Operation) -> Option<TransactionType> {
    match op {
        Operation::Authorize(d) => authorize_type(d.capture_method),
        Operation::Verify(_) => Some(TransactionType::Validate),
        Operation::Capture(_) => Some(TransactionType::Capture),
        Operation::Void(_) => Some(TransactionType::Void),
        Operation::RefundExecute(_) => Some(TransactionType::Refund),
        _ => None,
    }
}

/// The type by which a flat-form reply is read: the echoed one, else the one
/// that the flow sent.
pub open spec fn reply_type(op: Operation, echoed: Option<TransactionType>) -> Option<TransactionType> {
    match echoed {
        Some(t) => Some(t),
        None => requested_type(op),
    }
}

/// The result of a flat-form reply with this code, echoed type and id: a
/// refund status for a refund, a payment status for any other flow.
pub open spec fn reply_outcome(
    op: Operation,
    code: ResponseCode,
    echoed: Option<TransactionType>,
    id: Seq<char>,
) -> Result<OutcomeView, ConnectorError> {
    match op {
        Operation::RefundExecute(_) => Ok(OutcomeView::Refund(flat_refund_status(code), id)),
        _ => match reply_type(op, echoed) {
            None => Err(ConnectorError::ResponseHandlingFailed),
            Some(t) => match flat_status(code, t) {
                None => Err(ConnectorError::ResponseHandlingFailed),
                Some(s) => Ok(OutcomeView::Payment(s, id)),
            },
        },
    }
}

/// The result of a query reply with this condition and id.
pub open spec fn query_outcome(op: Operation, c: Condition, id: Seq<char>) -> OutcomeView {
    match op {
        Operation::RefundSync(_) => OutcomeView::Refund(condition_refund_status(c), id),
        _ => OutcomeView::Payment(condition_attempt_status(c), id),
    }
}

/// The result of a reply body to a call of `op`, or the error that it makes.
pub open spec fn response_outcome(op: Operation, body: Seq<u8>) -> Result<OutcomeView, ConnectorError> {
    match endpoint_of(flow_of(op)) {
        Endpoint::Transact => match form_decoded(body) {
            None => Err(ConnectorError::ResponseDeserializationFailed),
            Some(p) => if !flat_form_valid(p) {
                Err(ConnectorError::ResponseDeserializationFailed)
            } else {
                reply_outcome(
                    op,
                    response_code(lookup(p, "response"@)->0)->0,
                    echoed_type(p),
                    lookup(p, "transactionid"@)->0,
                )
            },
        },
        Endpoint::Query => if !vstd::utf8::valid_utf8(body) {
            Err(ConnectorError::ResponseDeserializationFailed)
        } else {
            let text = vstd::utf8::decode_utf8(body);
            match query_transaction_id(text) {
                None => Err(ConnectorError::ResponseHandlingFailed),
                Some(id) => match query_condition(text) {
                    None => Err(ConnectorError::ResponseHandlingFailed),
                    Some(c) => Ok(query_outcome(op, condition_of(c), id)),
                },
            }
        },
    }
}

/// The result of a flat-form reply to a call of `op`.
pub fn outcome_of_reply(op: &Operation, reply: &GenericResponse) -> (r: Result<FlowOutcome, ConnectorError>)
    ensures
        match r {
            Ok(o) => reply_outcome(*op, reply.response, reply.transaction_type, reply.transactionid@)
                == Ok::<OutcomeView, ConnectorError>(o@),
            Err(e) => reply_outcome(*op, reply.response, reply.transaction_type, reply.transactionid@)
                == Err::<OutcomeView, ConnectorError>(e),
        },
{
    if let Operation::RefundExecute(_) = op {
        return Ok(
            FlowOutcome::Refund {
                refund_status: refund_status_of(reply.response),
                connector_refund_id: reply.transactionid.clone(),
            },
        );
    }
    let t = match reply.transaction_type {
        Some(t) => t,
        None => match op {
            Operation::Authorize(d) => match d.capture_method {
                Some(CaptureMethod::Automatic) => TransactionType::Sale,
                Some(CaptureMethod::Manual) => TransactionType::Auth,
                _ => return Err(ConnectorError::ResponseHandlingFailed),
            },
            Operation::Verify(_) => TransactionType::Validate,
            Operation::Capture(_) => TransactionType::Capture,
            Operation::Void(_) => TransactionType::Void,
            _ => return Err(ConnectorError::ResponseHandlingFailed),
        },
    };
    match attempt_status_of(reply.response, t) {
        None => Err(ConnectorError::ResponseHandlingFailed),
        Some(status) => Ok(FlowOutcome::Payment { status, resource_id: reply.transactionid.clone() }),
    }
}

/// The result of a query reply to a call of `op`.
pub fn outcome_of_query(op: &Operation, reply: &QueryResponse) -> (r: FlowOutcome)
    ensures
        r@ == query_outcome(*op, reply.transaction.condition, reply.transaction.transaction_id@),
{
    let id = reply.transaction.transaction_id.clone();
    match op {
        Operation::RefundSync(_) => FlowOutcome::Refund {
            refund_status: reply.transaction.condition.refund_status(),
            connector_refund_id: id,
        },
        _ => FlowOutcome::Payment { status: reply.transaction.condition.attempt_status(), resource_id: id },
    }
}

/// The connector of the NMI processor.
#[derive(Debug, Clone, Copy)]
pub struct Nmi;

impl Nmi {
    /// The connector's name.
    pub fn id(&self) -> (r: &'static str)
        ensures
            r@ == "nmi"@,
    {
        "nmi"
    }

    /// The processor's base URL from the settings.
    pub fn base_url<'a>(&self, connectors: &'a Connectors) -> (r: &'a str)
        ensures
            r@ == connectors.nmi.base_url@,
    {
        connectors.nmi.base_url.as_str()
    }

    /// The headers of every request: the form content type, and no
    /// credential, which travels in the body.
    pub fn build_headers(&self, _req: &RouterData, _connectors: &Connectors) -> (r: Result<Vec<(String, String)>, ConnectorError>)
        ensures
            r is Ok,
            pairs_view(r->Ok_0@) == seq![("Content-Type"@, "application/x-www-form-urlencoded"@)],
    {
        let mut v: Vec<(String, String)> = Vec::new();
        push_field(&mut v, "Content-Type", &String::from_str("application/x-www-form-urlencoded"));
        Ok(v)
    }

    /// The headers of the request of a call.
    pub fn get_headers(&self, req: &RouterData, connectors: &Connectors) -> (r: Result<Vec<(String, String)>, ConnectorError>)
        ensures
            r is Ok,
            pairs_view(r->Ok_0@) == seq![("Content-Type"@, "application/x-www-form-urlencoded"@)],
    {
        self.build_headers(req, connectors)
    }

    /// The URL of a call: the base URL followed by the path of the flow's endpoint.
    pub fn get_url(&self, req: &RouterData, connectors: &Connectors) -> (r: Result<String, ConnectorError>)
        ensures
            r is Ok,
            r->Ok_0@ == connectors.nmi.base_url@ + endpoint_path(endpoint_of(flow_of(req.request))),
    {
        let mut url = String::from_str(self.base_url(connectors));
        url.append(req.request.flow().endpoint().path());
        Ok(url)
    }

    /// The encoded body of the request of a call.
    pub fn get_request_body(&self, req: &RouterData) -> (r: Result<String, ConnectorError>)
        ensures
            match r {
                Ok(b) => request_body(*req) == Ok::<Seq<char>, ConnectorError>(b@),
                Err(e) => request_body(*req) == Err::<Seq<char>, ConnectorError>(e),
            },
    {
        let fields = form_fields(req)?;
        match encode_pairs(&fields) {
            Ok(body) => Ok(body),
            Err(_) => Err(ConnectorError::RequestEncodingFailed),
        }
    }

    /// The wire request of a call: a POST of the encoded fields to the flow's
    /// endpoint; fails, before anything is sent, where the body cannot be built.
    pub fn build_request(&self, req: &RouterData, connectors: &Connectors) -> (r: Result<Request, ConnectorError>)
        ensures
            match r {
                Ok(w) => {
                    &&& request_body(*req) == Ok::<Seq<char>, ConnectorError>(w.body@)
                    &&& w.method == Method::Post
                    &&& w.url@ == connectors.nmi.base_url@ + endpoint_path(endpoint_of(flow_of(req.request)))
                    &&& pairs_view(w.headers@) == seq![("Content-Type"@, "application/x-www-form-urlencoded"@)]
                },
                Err(e) => request_body(*req) == Err::<Seq<char>, ConnectorError>(e),
            },
    {
        let url = self.get_url(req, connectors)?;
        let headers = self.get_headers(req, connectors)?;
        let body = self.get_request_body(req)?;
        Ok(Request { method: Method::Post, url, headers, body })
    }

    /// The canonical result of the processor's reply to a call: flat form
    /// for the transact flows, tagged text for the sync flows.
    pub fn handle_response(&self, data: &RouterData, res: &Response) -> (r: Result<FlowOutcome, ConnectorError>)
        ensures
            match r {
                Ok(o) => response_outcome(data.request, res.response@) == Ok::<OutcomeView, ConnectorError>(o@),
                Err(e) => response_outcome(data.request, res.response@) == Err::<OutcomeView, ConnectorError>(e),
            },
    {
        match data.request.flow().endpoint() {
            Endpoint::Transact => {
                let pairs = match decode_pairs(res.response.as_slice()) {
                    Ok(p) => p,
                    Err(_) => return Err(ConnectorError::ResponseDeserializationFailed),
                };
                let reply = GenericResponse::from_pairs(&pairs)?;
                outcome_of_reply(&data.request, &reply)
            },
            Endpoint::Query => {
                let text = match body_text(res.response.as_slice()) {
                    Some(t) => t,
                    None => return Err(ConnectorError::ResponseDeserializationFailed),
                };
                let reply = QueryResponse::from_text(text)?;
                Ok(outcome_of_query(&data.request, &reply))
            },
        }
    }

    /// The generic error object of a reply without a usable body: its HTTP
    /// status with the placeholder code and message.
    pub fn build_error_response(&self, res: &Response) -> (r: ErrorResponse)
        ensures
            r.status_code == res.status_code,
            r.code@ == NO_ERROR_CODE@,
            r.message@ == NO_ERROR_MESSAGE@,
            r.reason is None,
    {
        ErrorResponse {
            status_code: res.status_code,
            code: String::from_str(NO_ERROR_CODE),
            message: String::from_str(NO_ERROR_MESSAGE),
            reason: None,
        }
    }

    /// The error object of a failed call.
    pub fn get_error_response(&self, res: &Response) -> (r: ErrorResponse)
        ensures
            r.status_code == res.status_code,
            r.code@ == NO_ERROR_CODE@,
            r.message@ == NO_ERROR_MESSAGE@,
            r.reason is None,
    {
        self.build_error_response(res)
    }

    /// Webhooks are not taken.
    pub fn get_webhook_object_reference_id(&self, _request: &IncomingWebhookRequestDetails) -> (r: Result<String, ConnectorError>)
        ensures
            r is Err && r->Err_0 == ConnectorError::WebhooksNotImplemented,
    {
        Err(ConnectorError::WebhooksNotImplemented)
    }

    /// Webhooks are not taken.
    pub fn get_webhook_event_type(&self, _request: &IncomingWebhookRequestDetails) -> (r: Result<IncomingWebhookEvent, ConnectorError>)
        ensures
            r == Err::<IncomingWebhookEvent, ConnectorError>(ConnectorError::WebhooksNotImplemented),
    {
        Err(ConnectorError::WebhooksNotImplemented)
    }

    /// Webhooks are not taken.
    pub fn get_webhook_resource_object(&self, _request: &IncomingWebhookRequestDetails) -> (r: Result<serde_json::Value, ConnectorError>)
        ensures
            r is Err && r->Err_0 == ConnectorError::WebhooksNotImplemented,
    {
        Err(ConnectorError::WebhooksNotImplemented)
    }

    /// After a redirect the orchestrator calls the connector again.
    pub fn get_flow_type(&self, _query_params: &str) -> (r: Result<CallConnectorAction, ConnectorError>)
        ensures
            r == Ok::<CallConnectorAction, ConnectorError>(CallConnectorAction::Trigger),
    {
        Ok(CallConnectorAction::Trigger)
    }
}


/// In every payment transact flow a flat-form reply's status follows the
/// table by response code and transaction type; the type is the echoed one,
/// or else the one that the flow sent: for an authorisation a sale under
/// automatic capture and an auth under manual capture, `validate` for a
/// verification, `capture` and `void` for those flows. A refund's status is
/// success for code 1 and failure otherwise.
pub proof fn flat_reply_status_table(
    op: Operation,
    code: ResponseCode,
    echoed: Option<TransactionType>,
    id: Seq<char>,
)
    ensures
        ({
            let r = reply_outcome(op, code, echoed, id);
            let t = reply_type(op, echoed);
            let paid = !(op is RefundExecute);
            &&& paid && t == Some(TransactionType::Sale) && code == ResponseCode::Approved
                ==> r == Ok::<OutcomeView, ConnectorError>(OutcomeView::Payment(AttemptStatus::Charged, id))
            &&& paid && t == Some(TransactionType::Auth) && code == ResponseCode::Approved
                ==> r == Ok::<OutcomeView, ConnectorError>(OutcomeView::Payment(AttemptStatus::Authorized, id))
            &&& paid && t == Some(TransactionType::Validate) && code == ResponseCode::Approved
                ==> r == Ok::<OutcomeView, ConnectorError>(OutcomeView::Payment(AttemptStatus::Charged, id))
            &&& paid && t == Some(TransactionType::Capture) && code == ResponseCode::Approved
                ==> r == Ok::<OutcomeView, ConnectorError>(OutcomeView::Payment(AttemptStatus::CaptureInitiated, id))
            &&& paid && t == Some(TransactionType::Void) && code == ResponseCode::Approved
                ==> r == Ok::<OutcomeView, ConnectorError>(OutcomeView::Payment(AttemptStatus::Voided, id))
            &&& paid && t == Some(TransactionType::Capture) && code != ResponseCode::Approved
                ==> r == Ok::<OutcomeView, ConnectorError>(OutcomeView::Payment(AttemptStatus::CaptureFailed, id))
            &&& paid && t == Some(TransactionType::Void) && code != ResponseCode::Approved
                ==> r == Ok::<OutcomeView, ConnectorError>(OutcomeView::Payment(AttemptStatus::VoidFailed, id))
            &&& paid && t is Some && t != Some(TransactionType::Capture) && t != Some(TransactionType::Void)
                && code != ResponseCode::Approved
                ==> r == Ok::<OutcomeView, ConnectorError>(OutcomeView::Payment(AttemptStatus::Failure, id))
            &&& op is RefundExecute && code == ResponseCode::Approved
                ==> r == Ok::<OutcomeView, ConnectorError>(OutcomeView::Refund(RefundStatus::Success, id))
            &&& op is RefundExecute && code != ResponseCode::Approved
                ==> r == Ok::<OutcomeView, ConnectorError>(OutcomeView::Refund(RefundStatus::Failure, id))
        }),
        echoed is None ==> match op {
            Operation::Authorize(d) => {
                &&& d.capture_method == Some(CaptureMethod::Automatic) ==> reply_type(op, echoed) == Some(TransactionType::Sale)
                &&& d.capture_method == Some(CaptureMethod::Manual) ==> reply_type(op, echoed) == Some(TransactionType::Auth)
            },
            Operation::Verify(_) => reply_type(op, echoed) == Some(TransactionType::Validate),
            Operation::Capture(_) => reply_type(op, echoed) == Some(TransactionType::Capture),
            Operation::Void(_) => reply_type(op, echoed) == Some(TransactionType::Void),
            _ => true,
        },
        echoed is Some ==> reply_type(op, echoed) == echoed,
{
}

/// A query reply's condition maps to payment and refund statuses by the table:
/// `pendingsettlement` to pending and success, `pending` to pending and
/// pending, `failed` to failure and failure, `canceled` to voided and failure,
/// `complete` to charged and success, and any other text to failure and failure.
pub proof fn query_status_table(text: Seq<char>, id: Seq<char>, op: Operation)
    ensures
        ({
            let c = condition_of(text);
            let p = query_outcome(op, c, id);
            let refund = op is RefundSync;
            &&& text == "pendingsettlement"@ ==> if refund {
                p == OutcomeView::Refund(RefundStatus::Success, id)
            } else {
                p == OutcomeView::Payment(AttemptStatus::Pending, id)
            }
            &&& text == "pending"@ ==> if refund {
                p == OutcomeView::Refund(RefundStatus::Pending, id)
            } else {
                p == OutcomeView::Payment(AttemptStatus::Pending, id)
            }
            &&& text == "failed"@ ==> if refund {
                p == OutcomeView::Refund(RefundStatus::Failure, id)
            } else {
                p == OutcomeView::Payment(AttemptStatus::Failure, id)
            }
            &&& text == "canceled"@ ==> if refund {
                p == OutcomeView::Refund(RefundStatus::Failure, id)
            } else {
                p == OutcomeView::Payment(AttemptStatus::Voided, id)
            }
            &&& text == "complete"@ ==> if refund {
                p == OutcomeView::Refund(RefundStatus::Success, id)
            } else {
                p == OutcomeView::Payment(AttemptStatus::Charged, id)
            }
            &&& c == Condition::Unknown ==> if refund {
                p == OutcomeView::Refund(RefundStatus::Failure, id)
            } else {
                p == OutcomeView::Payment(AttemptStatus::Failure, id)
            }
        }),
{
    reveal_strlit("pendingsettlement");
    reveal_strlit("pending");
    reveal_strlit("failed");
    reveal_strlit("canceled");
    reveal_strlit("complete");
    assert("pending"@.len() != "pendingsettlement"@.len());
    assert("failed"@ != "pendingsettlement"@ && "failed"@ != "pending"@) by {
        assert("failed"@[0] != "pending"@[0]);
    }
    assert("canceled"@.len() != "pendingsettlement"@.len() && "canceled"@ != "pending"@ && "canceled"@ != "failed"@) by {
        assert("canceled"@[0] != "pending"@[0]);
    }
    assert("complete"@.len() != "pendingsettlement"@.len() && "complete"@ != "pending"@
        && "complete"@ != "failed"@ && "complete"@ != "canceled"@) by {
        assert("complete"@[0] != "pending"@[0]);
        assert("complete"@[1] != "canceled"@[1]);
    }
}

/// Credentials that are not a header key stop every flow with
/// `AuthTypeError` before any request body is built; an authorisation checks
/// its capture method first, so this holds of one whose capture method passes.
pub proof fn non_header_key_refused(req: RouterData)
    requires
        header_key(req.connector_auth_type) is None,
        req.request matches Operation::Authorize(d) ==> authorize_type(d.capture_method) is Some,
    ensures
        request_fields(req) == Err::<Fields, ConnectorError>(ConnectorError::AuthTypeError),
        request_body(req) == Err::<Seq<char>, ConnectorError>(ConnectorError::AuthTypeError),
{
}

/// An authorisation whose instrument is neither a card nor a Google Pay
/// wallet is refused with `UnsupportedPaymentMethod` before any request body
/// is built, where the credentials and the capture method pass.
pub proof fn unsupported_instrument_refused(req: RouterData)
    requires
        header_key(req.connector_auth_type) is Some,
        req.request matches Operation::Authorize(d) && authorize_type(d.capture_method) is Some,
        req.request matches Operation::Authorize(d) && !(d.payment_method_data is Card),
        req.request matches Operation::Authorize(d) && !(d.payment_method_data matches PaymentMethodData::Wallet(w) && w.issuer == WalletIssuer::GooglePay),
    ensures
        request_fields(req) == Err::<Fields, ConnectorError>(ConnectorError::UnsupportedPaymentMethod),
        request_body(req) == Err::<Seq<char>, ConnectorError>(ConnectorError::UnsupportedPaymentMethod),
{
}

/// An authorisation whose capture method is neither automatic nor manual is
/// refused with `UnsupportedCaptureMethod` before any request body is built,
/// whatever its credentials and instrument.
pub proof fn unsupported_capture_method_refused(req: RouterData)
    requires
        req.request matches Operation::Authorize(d) && authorize_type(d.capture_method) is None,
    ensures
        request_fields(req) == Err::<Fields, ConnectorError>(ConnectorError::UnsupportedCaptureMethod),
        request_body(req) == Err::<Seq<char>, ConnectorError>(ConnectorError::UnsupportedCaptureMethod),
{
}

} // verus!
