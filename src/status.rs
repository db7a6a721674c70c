//! Response records of the two reply shapes and the rules that map them to
//! canonical payment and refund statuses.
use vstd::prelude::*;
use crate::form::{first_value, lookup};
use crate::text::{eq_lit, find_tag_value, tag_value};
use crate::transformers::{tx_from_name, Fields, TransactionType};
use crate::types::{opt_view, pairs_view, AttemptStatus, ConnectorError, RefundStatus};

verus! {

/// The numeric `response` code of a flat-form reply.
#[derive(Debug, Clone, Copy, PartialEq, Eq, Structural)]
pub enum Response {
    /// `1`
    Approved,
    /// `2`
    Declined,
    /// `3`
    Error,
}

/// The response code that the text `s` stands for.
pub open spec fn response_code(s: Seq<char>) -> Option<Response> {
    if s == "1"@ {
        Some(Response::Approved)
    } else if s == "2"@ {
        Some(Response::Declined)
    } else if s == "3"@ {
        Some(Response::Error)
    } else {
        None
    }
}

impl Response {
    /// The response code that the text `s` stands for, if any.
    pub fn from_code(s: &String) -> (r: Option<Response>)
        ensures
            r == response_code(s@),
    {
        if eq_lit(s, "1") {
            Some(Response::Approved)
        } else if eq_lit(s, "2") {
            Some(Response::Declined)
        } else if eq_lit(s, "3") {
            Some(Response::Error)
        } else {
            None
        }
    }
}

/// The payment status of a flat-form reply, by response code and transaction
/// type; `None` for an approved credit or refund, which no payment flow sends.
pub open spec fn flat_status(r: Response, t: TransactionType) -> Option<AttemptStatus> {
    match r {
        Response::Approved => match t {
            TransactionType::Sale => Some(AttemptStatus::Charged),
            TransactionType::Auth => Some(AttemptStatus::Authorized),
            TransactionType::Validate => Some(AttemptStatus::Charged),
            TransactionType::Capture => Some(AttemptStatus::CaptureInitiated),
            TransactionType::Void => Some(AttemptStatus::Voided),
            _ => None,
        },
        _ => match t {
            TransactionType::Capture => Some(AttemptStatus::CaptureFailed),
            TransactionType::Void => Some(AttemptStatus::VoidFailed),
            _ => Some(AttemptStatus::Failure),
        },
    }
}

/// The payment status of a flat-form reply, by response code and transaction type.
pub fn attempt_status_of(response: Response, transaction_type: TransactionType) -> (r: Option<AttemptStatus>)
    ensures
        r == flat_status(response, transaction_type),
{
    match response {
        Response::Approved => match transaction_type {
            TransactionType::Sale => Some(AttemptStatus::Charged),
            TransactionType::Auth => Some(AttemptStatus::Authorized),
            TransactionType::Validate => Some(AttemptStatus::Charged),
            TransactionType::Capture => Some(AttemptStatus::CaptureInitiated),
            TransactionType::Void => Some(AttemptStatus::Voided),
            _ => None,
        },
        _ => match transaction_type {
            TransactionType::Capture => Some(AttemptStatus::CaptureFailed),
            TransactionType::Void => Some(AttemptStatus::VoidFailed),
            _ => Some(AttemptStatus::Failure),
        },
    }
}

/// The refund status of a flat-form reply.
pub open spec fn flat_refund_status(r: Response) -> RefundStatus {
    match r {
        Response::Approved => RefundStatus::Success,
        _ => RefundStatus::Failure,
    }
}

/// The refund status of a flat-form reply: approved is success, anything else failure.
pub fn refund_status_of(response: Response) -> (r: RefundStatus)
    ensures
        r == flat_refund_status(response),
{
    match response {
        Response::Approved => RefundStatus::Success,
        _ => RefundStatus::Failure,
    }
}

/// A reply of the transact endpoint, decoded from its form fields.
#[derive(Debug, Clone)]
pub struct GenericResponse {
    pub response: Response,
    /// The echoed `type`, where the reply carries one.
    pub transaction_type: Option<TransactionType>,
    pub responsetext: Option<String>,
    pub authcode: Option<String>,
    pub transactionid: String,
    pub avsresponse: Option<String>,
    pub cvvresponse: Option<String>,
    pub orderid: Option<String>,
    pub response_code: Option<String>,
}

/// The echoed transaction type of a reply, read from its `type` field.
pub open spec fn echoed_type(p: Fields) -> Option<TransactionType> {
    match lookup(p, "type"@) {
        Some(t) => tx_from_name(t),
        None => None,
    }
}

/// The fields of a flat-form reply make a record: a `response` code of 1, 2
/// or 3, a `transactionid`, and a known `type` where there is one.
pub open spec fn flat_form_valid(p: Fields) -> bool {
    &&& lookup(p, "response"@) is Some
    &&& response_code(lookup(p, "response"@)->0) is Some
    &&& lookup(p, "transactionid"@) is Some
    &&& lookup(p, "type"@) is Some ==> tx_from_name(lookup(p, "type"@)->0) is Some
}

impl GenericResponse {
    /// The record of a flat-form reply, from its decoded pairs; the first pair
    /// of each key counts. Fails with `ResponseDeserializationFailed` where
    /// the code is missing or unknown, the transaction id is missing, or the
    /// type is unknown.
    pub fn from_pairs(pairs: &Vec<(String, String)>) -> (r: Result<GenericResponse, ConnectorError>)
        ensures
            r is Ok <==> flat_form_valid(pairs_view(pairs@)),
            r is Err ==> r->Err_0 == ConnectorError::ResponseDeserializationFailed,
            r matches Ok(g) ==> {
                let p = pairs_view(pairs@);
                &&& Some(g.response) == response_code(lookup(p, "response"@)->0)
                &&& Some(g.transactionid@) == lookup(p, "transactionid"@)
                &&& g.transaction_type == echoed_type(p)
                &&& opt_view(g.responsetext) == lookup(p, "responsetext"@)
                &&& opt_view(g.authcode) == lookup(p, "authcode"@)
                &&& opt_view(g.avsresponse) == lookup(p, "avsresponse"@)
                &&& opt_view(g.cvvresponse) == lookup(p, "cvvresponse"@)
                &&& opt_view(g.orderid) == lookup(p, "orderid"@)
                &&& opt_view(g.response_code) == lookup(p, "response_code"@)
            },
    {
        let response = match first_value(pairs, "response") {
            None => return Err(ConnectorError::ResponseDeserializationFailed),
            Some(code) => match Response::from_code(&code) {
                None => return Err(ConnectorError::ResponseDeserializationFailed),
                Some(c) => c,
            },
        };
        let transactionid = match first_value(pairs, "transactionid") {
            None => return Err(ConnectorError::ResponseDeserializationFailed),
            Some(id) => id,
        };
        let transaction_type = match first_value(pairs, "type") {
            None => None,
            Some(t) => match TransactionType::from_wire(&t) {
                None => return Err(ConnectorError::ResponseDeserializationFailed),
                Some(t) => Some(t),
            },
        };
        Ok(
            GenericResponse {
                response,
                transaction_type,
                responsetext: first_value(pairs, "responsetext"),
                authcode: first_value(pairs, "authcode"),
                transactionid,
                avsresponse: first_value(pairs, "avsresponse"),
                cvvresponse: first_value(pairs, "cvvresponse"),
                orderid: first_value(pairs, "orderid"),
                response_code: first_value(pairs, "response_code"),
            },
        )
    }
}

/// The `condition` of a query reply.
#[derive(Debug, Clone, Copy, PartialEq, Eq, Structural)]
pub enum Condition {
    Pendingsettlement,
    Pending,
    Failed,
    Canceled,
    Complete,
    /// Any other text.
    Unknown,
}

/// The condition that the text `s` names; `Unknown` for any text outside the
/// vocabulary.
pub open spec fn condition_of(s: Seq<char>) -> Condition {
    if s == "pendingsettlement"@ {
        Condition::Pendingsettlement
    } else if s == "pending"@ {
        Condition::Pending
    } else if s == "failed"@ {
        Condition::Failed
    } else if s == "canceled"@ {
        Condition::Canceled
    } else if s == "complete"@ {
        Condition::Complete
    } else {
        Condition::Unknown
    }
}

/// The payment status of a query reply's condition.
pub open spec fn condition_attempt_status(c: Condition) -> AttemptStatus {
    match c {
        Condition::Pendingsettlement => AttemptStatus::Pending,
        Condition::Pending => AttemptStatus::Pending,
        Condition::Failed => AttemptStatus::Failure,
        Condition::Canceled => AttemptStatus::Voided,
        Condition::Complete => AttemptStatus::Charged,
        Condition::Unknown => AttemptStatus::Failure,
    }
}

/// The refund status of a query reply's condition.
pub open spec fn condition_refund_status(c: Condition) -> RefundStatus {
    match c {
        Condition::Pendingsettlement => RefundStatus::Success,
        Condition::Pending => RefundStatus::Pending,
        Condition::Failed => RefundStatus::Failure,
        Condition::Canceled => RefundStatus::Failure,
        Condition::Complete => RefundStatus::Success,
        Condition::Unknown => RefundStatus::Failure,
    }
}

impl Condition {
    /// The condition that the text `s` names.
    pub fn from_text(s: &String) -> (r: Condition)
        ensures
            r == condition_of(s@),
    {
        if eq_lit(s, "pendingsettlement") {
            Condition::Pendingsettlement
        } else if eq_lit(s, "pending") {
            Condition::Pending
        } else if eq_lit(s, "failed") {
            Condition::Failed
        } else if eq_lit(s, "canceled") {
            Condition::Canceled
        } else if eq_lit(s, "complete") {
            Condition::Complete
        } else {
            Condition::Unknown
        }
    }

    /// The payment status that this condition reports.
    pub fn attempt_status(&self) -> (r: AttemptStatus)
        ensures
            r == condition_attempt_status(*self),
    {
        match self {
            Condition::Pendingsettlement => AttemptStatus::Pending,
            Condition::Pending => AttemptStatus::Pending,
            Condition::Failed => AttemptStatus::Failure,
            Condition::Canceled => AttemptStatus::Voided,
            Condition::Complete => AttemptStatus::Charged,
            Condition::Unknown => AttemptStatus::Failure,
        }
    }

    /// The refund status that this condition reports.
    pub fn refund_status(&self) -> (r: RefundStatus)
        ensures
            r == condition_refund_status(*self),
    {
        match self {
            Condition::Pendingsettlement => RefundStatus::Success,
            Condition::Pending => RefundStatus::Pending,
            Condition::Failed => RefundStatus::Failure,
            Condition::Canceled => RefundStatus::Failure,
            Condition::Complete => RefundStatus::Success,
            Condition::Unknown => RefundStatus::Failure,
        }
    }
}

/// The transaction that a query reply reports on.
#[derive(Debug, Clone)]
pub struct Transaction {
    pub condition: Condition,
    pub transaction_id: String,
}

/// A reply of the query endpoint.
#[derive(Debug, Clone)]
pub struct QueryResponse {
    pub transaction: Transaction,
}

/// The transaction id of a query reply: the text of its first
/// `<transaction_id>` fragment.
pub open spec fn query_transaction_id(text: Seq<char>) -> Option<Seq<char>> {
    tag_value(text, "<transaction_id>"@, "</transaction_id>"@)
}

/// The condition text of a query reply: the text of its first `<condition>` fragment.
pub open spec fn query_condition(text: Seq<char>) -> Option<Seq<char>> {
    tag_value(text, "<condition>"@, "</condition>"@)
}

impl QueryResponse {
    /// The record of a query reply, from the first `transaction_id` and the
    /// first `condition` fragment of its text; where either is missing it
    /// fails with `ResponseHandlingFailed`.
    pub fn from_text(text: &str) -> (r: Result<QueryResponse, ConnectorError>)
        ensures
            r is Ok <==> query_transaction_id(text@) is Some && query_condition(text@) is Some,
            r is Err ==> r->Err_0 == ConnectorError::ResponseHandlingFailed,
            r matches Ok(q) ==> {
                &&& Some(q.transaction.transaction_id@) == query_transaction_id(text@)
                &&& q.transaction.condition == condition_of(query_condition(text@)->0)
            },
    {
        let transaction_id = match find_tag_value(text, "<transaction_id>", "</transaction_id>") {
            None => return Err(ConnectorError::ResponseHandlingFailed),
            Some(id) => id,
        };
        let condition = match find_tag_value(text, "<condition>", "</condition>") {
            None => return Err(ConnectorError::ResponseHandlingFailed),
            Some(c) => Condition::from_text(&c),
        };
        Ok(QueryResponse { transaction: Transaction { condition, transaction_id } })
    }
}

/// The error body of the processor.
#[derive(Debug, Clone, Default)]
pub struct NmiErrorResponse {
    pub error_code: String,
}

} // verus!
