use nmi_connector::amount::{format_amount, parse_amount};
use nmi_connector::connector::{form_fields, Nmi, NO_ERROR_CODE, NO_ERROR_MESSAGE};
use nmi_connector::status::{attempt_status_of, Condition, GenericResponse, QueryResponse, Response as Code};
use nmi_connector::transformers::{get_payment_type, NmiAuthType, PaymentType, TransactionType};
use nmi_connector::types::{
    Address, AttemptStatus, CallConnectorAction, CaptureMethod, CardDetails, ConnectorAuthType,
    ConnectorError, ConnectorParams, Connectors, FlowOutcome, IncomingWebhookRequestDetails,
    Method, Operation, PaymentMethodData, PaymentsAuthorizeData, PaymentsCancelData,
    PaymentsCaptureData, PaymentsSyncData, RefundStatus, RefundsData, RequiredField, Response,
    RouterData, VerifyRequestData, WalletData, WalletIssuer,
};

fn s(x: &str) -> String {
    x.to_string()
}

fn key() -> ConnectorAuthType {
    ConnectorAuthType::HeaderKey { api_key: s("KEY") }
}

fn body_key() -> ConnectorAuthType {
    ConnectorAuthType::BodyKey { api_key: s("KEY"), key1: s("K1") }
}

fn settings() -> Connectors {
    Connectors { nmi: ConnectorParams { base_url: s("https://secure.nmi.com/") } }
}

fn card() -> PaymentMethodData {
    PaymentMethodData::Card(CardDetails {
        card_number: s("4111111111111111"),
        card_exp_month: s("12"),
        card_exp_year: s("2030"),
        card_cvc: s("123"),
    })
}

fn address() -> Address {
    Address {
        first_name: Some(s("Jane")),
        last_name: Some(s("Doe")),
        line1: Some(s("1 Main St")),
        line2: None,
        city: Some(s("Springfield")),
        state: Some(s("IL")),
        zip: Some(s("62701")),
        country: Some(s("US")),
        phone: Some(s("5551234")),
    }
}

fn authorize(cm: Option<CaptureMethod>, pm: PaymentMethodData) -> PaymentsAuthorizeData {
    PaymentsAuthorizeData {
        amount: 1050,
        currency: s("USD"),
        capture_method: cm,
        payment_method_data: pm,
        billing: Some(address()),
    }
}

fn call(auth: ConnectorAuthType, op: Operation) -> RouterData {
    RouterData { connector_auth_type: auth, request: op }
}

fn reply(body: &[u8]) -> Response {
    Response { status_code: 200, response: body.to_vec() }
}

fn payment(status: AttemptStatus, id: &str) -> (AttemptStatus, String) {
    (status, s(id))
}

fn as_payment(r: Result<FlowOutcome, ConnectorError>) -> (AttemptStatus, String) {
    match r {
        Ok(FlowOutcome::Payment { status, resource_id }) => (status, resource_id),
        other => panic!("not a payment outcome: {:?}", other),
    }
}

fn as_refund(r: Result<FlowOutcome, ConnectorError>) -> (RefundStatus, String) {
    match r {
        Ok(FlowOutcome::Refund { refund_status, connector_refund_id }) => (refund_status, connector_refund_id),
        other => panic!("not a refund outcome: {:?}", other),
    }
}

fn authorize_call(cm: CaptureMethod) -> RouterData {
    call(key(), Operation::Authorize(authorize(Some(cm), card())))
}

#[test]
fn authorize_sale_reply_is_charged() {
    let r = Nmi.handle_response(
        &authorize_call(CaptureMethod::Automatic),
        &reply(b"response=1&type=sale&transactionid=TX123"),
    );
    assert_eq!(as_payment(r), payment(AttemptStatus::Charged, "TX123"));
}

#[test]
fn authorize_declined_auth_reply_is_failure() {
    let r = Nmi.handle_response(
        &authorize_call(CaptureMethod::Manual),
        &reply(b"response=2&type=auth&transactionid=TX124"),
    );
    assert_eq!(as_payment(r), payment(AttemptStatus::Failure, "TX124"));
}

#[test]
fn payment_sync_complete_is_charged() {
    let op = call(key(), Operation::PaymentSync(PaymentsSyncData { connector_transaction_id: Some(s("TX999")) }));
    let body = b"<nm_response><transaction><transaction_id>TX999</transaction_id><condition>complete</condition></transaction></nm_response>";
    assert_eq!(as_payment(Nmi.handle_response(&op, &reply(body))), payment(AttemptStatus::Charged, "TX999"));
}

#[test]
fn payment_sync_without_condition_fails() {
    let op = call(key(), Operation::PaymentSync(PaymentsSyncData { connector_transaction_id: Some(s("TX999")) }));
    let body = b"<nm_response><transaction><transaction_id>TX999</transaction_id></transaction></nm_response>";
    assert_eq!(Nmi.handle_response(&op, &reply(body)).unwrap_err(), ConnectorError::ResponseHandlingFailed);
}

#[test]
fn payment_sync_without_transaction_id_fails() {
    let op = call(key(), Operation::PaymentSync(PaymentsSyncData { connector_transaction_id: Some(s("TX999")) }));
    let body = b"<condition>complete</condition>";
    assert_eq!(Nmi.handle_response(&op, &reply(body)).unwrap_err(), ConnectorError::ResponseHandlingFailed);
}

#[test]
fn payment_sync_invalid_utf8_fails_to_deserialize() {
    let op = call(key(), Operation::PaymentSync(PaymentsSyncData { connector_transaction_id: Some(s("TX9")) }));
    let body = [0xffu8, 0xfe, 0x3c];
    assert_eq!(Nmi.handle_response(&op, &reply(&body)).unwrap_err(), ConnectorError::ResponseDeserializationFailed);
}

#[test]
fn sync_conditions_follow_the_table() {
    let pay = call(key(), Operation::PaymentSync(PaymentsSyncData { connector_transaction_id: Some(s("T")) }));
    let refund = call(
        key(),
        Operation::RefundSync(RefundsData {
            refund_amount: 100,
            currency: s("USD"),
            connector_transaction_id: Some(s("T")),
            connector_refund_id: Some(s("R")),
        }),
    );
    let cases = [
        ("pendingsettlement", AttemptStatus::Pending, RefundStatus::Success),
        ("pending", AttemptStatus::Pending, RefundStatus::Pending),
        ("failed", AttemptStatus::Failure, RefundStatus::Failure),
        ("canceled", AttemptStatus::Voided, RefundStatus::Failure),
        ("complete", AttemptStatus::Charged, RefundStatus::Success),
        ("abandoned", AttemptStatus::Failure, RefundStatus::Failure),
        ("COMPLETE", AttemptStatus::Failure, RefundStatus::Failure),
    ];
    for (c, a, r) in cases {
        let body = format!("x<transaction_id>ID1</transaction_id> <condition>{}</condition><condition>complete</condition>", c);
        assert_eq!(as_payment(Nmi.handle_response(&pay, &reply(body.as_bytes()))), (a, s("ID1")), "{}", c);
        assert_eq!(as_refund(Nmi.handle_response(&refund, &reply(body.as_bytes()))), (r, s("ID1")), "{}", c);
    }
}

#[test]
fn query_response_takes_first_fragments() {
    let q = QueryResponse::from_text("<transaction_id>A</transaction_id><transaction_id>B</transaction_id><condition>pending</condition>").unwrap();
    assert_eq!(q.transaction.transaction_id, "A");
    assert_eq!(q.transaction.condition, Condition::Pending);
    let q = QueryResponse::from_text("<transaction_id></transaction_id><condition>zzz</condition>").unwrap();
    assert_eq!(q.transaction.transaction_id, "");
    assert_eq!(q.transaction.condition, Condition::Unknown);
}

#[test]
fn authorize_with_unsupported_instrument_fails() {
    for pm in [
        PaymentMethodData::BankTransfer,
        PaymentMethodData::PayLater,
        PaymentMethodData::Wallet(WalletData { issuer: WalletIssuer::ApplePay, token: s("tok") }),
        PaymentMethodData::Wallet(WalletData { issuer: WalletIssuer::PayPal, token: s("tok") }),
    ] {
        let op = call(key(), Operation::Authorize(authorize(Some(CaptureMethod::Automatic), pm)));
        assert_eq!(Nmi.build_request(&op, &settings()).unwrap_err(), ConnectorError::UnsupportedPaymentMethod);
    }
}

#[test]
fn non_header_key_credentials_fail() {
    assert_eq!(NmiAuthType::try_from(&body_key()).err(), Some(ConnectorError::AuthTypeError));
    let sig = ConnectorAuthType::SignatureKey { api_key: s("a"), key1: s("b"), api_secret: s("c") };
    assert_eq!(NmiAuthType::try_from(&sig).err(), Some(ConnectorError::AuthTypeError));
    assert_eq!(NmiAuthType::try_from(&key()).unwrap().api_key, "KEY");
    let ops = vec![
        Operation::Authorize(authorize(Some(CaptureMethod::Automatic), PaymentMethodData::BankTransfer)),
        Operation::Verify(VerifyRequestData { currency: s("USD"), payment_method_data: card(), billing: None }),
        Operation::Capture(PaymentsCaptureData { amount_to_capture: 1, currency: s("USD"), connector_transaction_id: None }),
        Operation::Void(PaymentsCancelData { connector_transaction_id: None, cancellation_reason: None }),
        Operation::PaymentSync(PaymentsSyncData { connector_transaction_id: None }),
    ];
    for op in ops {
        let r = Nmi.build_request(&call(body_key(), op), &settings());
        assert_eq!(r.unwrap_err(), ConnectorError::AuthTypeError);
    }
}

#[test]
fn capture_method_is_checked_before_credentials() {
    for cm in [None, Some(CaptureMethod::Scheduled), Some(CaptureMethod::ManualMultiple)] {
        let op = call(body_key(), Operation::Authorize(authorize(cm, PaymentMethodData::BankTransfer)));
        assert_eq!(Nmi.build_request(&op, &settings()).unwrap_err(), ConnectorError::UnsupportedCaptureMethod);
    }
    let op = call(body_key(), Operation::Authorize(authorize(Some(CaptureMethod::Manual), card())));
    assert_eq!(Nmi.build_request(&op, &settings()).unwrap_err(), ConnectorError::AuthTypeError);
}

#[test]
fn flat_status_table_is_exact() {
    let approved = [
        (TransactionType::Sale, Some(AttemptStatus::Charged)),
        (TransactionType::Auth, Some(AttemptStatus::Authorized)),
        (TransactionType::Validate, Some(AttemptStatus::Charged)),
        (TransactionType::Capture, Some(AttemptStatus::CaptureInitiated)),
        (TransactionType::Void, Some(AttemptStatus::Voided)),
        (TransactionType::Credit, None),
        (TransactionType::Refund, None),
    ];
    for (t, expected) in approved {
        assert_eq!(attempt_status_of(Code::Approved, t), expected);
    }
    for code in [Code::Declined, Code::Error] {
        for t in [TransactionType::Sale, TransactionType::Auth, TransactionType::Validate, TransactionType::Credit, TransactionType::Refund] {
            assert_eq!(attempt_status_of(code, t), Some(AttemptStatus::Failure));
        }
        assert_eq!(attempt_status_of(code, TransactionType::Capture), Some(AttemptStatus::CaptureFailed));
        assert_eq!(attempt_status_of(code, TransactionType::Void), Some(AttemptStatus::VoidFailed));
    }
}

#[test]
fn flat_replies_without_type_use_the_sent_type() {
    let cases = [
        (authorize_call(CaptureMethod::Automatic), "1", AttemptStatus::Charged),
        (authorize_call(CaptureMethod::Manual), "1", AttemptStatus::Authorized),
        (authorize_call(CaptureMethod::Manual), "3", AttemptStatus::Failure),
        (
            call(key(), Operation::Verify(VerifyRequestData { currency: s("USD"), payment_method_data: card(), billing: Some(address()) })),
            "1",
            AttemptStatus::Charged,
        ),
        (
            call(key(), Operation::Capture(PaymentsCaptureData { amount_to_capture: 5, currency: s("USD"), connector_transaction_id: Some(s("T")) })),
            "1",
            AttemptStatus::CaptureInitiated,
        ),
        (
            call(key(), Operation::Capture(PaymentsCaptureData { amount_to_capture: 5, currency: s("USD"), connector_transaction_id: Some(s("T")) })),
            "2",
            AttemptStatus::CaptureFailed,
        ),
        (
            call(key(), Operation::Void(PaymentsCancelData { connector_transaction_id: Some(s("T")), cancellation_reason: None })),
            "1",
            AttemptStatus::Voided,
        ),
        (
            call(key(), Operation::Void(PaymentsCancelData { connector_transaction_id: Some(s("T")), cancellation_reason: None })),
            "3",
            AttemptStatus::VoidFailed,
        ),
    ];
    for (op, code, expected) in cases {
        let body = format!("response={}&transactionid=T7&responsetext=OK", code);
        assert_eq!(as_payment(Nmi.handle_response(&op, &reply(body.as_bytes()))), (expected, s("T7")));
    }
}

#[test]
fn echoed_type_decides_over_capture_method() {
    let r = Nmi.handle_response(&authorize_call(CaptureMethod::Manual), &reply(b"response=1&type=sale&transactionid=X"));
    assert_eq!(as_payment(r), payment(AttemptStatus::Charged, "X"));
    let r = Nmi.handle_response(&authorize_call(CaptureMethod::Automatic), &reply(b"response=1&type=refund&transactionid=X"));
    assert_eq!(r.unwrap_err(), ConnectorError::ResponseHandlingFailed);
}

#[test]
fn malformed_flat_replies_fail_to_deserialize() {
    for body in [
        &b"type=sale&transactionid=TX1"[..],
        &b"response=1&type=sale"[..],
        &b"response=7&transactionid=TX1"[..],
        &b"response=1&type=bogus&transactionid=TX1"[..],
        &b""[..],
    ] {
        let r = Nmi.handle_response(&authorize_call(CaptureMethod::Automatic), &reply(body));
        assert_eq!(r.unwrap_err(), ConnectorError::ResponseDeserializationFailed);
    }
}

#[test]
fn flat_reply_fields_are_decoded() {
    let pairs = vec![
        (s("response"), s("1")),
        (s("responsetext"), s("SUCCESS")),
        (s("authcode"), s("123456")),
        (s("transactionid"), s("T1")),
        (s("response"), s("2")),
        (s("orderid"), s("O1")),
    ];
    let g = GenericResponse::from_pairs(&pairs).unwrap();
    assert_eq!(g.response, Code::Approved);
    assert_eq!(g.transactionid, "T1");
    assert_eq!(g.responsetext.as_deref(), Some("SUCCESS"));
    assert_eq!(g.authcode.as_deref(), Some("123456"));
    assert_eq!(g.orderid.as_deref(), Some("O1"));
    assert_eq!(g.transaction_type, None);
    assert_eq!(g.avsresponse, None);
}

#[test]
fn flat_reply_percent_encoding_is_decoded() {
    let r = Nmi.handle_response(&authorize_call(CaptureMethod::Automatic), &reply(b"response=1&type=sale&transactionid=TX%2F1+2"));
    assert_eq!(as_payment(r), payment(AttemptStatus::Charged, "TX/1 2"));
}

#[test]
fn refund_replies_map_to_refund_status() {
    let op = call(
        key(),
        Operation::RefundExecute(RefundsData {
            refund_amount: 500,
            currency: s("USD"),
            connector_transaction_id: Some(s("TX1")),
            connector_refund_id: None,
        }),
    );
    assert_eq!(as_refund(Nmi.handle_response(&op, &reply(b"response=1&transactionid=RF1"))), (RefundStatus::Success, s("RF1")));
    assert_eq!(as_refund(Nmi.handle_response(&op, &reply(b"response=2&transactionid=RF2"))), (RefundStatus::Failure, s("RF2")));
    assert_eq!(as_refund(Nmi.handle_response(&op, &reply(b"response=3&type=refund&transactionid=RF3"))), (RefundStatus::Failure, s("RF3")));
}

#[test]
fn amount_formatting() {
    assert_eq!(format_amount(1050).unwrap(), "10.50");
    assert_eq!(format_amount(0).unwrap(), "0.00");
    assert_eq!(format_amount(5).unwrap(), "0.05");
    assert_eq!(format_amount(100).unwrap(), "1.00");
    assert_eq!(format_amount(123456789).unwrap(), "1234567.89");
    assert_eq!(format_amount(i64::MAX).unwrap(), "92233720368547758.07");
    assert_eq!(format_amount(-1).unwrap_err(), ConnectorError::RequestEncodingFailed);
}

#[test]
fn amount_round_trip() {
    for m in [0i64, 1, 9, 10, 99, 100, 101, 1050, 99999, 1_000_000, i64::MAX] {
        let text = format_amount(m).unwrap();
        assert_eq!(parse_amount(&text), Some(m));
        assert_eq!(format_amount(parse_amount(&text).unwrap()).unwrap(), text);
    }
}

#[test]
fn amount_parsing_rejects_other_texts() {
    for t in ["", "1.5", "10", "01.00", "00.00", "1,00", "a.00", "1.0x", "-1.00", "92233720368547758.08", "999999999999999999999.00"] {
        assert_eq!(parse_amount(t), None, "{}", t);
    }
    assert_eq!(parse_amount("0.07"), Some(7));
}

#[test]
fn authorize_request_is_encoded() {
    let op = authorize_call(CaptureMethod::Automatic);
    let w = Nmi.build_request(&op, &settings()).unwrap();
    assert_eq!(w.method, Method::Post);
    assert_eq!(w.url, "https://secure.nmi.com/api/transact.php");
    assert_eq!(w.headers, vec![(s("Content-Type"), s("application/x-www-form-urlencoded"))]);
    assert_eq!(
        w.body,
        "type=sale&security_key=KEY&amount=10.50&currency=USD&ccnumber=4111111111111111&ccexp=1230&cvv=123\
         &first_name=Jane&last_name=Doe&address1=1+Main+St&city=Springfield&state=IL&zip=62701&country=US&phone=5551234"
    );
}

#[test]
fn manual_capture_authorizes_and_other_methods_fail() {
    let w = Nmi.get_request_body(&authorize_call(CaptureMethod::Manual)).unwrap();
    assert!(w.starts_with("type=auth&"));
    for cm in [Some(CaptureMethod::ManualMultiple), Some(CaptureMethod::Scheduled), None] {
        let op = call(key(), Operation::Authorize(authorize(cm, card())));
        assert_eq!(Nmi.get_request_body(&op).unwrap_err(), ConnectorError::UnsupportedCaptureMethod);
    }
}

#[test]
fn verify_request_has_zero_amount_and_wallet_token() {
    let pm = PaymentMethodData::Wallet(WalletData { issuer: WalletIssuer::GooglePay, token: s("{\"a\":1}") });
    let mut a = address();
    a.line2 = Some(s("Apt 2"));
    let op = call(key(), Operation::Verify(VerifyRequestData { currency: s("EUR"), payment_method_data: pm, billing: Some(a) }));
    assert_eq!(
        Nmi.get_request_body(&op).unwrap(),
        "type=validate&security_key=KEY&amount=0.00&currency=EUR&googlepay_payment_data=%7B%22a%22%3A1%7D\
         &first_name=Jane&last_name=Doe&address1=1+Main+St&address2=Apt+2&city=Springfield&state=IL&zip=62701&country=US&phone=5551234"
    );
}

#[test]
fn missing_billing_fields_are_reported() {
    let mut d = authorize(Some(CaptureMethod::Automatic), card());
    d.billing = None;
    let r = Nmi.get_request_body(&call(key(), Operation::Authorize(d)));
    assert_eq!(r.unwrap_err(), ConnectorError::RequiredFieldMissing(RequiredField::BillingAddress));
    let mut a = address();
    a.phone = None;
    let mut d = authorize(Some(CaptureMethod::Automatic), card());
    d.billing = Some(a);
    let r = Nmi.get_request_body(&call(key(), Operation::Authorize(d)));
    assert_eq!(r.unwrap_err(), ConnectorError::RequiredFieldMissing(RequiredField::Phone));
    let mut a = address();
    a.first_name = None;
    a.zip = None;
    let mut d = authorize(Some(CaptureMethod::Automatic), card());
    d.billing = Some(a);
    let r = Nmi.get_request_body(&call(key(), Operation::Authorize(d)));
    assert_eq!(r.unwrap_err(), ConnectorError::RequiredFieldMissing(RequiredField::FirstName));
}

#[test]
fn card_expiry_uses_last_two_year_digits() {
    let pm = PaymentMethodData::Card(CardDetails {
        card_number: s("4"),
        card_exp_month: s("03"),
        card_exp_year: s("2027"),
        card_cvc: s("9"),
    });
    match get_payment_type(&pm).unwrap() {
        PaymentType::CreditCard(c) => assert_eq!(c.ccexp, "0327"),
        other => panic!("{:?}", other),
    }
    let short = PaymentMethodData::Card(CardDetails {
        card_number: s("4"),
        card_exp_month: s("03"),
        card_exp_year: s("7"),
        card_cvc: s("9"),
    });
    assert_eq!(get_payment_type(&short).unwrap_err(), ConnectorError::RequestEncodingFailed);
}

#[test]
fn capture_void_refund_and_sync_bodies() {
    let capture = call(key(), Operation::Capture(PaymentsCaptureData { amount_to_capture: 250, currency: s("USD"), connector_transaction_id: Some(s("T1")) }));
    assert_eq!(Nmi.get_request_body(&capture).unwrap(), "type=capture&security_key=KEY&transactionid=T1&amount=2.50");
    let void = call(key(), Operation::Void(PaymentsCancelData { connector_transaction_id: Some(s("T1")), cancellation_reason: Some(s("customer request")) }));
    assert_eq!(Nmi.get_request_body(&void).unwrap(), "type=void&security_key=KEY&transactionid=T1&void_reason=customer+request");
    let void = call(key(), Operation::Void(PaymentsCancelData { connector_transaction_id: Some(s("T1")), cancellation_reason: None }));
    assert_eq!(Nmi.get_request_body(&void).unwrap(), "type=void&security_key=KEY&transactionid=T1");
    let refund_data = RefundsData { refund_amount: 1, currency: s("USD"), connector_transaction_id: Some(s("T1")), connector_refund_id: Some(s("R1")) };
    let refund = call(key(), Operation::RefundExecute(refund_data.clone()));
    assert_eq!(Nmi.get_request_body(&refund).unwrap(), "type=refund&security_key=KEY&transactionid=T1&amount=0.01");
    let rsync = call(key(), Operation::RefundSync(refund_data));
    assert_eq!(Nmi.get_request_body(&rsync).unwrap(), "transaction_id=R1&security_key=KEY");
    assert_eq!(Nmi.get_url(&rsync, &settings()).unwrap(), "https://secure.nmi.com/api/query.php");
    let psync = call(key(), Operation::PaymentSync(PaymentsSyncData { connector_transaction_id: Some(s("T1")) }));
    let w = Nmi.build_request(&psync, &settings()).unwrap();
    assert_eq!(w.body, "transaction_id=T1&security_key=KEY");
    assert_eq!(w.url, "https://secure.nmi.com/api/query.php");
}

#[test]
fn missing_transaction_ids_are_reported() {
    let ops = vec![
        Operation::Capture(PaymentsCaptureData { amount_to_capture: 1, currency: s("USD"), connector_transaction_id: None }),
        Operation::Void(PaymentsCancelData { connector_transaction_id: None, cancellation_reason: Some(s("x")) }),
        Operation::PaymentSync(PaymentsSyncData { connector_transaction_id: None }),
        Operation::RefundExecute(RefundsData { refund_amount: 1, currency: s("USD"), connector_transaction_id: None, connector_refund_id: None }),
        Operation::RefundSync(RefundsData { refund_amount: 1, currency: s("USD"), connector_transaction_id: Some(s("T")), connector_refund_id: None }),
    ];
    for op in ops {
        let r = Nmi.build_request(&call(key(), op), &settings());
        assert_eq!(r.unwrap_err(), ConnectorError::MissingConnectorTransactionID);
    }
}

#[test]
fn negative_amounts_cannot_be_encoded() {
    let op = call(key(), Operation::Capture(PaymentsCaptureData { amount_to_capture: -5, currency: s("USD"), connector_transaction_id: Some(s("T")) }));
    assert_eq!(Nmi.get_request_body(&op).unwrap_err(), ConnectorError::RequestEncodingFailed);
    let mut d = authorize(Some(CaptureMethod::Automatic), card());
    d.amount = -1;
    assert_eq!(Nmi.get_request_body(&call(key(), Operation::Authorize(d))).unwrap_err(), ConnectorError::RequestEncodingFailed);
}

#[test]
fn form_fields_list_the_wire_pairs() {
    let op = call(key(), Operation::PaymentSync(PaymentsSyncData { connector_transaction_id: Some(s("T 1")) }));
    assert_eq!(form_fields(&op).unwrap(), vec![(s("transaction_id"), s("T 1")), (s("security_key"), s("KEY"))]);
}

#[test]
fn error_response_carries_status_only() {
    let e = Nmi.build_error_response(&Response { status_code: 502, response: b"<html>bad gateway</html>".to_vec() });
    assert_eq!(e.status_code, 502);
    assert_eq!(e.code, NO_ERROR_CODE);
    assert_eq!(e.message, NO_ERROR_MESSAGE);
    assert_eq!(e.reason, None);
    assert_eq!(Nmi.get_error_response(&Response { status_code: 400, response: vec![] }).status_code, 400);
}

#[test]
fn webhooks_are_not_implemented() {
    let w = IncomingWebhookRequestDetails { headers: vec![], body: b"{}".to_vec() };
    assert_eq!(Nmi.get_webhook_object_reference_id(&w).unwrap_err(), ConnectorError::WebhooksNotImplemented);
    assert_eq!(Nmi.get_webhook_event_type(&w).unwrap_err(), ConnectorError::WebhooksNotImplemented);
    assert_eq!(Nmi.get_webhook_resource_object(&w).unwrap_err(), ConnectorError::WebhooksNotImplemented);
}

#[test]
fn connector_identity_and_flow_type() {
    assert_eq!(Nmi.id(), "nmi");
    assert_eq!(Nmi.base_url(&settings()), "https://secure.nmi.com/");
    assert_eq!(Nmi.get_flow_type("a=b").unwrap(), CallConnectorAction::Trigger);
}
