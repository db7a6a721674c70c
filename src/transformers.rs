//! Request records of each flow, built from the operation data and the
//! credentials, with the form fields that each puts on the wire.
use vstd::prelude::*;
use crate::amount::{amount_text, format_amount};
use crate::form::{extend_fields, opt_field, push_field, push_opt_field};
use crate::text::eq_lit;
use crate::types::{
    pairs_view, Address, CaptureMethod, ConnectorAuthType, ConnectorError, PaymentMethodData,
    PaymentsAuthorizeData, PaymentsCancelData, PaymentsCaptureData, RefundsData, RequiredField,
    VerifyRequestData, WalletIssuer,
};

verus! {

/// Key/value pairs of a form body, as text.
pub type Fields = Seq<(Seq<char>, Seq<char>)>;

/// The transaction type field (`type`) of a transact request.
#[derive(Debug, Clone, Copy, PartialEq, Eq, Structural)]
pub enum TransactionType {
    Sale,
    Auth,
    Credit,
    Validate,
    Capture,
    Void,
    Refund,
}

/// The wire name of a transaction type.
pub open spec fn tx_name(t: TransactionType) -> Seq<char> {
    match t {
        TransactionType::Sale => "sale"@,
        TransactionType::Auth => "auth"@,
        TransactionType::Credit => "credit"@,
        TransactionType::Validate => "validate"@,
        TransactionType::Capture => "capture"@,
        TransactionType::Void => "void"@,
        TransactionType::Refund => "refund"@,
    }
}

/// The transaction type whose wire name is `s`.
pub open spec fn tx_from_name(s: Seq<char>) -> Option<TransactionType> {
    if s == "sale"@ {
        Some(TransactionType::Sale)
    } else if s == "auth"@ {
        Some(TransactionType::Auth)
    } else if s == "credit"@ {
        Some(TransactionType::Credit)
    } else if s == "validate"@ {
        Some(TransactionType::Validate)
    } else if s == "capture"@ {
        Some(TransactionType::Capture)
    } else if s == "void"@ {
        Some(TransactionType::Void)
    } else if s == "refund"@ {
        Some(TransactionType::Refund)
    } else {
        None
    }
}

impl TransactionType {
    /// The wire name of this transaction type.
    pub fn wire_name(&self) -> (r: &'static str)
        ensures
            r@ == tx_name(*self),
    {
        match self {
            TransactionType::Sale => "sale",
            TransactionType::Auth => "auth",
            TransactionType::Credit => "credit",
            TransactionType::Validate => "validate",
            TransactionType::Capture => "capture",
            TransactionType::Void => "void",
            TransactionType::Refund => "refund",
        }
    }

    /// The transaction type whose wire name is `s`, if any.
    pub fn from_wire(s: &String) -> (r: Option<TransactionType>)
        ensures
            r == tx_from_name(s@),
    {
        if eq_lit(s, "sale") {
            Some(TransactionType::Sale)
        } else if eq_lit(s, "auth") {
            Some(TransactionType::Auth)
        } else if eq_lit(s, "credit") {
            Some(TransactionType::Credit)
        } else if eq_lit(s, "validate") {
            Some(TransactionType::Validate)
        } else if eq_lit(s, "capture") {
            Some(TransactionType::Capture)
        } else if eq_lit(s, "void") {
            Some(TransactionType::Void)
        } else if eq_lit(s, "refund") {
            Some(TransactionType::Refund)
        } else {
            None
        }
    }
}

/// The API key of a header-key configuration, the one shape this processor takes.
pub open spec fn header_key(auth: ConnectorAuthType) -> Option<Seq<char>> {
    match auth {
        ConnectorAuthType::HeaderKey { api_key } => Some(api_key@),
        _ => None,
    }
}

/// The credential of this processor: its security key.
pub struct NmiAuthType {
    pub api_key: String,
}

impl NmiAuthType {
    /// Extracts the key of a header-key configuration; any other shape fails
    /// with `AuthTypeError`.
    pub fn try_from(auth_type: &ConnectorAuthType) -> (r: Result<NmiAuthType, ConnectorError>)
        ensures
            header_key(*auth_type) matches Some(k) ==> r is Ok && r->Ok_0.api_key@ == k,
            header_key(*auth_type) is None ==> r == Err::<NmiAuthType, ConnectorError>(ConnectorError::AuthTypeError),
    {
        match auth_type {
            ConnectorAuthType::HeaderKey { api_key } => Ok(NmiAuthType { api_key: api_key.clone() }),
            _ => Err(ConnectorError::AuthTypeError),
        }
    }
}

/// The last two characters of `s`.
pub open spec fn last_two(s: Seq<char>) -> Seq<char> {
    s.subrange(s.len() - 2, s.len() as int)
}

/// The wire fields of a payment instrument: card fields or the supported
/// wallet's token; any other instrument is refused.
pub open spec fn instrument_fields(pm: PaymentMethodData) -> Result<Fields, ConnectorError> {
    match pm {
        PaymentMethodData::Card(c) => if c.card_exp_year@.len() < 2 {
            Err(ConnectorError::RequestEncodingFailed)
        } else {
            Ok(
                seq![
                    ("ccnumber"@, c.card_number@),
                    ("ccexp"@, c.card_exp_month@ + last_two(c.card_exp_year@)),
                    ("cvv"@, c.card_cvc@),
                ],
            )
        },
        PaymentMethodData::Wallet(w) => if w.issuer == WalletIssuer::GooglePay {
            Ok(seq![("googlepay_payment_data"@, w.token@)])
        } else {
            Err(ConnectorError::UnsupportedPaymentMethod)
        },
        _ => Err(ConnectorError::UnsupportedPaymentMethod),
    }
}

/// Card fields as the processor takes them.
#[derive(Debug, Clone)]
pub struct Card {
    pub ccnumber: String,
    /// Two-digit month followed by two-digit year.
    pub ccexp: String,
    pub cvv: String,
}

/// The payment instrument of a transact request.
#[derive(Debug, Clone)]
pub enum PaymentType {
    CreditCard(Card),
    GooglePay { googlepay_payment_data: String },
}

impl PaymentType {
    pub open spec fn fields(&self) -> Fields {
        match self {
            PaymentType::CreditCard(c) => seq![
                ("ccnumber"@, c.ccnumber@),
                ("ccexp"@, c.ccexp@),
                ("cvv"@, c.cvv@),
            ],
            PaymentType::GooglePay { googlepay_payment_data } => seq![
                ("googlepay_payment_data"@, googlepay_payment_data@),
            ],
        }
    }

    /// The form fields of this instrument.
    pub fn form_fields(&self) -> (r: Vec<(String, String)>)
        ensures
            pairs_view(r@) == self.fields(),
    {
        let mut v: Vec<(String, String)> = Vec::new();
        match self {
            PaymentType::CreditCard(c) => {
                push_field(&mut v, "ccnumber", &c.ccnumber);
                push_field(&mut v, "ccexp", &c.ccexp);
                push_field(&mut v, "cvv", &c.cvv);
            },
            PaymentType::GooglePay { googlepay_payment_data } => {
                push_field(&mut v, "googlepay_payment_data", googlepay_payment_data);
            },
        }
        assert(pairs_view(v@) =~= self.fields());
        v
    }
}

/// The instrument of a transact request: a card, whose expiry is the month
/// followed by the last two digits of the year, or a Google Pay token.
pub fn get_payment_type(payment_method: &PaymentMethodData) -> (r: Result<PaymentType, ConnectorError>)
    ensures
        match r {
            Ok(p) => instrument_fields(*payment_method) == Ok::<Fields, ConnectorError>(p.fields()),
            Err(e) => instrument_fields(*payment_method) == Err::<Fields, ConnectorError>(e),
        },
{
    match payment_method {
        PaymentMethodData::Card(card) => {
            let year = card.card_exp_year.as_str();
            let n = year.unicode_len();
            if n < 2 {
                return Err(ConnectorError::RequestEncodingFailed);
            }
            let mut ccexp = card.card_exp_month.clone();
            ccexp.append(year.substring_char(n - 2, n));
            Ok(
                PaymentType::CreditCard(
                    Card {
                        ccnumber: card.card_number.clone(),
                        ccexp,
                        cvv: card.card_cvc.clone(),
                    },
                ),
            )
        },
        PaymentMethodData::Wallet(w) => {
            if w.issuer == WalletIssuer::GooglePay {
                Ok(PaymentType::GooglePay { googlepay_payment_data: w.token.clone() })
            } else {
                Err(ConnectorError::UnsupportedPaymentMethod)
            }
        },
        _ => Err(ConnectorError::UnsupportedPaymentMethod),
    }
}

/// The first required subfield that a billing address lacks, if any.
pub open spec fn billing_gap(b: Option<Address>) -> Option<RequiredField> {
    match b {
        None => Some(RequiredField::BillingAddress),
        Some(a) => if a.first_name is None {
            Some(RequiredField::FirstName)
        } else if a.last_name is None {
            Some(RequiredField::LastName)
        } else if a.line1 is None {
            Some(RequiredField::Address1)
        } else if a.city is None {
            Some(RequiredField::City)
        } else if a.zip is None {
            Some(RequiredField::Zip)
        } else if a.country is None {
            Some(RequiredField::Country)
        } else if a.phone is None {
            Some(RequiredField::Phone)
        } else {
            None
        },
    }
}

/// The address and contact fields of an authorisation or a verification: the
/// second address line and the state only where present.
pub open spec fn billing_fields(b: Option<Address>) -> Result<Fields, ConnectorError> {
    match billing_gap(b) {
        Some(f) => Err(ConnectorError::RequiredFieldMissing(f)),
        None => {
            let a = b->0;
            Ok(
                seq![
                    ("first_name"@, a.first_name->0@),
                    ("last_name"@, a.last_name->0@),
                    ("address1"@, a.line1->0@),
                ] + opt_field("address2"@, a.line2) + seq![("city"@, a.city->0@)] + opt_field(
                    "state"@,
                    a.state,
                ) + seq![
                    ("zip"@, a.zip->0@),
                    ("country"@, a.country->0@),
                    ("phone"@, a.phone->0@),
                ],
            )
        },
    }
}

/// Address and contact fields of a transact request.
#[derive(Debug, Clone)]
pub struct BillingDetails {
    pub first_name: String,
    pub last_name: String,
    pub address1: String,
    pub address2: Option<String>,
    pub city: String,
    pub state: Option<String>,
    pub zip: String,
    pub country: String,
    pub phone: String,
}

impl BillingDetails {
    pub open spec fn fields(&self) -> Fields {
        seq![
            ("first_name"@, self.first_name@),
            ("last_name"@, self.last_name@),
            ("address1"@, self.address1@),
        ] + opt_field("address2"@, self.address2) + seq![("city"@, self.city@)] + opt_field(
            "state"@,
            self.state,
        ) + seq![("zip"@, self.zip@), ("country"@, self.country@), ("phone"@, self.phone@)]
    }

    /// Takes the address fields out of a billing address that must be present
    /// with all its required subfields.
    pub fn try_from(billing: &Option<Address>) -> (r: Result<BillingDetails, ConnectorError>)
        ensures
            match r {
                Ok(b) => billing_fields(*billing) == Ok::<Fields, ConnectorError>(b.fields()),
                Err(e) => billing_fields(*billing) == Err::<Fields, ConnectorError>(e),
            },
    {
        let a = match billing {
            None => return Err(ConnectorError::RequiredFieldMissing(RequiredField::BillingAddress)),
            Some(a) => a,
        };
        let first_name = match &a.first_name {
            None => return Err(ConnectorError::RequiredFieldMissing(RequiredField::FirstName)),
            Some(v) => v.clone(),
        };
        let last_name = match &a.last_name {
            None => return Err(ConnectorError::RequiredFieldMissing(RequiredField::LastName)),
            Some(v) => v.clone(),
        };
        let address1 = match &a.line1 {
            None => return Err(ConnectorError::RequiredFieldMissing(RequiredField::Address1)),
            Some(v) => v.clone(),
        };
        let city = match &a.city {
            None => return Err(ConnectorError::RequiredFieldMissing(RequiredField::City)),
            Some(v) => v.clone(),
        };
        let zip = match &a.zip {
            None => return Err(ConnectorError::RequiredFieldMissing(RequiredField::Zip)),
            Some(v) => v.clone(),
        };
        let country = match &a.country {
            None => return Err(ConnectorError::RequiredFieldMissing(RequiredField::Country)),
            Some(v) => v.clone(),
        };
        let phone = match &a.phone {
            None => return Err(ConnectorError::RequiredFieldMissing(RequiredField::Phone)),
            Some(v) => v.clone(),
        };
        Ok(
            BillingDetails {
                first_name,
                last_name,
                address1,
                address2: a.line2.clone(),
                city,
                state: a.state.clone(),
                zip,
                country,
                phone,
            },
        )
    }

    /// The form fields of this address.
    pub fn form_fields(&self) -> (r: Vec<(String, String)>)
        ensures
            pairs_view(r@) == self.fields(),
    {
        let mut v: Vec<(String, String)> = Vec::new();
        push_field(&mut v, "first_name", &self.first_name);
        push_field(&mut v, "last_name", &self.last_name);
        push_field(&mut v, "address1", &self.address1);
        push_opt_field(&mut v, "address2", &self.address2);
        push_field(&mut v, "city", &self.city);
        push_opt_field(&mut v, "state", &self.state);
        push_field(&mut v, "zip", &self.zip);
        push_field(&mut v, "country", &self.country);
        push_field(&mut v, "phone", &self.phone);
        assert(pairs_view(v@) =~= self.fields());
        v
    }
}


/// The transaction type of an authorisation: a sale where the capture is
/// automatic, an auth where it is manual; other capture methods are not taken.
pub open spec fn authorize_type(cm: Option<CaptureMethod>) -> Option<TransactionType> {
    match cm {
        Some(CaptureMethod::Automatic) => Some(TransactionType::Sale),
        Some(CaptureMethod::Manual) => Some(TransactionType::Auth),
        _ => None,
    }
}

/// The fields of a transact request that charges or validates an instrument.
pub open spec fn payment_fields(
    t: TransactionType,
    key: Seq<char>,
    amount: Seq<char>,
    currency: Seq<char>,
    instrument: Fields,
    billing: Fields,
) -> Fields {
    seq![
        ("type"@, tx_name(t)),
        ("security_key"@, key),
        ("amount"@, amount),
        ("currency"@, currency),
    ] + instrument + billing
}

/// The fields of an authorisation request, or the error that stops it; the
/// checks run in this order: capture method, credentials, instrument, billing
/// address, amount.
pub open spec fn authorize_fields(d: PaymentsAuthorizeData, auth: ConnectorAuthType) -> Result<Fields, ConnectorError> {
    if authorize_type(d.capture_method) is None {
        Err(ConnectorError::UnsupportedCaptureMethod)
    } else if header_key(auth) is None {
        Err(ConnectorError::AuthTypeError)
    } else if instrument_fields(d.payment_method_data) is Err {
        Err(instrument_fields(d.payment_method_data)->Err_0)
    } else if billing_fields(d.billing) is Err {
        Err(billing_fields(d.billing)->Err_0)
    } else if d.amount < 0 {
        Err(ConnectorError::RequestEncodingFailed)
    } else {
        Ok(
            payment_fields(
                authorize_type(d.capture_method)->0,
                header_key(auth)->0,
                amount_text(d.amount as nat),
                d.currency@,
                instrument_fields(d.payment_method_data)->Ok_0,
                billing_fields(d.billing)->Ok_0,
            ),
        )
    }
}

/// The fields of a verification request, which carries a zero amount, or the
/// error that stops it.
pub open spec fn verify_fields(d: VerifyRequestData, auth: ConnectorAuthType) -> Result<Fields, ConnectorError> {
    if header_key(auth) is None {
        Err(ConnectorError::AuthTypeError)
    } else if instrument_fields(d.payment_method_data) is Err {
        Err(instrument_fields(d.payment_method_data)->Err_0)
    } else if billing_fields(d.billing) is Err {
        Err(billing_fields(d.billing)->Err_0)
    } else {
        Ok(
            payment_fields(
                TransactionType::Validate,
                header_key(auth)->0,
                amount_text(0),
                d.currency@,
                instrument_fields(d.payment_method_data)->Ok_0,
                billing_fields(d.billing)->Ok_0,
            ),
        )
    }
}

/// An authorisation or verification whose credentials are not a header key
/// builds no request and fails with `AuthTypeError`; for an authorisation,
/// where its capture method passes, since that is checked first.
pub proof fn payment_request_needs_header_key(
    authorize: PaymentsAuthorizeData,
    verify: VerifyRequestData,
    auth: ConnectorAuthType,
)
    requires
        header_key(auth) is None,
    ensures
        authorize_type(authorize.capture_method) is Some
            ==> authorize_fields(authorize, auth) == Err::<Fields, ConnectorError>(ConnectorError::AuthTypeError),
        verify_fields(verify, auth) == Err::<Fields, ConnectorError>(ConnectorError::AuthTypeError),
{
}

/// An authorisation whose instrument is neither a card nor a Google Pay
/// wallet builds no request and fails with `UnsupportedPaymentMethod`, where
/// its capture method and credentials pass.
pub proof fn payment_request_refuses_other_instruments(d: PaymentsAuthorizeData, auth: ConnectorAuthType)
    requires
        authorize_type(d.capture_method) is Some,
        header_key(auth) is Some,
        !(d.payment_method_data is Card),
        !(d.payment_method_data matches PaymentMethodData::Wallet(w) && w.issuer == WalletIssuer::GooglePay),
    ensures
        authorize_fields(d, auth) == Err::<Fields, ConnectorError>(ConnectorError::UnsupportedPaymentMethod),
{
}

/// A transact request that charges, authorises or validates an instrument.
#[derive(Debug, Clone)]
pub struct NmiPaymentsRequest {
    pub transaction_type: TransactionType,
    pub security_key: String,
    pub amount: String,
    pub currency: String,
    pub payment_type: PaymentType,
    pub billing: BillingDetails,
}

impl NmiPaymentsRequest {
    pub open spec fn fields(&self) -> Fields {
        payment_fields(
            self.transaction_type,
            self.security_key@,
            self.amount@,
            self.currency@,
            self.payment_type.fields(),
            self.billing.fields(),
        )
    }

    /// The request of an authorisation.
    pub fn try_from_authorize(item: &PaymentsAuthorizeData, auth: &ConnectorAuthType) -> (r: Result<NmiPaymentsRequest, ConnectorError>)
        ensures
            match r {
                Ok(q) => authorize_fields(*item, *auth) == Ok::<Fields, ConnectorError>(q.fields()),
                Err(e) => authorize_fields(*item, *auth) == Err::<Fields, ConnectorError>(e),
            },
    {
        let transaction_type = match item.capture_method {
            Some(CaptureMethod::Automatic) => TransactionType::Sale,
            Some(CaptureMethod::Manual) => TransactionType::Auth,
            _ => return Err(ConnectorError::UnsupportedCaptureMethod),
        };
        let security_key = NmiAuthType::try_from(auth)?.api_key;
        let payment_type = get_payment_type(&item.payment_method_data)?;
        let billing = BillingDetails::try_from(&item.billing)?;
        let amount = format_amount(item.amount)?;
        Ok(
            NmiPaymentsRequest {
                transaction_type,
                security_key,
                amount,
                currency: item.currency.clone(),
                payment_type,
                billing,
            },
        )
    }

    /// The request of a verification, with a zero amount.
    pub fn try_from_verify(item: &VerifyRequestData, auth: &ConnectorAuthType) -> (r: Result<NmiPaymentsRequest, ConnectorError>)
        ensures
            match r {
                Ok(q) => verify_fields(*item, *auth) == Ok::<Fields, ConnectorError>(q.fields()),
                Err(e) => verify_fields(*item, *auth) == Err::<Fields, ConnectorError>(e),
            },
    {
        let security_key = NmiAuthType::try_from(auth)?.api_key;
        let payment_type = get_payment_type(&item.payment_method_data)?;
        let billing = BillingDetails::try_from(&item.billing)?;
        let amount = format_amount(0)?;
        Ok(
            NmiPaymentsRequest {
                transaction_type: TransactionType::Validate,
                security_key,
                amount,
                currency: item.currency.clone(),
                payment_type,
                billing,
            },
        )
    }

    /// The form fields of this request.
    pub fn form_fields(&self) -> (r: Vec<(String, String)>)
        ensures
            pairs_view(r@) == self.fields(),
    {
        let mut v: Vec<(String, String)> = Vec::new();
        let t = String::from_str(self.transaction_type.wire_name());
        push_field(&mut v, "type", &t);
        push_field(&mut v, "security_key", &self.security_key);
        push_field(&mut v, "amount", &self.amount);
        push_field(&mut v, "currency", &self.currency);
        extend_fields(&mut v, self.payment_type.form_fields());
        extend_fields(&mut v, self.billing.form_fields());
        assert(pairs_view(v@) =~= self.fields());
        v
    }
}


/// The view of a transaction id held by the operation data.
pub open spec fn id_of(id: Option<String>) -> Seq<char> {
    id->0@
}

/// The fields of a status query, or the error that stops it.
pub open spec fn sync_fields(id: Option<String>, auth: ConnectorAuthType) -> Result<Fields, ConnectorError> {
    if header_key(auth) is None {
        Err(ConnectorError::AuthTypeError)
    } else if id is None {
        Err(ConnectorError::MissingConnectorTransactionID)
    } else {
        Ok(seq![("transaction_id"@, id_of(id)), ("security_key"@, header_key(auth)->0)])
    }
}

/// A status query for a payment or a refund.
#[derive(Debug, Clone)]
pub struct NmiSyncRequest {
    pub transaction_id: String,
    pub security_key: String,
}

impl NmiSyncRequest {
    pub open spec fn fields(&self) -> Fields {
        seq![("transaction_id"@, self.transaction_id@), ("security_key"@, self.security_key@)]
    }

    /// A query for the transaction `transaction_id`, which must be known.
    pub fn try_from(transaction_id: &Option<String>, auth: &ConnectorAuthType) -> (r: Result<NmiSyncRequest, ConnectorError>)
        ensures
            match r {
                Ok(q) => sync_fields(*transaction_id, *auth) == Ok::<Fields, ConnectorError>(q.fields()),
                Err(e) => sync_fields(*transaction_id, *auth) == Err::<Fields, ConnectorError>(e),
            },
    {
        let security_key = NmiAuthType::try_from(auth)?.api_key;
        match transaction_id {
            None => Err(ConnectorError::MissingConnectorTransactionID),
            Some(id) => Ok(NmiSyncRequest { transaction_id: id.clone(), security_key }),
        }
    }

    /// The form fields of this request.
    pub fn form_fields(&self) -> (r: Vec<(String, String)>)
        ensures
            pairs_view(r@) == self.fields(),
    {
        let mut v: Vec<(String, String)> = Vec::new();
        push_field(&mut v, "transaction_id", &self.transaction_id);
        push_field(&mut v, "security_key", &self.security_key);
        assert(pairs_view(v@) =~= self.fields());
        v
    }
}

/// The fields of a capture request, or the error that stops it.
pub open spec fn capture_fields(d: PaymentsCaptureData, auth: ConnectorAuthType) -> Result<Fields, ConnectorError> {
    if header_key(auth) is None {
        Err(ConnectorError::AuthTypeError)
    } else if d.connector_transaction_id is None {
        Err(ConnectorError::MissingConnectorTransactionID)
    } else if d.amount_to_capture < 0 {
        Err(ConnectorError::RequestEncodingFailed)
    } else {
        Ok(
            seq![
                ("type"@, tx_name(TransactionType::Capture)),
                ("security_key"@, header_key(auth)->0),
                ("transactionid"@, id_of(d.connector_transaction_id)),
                ("amount"@, amount_text(d.amount_to_capture as nat)),
            ],
        )
    }
}

/// A request that captures an authorised payment.
#[derive(Debug, Clone)]
pub struct NmiCaptureRequest {
    pub transaction_type: TransactionType,
    pub security_key: String,
    pub transactionid: String,
    pub amount: Option<String>,
}

impl NmiCaptureRequest {
    pub open spec fn fields(&self) -> Fields {
        seq![
            ("type"@, tx_name(self.transaction_type)),
            ("security_key"@, self.security_key@),
            ("transactionid"@, self.transactionid@),
        ] + opt_field("amount"@, self.amount)
    }

    /// The request of a capture.
    pub fn try_from(item: &PaymentsCaptureData, auth: &ConnectorAuthType) -> (r: Result<NmiCaptureRequest, ConnectorError>)
        ensures
            match r {
                Ok(q) => capture_fields(*item, *auth) == Ok::<Fields, ConnectorError>(q.fields()),
                Err(e) => capture_fields(*item, *auth) == Err::<Fields, ConnectorError>(e),
            },
    {
        let security_key = NmiAuthType::try_from(auth)?.api_key;
        let transactionid = match &item.connector_transaction_id {
            None => return Err(ConnectorError::MissingConnectorTransactionID),
            Some(id) => id.clone(),
        };
        let amount = format_amount(item.amount_to_capture)?;
        let q = NmiCaptureRequest {
            transaction_type: TransactionType::Capture,
            security_key,
            transactionid,
            amount: Some(amount),
        };
        assert(q.fields() =~= capture_fields(*item, *auth)->Ok_0);
        Ok(q)
    }

    /// The form fields of this request.
    pub fn form_fields(&self) -> (r: Vec<(String, String)>)
        ensures
            pairs_view(r@) == self.fields(),
    {
        let mut v: Vec<(String, String)> = Vec::new();
        let t = String::from_str(self.transaction_type.wire_name());
        push_field(&mut v, "type", &t);
        push_field(&mut v, "security_key", &self.security_key);
        push_field(&mut v, "transactionid", &self.transactionid);
        push_opt_field(&mut v, "amount", &self.amount);
        assert(pairs_view(v@) =~= self.fields());
        v
    }
}

/// The fields of a void request, or the error that stops it.
pub open spec fn cancel_fields(d: PaymentsCancelData, auth: ConnectorAuthType) -> Result<Fields, ConnectorError> {
    if header_key(auth) is None {
        Err(ConnectorError::AuthTypeError)
    } else if d.connector_transaction_id is None {
        Err(ConnectorError::MissingConnectorTransactionID)
    } else {
        Ok(
            seq![
                ("type"@, tx_name(TransactionType::Void)),
                ("security_key"@, header_key(auth)->0),
                ("transactionid"@, id_of(d.connector_transaction_id)),
            ] + opt_field("void_reason"@, d.cancellation_reason),
        )
    }
}

/// A request that voids an authorised payment.
#[derive(Debug, Clone)]
pub struct NmiCancelRequest {
    pub transaction_type: TransactionType,
    pub security_key: String,
    pub transactionid: String,
    pub void_reason: Option<String>,
}

impl NmiCancelRequest {
    pub open spec fn fields(&self) -> Fields {
        seq![
            ("type"@, tx_name(self.transaction_type)),
            ("security_key"@, self.security_key@),
            ("transactionid"@, self.transactionid@),
        ] + opt_field("void_reason"@, self.void_reason)
    }

    /// The request of a void, with the cancellation reason where one is given.
    pub fn try_from(item: &PaymentsCancelData, auth: &ConnectorAuthType) -> (r: Result<NmiCancelRequest, ConnectorError>)
        ensures
            match r {
                Ok(q) => cancel_fields(*item, *auth) == Ok::<Fields, ConnectorError>(q.fields()),
                Err(e) => cancel_fields(*item, *auth) == Err::<Fields, ConnectorError>(e),
            },
    {
        let security_key = NmiAuthType::try_from(auth)?.api_key;
        let transactionid = match &item.connector_transaction_id {
            None => return Err(ConnectorError::MissingConnectorTransactionID),
            Some(id) => id.clone(),
        };
        Ok(
            NmiCancelRequest {
                transaction_type: TransactionType::Void,
                security_key,
                transactionid,
                void_reason: item.cancellation_reason.clone(),
            },
        )
    }

    /// The form fields of this request.
    pub fn form_fields(&self) -> (r: Vec<(String, String)>)
        ensures
            pairs_view(r@) == self.fields(),
    {
        let mut v: Vec<(String, String)> = Vec::new();
        let t = String::from_str(self.transaction_type.wire_name());
        push_field(&mut v, "type", &t);
        push_field(&mut v, "security_key", &self.security_key);
        push_field(&mut v, "transactionid", &self.transactionid);
        push_opt_field(&mut v, "void_reason", &self.void_reason);
        assert(pairs_view(v@) =~= self.fields());
        v
    }
}

/// The fields of a refund request, or the error that stops it.
pub open spec fn refund_fields(d: RefundsData, auth: ConnectorAuthType) -> Result<Fields, ConnectorError> {
    if header_key(auth) is None {
        Err(ConnectorError::AuthTypeError)
    } else if d.connector_transaction_id is None {
        Err(ConnectorError::MissingConnectorTransactionID)
    } else if d.refund_amount < 0 {
        Err(ConnectorError::RequestEncodingFailed)
    } else {
        Ok(
            seq![
                ("type"@, tx_name(TransactionType::Refund)),
                ("security_key"@, header_key(auth)->0),
                ("transactionid"@, id_of(d.connector_transaction_id)),
                ("amount"@, amount_text(d.refund_amount as nat)),
            ],
        )
    }
}

/// A request that refunds (part of) a payment.
#[derive(Debug, Clone)]
pub struct NmiRefundRequest {
    pub transaction_type: TransactionType,
    pub security_key: String,
    pub transactionid: String,
    pub amount: String,
}

impl NmiRefundRequest {
    pub open spec fn fields(&self) -> Fields {
        seq![
            ("type"@, tx_name(self.transaction_type)),
            ("security_key"@, self.security_key@),
            ("transactionid"@, self.transactionid@),
            ("amount"@, self.amount@),
        ]
    }

    /// The request of a refund of the payment that the data names.
    pub fn try_from(item: &RefundsData, auth: &ConnectorAuthType) -> (r: Result<NmiRefundRequest, ConnectorError>)
        ensures
            match r {
                Ok(q) => refund_fields(*item, *auth) == Ok::<Fields, ConnectorError>(q.fields()),
                Err(e) => refund_fields(*item, *auth) == Err::<Fields, ConnectorError>(e),
            },
    {
        let security_key = NmiAuthType::try_from(auth)?.api_key;
        let transactionid = match &item.connector_transaction_id {
            None => return Err(ConnectorError::MissingConnectorTransactionID),
            Some(id) => id.clone(),
        };
        let amount = format_amount(item.refund_amount)?;
        Ok(NmiRefundRequest { transaction_type: TransactionType::Refund, security_key, transactionid, amount })
    }

    /// The form fields of this request.
    pub fn form_fields(&self) -> (r: Vec<(String, String)>)
        ensures
            pairs_view(r@) == self.fields(),
    {
        let mut v: Vec<(String, String)> = Vec::new();
        let t = String::from_str(self.transaction_type.wire_name());
        push_field(&mut v, "type", &t);
        push_field(&mut v, "security_key", &self.security_key);
        push_field(&mut v, "transactionid", &self.transactionid);
        push_field(&mut v, "amount", &self.amount);
        assert(pairs_view(v@) =~= self.fields());
        v
    }
}

} // verus!
