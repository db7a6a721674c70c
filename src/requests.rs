//! The processor's fuller request vocabulary: the codes that its transact API
//! takes for recurring billing, bank accounts and ACH entry classes.
use vstd::prelude::*;

verus! {

/// How a recurring charge is billed.
#[derive(Debug, Clone, Copy, PartialEq, Eq, Structural)]
pub enum BillingMethod {
    Recurring,
    Installment,
}

impl BillingMethod {
    /// The code of this billing method on the wire.
    pub fn wire_name(&self) -> (r: &'static str)
        ensures
            r@ == match self {
                BillingMethod::Recurring => "RECURRING"@,
                BillingMethod::Installment => "INSTALLMENT"@,
            },
    {
        match self {
            BillingMethod::Recurring => "RECURRING",
            BillingMethod::Installment => "INSTALLMENT",
        }
    }
}

/// The transaction types of the fuller API.
#[derive(Debug, Clone, Copy, PartialEq, Eq, Structural)]
pub enum TransactionType {
    Sale,
    Auth,
    Credit,
    Validate,
    Offline,
}

impl TransactionType {
    /// The code of this transaction type on the wire.
    pub fn wire_name(&self) -> (r: &'static str)
        ensures
            r@ == match self {
                TransactionType::Sale => "SALE"@,
                TransactionType::Auth => "AUTH"@,
                TransactionType::Credit => "CREDIT"@,
                TransactionType::Validate => "VALIDATE"@,
                TransactionType::Offline => "OFFLINE"@,
            },
    {
        match self {
            TransactionType::Sale => "SALE",
            TransactionType::Auth => "AUTH",
            TransactionType::Credit => "CREDIT",
            TransactionType::Validate => "VALIDATE",
            TransactionType::Offline => "OFFLINE",
        }
    }
}

/// Who holds a bank account.
#[derive(Debug, Clone, Copy, PartialEq, Eq, Structural)]
pub enum AccountHolderType {
    Business,
    Personal,
}

impl AccountHolderType {
    /// The code of this holder type on the wire.
    pub fn wire_name(&self) -> (r: &'static str)
        ensures
            r@ == match self {
                AccountHolderType::Business => "BUSINESS"@,
                AccountHolderType::Personal => "PERSONAL"@,
            },
    {
        match self {
            AccountHolderType::Business => "BUSINESS",
            AccountHolderType::Personal => "PERSONAL",
        }
    }
}

/// The kind of a bank account.
#[derive(Debug, Clone, Copy, PartialEq, Eq, Structural)]
pub enum AccountType {
    Checking,
    Savings,
}

impl AccountType {
    /// The code of this account type on the wire.
    pub fn wire_name(&self) -> (r: &'static str)
        ensures
            r@ == match self {
                AccountType::Checking => "CHECKING"@,
                AccountType::Savings => "SAVINGS"@,
            },
    {
        match self {
            AccountType::Checking => "CHECKING",
            AccountType::Savings => "SAVINGS",
        }
    }
}

/// The standard entry class of an ACH transaction.
#[derive(Debug, Clone, Copy, PartialEq, Eq, Structural)]
pub enum SecCode {
    /// Cash concentration or disbursement, between corporate entities.
    CashConcentrationOrDisbursement,
    /// Point-of-sale entry, a debit initiated at a point of sale.
    PointOfSaleEntry,
    /// Prearranged payment and deposit, such as payroll.
    PrearrangedPaymentAndDeposits,
    /// A single debit authorised by telephone.
    TelephoneInitiatedEntry,
    /// A debit authorised over the internet.
    WebInitiatedEntry,
}

impl SecCode {
    /// The three-letter code of this entry class on the wire.
    pub fn wire_name(&self) -> (r: &'static str)
        ensures
            r@ == match self {
                SecCode::CashConcentrationOrDisbursement => "CCD"@,
                SecCode::PointOfSaleEntry => "POP"@,
                SecCode::PrearrangedPaymentAndDeposits => "PPD"@,
                SecCode::TelephoneInitiatedEntry => "TEL"@,
                SecCode::WebInitiatedEntry => "WEB"@,
            },
    {
        match self {
            SecCode::CashConcentrationOrDisbursement => "CCD",
            SecCode::PointOfSaleEntry => "POP",
            SecCode::PrearrangedPaymentAndDeposits => "PPD",
            SecCode::TelephoneInitiatedEntry => "TEL",
            SecCode::WebInitiatedEntry => "WEB",
        }
    }
}

/// The payment kinds of the fuller API.
#[derive(Debug, Clone, Copy, PartialEq, Eq, Structural)]
pub enum PaymentType {
    CreditCard,
    Check,
    Cash,
}

impl PaymentType {
    /// The code of this payment kind on the wire.
    pub fn wire_name(&self) -> (r: &'static str)
        ensures
            r@ == match self {
                PaymentType::CreditCard => "CREDIT_CARD"@,
                PaymentType::Check => "CHECK"@,
                PaymentType::Cash => "CASH"@,
            },
    {
        match self {
            PaymentType::CreditCard => "CREDIT_CARD",
            PaymentType::Check => "CHECK",
            PaymentType::Cash => "CASH",
        }
    }
}

/// A transact request of the fuller API, with card, ACH, recurring-billing and
/// billing-address fields.
#[derive(Debug, Clone)]
pub struct NmiPaymentsRequest {
    pub transaction_type: TransactionType,
    pub security_key: String,
    pub ccnumber: String,
    pub ccexp: String,
    pub cvv: String,
    pub account_holder_type: Option<AccountHolderType>,
    pub account_type: Option<AccountType>,
    pub sec_code: Option<SecCode>,
    pub amount: String,
    pub surcharge: Option<String>,
    pub currency: String,
    pub payment: PaymentType,
    pub processor_id: Option<String>,
    pub billing_method: Option<BillingMethod>,
    pub billing_number: Option<u8>,
    pub order_description: Option<String>,
    pub orderid: Option<String>,
    pub first_name: String,
    pub last_name: String,
    pub address1: String,
    pub address2: String,
    pub city: String,
    pub state: Option<String>,
    pub zip: String,
    pub country: String,
    pub phone: String,
}

} // verus!
