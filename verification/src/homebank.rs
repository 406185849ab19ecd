//! The HomeBank import record and its payment codes.

use vstd::prelude::*;
use crate::calendar::NaiveDate;
use crate::decimal::Decimal;

pub mod collection;

verus! {

/// How a transaction was paid. HomeBank reads the payment as a number, so
/// the order of the variants is part of the file format.
#[derive(Clone, Copy, Debug, PartialEq, Eq, Structural)]
pub enum HomeBankPaymentType {
    /// No payment method is known.
    Unspecified,
    CreditCard,
    Check,
    Cash,
    BankTransfer,
    /// HomeBank imports this as a bank transfer: a CSV file holds one
    /// account only.
    InternalTransfer,
    DebitCard,
    StandingOrder,
    ElectronicPayment,
    Deposit,
    FinancialInstitutionFee,
    DirectDebit,
}

impl HomeBankPaymentType {
    /// The number that HomeBank reads for the payment.
    pub open spec fn spec_code(&self) -> u8 {
        match self {
            HomeBankPaymentType::Unspecified => 0,
            HomeBankPaymentType::CreditCard => 1,
            HomeBankPaymentType::Check => 2,
            HomeBankPaymentType::Cash => 3,
            HomeBankPaymentType::BankTransfer => 4,
            HomeBankPaymentType::InternalTransfer => 5,
            HomeBankPaymentType::DebitCard => 6,
            HomeBankPaymentType::StandingOrder => 7,
            HomeBankPaymentType::ElectronicPayment => 8,
            HomeBankPaymentType::Deposit => 9,
            HomeBankPaymentType::FinancialInstitutionFee => 10,
            HomeBankPaymentType::DirectDebit => 11,
        }
    }

    /// The number that HomeBank reads for the payment.
    #[verifier::when_used_as_spec(spec_code)]
    pub fn code(&self) -> (r: u8)
        ensures
            r == self.code(),
            r <= 11,
    {
        match self {
            HomeBankPaymentType::Unspecified => 0,
            HomeBankPaymentType::CreditCard => 1,
            HomeBankPaymentType::Check => 2,
            HomeBankPaymentType::Cash => 3,
            HomeBankPaymentType::BankTransfer => 4,
            HomeBankPaymentType::InternalTransfer => 5,
            HomeBankPaymentType::DebitCard => 6,
            HomeBankPaymentType::StandingOrder => 7,
            HomeBankPaymentType::ElectronicPayment => 8,
            HomeBankPaymentType::Deposit => 9,
            HomeBankPaymentType::FinancialInstitutionFee => 10,
            HomeBankPaymentType::DirectDebit => 11,
        }
    }
}

/// Distinct payments have distinct codes, and the codes are the numbers
/// from 0 to 11.
pub proof fn lemma_payment_codes(a: HomeBankPaymentType, b: HomeBankPaymentType)
    ensures
        a.code() <= 11,
        a.code() == b.code() ==> a == b,
{
}

/// One transaction in the shape that HomeBank imports. Every field but the
/// payment may be absent.
#[derive(Clone, Debug, PartialEq, Eq)]
pub struct HomeBankTransaction {
    pub date: Option<NaiveDate>,
    pub payment: HomeBankPaymentType,
    pub info: Option<String>,
    pub payee: Option<String>,
    pub memo: Option<String>,
    pub amount: Option<Decimal>,
    pub category: Option<String>,
    pub tags: Option<String>,
}

/// A [`HomeBankTransaction`] with its texts as sequences of characters.
pub struct HomeBankRecord {
    pub date: Option<NaiveDate>,
    pub payment: HomeBankPaymentType,
    pub info: Option<Seq<char>>,
    pub payee: Option<Seq<char>>,
    pub memo: Option<Seq<char>>,
    pub amount: Option<Decimal>,
    pub category: Option<Seq<char>>,
    pub tags: Option<Seq<char>>,
}

impl View for HomeBankTransaction {
    type V = HomeBankRecord;

    open spec fn view(&self) -> HomeBankRecord {
        HomeBankRecord {
            date: self.date,
            payment: self.payment,
            info: self.info.deep_view(),
            payee: self.payee.deep_view(),
            memo: self.memo.deep_view(),
            amount: self.amount,
            category: self.category.deep_view(),
            tags: self.tags.deep_view(),
        }
    }
}

impl DeepView for HomeBankTransaction {
    type V = HomeBankRecord;

    open spec fn deep_view(&self) -> HomeBankRecord {
        self.view()
    }
}

} // verus!
