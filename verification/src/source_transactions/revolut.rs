//! Rows of a Revolut account statement.

use vstd::prelude::*;
use crate::calendar::NaiveDateTime;
use crate::decimal::Decimal;
use crate::homebank::{HomeBankPaymentType, HomeBankRecord, HomeBankTransaction};
use crate::source_transactions::{cell, cell_at, MappableToHomeBank};
use crate::sequences::{lemma_filter_remove, lemma_filter_step};
use crate::text::{same_text, uppercase};
use crate::utils::{
    datetime_of, decimal_of, equals_ignore_case, option_equals_to_str_ignore_case,
    to_decimal_direct, to_naive_datetime, to_string,
};

verus! {

/// The records of one statement, in file order.
pub type RevolutCollection = Vec<RevolutTransaction>;

/// The kind of a Revolut transaction.
#[derive(Clone, Copy, Debug, PartialEq, Eq, Structural)]
pub enum RevolutTransactionType {
    /// The statement names no kind, or one that is not known.
    Unknown,
    Cashback,
    Transfer,
    CardPayment,
    Topup,
    CardRefund,
    Exchange,
    Atm,
}

/// The kind that an upper-case code of the statement stands for.
pub open spec fn kind_of_code(code: Seq<char>) -> RevolutTransactionType {
    if code == "CASHBACK"@ {
        RevolutTransactionType::Cashback
    } else if code == "TRANSFER"@ {
        RevolutTransactionType::Transfer
    } else if code == "CARD_PAYMENT"@ {
        RevolutTransactionType::CardPayment
    } else if code == "TOPUP"@ {
        RevolutTransactionType::Topup
    } else if code == "CARD_REFUND"@ {
        RevolutTransactionType::CardRefund
    } else if code == "EXCHANGE"@ {
        RevolutTransactionType::Exchange
    } else if code == "ATM"@ {
        RevolutTransactionType::Atm
    } else {
        RevolutTransactionType::Unknown
    }
}

/// The kind that a cell of the statement stands for, in whatever case the
/// code is written.
pub open spec fn kind_of_cell(cell: Option<Seq<char>>) -> RevolutTransactionType {
    match cell {
        Some(text) => kind_of_code(uppercase(text)),
        None => RevolutTransactionType::Unknown,
    }
}

impl RevolutTransactionType {
    /// The kind that an upper-case code stands for.
    pub fn from_code(code: &str) -> (r: RevolutTransactionType)
        ensures
            r == kind_of_code(code@),
    {
        if same_text(code, "CASHBACK") {
            RevolutTransactionType::Cashback
        } else if same_text(code, "TRANSFER") {
            RevolutTransactionType::Transfer
        } else if same_text(code, "CARD_PAYMENT") {
            RevolutTransactionType::CardPayment
        } else if same_text(code, "TOPUP") {
            RevolutTransactionType::Topup
        } else if same_text(code, "CARD_REFUND") {
            RevolutTransactionType::CardRefund
        } else if same_text(code, "EXCHANGE") {
            RevolutTransactionType::Exchange
        } else if same_text(code, "ATM") {
            RevolutTransactionType::Atm
        } else {
            RevolutTransactionType::Unknown
        }
    }

    /// The kind that a cell stands for: its code is put in upper case
    /// first, and an absent cell has no kind.
    pub fn from_cell(cell: Option<&str>) -> (r: RevolutTransactionType)
        ensures
            r == kind_of_cell(cell.deep_view()),
    {
        match cell {
            Some(text) => {
                let code = text.to_uppercase();
                RevolutTransactionType::from_code(code.as_str())
            },
            None => RevolutTransactionType::Unknown,
        }
    }

    /// The payment that HomeBank records for a transaction of this kind.
    pub open spec fn spec_payment(&self) -> HomeBankPaymentType {
        match self {
            RevolutTransactionType::Cashback => HomeBankPaymentType::BankTransfer,
            RevolutTransactionType::Transfer => HomeBankPaymentType::BankTransfer,
            RevolutTransactionType::CardPayment => HomeBankPaymentType::DebitCard,
            RevolutTransactionType::Topup => HomeBankPaymentType::BankTransfer,
            RevolutTransactionType::CardRefund => HomeBankPaymentType::DebitCard,
            RevolutTransactionType::Exchange => HomeBankPaymentType::BankTransfer,
            RevolutTransactionType::Atm => HomeBankPaymentType::Cash,
            RevolutTransactionType::Unknown => HomeBankPaymentType::Unspecified,
        }
    }

    /// The payment that HomeBank records for a transaction of this kind.
    #[verifier::when_used_as_spec(spec_payment)]
    pub fn payment(&self) -> (r: HomeBankPaymentType)
        ensures
            r == self.payment(),
    {
        match self {
            RevolutTransactionType::Cashback => HomeBankPaymentType::BankTransfer,
            RevolutTransactionType::Transfer => HomeBankPaymentType::BankTransfer,
            RevolutTransactionType::CardPayment => HomeBankPaymentType::DebitCard,
            RevolutTransactionType::Topup => HomeBankPaymentType::BankTransfer,
            RevolutTransactionType::CardRefund => HomeBankPaymentType::DebitCard,
            RevolutTransactionType::Exchange => HomeBankPaymentType::BankTransfer,
            RevolutTransactionType::Atm => HomeBankPaymentType::Cash,
            RevolutTransactionType::Unknown => HomeBankPaymentType::Unspecified,
        }
    }
}

/// One row of a Revolut statement.
#[derive(Clone, Debug, PartialEq, Eq)]
pub struct RevolutTransaction {
    pub transaction_type: RevolutTransactionType,
    pub product: Option<String>,
    pub started_date: Option<NaiveDateTime>,
    pub completed_date: Option<NaiveDateTime>,
    pub description: Option<String>,
    pub amount: Option<Decimal>,
    pub fee: Option<Decimal>,
    pub currency: Option<String>,
    pub state: Option<String>,
    pub balance: Option<Decimal>,
}

/// A [`RevolutTransaction`] with its texts as sequences of characters.
pub struct RevolutRecord {
    pub transaction_type: RevolutTransactionType,
    pub product: Option<Seq<char>>,
    pub started_date: Option<NaiveDateTime>,
    pub completed_date: Option<NaiveDateTime>,
    pub description: Option<Seq<char>>,
    pub amount: Option<Decimal>,
    pub fee: Option<Decimal>,
    pub currency: Option<Seq<char>>,
    pub state: Option<Seq<char>>,
    pub balance: Option<Decimal>,
}

impl View for RevolutTransaction {
    type V = RevolutRecord;

    open spec fn view(&self) -> RevolutRecord {
        RevolutRecord {
            transaction_type: self.transaction_type,
            product: self.product.deep_view(),
            started_date: self.started_date,
            completed_date: self.completed_date,
            description: self.description.deep_view(),
            amount: self.amount,
            fee: self.fee,
            currency: self.currency.deep_view(),
            state: self.state.deep_view(),
            balance: self.balance,
        }
    }
}

impl DeepView for RevolutTransaction {
    type V = RevolutRecord;

    open spec fn deep_view(&self) -> RevolutRecord {
        self.view()
    }
}

/// The pattern of the timestamps of a Revolut statement.
pub open spec fn revolut_timestamp_pattern() -> Seq<char> {
    "%Y-%m-%d %H:%M:%S"@
}

/// The record that a row of a Revolut statement holds. The columns are, in
/// order: kind, product, start, completion, description, amount, fee,
/// currency, state and balance.
pub open spec fn revolut_record(row: Seq<Option<Seq<char>>>) -> RevolutRecord {
    RevolutRecord {
        transaction_type: kind_of_cell(cell_at(row, 0)),
        product: cell_at(row, 1),
        started_date: datetime_of(cell_at(row, 2), revolut_timestamp_pattern()),
        completed_date: datetime_of(cell_at(row, 3), revolut_timestamp_pattern()),
        description: cell_at(row, 4),
        amount: decimal_of(cell_at(row, 5)),
        fee: decimal_of(cell_at(row, 6)),
        currency: cell_at(row, 7),
        state: cell_at(row, 8),
        balance: decimal_of(cell_at(row, 9)),
    }
}

/// The HomeBank record of a Revolut record: dated by the day the
/// transaction started, paid as its kind says, with the description as
/// memo.
pub open spec fn revolut_mapped(record: RevolutRecord) -> HomeBankRecord {
    HomeBankRecord {
        date: match record.started_date {
            Some(t) => Some(t.date()),
            None => None,
        },
        payment: record.transaction_type.payment(),
        info: None,
        payee: None,
        memo: record.description,
        amount: record.amount,
        category: None,
        tags: None,
    }
}

/// Whether a Revolut record is converted: it belongs to the current
/// account, and it is completed unless every state is asked for.
pub open spec fn revolut_included(record: RevolutRecord, include_all: bool) -> bool {
    &&& equals_ignore_case(record.product, "Current"@)
    &&& include_all || equals_ignore_case(record.state, "COMPLETED"@)
}

impl RevolutTransaction {
    /// Reads the record that a row holds. A cell that is missing or does
    /// not parse leaves its field absent.
    pub fn from_row(row: &Vec<Option<String>>) -> (r: RevolutTransaction)
        ensures
            r@ == revolut_record(row.deep_view()),
    {
        RevolutTransaction {
            transaction_type: RevolutTransactionType::from_cell(cell(row, 0)),
            product: to_string(cell(row, 1)),
            started_date: to_naive_datetime(cell(row, 2), "%Y-%m-%d %H:%M:%S"),
            completed_date: to_naive_datetime(cell(row, 3), "%Y-%m-%d %H:%M:%S"),
            description: to_string(cell(row, 4)),
            amount: to_decimal_direct(cell(row, 5)),
            fee: to_decimal_direct(cell(row, 6)),
            currency: to_string(cell(row, 7)),
            state: to_string(cell(row, 8)),
            balance: to_decimal_direct(cell(row, 9)),
        }
    }

    /// Whether the record is converted: see [`revolut_included`].
    pub fn is_included(&self, include_all: bool) -> (r: bool)
        ensures
            r == revolut_included(self@, include_all),
    {
        option_equals_to_str_ignore_case(&self.product, "Current") && (include_all
            || option_equals_to_str_ignore_case(&self.state, "COMPLETED"))
    }
}

impl MappableToHomeBank for RevolutTransaction {
    open spec fn mapped(&self) -> HomeBankRecord {
        revolut_mapped(self@)
    }

    fn map_to_homebank(&self) -> (r: HomeBankTransaction) {
        HomeBankTransaction {
            date: match self.started_date {
                Some(t) => Some(t.date()),
                None => None,
            },
            payment: self.transaction_type.payment(),
            info: None,
            payee: None,
            memo: self.description.clone(),
            amount: self.amount,
            category: None,
            tags: None,
        }
    }
}

/// The records of the rows of a statement, row by row.
pub open spec fn revolut_records(rows: Seq<Seq<Option<Seq<char>>>>) -> Seq<RevolutRecord> {
    Seq::new(rows.len(), |i: int| revolut_record(rows[i]))
}

/// Reads the records of a statement from its rows, the row of column
/// names left out. Every row gives a record.
pub fn read_from_rows(rows: &Vec<Vec<Option<String>>>) -> (records: RevolutCollection)
    ensures
        records.deep_view() == revolut_records(rows.deep_view()),
{
    let mut records: Vec<RevolutTransaction> = Vec::new();
    let mut i: usize = 0;
    while i < rows.len()
        invariant
            i <= rows.len(),
            records.len() == i,
            forall|j: int| 0 <= j < i ==> (#[trigger] records[j])@ == revolut_record(rows[j].deep_view()),
        decreases rows.len() - i,
    {
        records.push(RevolutTransaction::from_row(&rows[i]));
        i += 1;
    }
    assert(records.deep_view() == revolut_records(rows.deep_view()));
    records
}

/// The test that a record is converted.
pub open spec fn revolut_kept(include_all: bool) -> spec_fn(RevolutRecord) -> bool {
    |record: RevolutRecord| revolut_included(record, include_all)
}

/// The HomeBank records of a statement: of the records that are converted,
/// in their order.
pub open spec fn revolut_homebank(records: Seq<RevolutRecord>, include_all: bool) -> Seq<
    HomeBankRecord,
> {
    let kept = records.filter(revolut_kept(include_all));
    Seq::new(kept.len(), |i: int| revolut_mapped(kept[i]))
}

/// Converts the records of a statement that pass the row filter.
pub fn to_homebank(records: &RevolutCollection, include_all: bool) -> (converted: Vec<
    HomeBankTransaction,
>)
    ensures
        converted.deep_view() == revolut_homebank(records.deep_view(), include_all),
{
    let ghost all = records.deep_view();
    let ghost pred = revolut_kept(include_all);
    let mut converted: Vec<HomeBankTransaction> = Vec::new();
    let mut i: usize = 0;
    assert(all.take(0).filter(pred).len() == 0) by {
        reveal(Seq::filter);
    }
    while i < records.len()
        invariant
            i <= records.len(),
            all == records.deep_view(),
            pred == revolut_kept(include_all),
            converted.len() == all.take(i as int).filter(pred).len(),
            forall|j: int|
                0 <= j < converted.len() ==> (#[trigger] converted[j])@ == revolut_mapped(
                    all.take(i as int).filter(pred)[j],
                ),
        decreases records.len() - i,
    {
        proof {
            lemma_filter_step(all, pred, i as int);
        }
        if records[i].is_included(include_all) {
            converted.push(records[i].map_to_homebank());
        }
        i += 1;
    }
    assert(all.take(all.len() as int) == all);
    assert(converted.deep_view() == revolut_homebank(all, include_all));
    converted
}

/// A record of another product than the current account is not
/// converted, whatever its state and whether or not every state is asked
/// for.
pub proof fn lemma_other_product_excluded(record: RevolutRecord, include_all: bool)
    requires
        !equals_ignore_case(record.product, "Current"@),
    ensures
        !revolut_included(record, include_all),
{
}

/// A record of another product than the current account leaves no trace
/// in the HomeBank records: they are the same with the record taken out.
pub proof fn lemma_other_product_leaves_no_trace(
    records: Seq<RevolutRecord>,
    include_all: bool,
    i: int,
)
    requires
        0 <= i < records.len(),
        !equals_ignore_case(records[i].product, "Current"@),
    ensures
        revolut_homebank(records.remove(i), include_all) == revolut_homebank(
            records,
            include_all,
        ),
{
    lemma_filter_remove(records, revolut_kept(include_all), i);
}

/// The payment of a record depends on its kind alone, and in this way: a
/// cash withdrawal is paid in cash, a card payment or refund by debit
/// card, every other known kind by bank transfer; a record without a
/// known kind has no payment.
pub proof fn lemma_revolut_payment(record: RevolutRecord)
    ensures
        revolut_mapped(record).payment == record.transaction_type.payment(),
        record.transaction_type == RevolutTransactionType::Atm ==> revolut_mapped(
            record,
        ).payment.code() == 3,
        record.transaction_type == RevolutTransactionType::CardPayment
            || record.transaction_type == RevolutTransactionType::CardRefund ==> revolut_mapped(
            record,
        ).payment.code() == 6,
        record.transaction_type == RevolutTransactionType::Unknown ==> revolut_mapped(
            record,
        ).payment.code() == 0,
        record.transaction_type != RevolutTransactionType::Atm && record.transaction_type
            != RevolutTransactionType::CardPayment && record.transaction_type
            != RevolutTransactionType::CardRefund && record.transaction_type
            != RevolutTransactionType::Unknown ==> revolut_mapped(record).payment.code() == 4,
{
}

/// The code `ATM` stands for a cash withdrawal, which HomeBank reads as
/// payment 3; a code that is none of the seven known ones stands for no
/// kind, which HomeBank reads as payment 0.
pub proof fn lemma_revolut_codes(code: Seq<char>)
    ensures
        kind_of_code("ATM"@) == RevolutTransactionType::Atm,
        kind_of_code("ATM"@).payment().code() == 3,
        code != "CASHBACK"@ && code != "TRANSFER"@ && code != "CARD_PAYMENT"@ && code != "TOPUP"@
            && code != "CARD_REFUND"@ && code != "EXCHANGE"@ && code != "ATM"@ ==> kind_of_code(
            code,
        ).payment().code() == 0,
{
    reveal_strlit("ATM");
    reveal_strlit("CASHBACK");
    reveal_strlit("TRANSFER");
    reveal_strlit("CARD_PAYMENT");
    reveal_strlit("TOPUP");
    reveal_strlit("CARD_REFUND");
    reveal_strlit("EXCHANGE");
    assert("ATM"@.len() == 3);
    assert("CASHBACK"@.len() == 8 && "TRANSFER"@.len() == 8 && "EXCHANGE"@.len() == 8);
    assert("CARD_PAYMENT"@.len() == 12 && "TOPUP"@.len() == 5 && "CARD_REFUND"@.len() == 11);
}

} // verus!
