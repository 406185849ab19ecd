//! Rows of a UniCredit account statement, as its spreadsheet export lays
//! them out.

use vstd::prelude::*;
use crate::calendar::NaiveDate;
use crate::decimal::Decimal;
use crate::homebank::{HomeBankPaymentType, HomeBankRecord, HomeBankTransaction};
use crate::source_transactions::{cell, cell_at, MappableToHomeBank};
use crate::sequences::lemma_filter_step;
use crate::text::same_text;
use crate::utils::{
    date_of, equals_ignore_case, locale_decimal_of, option_equals_to_str_ignore_case, to_decimal,
    to_naive_date, to_string,
};

verus! {

/// The records of one statement, in file order.
pub type UniCreditCollection = Vec<UniCreditTransaction>;

/// The number of rows at the top of the sheet that hold no transaction.
pub const UNICREDIT_BANNER_ROWS: usize = 4;

/// One row of a UniCredit statement.
#[derive(Clone, Debug, PartialEq, Eq)]
pub struct UniCreditTransaction {
    pub amount: Option<Decimal>,
    pub status: Option<String>,
    pub date: Option<NaiveDate>,
    pub partner_account: Option<String>,
    pub partner: Option<String>,
    pub details: Option<String>,
    pub transaction_type: Option<String>,
}

/// A [`UniCreditTransaction`] with its texts as sequences of characters.
pub struct UniCreditRecord {
    pub amount: Option<Decimal>,
    pub status: Option<Seq<char>>,
    pub date: Option<NaiveDate>,
    pub partner_account: Option<Seq<char>>,
    pub partner: Option<Seq<char>>,
    pub details: Option<Seq<char>>,
    pub transaction_type: Option<Seq<char>>,
}

impl View for UniCreditTransaction {
    type V = UniCreditRecord;

    open spec fn view(&self) -> UniCreditRecord {
        UniCreditRecord {
            amount: self.amount,
            status: self.status.deep_view(),
            date: self.date,
            partner_account: self.partner_account.deep_view(),
            partner: self.partner.deep_view(),
            details: self.details.deep_view(),
            transaction_type: self.transaction_type.deep_view(),
        }
    }
}

impl DeepView for UniCreditTransaction {
    type V = UniCreditRecord;

    open spec fn deep_view(&self) -> UniCreditRecord {
        self.view()
    }
}

/// The pattern of the dates of a UniCredit statement.
pub open spec fn unicredit_date_pattern() -> Seq<char> {
    "%Y.%m.%d"@
}

/// The record that a row of a UniCredit sheet holds. Cells are taken by
/// position: amount in column 1, status in 3, date in 4, the partner's
/// account in 5 and name in 6, details in 8 and the kind of transaction in
/// 9, counted from 0. The other columns are not read.
pub open spec fn unicredit_record(row: Seq<Option<Seq<char>>>) -> UniCreditRecord {
    UniCreditRecord {
        amount: locale_decimal_of(cell_at(row, 1)),
        status: cell_at(row, 3),
        date: date_of(cell_at(row, 4), unicredit_date_pattern()),
        partner_account: cell_at(row, 5),
        partner: cell_at(row, 6),
        details: cell_at(row, 8),
        transaction_type: cell_at(row, 9),
    }
}

/// The payment that a UniCredit label stands for. Labels are matched
/// letter for letter; an incoming transfer of either kind is a bank
/// transfer, a card transaction a debit card payment.
pub open spec fn unicredit_payment(label: Option<Seq<char>>) -> HomeBankPaymentType {
    match label {
        Some(text) => if text == "Bejövő Forint Átutalás"@ || text
            == "Bejövő azonnali megbízás"@ {
            HomeBankPaymentType::BankTransfer
        } else if text == "Kártyatranzakció"@ {
            HomeBankPaymentType::DebitCard
        } else {
            HomeBankPaymentType::Unspecified
        },
        None => HomeBankPaymentType::Unspecified,
    }
}

/// The HomeBank record of a UniCredit record: the partner is the payee
/// and the details are the memo.
pub open spec fn unicredit_mapped(record: UniCreditRecord) -> HomeBankRecord {
    HomeBankRecord {
        date: record.date,
        payment: unicredit_payment(record.transaction_type),
        info: None,
        payee: record.partner,
        memo: record.details,
        amount: record.amount,
        category: None,
        tags: None,
    }
}

/// Whether a UniCredit record is converted: it is booked, unless every
/// status is asked for.
pub open spec fn unicredit_included(record: UniCreditRecord, include_all: bool) -> bool {
    include_all || equals_ignore_case(record.status, "Könyvelt"@)
}

/// The payment that a UniCredit label stands for: see
/// [`unicredit_payment`].
pub fn payment_of_label(label: &Option<String>) -> (r: HomeBankPaymentType)
    ensures
        r == unicredit_payment(label.deep_view()),
{
    match label {
        Some(text) => {
            let text = text.as_str();
            if same_text(text, "Bejövő Forint Átutalás") || same_text(
                text,
                "Bejövő azonnali megbízás",
            ) {
                HomeBankPaymentType::BankTransfer
            } else if same_text(text, "Kártyatranzakció") {
                HomeBankPaymentType::DebitCard
            } else {
                HomeBankPaymentType::Unspecified
            }
        },
        None => HomeBankPaymentType::Unspecified,
    }
}

impl UniCreditTransaction {
    /// Reads the record that a row holds. A cell that is missing, holds no
    /// text or does not parse leaves its field absent.
    pub fn from_row(row: &Vec<Option<String>>) -> (r: UniCreditTransaction)
        ensures
            r@ == unicredit_record(row.deep_view()),
    {
        UniCreditTransaction {
            amount: to_decimal(cell(row, 1)),
            status: to_string(cell(row, 3)),
            date: to_naive_date(cell(row, 4), "%Y.%m.%d"),
            partner_account: to_string(cell(row, 5)),
            partner: to_string(cell(row, 6)),
            details: to_string(cell(row, 8)),
            transaction_type: to_string(cell(row, 9)),
        }
    }

    /// Whether the record is converted: see [`unicredit_included`].
    pub fn is_included(&self, include_all: bool) -> (r: bool)
        ensures
            r == unicredit_included(self@, include_all),
    {
        include_all || option_equals_to_str_ignore_case(&self.status, "Könyvelt")
    }
}

impl MappableToHomeBank for UniCreditTransaction {
    open spec fn mapped(&self) -> HomeBankRecord {
        unicredit_mapped(self@)
    }

    fn map_to_homebank(&self) -> (r: HomeBankTransaction) {
        HomeBankTransaction {
            date: self.date,
            payment: payment_of_label(&self.transaction_type),
            info: None,
            payee: self.partner.clone(),
            memo: self.details.clone(),
            amount: self.amount,
            category: None,
            tags: None,
        }
    }
}

/// The records of the rows of a sheet: one for each row after the banner
/// rows at the top, which are passed over whatever they hold.
pub open spec fn unicredit_records(rows: Seq<Seq<Option<Seq<char>>>>) -> Seq<UniCreditRecord> {
    if rows.len() <= UNICREDIT_BANNER_ROWS {
        Seq::empty()
    } else {
        Seq::new(
            (rows.len() - UNICREDIT_BANNER_ROWS) as nat,
            |i: int| unicredit_record(rows[i + UNICREDIT_BANNER_ROWS]),
        )
    }
}

/// Reads the records of a statement from the rows of its sheet.
pub fn read_from_rows(rows: &Vec<Vec<Option<String>>>) -> (records: UniCreditCollection)
    ensures
        records.deep_view() == unicredit_records(rows.deep_view()),
{
    let mut records: Vec<UniCreditTransaction> = Vec::new();
    if rows.len() <= UNICREDIT_BANNER_ROWS {
        assert(records.deep_view() == unicredit_records(rows.deep_view()));
        return records;
    }
    let mut i: usize = UNICREDIT_BANNER_ROWS;
    while i < rows.len()
        invariant
            UNICREDIT_BANNER_ROWS <= i <= rows.len(),
            records.len() == i - UNICREDIT_BANNER_ROWS,
            forall|j: int|
                0 <= j < records.len() ==> (#[trigger] records[j])@ == unicredit_record(
                    rows[j + UNICREDIT_BANNER_ROWS].deep_view(),
                ),
        decreases rows.len() - i,
    {
        records.push(UniCreditTransaction::from_row(&rows[i]));
        i += 1;
    }
    assert(records.deep_view() == unicredit_records(rows.deep_view()));
    records
}

/// The test that a record is converted.
pub open spec fn unicredit_kept(include_all: bool) -> spec_fn(UniCreditRecord) -> bool {
    |record: UniCreditRecord| unicredit_included(record, include_all)
}

/// The HomeBank records of a statement: of the records that are converted,
/// in their order.
pub open spec fn unicredit_homebank(records: Seq<UniCreditRecord>, include_all: bool) -> Seq<
    HomeBankRecord,
> {
    let kept = records.filter(unicredit_kept(include_all));
    Seq::new(kept.len(), |i: int| unicredit_mapped(kept[i]))
}

/// Converts the records of a statement that pass the row filter.
pub fn to_homebank(records: &UniCreditCollection, include_all: bool) -> (converted: Vec<
    HomeBankTransaction,
>)
    ensures
        converted.deep_view() == unicredit_homebank(records.deep_view(), include_all),
{
    let ghost all = records.deep_view();
    let ghost pred = unicredit_kept(include_all);
    let mut converted: Vec<HomeBankTransaction> = Vec::new();
    let mut i: usize = 0;
    assert(all.take(0).filter(pred).len() == 0) by {
        reveal(Seq::filter);
    }
    while i < records.len()
        invariant
            i <= records.len(),
            all == records.deep_view(),
            pred == unicredit_kept(include_all),
            converted.len() == all.take(i as int).filter(pred).len(),
            forall|j: int|
                0 <= j < converted.len() ==> (#[trigger] converted[j])@ == unicredit_mapped(
                    all.take(i as int).filter(pred)[j],
                ),
        decreases records.len() - i,
    {
        proof {
            lemma_filter_step(all, pred, i as int);
        }
        if records[i].is_included(include_all) {
            converted.push(records[i].map_to_homebank());
        }
        i += 1;
    }
    assert(all.take(all.len() as int) == all);
    assert(converted.deep_view() == unicredit_homebank(all, include_all));
    converted
}

/// The label of a card transaction stands for a debit card payment, which
/// HomeBank reads as payment 6; a label that is none of the three known
/// ones, or an absent label, stands for no payment, which HomeBank reads
/// as payment 0.
pub proof fn lemma_unicredit_payment(label: Option<Seq<char>>)
    ensures
        unicredit_payment(Some("Kártyatranzakció"@)).code() == 6,
        (label matches Some(text) ==> text != "Bejövő Forint Átutalás"@ && text
            != "Bejövő azonnali megbízás"@ && text != "Kártyatranzakció"@) ==> unicredit_payment(
            label,
        ).code() == 0,
{
    reveal_strlit("Kártyatranzakció");
    reveal_strlit("Bejövő Forint Átutalás");
    reveal_strlit("Bejövő azonnali megbízás");
    assert("Kártyatranzakció"@[0] == 'K');
    assert("Bejövő Forint Átutalás"@[0] == 'B');
    assert("Bejövő azonnali megbízás"@[0] == 'B');
}

} // verus!
