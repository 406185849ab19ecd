//! The conversion as a whole: from the rows of a statement to the records
//! and the text of a HomeBank file.

use vstd::prelude::*;
use crate::calendar::ymd_pattern;
use crate::homebank::collection::{
    csv_table, filter_by_date, within_dates, HomeBankTransactionCollection, WriteHomeBankCsv,
};
use crate::homebank::HomeBankRecord;
use crate::source_transactions::revolut::{
    lemma_other_product_leaves_no_trace, revolut_homebank, revolut_records,
};
use crate::source_transactions::unicredit::{unicredit_homebank, unicredit_records};
use crate::source_transactions::{cell_at, revolut, unicredit};
use crate::utils::{date_of, equals_ignore_case, to_naive_date};

verus! {

/// The bank whose statement is converted.
#[derive(Clone, Copy, Debug, PartialEq, Eq, Structural)]
pub enum ConversionType {
    /// A Revolut statement, exported as CSV.
    Revolut,
    /// A UniCredit statement, exported as a spreadsheet.
    UniCredit,
}

/// The HomeBank records of the rows of a statement: the rows are read as
/// records of the bank, the records that pass the bank's row filter are
/// mapped, and of these the ones dated within the bounds are kept. A bound
/// is a date as `YYYY-MM-DD`; a bound that is absent or is no such date
/// does not bind.
pub open spec fn converted(
    kind: ConversionType,
    rows: Seq<Seq<Option<Seq<char>>>>,
    include_all: bool,
    from: Option<Seq<char>>,
    to: Option<Seq<char>>,
) -> Seq<HomeBankRecord> {
    let mapped = match kind {
        ConversionType::Revolut => revolut_homebank(revolut_records(rows), include_all),
        ConversionType::UniCredit => unicredit_homebank(unicredit_records(rows), include_all),
    };
    within_dates(mapped, date_of(from, ymd_pattern()), date_of(to, ymd_pattern()))
}

/// Converts the rows of a statement to HomeBank records: see
/// [`converted`].
pub fn convert(
    kind: ConversionType,
    rows: &Vec<Vec<Option<String>>>,
    include_all: bool,
    from: Option<&str>,
    to: Option<&str>,
) -> (transactions: HomeBankTransactionCollection)
    ensures
        transactions.deep_view() == converted(
            kind,
            rows.deep_view(),
            include_all,
            from.deep_view(),
            to.deep_view(),
        ),
{
    let mapped = match kind {
        ConversionType::Revolut => {
            let records = revolut::read_from_rows(rows);
            revolut::to_homebank(&records, include_all)
        },
        ConversionType::UniCredit => {
            let records = unicredit::read_from_rows(rows);
            unicredit::to_homebank(&records, include_all)
        },
    };
    let from_date = to_naive_date(from, "%Y-%m-%d");
    let to_date = to_naive_date(to, "%Y-%m-%d");
    filter_by_date(mapped, &from_date, &to_date)
}

/// Converts the rows of a statement to the text of a HomeBank file.
pub fn convert_to_csv(
    kind: ConversionType,
    rows: &Vec<Vec<Option<String>>>,
    include_all: bool,
    from: Option<&str>,
    to: Option<&str>,
) -> (text: String)
    ensures
        text@ == csv_table(
            converted(kind, rows.deep_view(), include_all, from.deep_view(), to.deep_view()),
        ),
{
    convert(kind, rows, include_all, from, to).write_csv()
}

/// A row of a Revolut statement whose product is not the current account
/// does not show in the HomeBank records, whatever its state, the bounds
/// and the rows around it: the records are the same with the row taken
/// out.
pub proof fn lemma_row_of_other_product_excluded(
    rows: Seq<Seq<Option<Seq<char>>>>,
    i: int,
    include_all: bool,
    from: Option<Seq<char>>,
    to: Option<Seq<char>>,
)
    requires
        0 <= i < rows.len(),
        !equals_ignore_case(cell_at(rows[i], 1), "Current"@),
    ensures
        converted(ConversionType::Revolut, rows.remove(i), include_all, from, to) == converted(
            ConversionType::Revolut,
            rows,
            include_all,
            from,
            to,
        ),
{
    let records = revolut_records(rows);
    assert(revolut_records(rows.remove(i)) == records.remove(i));
    lemma_other_product_leaves_no_trace(records, include_all, i);
}

} // verus!
