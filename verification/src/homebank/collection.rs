//! Collections of HomeBank records: the filter by date and the CSV form.

use vstd::prelude::*;
use crate::calendar::{date_le, is_next_day, lemma_next_day_is_later, NaiveDate};
use crate::homebank::{HomeBankPaymentType, HomeBankRecord, HomeBankTransaction};
use crate::sequences::lemma_filter_step;
use crate::text::{digits, numeral};
use crate::utils::{
    amount_text, date_text, decimal_to_string, naive_date_to_string, option_text,
    option_to_string, payment_to_string,
};

verus! {

/// The records of one import file, in file order.
pub type HomeBankTransactionCollection = Vec<HomeBankTransaction>;

/// Whether a date lies within the bounds, both of which are inclusive and
/// optional. An absent date lies within no bound.
pub open spec fn in_date_range(
    date: Option<NaiveDate>,
    from: Option<NaiveDate>,
    to: Option<NaiveDate>,
) -> bool {
    &&& from matches Some(lo) ==> (date matches Some(d) && date_le(lo, d))
    &&& to matches Some(hi) ==> (date matches Some(d) && date_le(d, hi))
}

/// Whether a date lies within the bounds: see [`in_date_range`].
pub fn is_in_date_range(
    date: &Option<NaiveDate>,
    from: &Option<NaiveDate>,
    to: &Option<NaiveDate>,
) -> (r: bool)
    ensures
        r == in_date_range(*date, *from, *to),
{
    let after = match from {
        Some(lo) => match date {
            Some(d) => d.on_or_after(lo),
            None => false,
        },
        None => true,
    };
    let before = match to {
        Some(hi) => match date {
            Some(d) => d.on_or_before(hi),
            None => false,
        },
        None => true,
    };
    after && before
}

/// A date that is itself the lower bound lies within the bounds exactly
/// when the upper bound admits it, and a date that is itself the upper
/// bound exactly when the lower bound admits it: both bounds are
/// inclusive.
pub proof fn lemma_date_on_bound_is_within(date: NaiveDate, other: Option<NaiveDate>)
    ensures
        in_date_range(Some(date), Some(date), other) == (other matches Some(hi) ==> date_le(
            date,
            hi,
        )),
        in_date_range(Some(date), other, Some(date)) == (other matches Some(lo) ==> date_le(
            lo,
            date,
        )),
        in_date_range(Some(date), Some(date), Some(date)),
        in_date_range(Some(date), Some(date), None),
        in_date_range(Some(date), None, Some(date)),
{
}

/// A date one day before the lower bound, or one day after the upper
/// bound, lies outside the bounds, whatever the other bound is.
pub proof fn lemma_date_next_to_bound_is_outside(
    date: NaiveDate,
    bound: NaiveDate,
    other: Option<NaiveDate>,
)
    ensures
        is_next_day(date, bound) ==> !in_date_range(Some(date), Some(bound), other),
        is_next_day(bound, date) ==> !in_date_range(Some(date), other, Some(bound)),
{
    if is_next_day(date, bound) {
        lemma_next_day_is_later(date, bound);
    }
    if is_next_day(bound, date) {
        lemma_next_day_is_later(bound, date);
    }
}

/// A record without a date is kept when there is no bound at all, and
/// dropped as soon as there is one.
pub proof fn lemma_absent_date(from: Option<NaiveDate>, to: Option<NaiveDate>)
    ensures
        in_date_range(None, from, to) == (from is None && to is None),
{
}

/// The test that a record is dated within the bounds.
pub open spec fn dated_within(from: Option<NaiveDate>, to: Option<NaiveDate>) -> spec_fn(
    HomeBankRecord,
) -> bool {
    |t: HomeBankRecord| in_date_range(t.date, from, to)
}

/// The records whose date lies within the bounds, in their order.
pub open spec fn within_dates(
    records: Seq<HomeBankRecord>,
    from: Option<NaiveDate>,
    to: Option<NaiveDate>,
) -> Seq<HomeBankRecord> {
    records.filter(dated_within(from, to))
}

/// Keeps the records whose date lies within the bounds.
pub fn filter_by_date(
    transactions: HomeBankTransactionCollection,
    from: &Option<NaiveDate>,
    to: &Option<NaiveDate>,
) -> (kept: HomeBankTransactionCollection)
    ensures
        kept.deep_view() == within_dates(transactions.deep_view(), *from, *to),
{
    let ghost all = transactions.deep_view();
    let ghost pred = dated_within(*from, *to);
    let mut kept: Vec<HomeBankTransaction> = Vec::new();
    assert(kept.deep_view() == all.take(0).filter(pred)) by {
        reveal(Seq::filter);
    }
    for t in it: transactions
        invariant
            pred == dated_within(*from, *to),
            it.seq().len() == all.len(),
            forall|i: int| 0 <= i < all.len() ==> (#[trigger] it.seq()[i])@ == all[i],
            kept.deep_view() == all.take(it.index() as int).filter(pred),
    {
        let ghost before = kept.deep_view();
        proof {
            lemma_filter_step(all, pred, it.index() as int);
            assert(all[it.index() as int] == t@);
        }
        if is_in_date_range(&t.date, from, to) {
            kept.push(t);
            assert(kept.deep_view() == before.push(t@));
        }
    }
    assert(all.take(all.len() as int) == all);
    kept
}

/// The delimiter between the fields of a HomeBank file.
pub const DELIMITER: u8 = 59;

/// The delimiter as a character.
pub open spec fn delimiter_char() -> char {
    ';'
}

/// Whether a character forces the field that holds it into quotes.
pub open spec fn is_special(c: char, delimiter: char) -> bool {
    c == delimiter || c == '"' || c == '\n' || c == '\r'
}

/// Whether a field has to be written in quotes: it holds the delimiter, a
/// quote or a line break.
pub open spec fn needs_quotes(field: Seq<char>, delimiter: char) -> bool {
    exists|i: int| 0 <= i < field.len() && is_special(#[trigger] field[i], delimiter)
}

/// A text with every quote in it written twice.
pub open spec fn doubled_quotes(text: Seq<char>) -> Seq<char>
    decreases text.len(),
{
    if text.len() == 0 {
        Seq::empty()
    } else if text.last() == '"' {
        doubled_quotes(text.drop_last()).push('"').push('"')
    } else {
        doubled_quotes(text.drop_last()).push(text.last())
    }
}

/// A field as it stands in a line: as it is, or, where it needs quotes,
/// between quotes and with its own quotes doubled.
pub open spec fn csv_field(field: Seq<char>, delimiter: char) -> Seq<char> {
    if needs_quotes(field, delimiter) {
        seq!['"'] + doubled_quotes(field).push('"')
    } else {
        field
    }
}

/// The fields of a record, each as [`csv_field`] writes it, with the
/// delimiter between them.
pub open spec fn csv_joined(fields: Seq<Seq<char>>, delimiter: char) -> Seq<char>
    decreases fields.len(),
{
    if fields.len() == 0 {
        Seq::empty()
    } else if fields.len() == 1 {
        csv_field(fields[0], delimiter)
    } else {
        csv_joined(fields.drop_last(), delimiter).push(delimiter) + csv_field(
            fields.last(),
            delimiter,
        )
    }
}

/// One record as a line of the file, ended by a line feed.
pub open spec fn csv_line(fields: Seq<Seq<char>>, delimiter: char) -> Seq<char> {
    csv_joined(fields, delimiter).push('\n')
}

/// Writes one record with `csv::Writer::write_record` into a writer made
/// by `csv::WriterBuilder` with the given delimiter, and hands back what
/// was written. With the builder's other settings left as they are, csv
/// puts the delimiter between the fields and a line feed at the end, and
/// writes a field in quotes, doubling the quotes in it, exactly when it
/// holds the delimiter, a quote, a carriage return or a line feed. (A
/// record of one empty field is written differently and is left out.)
#[verifier::external_body]
pub(crate) fn write_record(fields: &Vec<String>, delimiter: u8) -> (line: String)
    requires
        fields.len() >= 2,
        delimiter < 128,
        delimiter != 34 && delimiter != 10 && delimiter != 13,
    ensures
        line@ == csv_line(fields.deep_view(), delimiter as char),
{
    let mut writer = csv::WriterBuilder::new().delimiter(delimiter).from_writer(Vec::new());
    writer.write_record(fields).unwrap();
    String::from_utf8(writer.into_inner().unwrap()).unwrap()
}

/// The names of the columns of a HomeBank file.
pub open spec fn header_fields() -> Seq<Seq<char>> {
    seq![
        "date"@,
        "payment"@,
        "info"@,
        "payee"@,
        "memo"@,
        "amount"@,
        "category"@,
        "tags"@,
    ]
}

/// The fields of a record in the order of the columns: the date as
/// `YYYY-MM-DD`, the payment as its code, the amount in canonical form,
/// and every absent field empty.
pub open spec fn record_fields(record: HomeBankRecord) -> Seq<Seq<char>> {
    seq![
        date_text(record.date),
        numeral(record.payment.code() as nat),
        option_text(record.info),
        option_text(record.payee),
        option_text(record.memo),
        amount_text(record.amount),
        option_text(record.category),
        option_text(record.tags),
    ]
}

/// The lines of the records, one after the other.
pub open spec fn csv_lines(records: Seq<HomeBankRecord>) -> Seq<char>
    decreases records.len(),
{
    if records.len() == 0 {
        Seq::empty()
    } else {
        csv_lines(records.drop_last()) + csv_line(
            record_fields(records.last()),
            delimiter_char(),
        )
    }
}

/// A HomeBank file: the line of column names, then one line for each
/// record.
pub open spec fn csv_table(records: Seq<HomeBankRecord>) -> Seq<char> {
    csv_line(header_fields(), delimiter_char()) + csv_lines(records)
}

/// The names of the columns of a HomeBank file.
pub fn header_row() -> (row: Vec<String>)
    ensures
        row.len() == 8,
        row.deep_view() == header_fields(),
{
    let mut row: Vec<String> = Vec::new();
    row.push("date".to_owned());
    row.push("payment".to_owned());
    row.push("info".to_owned());
    row.push("payee".to_owned());
    row.push("memo".to_owned());
    row.push("amount".to_owned());
    row.push("category".to_owned());
    row.push("tags".to_owned());
    assert(row.deep_view() == header_fields());
    row
}

/// The fields of a record in the order of the columns.
pub fn record_row(transaction: &HomeBankTransaction) -> (row: Vec<String>)
    ensures
        row.len() == 8,
        row.deep_view() == record_fields(transaction@),
{
    let mut row: Vec<String> = Vec::new();
    row.push(naive_date_to_string(&transaction.date));
    row.push(payment_to_string(&transaction.payment));
    row.push(option_to_string(&transaction.info));
    row.push(option_to_string(&transaction.payee));
    row.push(option_to_string(&transaction.memo));
    row.push(decimal_to_string(&transaction.amount));
    row.push(option_to_string(&transaction.category));
    row.push(option_to_string(&transaction.tags));
    assert(row.deep_view() == record_fields(transaction@));
    row
}

/// A record with every field absent is written as empty fields around the
/// payment code 0: absence shows as nothing, not as a word that stands for
/// it.
pub proof fn lemma_line_of_empty_record(record: HomeBankRecord)
    requires
        record.date is None,
        record.payment == HomeBankPaymentType::Unspecified,
        record.info is None,
        record.payee is None,
        record.memo is None,
        record.amount is None,
        record.category is None,
        record.tags is None,
    ensures
        csv_line(record_fields(record), delimiter_char()) == ";0;;;;;;\n"@,
{
    let empty = Seq::<char>::empty();
    let zero = seq!['0'];
    let fields = record_fields(record);
    reveal_with_fuel(digits, 2);
    assert(numeral(0) == zero);
    assert(fields == seq![empty, zero, empty, empty, empty, empty, empty, empty]);
    assert(!needs_quotes(empty, ';'));
    assert(!needs_quotes(zero, ';'));
    reveal_strlit(";0;;;;;;\n");
    let f1 = fields.take(1);
    let f2 = fields.take(2);
    let f3 = fields.take(3);
    let f4 = fields.take(4);
    let f5 = fields.take(5);
    let f6 = fields.take(6);
    let f7 = fields.take(7);
    assert(fields.drop_last() == f7);
    assert(f7.drop_last() == f6);
    assert(f6.drop_last() == f5);
    assert(f5.drop_last() == f4);
    assert(f4.drop_last() == f3);
    assert(f3.drop_last() == f2);
    assert(f2.drop_last() == f1);
    assert(csv_joined(f1, ';') == empty);
    assert(csv_joined(f2, ';') == seq![';', '0']);
    assert(csv_joined(f3, ';') == seq![';', '0', ';']);
    assert(csv_joined(f4, ';') == seq![';', '0', ';', ';']);
    assert(csv_joined(f5, ';') == seq![';', '0', ';', ';', ';']);
    assert(csv_joined(f6, ';') == seq![';', '0', ';', ';', ';', ';']);
    assert(csv_joined(f7, ';') == seq![';', '0', ';', ';', ';', ';', ';']);
    assert(csv_joined(fields, ';') == seq![';', '0', ';', ';', ';', ';', ';', ';']);
    assert(csv_line(fields, ';') == seq![';', '0', ';', ';', ';', ';', ';', ';', '\n']);
}

/// A collection that can be written as a HomeBank file.
pub trait WriteHomeBankCsv {
    /// The text of the file.
    spec fn csv_text(&self) -> Seq<char>;

    /// Writes the collection as the text of a HomeBank file.
    fn write_csv(&self) -> (text: String)
        ensures
            text@ == self.csv_text(),
    ;
}

impl WriteHomeBankCsv for HomeBankTransactionCollection {
    open spec fn csv_text(&self) -> Seq<char> {
        csv_table(self.deep_view())
    }

    fn write_csv(&self) -> (text: String) {
        let ghost all = self.deep_view();
        let mut text = write_record(&header_row(), DELIMITER);
        let ghost header = text@;
        let mut i: usize = 0;
        while i < self.len()
            invariant
                i <= self.len(),
                all == self.deep_view(),
                text@ == header + csv_lines(all.take(i as int)),
            decreases self.len() - i,
        {
            let line = write_record(&record_row(&self[i]), DELIMITER);
            text.append(line.as_str());
            proof {
                assert(all.take(i + 1).drop_last() == all.take(i as int));
                assert(all.take(i + 1).last() == self[i as int]@);
            }
            i += 1;
        }
        assert(all.take(all.len() as int) == all);
        text
    }
}

} // verus!
