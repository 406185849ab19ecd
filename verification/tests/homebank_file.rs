use homebank_convert::calendar::NaiveDate;
use homebank_convert::decimal::Decimal;
use homebank_convert::homebank::collection::{
    filter_by_date, header_row, is_in_date_range, record_row, WriteHomeBankCsv,
};
use homebank_convert::homebank::{HomeBankPaymentType, HomeBankTransaction};

fn empty_record() -> HomeBankTransaction {
    HomeBankTransaction {
        date: None,
        payment: HomeBankPaymentType::Unspecified,
        info: None,
        payee: None,
        memo: None,
        amount: None,
        category: None,
        tags: None,
    }
}

fn dated(y: i32, m: u32, d: u32) -> HomeBankTransaction {
    let mut record = empty_record();
    record.date = NaiveDate::from_ymd_opt(y, m, d);
    record
}

fn date(y: i32, m: u32, d: u32) -> Option<NaiveDate> {
    Some(NaiveDate::from_ymd_opt(y, m, d).unwrap())
}

const HEADER: &str = "date;payment;info;payee;memo;amount;category;tags\n";

#[test]
fn header_names_the_columns() {
    assert_eq!(
        header_row(),
        vec!["date", "payment", "info", "payee", "memo", "amount", "category", "tags"]
    );
    let none: Vec<HomeBankTransaction> = Vec::new();
    assert_eq!(none.write_csv(), HEADER);
}

#[test]
fn record_with_every_field_absent() {
    assert_eq!(record_row(&empty_record()), vec!["", "0", "", "", "", "", "", ""]);
    assert_eq!(vec![empty_record()].write_csv(), format!("{}{}", HEADER, ";0;;;;;;\n"));
}

#[test]
fn record_with_every_field_present() {
    let record = HomeBankTransaction {
        date: date(2024, 1, 5),
        payment: HomeBankPaymentType::DirectDebit,
        info: Some("info".to_string()),
        payee: Some("payee".to_string()),
        memo: Some("memo".to_string()),
        amount: Decimal::new(-1250, 2),
        category: Some("category".to_string()),
        tags: Some("tags".to_string()),
    };
    assert_eq!(
        vec![record].write_csv(),
        format!("{}{}", HEADER, "2024-01-05;11;info;payee;memo;-12.50;category;tags\n")
    );
}

#[test]
fn records_come_in_their_order() {
    let mut first = dated(2024, 1, 5);
    first.payment = HomeBankPaymentType::DebitCard;
    let mut second = dated(2023, 12, 31);
    second.payment = HomeBankPaymentType::Cash;
    assert_eq!(
        vec![first, second].write_csv(),
        format!("{}{}", HEADER, "2024-01-05;6;;;;;;\n2023-12-31;3;;;;;;\n")
    );
}

#[test]
fn field_with_the_delimiter_is_quoted() {
    let mut record = empty_record();
    record.memo = Some("Coffee; cake".to_string());
    assert_eq!(vec![record].write_csv(), format!("{}{}", HEADER, ";0;;;\"Coffee; cake\";;;\n"));
}

#[test]
fn field_with_a_quote_is_quoted_and_the_quote_doubled() {
    let mut record = empty_record();
    record.payee = Some("The \"Bar\"".to_string());
    assert_eq!(
        vec![record].write_csv(),
        format!("{}{}", HEADER, ";0;;\"The \"\"Bar\"\"\";;;;\n")
    );
}

#[test]
fn field_with_a_line_break_is_quoted() {
    let mut record = empty_record();
    record.memo = Some("two\nlines".to_string());
    record.info = Some("carriage\rreturn".to_string());
    assert_eq!(
        vec![record].write_csv(),
        format!("{}{}", HEADER, ";0;\"carriage\rreturn\";;\"two\nlines\";;;\n")
    );
}

#[test]
fn field_with_comma_space_or_other_scripts_is_not_quoted() {
    let mut record = empty_record();
    record.memo = Some("a, b and c".to_string());
    record.payee = Some(" Kávéház Ő ".to_string());
    record.tags = Some("#tag\\".to_string());
    assert_eq!(
        vec![record].write_csv(),
        format!("{}{}", HEADER, ";0;; Kávéház Ő ;a, b and c;;;#tag\\\n")
    );
}

#[test]
fn long_field_is_written_whole() {
    let long = "x".repeat(20000) + ";" + &"y".repeat(20000);
    let mut record = empty_record();
    record.memo = Some(long.clone());
    assert_eq!(
        vec![record].write_csv(),
        format!("{}{}", HEADER, format!(";0;;;\"{}\";;;\n", long))
    );
}

#[test]
fn date_on_a_bound_is_within() {
    let d = date(2024, 1, 5);
    assert!(is_in_date_range(&d, &d, &None));
    assert!(is_in_date_range(&d, &None, &d));
    assert!(is_in_date_range(&d, &d, &d));
    assert!(is_in_date_range(&d, &date(2024, 1, 1), &d));
    assert!(is_in_date_range(&d, &d, &date(2024, 1, 31)));
}

#[test]
fn date_one_day_outside_a_bound_is_not_within() {
    assert!(!is_in_date_range(&date(2024, 1, 4), &date(2024, 1, 5), &None));
    assert!(!is_in_date_range(&date(2024, 1, 6), &None, &date(2024, 1, 5)));
    assert!(!is_in_date_range(&date(2023, 12, 31), &date(2024, 1, 1), &date(2024, 12, 31)));
    assert!(!is_in_date_range(&date(2025, 1, 1), &date(2024, 1, 1), &date(2024, 12, 31)));
    assert!(!is_in_date_range(&date(2024, 2, 29), &date(2024, 3, 1), &None));
    assert!(!is_in_date_range(&date(2024, 3, 1), &None, &date(2024, 2, 29)));
}

#[test]
fn bounds_in_the_wrong_order_admit_nothing() {
    assert!(!is_in_date_range(&date(2024, 1, 5), &date(2024, 1, 5), &date(2024, 1, 4)));
    assert!(!is_in_date_range(&date(2024, 1, 4), &date(2024, 1, 5), &date(2024, 1, 4)));
}

#[test]
fn absent_date_is_within_no_bound() {
    assert!(is_in_date_range(&None, &None, &None));
    assert!(!is_in_date_range(&None, &date(2024, 1, 1), &None));
    assert!(!is_in_date_range(&None, &None, &date(2024, 1, 1)));
    assert!(!is_in_date_range(&None, &date(2024, 1, 1), &date(2024, 12, 31)));
}

#[test]
fn filter_keeps_the_records_within_the_bounds_in_order() {
    let records = vec![
        dated(2024, 1, 4),
        dated(2024, 1, 5),
        empty_record(),
        dated(2024, 1, 10),
        dated(2024, 1, 7),
        dated(2024, 1, 11),
    ];
    let kept = filter_by_date(records.clone(), &date(2024, 1, 5), &date(2024, 1, 10));
    assert_eq!(kept, vec![dated(2024, 1, 5), dated(2024, 1, 10), dated(2024, 1, 7)]);
    let from_only = filter_by_date(records.clone(), &date(2024, 1, 10), &None);
    assert_eq!(from_only, vec![dated(2024, 1, 10), dated(2024, 1, 11)]);
    let to_only = filter_by_date(records.clone(), &None, &date(2024, 1, 4));
    assert_eq!(to_only, vec![dated(2024, 1, 4)]);
    let all = filter_by_date(records.clone(), &None, &None);
    assert_eq!(all, records);
}
