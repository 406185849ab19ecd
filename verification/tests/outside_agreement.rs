use std::str::FromStr;

use chrono::{Datelike, Timelike};
use homebank_convert::calendar::NaiveDate;
use homebank_convert::decimal::Decimal;
use homebank_convert::homebank::collection::WriteHomeBankCsv;
use homebank_convert::homebank::{HomeBankPaymentType, HomeBankTransaction};
use homebank_convert::utils::{
    decimal_to_string, naive_date_to_string, to_decimal_direct, to_naive_date, to_naive_datetime,
};

/// A small generator of numbers, the same on every run.
struct Numbers(u64);

impl Numbers {
    fn next(&mut self) -> u64 {
        self.0 = self.0.wrapping_mul(6364136223846793005).wrapping_add(1442695040888963407);
        self.0 >> 33
    }

    fn below(&mut self, bound: u64) -> u64 {
        self.next() % bound
    }

    fn text(&mut self, alphabet: &[char], longest: u64) -> String {
        let length = self.below(longest + 1);
        (0..length).map(|_| alphabet[self.below(alphabet.len() as u64) as usize]).collect()
    }
}

fn through_rust_decimal(text: &str) -> Option<String> {
    rust_decimal::Decimal::from_str(text).ok().map(|d| d.to_string())
}

fn through_the_library(text: &str) -> Option<String> {
    to_decimal_direct(Some(text)).map(|d| decimal_to_string(&Some(d)))
}

#[test]
fn decimals_print_as_rust_decimal_prints_them() {
    let chosen = [
        "0", "-0", "+0", "0.0", "-0.00", "-0e0", "-0e5", "-0.0e-3", "1e3", "1.5e-3", "-2E2",
        "1e28", "1e-28", "1e-29", "0.1e-27", "79228162514264337593543950335",
        "-79228162514264337593543950335", "79228162514264337593543950336",
        "7.9228162514264337593543950335", "0.00000000000000000000000000001",
        "1.00000000000000000000000000005", "12345678901234567890.123456789012345678901",
        "1_000", "1_000.5_5", "+5", ".5", "5.", "-.5", "", "-", ".", "e", " 1", "1 ", "1,5",
    ];
    for text in chosen {
        assert_eq!(through_the_library(text), through_rust_decimal(text), "{:?}", text);
    }
    let alphabet: Vec<char> = "0123456789.-+e_ ".chars().collect();
    let mut numbers = Numbers(7);
    for _ in 0..20000 {
        let text = numbers.text(&alphabet, 12);
        assert_eq!(through_the_library(text.as_str()), through_rust_decimal(text.as_str()), "{:?}", text);
    }
    let digits: Vec<char> = "0123456789".chars().collect();
    for _ in 0..5000 {
        let sign = if numbers.below(2) == 0 { "" } else { "-" };
        let text = format!("{}{}.{}", sign, numbers.text(&digits, 32), numbers.text(&digits, 32));
        assert_eq!(through_the_library(text.as_str()), through_rust_decimal(text.as_str()), "{:?}", text);
    }
}

#[test]
fn decimals_of_every_scale_print_as_rust_decimal_prints_them() {
    let mut numbers = Numbers(11);
    for _ in 0..20000 {
        let bits = numbers.below(97);
        let mut magnitude: u128 = 0;
        for _ in 0..3 {
            magnitude = (magnitude << 32) | (numbers.next() as u128 & 0xffff_ffff);
        }
        let magnitude = if bits == 0 { 0 } else { magnitude >> (96 - bits) };
        let mantissa = if numbers.below(2) == 0 { magnitude as i128 } else { -(magnitude as i128) };
        let scale = numbers.below(29) as u32;
        let ours = decimal_to_string(&Decimal::new(mantissa, scale));
        let theirs = rust_decimal::Decimal::from_i128_with_scale(mantissa, scale).to_string();
        assert_eq!(ours, theirs);
    }
}

#[test]
fn parsed_decimals_hold_what_rust_decimal_holds() {
    for text in ["-12.50", "0.10", "100", "-0.001", "1e3", "1234567890.0987654321"] {
        let ours = to_decimal_direct(Some(text)).unwrap();
        let theirs = rust_decimal::Decimal::from_str(text).unwrap();
        assert_eq!(ours.mantissa(), theirs.mantissa());
        assert_eq!(ours.scale(), theirs.scale());
    }
}

#[test]
fn dates_are_the_days_that_chrono_knows() {
    let mut numbers = Numbers(3);
    let mut check = |year: i32, month: u32, day: u32| {
        let ours = NaiveDate::from_ymd_opt(year, month, day);
        let theirs = chrono::NaiveDate::from_ymd_opt(year, month, day);
        assert_eq!(ours.is_some(), theirs.is_some(), "{}-{}-{}", year, month, day);
        if let (Some(ours), Some(theirs)) = (ours, theirs) {
            let text = naive_date_to_string(&Some(ours));
            assert_eq!(text, theirs.format("%Y-%m-%d").to_string());
            assert_eq!(to_naive_date(Some(text.as_str()), "%Y-%m-%d"), Some(ours));
        }
    };
    for year in [-262144, -262143, -10000, -9999, -401, -400, -100, -4, -1, 0, 1, 4, 100, 999, 1000]
    {
        for month in 0..14 {
            for day in [0, 1, 28, 29, 30, 31, 32] {
                check(year, month, day);
            }
        }
    }
    for year in [1900, 2000, 2023, 2024, 9999, 10000, 99999, 262142, 262143] {
        for month in 0..14 {
            for day in 0..33 {
                check(year, month, day);
            }
        }
    }
    for _ in 0..20000 {
        let year = numbers.below(600000) as i32 - 300000;
        check(year, numbers.below(14) as u32, numbers.below(34) as u32);
    }
}

#[test]
fn dates_are_ordered_as_chrono_orders_them() {
    let mut numbers = Numbers(5);
    let mut draw = |numbers: &mut Numbers| loop {
        let year = numbers.below(7) as i32 + 2020;
        let (month, day) = (numbers.below(12) as u32 + 1, numbers.below(31) as u32 + 1);
        if let Some(ours) = NaiveDate::from_ymd_opt(year, month, day) {
            return (ours, chrono::NaiveDate::from_ymd_opt(year, month, day).unwrap());
        }
    };
    for _ in 0..20000 {
        let (a, a_chrono) = draw(&mut numbers);
        let (b, b_chrono) = draw(&mut numbers);
        assert_eq!(a.on_or_before(&b), a_chrono <= b_chrono);
        assert_eq!(a.on_or_after(&b), a_chrono >= b_chrono);
        assert_eq!(a == b, a_chrono == b_chrono);
    }
}

#[test]
fn parsed_dates_and_times_hold_what_chrono_holds() {
    let cases = [
        ("2024-01-05 10:00:00", "%Y-%m-%d %H:%M:%S"),
        ("2016-12-31 23:59:60", "%Y-%m-%d %H:%M:%S"),
        ("1999-02-28 00:00:00.123456789", "%Y-%m-%d %H:%M:%S%.f"),
        ("5sep2015 7:08", "%d%b%Y %H:%M"),
        ("-0044-03-15 12:00:00", "%Y-%m-%d %H:%M:%S"),
    ];
    for (text, pattern) in cases {
        let ours = to_naive_datetime(Some(text), pattern).unwrap();
        let theirs = chrono::NaiveDateTime::parse_from_str(text, pattern).unwrap();
        assert_eq!(ours.date().year(), theirs.year());
        assert_eq!(ours.date().month(), theirs.month());
        assert_eq!(ours.date().day(), theirs.day());
        assert_eq!(ours.hour(), theirs.hour());
        assert_eq!(ours.minute(), theirs.minute());
        assert_eq!(ours.second(), theirs.second());
        assert_eq!(ours.nanosecond(), theirs.nanosecond());
    }
    let alphabet: Vec<char> = "0123456789-: +".chars().collect();
    let mut numbers = Numbers(13);
    for _ in 0..20000 {
        let text = numbers.text(&alphabet, 21);
        let ours = to_naive_date(Some(text.as_str()), "%Y-%m-%d");
        let theirs = chrono::NaiveDate::parse_from_str(text.as_str(), "%Y-%m-%d").ok();
        assert_eq!(
            ours.map(|d| (d.year(), d.month(), d.day())),
            theirs.map(|d| (d.year(), d.month(), d.day())),
            "{:?}",
            text
        );
    }
}

fn line_by_the_rule(fields: &[String]) -> String {
    let mut line = String::new();
    for (i, field) in fields.iter().enumerate() {
        if i > 0 {
            line.push(';');
        }
        if field.contains(|c| c == ';' || c == '"' || c == '\n' || c == '\r') {
            line.push('"');
            line.push_str(field.replace('"', "\"\"").as_str());
            line.push('"');
        } else {
            line.push_str(field.as_str());
        }
    }
    line.push('\n');
    line
}

#[test]
fn lines_are_quoted_by_the_rule() {
    let alphabet: Vec<char> = "ab;\"\n\r, \\#'é√\t".chars().collect();
    let mut numbers = Numbers(17);
    for _ in 0..5000 {
        let mut text = |numbers: &mut Numbers| match numbers.below(3) {
            0 => None,
            _ => Some(numbers.text(&alphabet, 9)),
        };
        let record = HomeBankTransaction {
            date: None,
            payment: HomeBankPaymentType::Unspecified,
            info: text(&mut numbers),
            payee: text(&mut numbers),
            memo: text(&mut numbers),
            amount: None,
            category: text(&mut numbers),
            tags: text(&mut numbers),
        };
        let fields = [
            String::new(),
            "0".to_string(),
            record.info.clone().unwrap_or_default(),
            record.payee.clone().unwrap_or_default(),
            record.memo.clone().unwrap_or_default(),
            String::new(),
            record.category.clone().unwrap_or_default(),
            record.tags.clone().unwrap_or_default(),
        ];
        let expected = format!(
            "date;payment;info;payee;memo;amount;category;tags\n{}",
            line_by_the_rule(&fields)
        );
        assert_eq!(vec![record].write_csv(), expected);
    }
}

#[test]
fn lines_are_read_back_by_csv() {
    let record = HomeBankTransaction {
        date: NaiveDate::from_ymd_opt(2024, 1, 5),
        payment: HomeBankPaymentType::Cash,
        info: Some("a;b".to_string()),
        payee: Some("say \"hi\"".to_string()),
        memo: Some("two\nlines".to_string()),
        amount: Decimal::new(-1250, 2),
        category: Some(String::new()),
        tags: None,
    };
    let text = vec![record].write_csv();
    let mut reader = csv::ReaderBuilder::new().delimiter(b';').from_reader(text.as_bytes());
    let rows: Vec<Vec<String>> = reader
        .records()
        .map(|r| r.unwrap().iter().map(|c| c.to_string()).collect())
        .collect();
    assert_eq!(
        rows,
        vec![vec!["2024-01-05", "3", "a;b", "say \"hi\"", "two\nlines", "-12.50", "", ""]]
    );
}
