//! Conversion of bank statement rows into HomeBank import records.

pub mod calendar;
pub mod convert;
pub mod decimal;
pub mod homebank;
pub mod sequences;
pub mod source_transactions;
pub mod text;
pub mod utils;
