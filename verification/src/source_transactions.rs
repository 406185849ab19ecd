//! Records of the bank statements that can be converted, and what they
//! have in common: rows of optional cells going in, HomeBank records
//! coming out.

use vstd::prelude::*;
use crate::homebank::{HomeBankRecord, HomeBankTransaction};

pub mod revolut;
pub mod unicredit;

verus! {

/// A source record that has a HomeBank form.
pub trait MappableToHomeBank {
    /// The HomeBank record that stands for this source record.
    spec fn mapped(&self) -> HomeBankRecord;

    /// Builds the HomeBank record of this source record.
    fn map_to_homebank(&self) -> (r: HomeBankTransaction)
        ensures
            r@ == self.mapped(),
    ;
}

/// A collection that can be read from the file at a path. Reading is left
/// to the program around the library, which implements this for what it
/// reads; nothing is promised of the outcome.
pub trait ReadFromPath {
    /// Reads the file at `path`, or fails where it cannot be read.
    fn read_from_path(path: &str) -> Result<Self, &str> where Self: Sized;
}

/// The cell of a row at a column, absent beyond the end of the row.
pub open spec fn cell_at(row: Seq<Option<Seq<char>>>, column: int) -> Option<Seq<char>> {
    if 0 <= column < row.len() {
        row[column]
    } else {
        None
    }
}

/// The text of the cell at a column, if the row has that column and the
/// cell holds a text.
pub fn cell(row: &Vec<Option<String>>, column: usize) -> (r: Option<&str>)
    ensures
        r.deep_view() == cell_at(row.deep_view(), column as int),
{
    if column < row.len() {
        match &row[column] {
            Some(text) => Some(text.as_str()),
            None => None,
        }
    } else {
        None
    }
}

} // verus!
