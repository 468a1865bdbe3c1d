//! Cells of the H3 grid, named by their index.

use crate::error::HiveError;
use crate::type_aliases::GeoidString;
use h3ron::{H3Cell, Index};
use std::str::FromStr;
use vstd::prelude::*;

verus! {

/// The error type of the `h3ron` crate. Nothing is known of its values.
#[verifier::external_type_specification]
#[verifier::external_body]
pub struct ExH3Error(h3ron::Error);

/// The index of the H3 cell that `h3ron` reads out of `text`, or nothing
/// where it reads none. Which texts name a cell is for the H3 library to say;
/// it is not defined here.
pub uninterp spec fn h3_cell_index(text: Seq<char>) -> Option<u64>;

/// Calls `H3Cell::from_str` of `h3ron` and hands back the index of the cell
/// it found. Trusted: that the outcome depends on the text alone, which is
/// why it can be named by [`h3_cell_index`]. `h3ron` has the H3 library read
/// a hexadecimal number from the text and then asks it whether that number
/// is the index of a cell; where either step fails it returns an error and
/// does not panic.
#[verifier::external_body]
fn parse_h3_cell(text: &str) -> (r: Result<u64, h3ron::Error>)
    ensures
        match r {
            Ok(index) => h3_cell_index(text@) == Some(index),
            Err(_) => h3_cell_index(text@) is None,
        },
{
    match H3Cell::from_str(text) {
        Ok(cell) => Ok(cell.h3index()),
        Err(e) => Err(e),
    }
}

/// The sixteen hexadecimal digits, in order of their value.
pub const HEX_DIGITS: &'static str = "0123456789abcdef";

/// The number `n` in hexadecimal: lower-case digits, the highest first, none
/// of them a leading zero unless `n` is zero.
pub open spec fn hex_text(n: nat) -> Seq<char>
    decreases n,
{
    if n < 16 {
        seq![HEX_DIGITS@[n as int]]
    } else {
        hex_text(n / 16).push(HEX_DIGITS@[(n % 16) as int])
    }
}

/// Calls `H3Cell::to_string` of `h3ron` on the cell with the given index.
/// Trusted: that the text is the index in lower-case hexadecimal, which is
/// how `h3ron` formats it. No index is refused.
#[verifier::external_body]
fn h3_cell_text(index: u64) -> (r: String)
    ensures
        r@ == hex_text(index as nat),
{
    H3Cell::new(index).to_string()
}

/// One cell of the H3 grid.
#[derive(Clone, Copy, Debug, PartialEq, Eq, Structural)]
pub struct Geoid {
    /// The index of the cell.
    pub h3_cell: u64,
}

impl Geoid {
    /// The geoid of the cell that was found, or `InvalidGeoid` where none was.
    pub open spec fn spec_from_lookup(found: Option<u64>) -> Result<Geoid, HiveError> {
        match found {
            Some(h3_cell) => Ok(Geoid { h3_cell }),
            None => Err(HiveError::InvalidGeoid),
        }
    }

    /// The name of the cell: its index in hexadecimal.
    pub open spec fn spec_to_string(&self) -> Seq<char> {
        hex_text(self.h3_cell as nat)
    }

    /// The name of the cell: its index in hexadecimal.
    pub fn to_string(&self) -> (r: GeoidString)
        ensures
            r@ == self.spec_to_string(),
    {
        h3_cell_text(self.h3_cell)
    }

    /// The geoid that `string` names. Fails where `string` is not the name of
    /// a cell of the grid.
    pub fn from_string(string: GeoidString) -> (r: Result<Geoid, HiveError>)
        ensures
            r == Geoid::spec_from_lookup(h3_cell_index(string@)),
    {
        Geoid::from_parsed(parse_h3_cell(string.as_str()))
    }

    /// The geoid of the cell whose index was read, or `InvalidGeoid` where
    /// reading failed.
    pub fn from_parsed(parsed: Result<u64, h3ron::Error>) -> (r: Result<Geoid, HiveError>)
        ensures
            r == match parsed {
                Ok(h3_cell) => Ok::<Geoid, HiveError>(Geoid { h3_cell }),
                Err(_) => Err(HiveError::InvalidGeoid),
            },
    {
        match parsed {
            Ok(h3_cell) => Ok(Geoid { h3_cell }),
            Err(_) => Err(HiveError::InvalidGeoid),
        }
    }
}

} // verus!
