//! Fiscal-quarter ledger export: quarter/date-range resolution, output-file
//! naming, and the argument list handed to the external ledger command.

use vstd::prelude::*;

pub mod command;
pub mod digits;
pub mod enums;
pub mod naming;
pub mod quarter;
pub mod render;

verus! {

/// A fiscal quarter is one of four three-month periods, numbered 1 through 4.
pub open spec fn valid_quarter(q: int) -> bool {
    1 <= q <= 4
}

/// Decides whether a quarter number names one of the four fiscal quarters.
pub fn quarter_is_valid(q: i32) -> (r: bool)
    ensures
        r == valid_quarter(q as int),
{
    1 <= q && q <= 4
}

} // verus!
