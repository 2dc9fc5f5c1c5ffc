//! Quarter resolution: the date string bounding a fiscal quarter, and the
//! law that consecutive quarter bounds chain into half-open intervals.

use vstd::prelude::*;

use crate::digits::{dec_digits, lemma_dec_digits_len, u32_to_dec_string};
use crate::valid_quarter;

verus! {

/// The first month of quarter `q`, as a two-digit month numeral.
pub open spec fn spec_begin_month(q: int) -> Seq<char>
    recommends
        valid_quarter(q),
{
    if q == 1 {
        "01"@
    } else if q == 2 {
        "04"@
    } else if q == 3 {
        "07"@
    } else {
        "10"@
    }
}

/// The month after quarter `q`, as a two-digit month numeral; after quarter
/// 4 comes January.
pub open spec fn spec_end_month(q: int) -> Seq<char>
    recommends
        valid_quarter(q),
{
    if q == 1 {
        "04"@
    } else if q == 2 {
        "07"@
    } else if q == 3 {
        "10"@
    } else {
        "01"@
    }
}

/// The date string bounding quarter `q` of year `y`: with `first` set, the
/// first day of the quarter's first month in year `y`; otherwise the first
/// day of the month after the quarter, which for quarter 4 lies in January
/// of `y + 1`.
pub open spec fn spec_quarter_bound(q: int, y: int, first: bool) -> Seq<char>
    recommends
        valid_quarter(q),
        1 <= y,
{
    let year: int = if q == 4 && !first {
        y + 1
    } else {
        y
    };
    let month = if first {
        spec_begin_month(q)
    } else {
        spec_end_month(q)
    };
    dec_digits(year as nat) + "-"@ + month + "-01"@
}

/// Resolves one bound of the half-open date interval covering a fiscal
/// quarter: the begin bound when `a_is_first_part` is set, the (exclusive)
/// end bound otherwise. Always the first day of a month, never empty.
pub fn get_daterange_from_quarter(aquarter: i32, ayear: i32, a_is_first_part: bool) -> (r: String)
    requires
        valid_quarter(aquarter as int),
        1 <= ayear < i32::MAX,
    ensures
        r@ == spec_quarter_bound(aquarter as int, ayear as int, a_is_first_part),
        r@.len() > 0,
{
    let year: i32 = if aquarter == 4 && !a_is_first_part {
        ayear + 1
    } else {
        ayear
    };
    let month: &str = if a_is_first_part {
        if aquarter == 1 {
            "01"
        } else if aquarter == 2 {
            "04"
        } else if aquarter == 3 {
            "07"
        } else {
            "10"
        }
    } else {
        if aquarter == 1 {
            "04"
        } else if aquarter == 2 {
            "07"
        } else if aquarter == 3 {
            "10"
        } else {
            "01"
        }
    };
    let r = u32_to_dec_string(year as u32).concat("-").concat(month).concat("-01");
    proof {
        lemma_dec_digits_len(year as nat);
        assert(r@ =~= spec_quarter_bound(aquarter as int, ayear as int, a_is_first_part));
    }
    r
}

/// Consecutive quarter bounds chain: the end bound of each quarter is the
/// begin bound of the next quarter, and the end bound of quarter 4 is the
/// begin bound of quarter 1 of the following year. Two calls on one quarter
/// thus give a half-open interval whose end opens the next quarter.
pub proof fn lemma_quarter_bounds_chain(q: int, y: int)
    requires
        valid_quarter(q),
        1 <= y,
    ensures
        q < 4 ==> spec_quarter_bound(q, y, false) == spec_quarter_bound(q + 1, y, true),
        q == 4 ==> spec_quarter_bound(q, y, false) == spec_quarter_bound(1, y + 1, true),
{
}

} // verus!
