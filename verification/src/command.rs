//! The command invoker's computed half: the exact argument list handed to
//! the external ledger program.

use vstd::prelude::*;

use crate::enums::{spec_ledger_param, ReportType, ToLedgerParam};
use crate::quarter::{get_daterange_from_quarter, spec_quarter_bound};
use crate::valid_quarter;

verus! {

/// The argument list for the external ledger program: fixed flags for
/// strict mode, currency normalization to EUR and a flattened hierarchy,
/// the report type's short form, and the half-open quarter date bounds.
pub open spec fn spec_ledger_args(file: Seq<char>, r: ReportType, q: int, y: int) -> Seq<
    Seq<char>,
>
    recommends
        valid_quarter(q),
        1 <= y,
{
    seq![
        "-f"@,
        file,
        "--strict"@,
        "-X"@,
        "-EUR"@,
        "-H"@,
        spec_ledger_param(r),
        "-b"@,
        spec_quarter_bound(q, y, true),
        "-e"@,
        spec_quarter_bound(q, y, false),
    ]
}

/// Builds exactly the argument list that the external ledger program is
/// invoked with.
pub fn build_ledger_args(
    aledger_file: &str,
    areport_type: &ReportType,
    aquarter: i32,
    ayear: i32,
) -> (r: Vec<String>)
    requires
        aledger_file@.len() > 0,
        valid_quarter(aquarter as int),
        1 <= ayear < i32::MAX,
    ensures
        r@.map_values(|s: String| s@) == spec_ledger_args(
            aledger_file@,
            *areport_type,
            aquarter as int,
            ayear as int,
        ),
{
    let mut v: Vec<String> = Vec::new();
    v.push("-f".to_owned());
    v.push(aledger_file.to_owned());
    v.push("--strict".to_owned());
    v.push("-X".to_owned());
    v.push("-EUR".to_owned());
    v.push("-H".to_owned());
    v.push(areport_type.to_ledger_param());
    v.push("-b".to_owned());
    v.push(get_daterange_from_quarter(aquarter, ayear, true));
    v.push("-e".to_owned());
    v.push(get_daterange_from_quarter(aquarter, ayear, false));
    proof {
        assert(v@.map_values(|s: String| s@) =~~= spec_ledger_args(
            aledger_file@,
            *areport_type,
            aquarter as int,
            ayear as int,
        ));
    }
    v
}

} // verus!
