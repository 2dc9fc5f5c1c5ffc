//! Output-file naming: the canonical name an exported report is written
//! under, and the extension each output sink carries.

use vstd::prelude::*;

use crate::digits::{dec_digits, u32_to_dec_string};
use crate::enums::{spec_extension, spec_ledger_param, OutputType, ReportType, ToLedgerParam};
use crate::valid_quarter;

verus! {

/// The extension of an output sink without the leading dot: `"pdf"`,
/// `"txt"`, or the empty string for the console.
pub open spec fn spec_ext_name(t: OutputType) -> Seq<char> {
    match t {
        OutputType::Pdf => "pdf"@,
        OutputType::Txt => "txt"@,
        OutputType::Stdout => ""@,
    }
}

/// The bare extension name of an output sink: `"pdf"`, `"txt"`, or the
/// empty string for the console — exhaustive over the closed set.
pub fn ext_from_output_type(aoutput_type: &OutputType) -> (r: String)
    ensures
        r@ == spec_ext_name(*aoutput_type),
{
    match aoutput_type {
        OutputType::Pdf => "pdf".to_owned(),
        OutputType::Txt => "txt".to_owned(),
        OutputType::Stdout => "".to_owned(),
    }
}

/// What the exported report's file is named. A caller-supplied base name is
/// kept as it is and only given the sink's extension; an empty base name is
/// replaced by the stamped canonical form
/// `{report short form}_{date stamp}_v1_Q{quarter}{extension}`.
pub open spec fn spec_output_name(
    base: Seq<char>,
    r: ReportType,
    t: OutputType,
    q: int,
    stamp: Seq<char>,
) -> Seq<char>
    recommends
        valid_quarter(q),
{
    if base.len() > 0 {
        base + spec_extension(t)
    } else {
        spec_ledger_param(r) + "_"@ + stamp + "_v1_Q"@ + dec_digits(q as nat) + spec_extension(t)
    }
}

/// Relies on chrono's `Utc::now` and `DateTime::format` with `"%Y%m%d"`:
/// the current UTC date, the year zero-padded to at least four digits and
/// month and day to two each, so at least eight characters in all.
#[verifier::external_body]
fn today_stamp() -> (r: String)
    ensures
        r@.len() >= 8,
{
    chrono::Utc::now().format("%Y%m%d").to_string()
}

/// Builds the output file name from an explicitly given date stamp.
pub fn make_output_name(
    aoutput_file: &str,
    areport_type: &ReportType,
    aoutput_type: &OutputType,
    aquarter: i32,
    astamp: &str,
) -> (r: String)
    requires
        valid_quarter(aquarter as int),
    ensures
        r@ == spec_output_name(
            aoutput_file@,
            *areport_type,
            *aoutput_type,
            aquarter as int,
            astamp@,
        ),
        r@.len() > 0,
{
    let ext = aoutput_type.to_file_extension();
    if !aoutput_file.is_empty() {
        let r = aoutput_file.to_owned().concat(ext.as_str());
        proof {
            assert(r@ =~= spec_output_name(
                aoutput_file@,
                *areport_type,
                *aoutput_type,
                aquarter as int,
                astamp@,
            ));
        }
        r
    } else {
        let r = areport_type
            .to_ledger_param()
            .concat("_")
            .concat(astamp)
            .concat("_v1_Q")
            .concat(u32_to_dec_string(aquarter as u32).as_str())
            .concat(ext.as_str());
        proof {
            reveal_strlit("bal");
            reveal_strlit("reg");
            assert(spec_ledger_param(*areport_type).len() == 3);
            assert(r@ =~= spec_output_name(
                aoutput_file@,
                *areport_type,
                *aoutput_type,
                aquarter as int,
                astamp@,
            ));
        }
        r
    }
}

/// Derives the final output file name. The date stamp comes from the system
/// clock, so the result is pinned only up to that stamp: whatever date came
/// back, the name is the stamped canonical form, a non-empty base name
/// passes through with only the sink's extension added, and the result is
/// never empty.
pub fn add_output_suffix(
    aoutput_file: &str,
    areport_type: &ReportType,
    aoutput_type: &OutputType,
    aquarter: &i32,
) -> (r: String)
    requires
        valid_quarter(*aquarter as int),
    ensures
        exists|stamp: Seq<char>|
            stamp.len() >= 8 && r@ == spec_output_name(
                aoutput_file@,
                *areport_type,
                *aoutput_type,
                *aquarter as int,
                stamp,
            ),
        aoutput_file@.len() > 0 ==> r@ == aoutput_file@ + spec_extension(*aoutput_type),
        r@.len() > 0,
{
    let stamp = today_stamp();
    let r = make_output_name(aoutput_file, areport_type, aoutput_type, *aquarter, stamp.as_str());
    proof {
        assert(stamp@.len() >= 8 && r@ == spec_output_name(
            aoutput_file@,
            *areport_type,
            *aoutput_type,
            *aquarter as int,
            stamp@,
        ));
    }
    r
}

} // verus!
