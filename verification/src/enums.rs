//! Report types and output sinks: the two closed sets the tool works over,
//! their textual aliases, and their canonical string forms.

use vstd::prelude::*;

verus! {

/// The kind of ledger report requested: a running balance snapshot or a
/// chronological transaction register.
#[derive(Debug, PartialEq, Eq, Structural, Clone, Copy)]
pub enum ReportType {
    Balance,
    Register,
}

/// Where the report text goes: the console, a plain text file, or a
/// paginated document.
#[derive(Debug, PartialEq, Eq, Structural, Clone, Copy)]
pub enum OutputType {
    Stdout,
    Txt,
    Pdf,
}

/// The short form that the external ledger program takes as a parameter:
/// `"bal"` for a balance report, `"reg"` for a register report.
pub open spec fn spec_ledger_param(r: ReportType) -> Seq<char> {
    match r {
        ReportType::Balance => "bal"@,
        ReportType::Register => "reg"@,
    }
}

/// Conversion to the exact string that the external ledger program takes as
/// a command-line parameter.
pub trait ToLedgerParam {
    /// The string the conversion must produce.
    spec fn spec_to_ledger_param(&self) -> Seq<char>;

    /// Produces exactly that string.
    fn to_ledger_param(&self) -> (r: String)
        ensures
            r@ == self.spec_to_ledger_param(),
    ;
}

impl ToLedgerParam for ReportType {
    open spec fn spec_to_ledger_param(&self) -> Seq<char> {
        spec_ledger_param(*self)
    }

    fn to_ledger_param(&self) -> (r: String) {
        match self {
            ReportType::Balance => "bal".to_owned(),
            ReportType::Register => "reg".to_owned(),
        }
    }
}

/// Which report type a textual alias names: each type has a long and a
/// short alias, and nothing else is accepted.
pub open spec fn spec_parse_report(s: Seq<char>) -> Result<ReportType, ()> {
    if s == "balance"@ || s == "bal"@ {
        Ok(ReportType::Balance)
    } else if s == "register"@ || s == "reg"@ {
        Ok(ReportType::Register)
    } else {
        Err(())
    }
}

/// Which output sink a name stands for: exactly `"stdout"`, `"txt"` or
/// `"pdf"`.
pub open spec fn spec_parse_output(s: Seq<char>) -> Result<OutputType, ()> {
    if s == "stdout"@ {
        Ok(OutputType::Stdout)
    } else if s == "txt"@ {
        Ok(OutputType::Txt)
    } else if s == "pdf"@ {
        Ok(OutputType::Pdf)
    } else {
        Err(())
    }
}

/// The file extension each output sink maps to, dot included; the console
/// has none.
pub open spec fn spec_extension(t: OutputType) -> Seq<char> {
    match t {
        OutputType::Pdf => ".pdf"@,
        OutputType::Txt => ".txt"@,
        OutputType::Stdout => ""@,
    }
}

/// The name of a report type, as shown to the user.
pub open spec fn spec_report_name(r: ReportType) -> Seq<char> {
    match r {
        ReportType::Balance => "Balance"@,
        ReportType::Register => "Register"@,
    }
}

/// The name of an output sink, as shown to the user.
pub open spec fn spec_output_type_name(t: OutputType) -> Seq<char> {
    match t {
        OutputType::Stdout => "Stdout"@,
        OutputType::Txt => "Txt"@,
        OutputType::Pdf => "Pdf"@,
    }
}

/// Whether two strings hold the same characters.
fn str_eq(a: &str, b: &str) -> (r: bool)
    ensures
        r == (a@ == b@),
{
    a.to_owned() == b.to_owned()
}

impl ReportType {
    /// Parses a textual alias: `"balance"` and `"bal"` name the balance
    /// report, `"register"` and `"reg"` the register report; anything else
    /// is rejected.
    pub fn from_str(astr: &str) -> (r: Result<ReportType, ()>)
        ensures
            r == spec_parse_report(astr@),
    {
        if str_eq(astr, "balance") || str_eq(astr, "bal") {
            Ok(ReportType::Balance)
        } else if str_eq(astr, "register") || str_eq(astr, "reg") {
            Ok(ReportType::Register)
        } else {
            Err(())
        }
    }

    /// The report type's name.
    pub fn name(&self) -> (r: String)
        ensures
            r@ == spec_report_name(*self),
    {
        match self {
            ReportType::Balance => "Balance".to_owned(),
            ReportType::Register => "Register".to_owned(),
        }
    }
}

impl OutputType {
    /// Parses an output sink name: exactly `"stdout"`, `"txt"` or `"pdf"`;
    /// anything else is rejected.
    pub fn from_str(a_str: &str) -> (r: Result<OutputType, ()>)
        ensures
            r == spec_parse_output(a_str@),
    {
        if str_eq(a_str, "stdout") {
            Ok(OutputType::Stdout)
        } else if str_eq(a_str, "txt") {
            Ok(OutputType::Txt)
        } else if str_eq(a_str, "pdf") {
            Ok(OutputType::Pdf)
        } else {
            Err(())
        }
    }

    /// Maps the output sink to its file-extension convention, dot included:
    /// `".pdf"`, `".txt"`, or nothing for the console.
    pub fn to_file_extension(&self) -> (r: String)
        ensures
            r@ == spec_extension(*self),
    {
        match self {
            OutputType::Pdf => ".pdf".to_owned(),
            OutputType::Txt => ".txt".to_owned(),
            OutputType::Stdout => "".to_owned(),
        }
    }

    /// The output sink's name.
    pub fn name(&self) -> (r: String)
        ensures
            r@ == spec_output_type_name(*self),
    {
        match self {
            OutputType::Stdout => "Stdout".to_owned(),
            OutputType::Txt => "Txt".to_owned(),
            OutputType::Pdf => "Pdf".to_owned(),
        }
    }
}

/// Every alias of a report type converts back to that type's short form,
/// and the short form parses back to the same report type: the round trip
/// is closed over the two aliases of each type.
pub proof fn lemma_report_alias_roundtrip(s: Seq<char>)
    requires
        spec_parse_report(s) is Ok,
    ensures
        spec_parse_report(spec_ledger_param(spec_parse_report(s)->Ok_0)) == spec_parse_report(s),
        (s == "balance"@ || s == "bal"@) ==> spec_ledger_param(spec_parse_report(s)->Ok_0) == "bal"@,
        (s == "register"@ || s == "reg"@) ==> spec_ledger_param(spec_parse_report(s)->Ok_0) == "reg"@,
{
    reveal_strlit("balance");
    reveal_strlit("bal");
    reveal_strlit("register");
    reveal_strlit("reg");
    assert("balance"@.len() == 7);
    assert("bal"@.len() == 3);
    assert("register"@.len() == 8);
    assert("reg"@.len() == 3);
    assert("bal"@[0] == 'b' && "reg"@[0] == 'r');
}

} // verus!
