use ledgerexport_tax::command::build_ledger_args;
use ledgerexport_tax::digits::u32_to_dec_string;
use ledgerexport_tax::enums::{OutputType, ReportType, ToLedgerParam};
use ledgerexport_tax::naming::{add_output_suffix, make_output_name};
use ledgerexport_tax::quarter::get_daterange_from_quarter;
use ledgerexport_tax::quarter_is_valid;
use ledgerexport_tax::render::split_lines;

#[test]
fn quarter_begin_bounds_all_quarters() {
    assert_eq!(get_daterange_from_quarter(1, 2021, true), "2021-01-01");
    assert_eq!(get_daterange_from_quarter(2, 2021, true), "2021-04-01");
    assert_eq!(get_daterange_from_quarter(3, 2021, true), "2021-07-01");
    assert_eq!(get_daterange_from_quarter(4, 2021, true), "2021-10-01");
}

#[test]
fn quarter_end_bound_is_next_quarter_begin() {
    assert_eq!(
        get_daterange_from_quarter(1, 2021, false),
        get_daterange_from_quarter(2, 2021, true)
    );
    assert_eq!(
        get_daterange_from_quarter(2, 2021, false),
        get_daterange_from_quarter(3, 2021, true)
    );
    assert_eq!(
        get_daterange_from_quarter(3, 2021, false),
        get_daterange_from_quarter(4, 2021, true)
    );
    assert_eq!(
        get_daterange_from_quarter(4, 2021, false),
        get_daterange_from_quarter(1, 2022, true)
    );
}

#[test]
fn quarter_bound_small_year() {
    assert_eq!(get_daterange_from_quarter(3, 9, true), "9-07-01");
}

#[test]
fn output_suffix_never_empty() {
    let reports = [ReportType::Balance, ReportType::Register];
    let sinks = [OutputType::Stdout, OutputType::Txt, OutputType::Pdf];
    for report in &reports {
        for sink in &sinks {
            for quarter in 1..5 {
                assert!(!add_output_suffix("", report, sink, &quarter).is_empty());
                assert!(!add_output_suffix("name", report, sink, &quarter).is_empty());
            }
        }
    }
}

#[test]
fn extension_mapping_is_exhaustive() {
    assert_eq!(OutputType::Pdf.to_file_extension(), ".pdf");
    assert_eq!(OutputType::Txt.to_file_extension(), ".txt");
    assert_eq!(OutputType::Stdout.to_file_extension(), "");
}

#[test]
fn report_alias_roundtrip() {
    assert_eq!(
        ReportType::from_str("bal").unwrap().to_ledger_param(),
        "bal"
    );
    assert_eq!(
        ReportType::from_str("balance").unwrap().to_ledger_param(),
        "bal"
    );
    assert_eq!(
        ReportType::from_str("reg").unwrap().to_ledger_param(),
        "reg"
    );
    assert_eq!(
        ReportType::from_str("register").unwrap().to_ledger_param(),
        "reg"
    );
}

#[test]
fn report_parse_rejects_unknown() {
    assert_eq!(ReportType::from_str(""), Err(()));
    assert_eq!(ReportType::from_str("balances"), Err(()));
    assert_eq!(ReportType::from_str("Bal"), Err(()));
}

#[test]
fn output_parse_accepts_the_three_sinks() {
    assert_eq!(OutputType::from_str("stdout"), Ok(OutputType::Stdout));
    assert_eq!(OutputType::from_str("txt"), Ok(OutputType::Txt));
    assert_eq!(OutputType::from_str("pdf"), Ok(OutputType::Pdf));
}

#[test]
fn output_parse_rejects_unknown() {
    assert_eq!(OutputType::from_str(""), Err(()));
    assert_eq!(OutputType::from_str("PDF"), Err(()));
    assert_eq!(OutputType::from_str("text"), Err(()));
}

#[test]
fn quarter_validity_bounds() {
    assert!(!quarter_is_valid(0));
    assert!(quarter_is_valid(1));
    assert!(quarter_is_valid(4));
    assert!(!quarter_is_valid(5));
    assert!(!quarter_is_valid(-1));
}

#[test]
fn stamped_name_from_given_stamp() {
    assert_eq!(
        make_output_name("", &ReportType::Balance, &OutputType::Pdf, 2, "20190101"),
        "bal_20190101_v1_Q2.pdf"
    );
    assert_eq!(
        make_output_name("", &ReportType::Register, &OutputType::Txt, 4, "20201231"),
        "reg_20201231_v1_Q4.txt"
    );
    assert_eq!(
        make_output_name("", &ReportType::Register, &OutputType::Stdout, 1, "20200101"),
        "reg_20200101_v1_Q1"
    );
    assert_eq!(
        make_output_name("base", &ReportType::Balance, &OutputType::Txt, 3, "20200101"),
        "base.txt"
    );
}

#[test]
fn ledger_args_exact_list() {
    let args = build_ledger_args("ledger.dat", &ReportType::Balance, 2, 2021);
    let expected = vec![
        "-f",
        "ledger.dat",
        "--strict",
        "-X",
        "-EUR",
        "-H",
        "bal",
        "-b",
        "2021-04-01",
        "-e",
        "2021-07-01",
    ];
    assert_eq!(args, expected);
}

#[test]
fn ledger_args_quarter_four_rolls_over() {
    let args = build_ledger_args("l.dat", &ReportType::Register, 4, 2020);
    assert_eq!(args[6], "reg");
    assert_eq!(args[8], "2020-10-01");
    assert_eq!(args[10], "2021-01-01");
}

#[test]
fn split_lines_cases() {
    assert_eq!(split_lines(""), vec![""]);
    assert_eq!(split_lines("one line"), vec!["one line"]);
    assert_eq!(split_lines("a\nb"), vec!["a", "b"]);
    assert_eq!(split_lines("a\nb\n"), vec!["a", "b", ""]);
    assert_eq!(split_lines("\n\n"), vec!["", "", ""]);
    assert_eq!(
        split_lines("Assets  100 EUR\nLiabilities  -40 EUR\n  Total 60 EUR"),
        vec!["Assets  100 EUR", "Liabilities  -40 EUR", "  Total 60 EUR"]
    );
}

#[test]
fn decimal_digits_exact() {
    assert_eq!(u32_to_dec_string(0), "0");
    assert_eq!(u32_to_dec_string(7), "7");
    assert_eq!(u32_to_dec_string(2019), "2019");
    assert_eq!(u32_to_dec_string(100000), "100000");
    assert_eq!(u32_to_dec_string(u32::MAX), "4294967295");
}

#[test]
fn enum_names() {
    assert_eq!(ReportType::Balance.name(), "Balance");
    assert_eq!(ReportType::Register.name(), "Register");
    assert_eq!(OutputType::Stdout.name(), "Stdout");
    assert_eq!(OutputType::Txt.name(), "Txt");
    assert_eq!(OutputType::Pdf.name(), "Pdf");
}
