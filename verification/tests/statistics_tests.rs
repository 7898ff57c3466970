use pysprint_cli::statistics::{
    parse_fixed, summarize_entries, CoeffitientType, DispersionCoeffitient, JsonScalar,
    ResultEntry,
};

fn entry(gd: JsonScalar, gdd: JsonScalar, method: Option<&str>) -> ResultEntry {
    ResultEntry {
        gd,
        gdd,
        tod: JsonScalar::Other,
        fod: JsonScalar::Other,
        qod: JsonScalar::Other,
        sod: JsonScalar::Other,
        method: method.map(|m| m.to_string()),
    }
}

#[test]
fn parse_fixed_reads_decimal_literals() {
    assert_eq!(parse_fixed("120.5"), Some(12050000));
    assert_eq!(parse_fixed("30"), Some(3000000));
    assert_eq!(parse_fixed("-3.25"), Some(-325000));
    assert_eq!(parse_fixed("0"), Some(0));
    assert_eq!(parse_fixed("0.00001"), Some(1));
    assert_eq!(parse_fixed("1.123456789"), Some(112345));
}

#[test]
fn parse_fixed_rejects_everything_else() {
    assert_eq!(parse_fixed(""), None);
    assert_eq!(parse_fixed("abc"), None);
    assert_eq!(parse_fixed("12a.5"), None);
    assert_eq!(parse_fixed("1.2.3"), None);
    assert_eq!(parse_fixed("1e3"), None);
    assert_eq!(parse_fixed("123456789"), None);
    assert_eq!(parse_fixed("99999999"), Some(9999999900000));
}

#[test]
fn single_entry_store_summary() {
    let entries = vec![entry(
        JsonScalar::Text("120.5".to_string()),
        JsonScalar::Num("30".to_string()),
        Some("WFTMethod"),
    )];
    let report = summarize_entries(&entries);
    assert!(report.starts_with("1 entries found.\nmethod: WFTMethod\n"));
    assert!(report.contains(
        "GD ranging from 120.50000 to 120.50000 fs (might be inaccurate due to sign conversions)"
    ));
    assert!(report.contains("GDD: mean =     30.00000 | std =      0.00000 | min =     30.00000 | max =     30.00000  fs^2"));
    assert!(report.contains("TOD: omitted.."));
    assert!(report.contains("FOD: omitted.."));
    assert!(report.contains("QOD: omitted.."));
    assert!(report.contains("SOD: omitted.."));
}

#[test]
fn single_entry_store_summary_exact_text() {
    let entries = vec![entry(
        JsonScalar::Text("120.5".to_string()),
        JsonScalar::Num("30".to_string()),
        Some("WFTMethod"),
    )];
    let expected = "1 entries found.\nmethod: WFTMethod\nGD ranging from 120.50000 to 120.50000 fs (might be inaccurate due to sign conversions)\nGDD: mean =     30.00000 | std =      0.00000 | min =     30.00000 | max =     30.00000  fs^2\nTOD: omitted..\nFOD: omitted..\nQOD: omitted..\nSOD: omitted..\n";
    assert_eq!(summarize_entries(&entries), expected);
}

#[test]
fn summarizing_the_same_store_twice_prints_identical_statistics() {
    let entries = vec![
        entry(
            JsonScalar::Text("1.5".to_string()),
            JsonScalar::Num("2".to_string()),
            Some("FFTMethod"),
        ),
        entry(
            JsonScalar::Text("-2.5".to_string()),
            JsonScalar::Num("4".to_string()),
            Some("FFTMethod"),
        ),
    ];
    let first = summarize_entries(&entries);
    let second = summarize_entries(&entries);
    assert_eq!(first, second);
}

#[test]
fn empty_store_summary() {
    let entries: Vec<ResultEntry> = Vec::new();
    let report = summarize_entries(&entries);
    assert!(report.starts_with("0 entries found.\nmethod: \n"));
    assert!(report.contains("GD: omitted.."));
}

#[test]
fn method_comes_from_the_last_entry() {
    let entries = vec![
        entry(JsonScalar::Other, JsonScalar::Other, Some("FFTMethod")),
        entry(JsonScalar::Other, JsonScalar::Other, Some("WFTMethod")),
    ];
    let report = summarize_entries(&entries);
    assert!(report.contains("method: WFTMethod\n"));
    let entries = vec![entry(JsonScalar::Other, JsonScalar::Other, None)];
    let report = summarize_entries(&entries);
    assert!(report.contains("method: unknown\n"));
}

#[test]
fn group_delay_signs_follow_the_first_sample() {
    let mut gds = DispersionCoeffitient::empty_with_type(CoeffitientType::GD);
    gds.push(500000);
    gds.push(-300000);
    assert_eq!(gds.min(), Some(300000));
    assert_eq!(gds.max(), Some(500000));
    let mut gds = DispersionCoeffitient::empty_with_type(CoeffitientType::GD);
    gds.push(-500000);
    gds.push(300000);
    assert_eq!(gds.min(), Some(-500000));
    assert_eq!(gds.max(), Some(-300000));
}

#[test]
fn other_kinds_keep_their_signs() {
    let mut gdds = DispersionCoeffitient::empty_with_type(CoeffitientType::GDD);
    gdds.push(500000);
    gdds.push(-300000);
    assert_eq!(gdds.min(), Some(-300000));
    assert_eq!(gdds.max(), Some(500000));
}

#[test]
fn mean_and_deviation_in_fixed_point() {
    let values = [100000i64, 300000];
    let c = DispersionCoeffitient::with_values_and_type(&values, CoeffitientType::TOD);
    assert_eq!(c.mean(), Some(200000));
    assert_eq!(c.std_deviation(), Some(100000));
    assert_eq!(c.len(), 2);
    assert!(!c.is_empty());
    assert!(!c.is_omitted());
    assert_eq!(c.unit(), "fs^3");
}

#[test]
fn group_delay_has_no_mean() {
    let values = [100000i64, 300000];
    let c = DispersionCoeffitient::with_values_and_type(&values, CoeffitientType::GD);
    assert_eq!(c.mean(), None);
    assert_eq!(c.std_deviation(), None);
    assert_eq!(c.unit(), "fs");
}

#[test]
fn all_zero_kind_is_omitted() {
    let values = [0i64, 0, 0];
    let c = DispersionCoeffitient::with_values_and_type(&values, CoeffitientType::QOD);
    assert!(c.is_omitted());
    assert_eq!(c.to_text(), "QOD: omitted..");
    let empty = DispersionCoeffitient::empty_with_type(CoeffitientType::SOD);
    assert!(empty.is_omitted());
    assert!(empty.is_empty());
}

#[test]
fn extend_from_slice_appends_without_normalization() {
    let mut c = DispersionCoeffitient::empty_with_type(CoeffitientType::GD);
    c.push(100000);
    c.extend_from_slice(&[-200000]);
    assert_eq!(c.min(), Some(-200000));
    assert_eq!(c.max(), Some(100000));
}

#[test]
fn non_numeric_encodings_contribute_zero() {
    let entries = vec![
        entry(
            JsonScalar::Text("oops".to_string()),
            JsonScalar::Num("2".to_string()),
            Some("FFTMethod"),
        ),
        entry(
            JsonScalar::Other,
            JsonScalar::Num("4".to_string()),
            Some("FFTMethod"),
        ),
    ];
    let report = summarize_entries(&entries);
    assert!(report.contains("GD: omitted.."));
    assert!(report.contains("GDD: mean =      3.00000"));
}
