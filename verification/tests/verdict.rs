//! Tests for the verdict engine and the report helpers.

use dmn_runner::dir_name;
use dmn_runner::file_name;
use dmn_runner::model::Value;
use dmn_runner::model::ValueType;
use dmn_runner::params::DeployParams;
use dmn_runner::results::ErrorDto;
use dmn_runner::results::ResultDto;
use dmn_runner::utils::matches_file_pattern;
use dmn_runner::utils::report_line;
use dmn_runner::verdict::evaluate_verdict;
use dmn_runner::verdict::Verdict;

fn scalar(typ: &str, text: &str) -> ValueType {
    ValueType::Simple(Value {
        typ: Some(typ.to_string()),
        text: Some(text.to_string()),
        nil: false,
    })
}

#[test]
fn verdict_match_on_equal_scalars() {
    let expected = Some(scalar("xsd:string", "Hello"));
    let computed = Some(scalar("xsd:string", "Hello"));
    assert!(matches!(evaluate_verdict(false, &expected, &computed), Verdict::Match));
}

#[test]
fn verdict_mismatch_on_literal_text_difference() {
    // Text is compared literally: no numeric normalization.
    let expected = Some(scalar("xsd:decimal", "1.0"));
    let computed = Some(scalar("xsd:decimal", "1.00"));
    match evaluate_verdict(false, &expected, &computed) {
        Verdict::Mismatch(e, c) => {
            assert!(e.structural_eq(expected.as_ref().unwrap()));
            assert!(c.structural_eq(computed.as_ref().unwrap()));
        }
        _ => assert!(false),
    }
}

#[test]
fn verdict_mismatch_on_different_type_tag() {
    // A textually equal value with a different declared type is a
    // mismatch: the engine is strict by design.
    let expected = Some(scalar("xsd:string", "1"));
    let computed = Some(scalar("xsd:decimal", "1"));
    assert!(matches!(evaluate_verdict(false, &expected, &computed), Verdict::Mismatch(_, _)));
}

#[test]
fn verdict_expected_error_wins_outright() {
    assert!(matches!(
        evaluate_verdict(true, &None, &None),
        Verdict::ExpectedErrorObserved
    ));
    // Even with both values present, the error-result flag wins.
    let v = Some(scalar("xsd:string", "x"));
    assert!(matches!(evaluate_verdict(true, &v, &v), Verdict::ExpectedErrorObserved));
}

#[test]
fn verdict_missing_computed() {
    let expected = Some(scalar("xsd:string", "Hello"));
    assert!(matches!(evaluate_verdict(false, &expected, &None), Verdict::MissingComputed));
}

#[test]
fn verdict_missing_expected() {
    let computed = Some(scalar("xsd:string", "Hello"));
    assert!(matches!(evaluate_verdict(false, &None, &computed), Verdict::MissingExpected));
}

#[test]
fn errors_as_string_joins_details() {
    let result: ResultDto<String> = ResultDto {
        data: None,
        errors: Some(vec![
            ErrorDto { details: "first".to_string() },
            ErrorDto { details: "second".to_string() },
        ]),
    };
    assert_eq!("first, second", result.errors_as_string().as_str());
    let no_errors: ResultDto<String> = ResultDto { data: None, errors: None };
    assert_eq!("", no_errors.errors_as_string().as_str());
}

#[test]
fn dir_and_file_name_split_at_last_slash() {
    assert_eq!("/tmp/cases", dir_name("/tmp/cases/0001.xml").as_str());
    assert_eq!("0001.xml", file_name("/tmp/cases/0001.xml").as_str());
    assert_eq!("", dir_name("plain.xml").as_str());
    assert_eq!("plain.xml", file_name("plain.xml").as_str());
}

#[test]
fn report_line_quotes_five_fields() {
    let line = report_line("/tmp", "a.xml", "001", "SUCCESS", "");
    assert_eq!(r#""/tmp","a.xml","001","SUCCESS","""#, line.as_str());
}

#[test]
fn deploy_params_encode_content() {
    let params = DeployParams::new(
        "file://localhost/tmp/a.dmn".to_string(),
        "abc",
        "a.dmn".to_string(),
    );
    assert_eq!("file://localhost/tmp/a.dmn", params.source.as_ref().unwrap().as_str());
    assert_eq!("YWJj", params.content.as_ref().unwrap().as_str());
    assert_eq!("a.dmn", params.tag.as_ref().unwrap().as_str());
}

#[test]
fn deploy_params_for_file_builds_uri_and_tag() {
    let params = DeployParams::for_file("/tmp/a.dmn", "abc").unwrap();
    assert_eq!("file://localhost/tmp/a.dmn", params.source.as_ref().unwrap().as_str());
    assert_eq!("YWJj", params.content.as_ref().unwrap().as_str());
    assert_eq!("a.dmn", params.tag.as_ref().unwrap().as_str());
}

#[test]
fn file_pattern_matching() {
    assert_eq!(Some(true), matches_file_pattern("", "anything.xml"));
    assert_eq!(Some(true), matches_file_pattern("0001", "/cases/0001-a.xml"));
    assert_eq!(Some(false), matches_file_pattern("0001", "/cases/0002-a.xml"));
    assert_eq!(None, matches_file_pattern("(", "/cases/0001-a.xml"));
}
