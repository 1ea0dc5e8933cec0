use judge::manifest::{cases_from_rows, parse_manifest, TestCase};
use judge::verdict::{FailureKind, Verdict};

fn paths(cases: &[TestCase]) -> Vec<(String, String)> {
    cases
        .iter()
        .map(|case| (case.input_path.clone(), case.expected_output_path.clone()))
        .collect()
}

fn pair(input: &str, expected: &str) -> (String, String) {
    (input.to_string(), expected.to_string())
}

fn row(items: &[&str]) -> Vec<String> {
    items.iter().map(|item| item.to_string()).collect()
}

const MANIFEST_FAILURE: Verdict = Verdict::InternalError(FailureKind::Manifest);

#[test]
fn parses_one_pair() {
    let cases = parse_manifest(br#"[["t1.in","t1.out"]]"#).unwrap();
    assert_eq!(paths(&cases), vec![pair("t1.in", "t1.out")]);
}

#[test]
fn parses_pairs_in_order() {
    let text = br#"
        [
            ["b/2.in", "b/2.out"],
            ["a/1.in", "a/1.out"],
            ["b/2.in", "c.out"]
        ]
    "#;
    let cases = parse_manifest(text).unwrap();
    assert_eq!(
        paths(&cases),
        vec![pair("b/2.in", "b/2.out"), pair("a/1.in", "a/1.out"), pair("b/2.in", "c.out")]
    );
}

#[test]
fn parses_escapes_in_paths() {
    let cases = parse_manifest(r#"[["a\"b\u00e9.in","\\x.out"]]"#.as_bytes()).unwrap();
    assert_eq!(paths(&cases), vec![pair("a\"b\u{e9}.in", "\\x.out")]);
}

#[test]
fn empty_list_is_an_empty_suite() {
    let cases = parse_manifest(b"[]").unwrap();
    assert!(cases.is_empty());
}

#[test]
fn rejects_text_that_is_not_json() {
    assert_eq!(parse_manifest(b"").unwrap_err(), MANIFEST_FAILURE);
    assert_eq!(parse_manifest(b"[[\"a\",\"b\"]").unwrap_err(), MANIFEST_FAILURE);
    assert_eq!(parse_manifest(b"[[\"a\",\"b\"]] x").unwrap_err(), MANIFEST_FAILURE);
    assert_eq!(parse_manifest(&[b'[', b'[', b'"', 0xff, b'"', b']', b']']).unwrap_err(), MANIFEST_FAILURE);
}

#[test]
fn rejects_json_of_another_shape() {
    assert_eq!(parse_manifest(b"{}").unwrap_err(), MANIFEST_FAILURE);
    assert_eq!(parse_manifest(b"null").unwrap_err(), MANIFEST_FAILURE);
    assert_eq!(parse_manifest(br#"["a","b"]"#).unwrap_err(), MANIFEST_FAILURE);
    assert_eq!(parse_manifest(br#"[["a",1]]"#).unwrap_err(), MANIFEST_FAILURE);
    assert_eq!(parse_manifest(br#"[["a",null]]"#).unwrap_err(), MANIFEST_FAILURE);
    assert_eq!(parse_manifest(br#"[{"in":"a","out":"b"}]"#).unwrap_err(), MANIFEST_FAILURE);
}

#[test]
fn rejects_rows_that_are_not_pairs() {
    assert_eq!(parse_manifest(br#"[["a"]]"#).unwrap_err(), MANIFEST_FAILURE);
    assert_eq!(parse_manifest(br#"[[]]"#).unwrap_err(), MANIFEST_FAILURE);
    assert_eq!(parse_manifest(br#"[["a","b","c"]]"#).unwrap_err(), MANIFEST_FAILURE);
    assert_eq!(parse_manifest(br#"[["a","b"],["c"]]"#).unwrap_err(), MANIFEST_FAILURE);
}

#[test]
fn cases_from_rows_takes_input_first_and_answer_second() {
    let rows = vec![row(&["x.in", "x.out"]), row(&["y.in", "y.out"])];
    let cases = cases_from_rows(&rows).unwrap();
    assert_eq!(paths(&cases), vec![pair("x.in", "x.out"), pair("y.in", "y.out")]);
    assert!(cases_from_rows(&Vec::new()).unwrap().is_empty());
}

#[test]
fn cases_from_rows_wants_two_strings_in_every_row() {
    assert_eq!(cases_from_rows(&vec![row(&["x.in"])]).unwrap_err(), MANIFEST_FAILURE);
    assert_eq!(cases_from_rows(&vec![row(&[])]).unwrap_err(), MANIFEST_FAILURE);
    assert_eq!(
        cases_from_rows(&vec![row(&["x.in", "x.out"]), row(&["a", "b", "c"])]).unwrap_err(),
        MANIFEST_FAILURE
    );
}
