//! The manifest: the JSON text that names the test cases of a suite.
//!
//! A manifest is a JSON array of two-element arrays of strings. Each inner
//! array names the file that is fed to the candidate and the file that holds
//! the expected answer, in that order. The order of the outer array is the
//! order in which the cases are run.

use vstd::prelude::*;
use vstd::std_specs::convert::FromSpecImpl;
use crate::verdict::{FailureKind, Verdict};

verus! {

/// `serde_json::Error`, carried through without looking inside.
#[verifier::external_type_specification]
#[verifier::external_body]
pub struct ExJsonError(serde_json::Error);

/// One test case: where its input is and where its expected answer is. Both
/// paths are as the manifest gives them, relative to the suite's directory.
#[derive(Debug)]
pub struct TestCase {
    pub input_path: String,
    pub expected_output_path: String,
}

/// A test case as contracts see it.
pub struct Case {
    pub input_path: Seq<char>,
    pub expected_output_path: Seq<char>,
}

impl View for TestCase {
    type V = Case;

    open spec fn view(&self) -> Case {
        Case { input_path: self.input_path@, expected_output_path: self.expected_output_path@ }
    }
}

impl DeepView for TestCase {
    type V = Case;

    open spec fn deep_view(&self) -> Case {
        self@
    }
}

/// What `serde_json::from_slice` makes of a text when it is asked for a list
/// of lists of strings: the lists, or `None` where it reports an error.
pub uninterp spec fn decoded_rows(text: Seq<u8>) -> Option<Seq<Seq<Seq<char>>>>;

/// Whether every row holds exactly two strings.
pub open spec fn all_pairs(rows: Seq<Seq<Seq<char>>>) -> bool {
    forall|i: int| 0 <= i < rows.len() ==> (#[trigger] rows[i]).len() == 2
}

/// The test cases that rows of two strings name, in the order of the rows.
pub open spec fn cases_of(rows: Seq<Seq<Seq<char>>>) -> Seq<Case> {
    Seq::new(
        rows.len(),
        |i: int| Case { input_path: rows[i][0], expected_output_path: rows[i][1] },
    )
}

/// The test cases that a manifest text names, or `None` where the text is
/// not a manifest.
pub open spec fn manifest_of(text: Seq<u8>) -> Option<Seq<Case>> {
    match decoded_rows(text) {
        Some(rows) => if all_pairs(rows) {
            Some(cases_of(rows))
        } else {
            None
        },
        None => None,
    }
}

impl From<serde_json::Error> for Verdict {
    fn from(error: serde_json::Error) -> (verdict: Verdict) {
        Verdict::InternalError(FailureKind::Manifest)
    }
}

impl FromSpecImpl<serde_json::Error> for Verdict {
    open spec fn obeys_from_spec() -> bool {
        true
    }

    open spec fn from_spec(error: serde_json::Error) -> Verdict {
        Verdict::InternalError(FailureKind::Manifest)
    }
}

/// Calls `serde_json::from_slice` for a `Vec<Vec<String>>`. The contract
/// claims only that the outcome is a function of the text: the decoded rows
/// on success, an error where there are none.
#[verifier::external_body]
fn decode_rows(text: &[u8]) -> (r: Result<Vec<Vec<String>>, serde_json::Error>)
    ensures
        match r {
            Ok(rows) => decoded_rows(text@) == Some(rows.deep_view()),
            Err(_) => decoded_rows(text@) is None,
        },
{
    serde_json::from_slice::<Vec<Vec<String>>>(text)
}

/// Turns decoded rows into test cases. Succeeds exactly when every row holds
/// two strings; the cases then come in the order of the rows.
pub fn cases_from_rows(rows: &Vec<Vec<String>>) -> (r: Result<Vec<TestCase>, Verdict>)
    ensures
        match r {
            Ok(cases) => all_pairs(rows.deep_view()) && cases.deep_view() == cases_of(
                rows.deep_view(),
            ),
            Err(verdict) => !all_pairs(rows.deep_view()) && verdict == Verdict::InternalError(
                FailureKind::Manifest,
            ),
        },
{
    let mut cases: Vec<TestCase> = Vec::new();
    let mut i: usize = 0;
    while i < rows.len()
        invariant
            i <= rows.len(),
            cases.len() == i,
            forall|k: int| 0 <= k < i ==> (#[trigger] rows.deep_view()[k]).len() == 2,
            forall|k: int|
                0 <= k < i ==> (#[trigger] cases@[k])@ == cases_of(rows.deep_view())[k],
        decreases rows.len() - i,
    {
        let row = &rows[i];
        assert(rows.deep_view()[i as int] == row.deep_view());
        if row.len() != 2 {
            return Err(Verdict::InternalError(FailureKind::Manifest));
        }
        assert(row.deep_view()[0] == row@[0]@);
        assert(row.deep_view()[1] == row@[1]@);
        let case = TestCase {
            input_path: row[0].clone(),
            expected_output_path: row[1].clone(),
        };
        cases.push(case);
        i += 1;
    }
    assert(cases.deep_view() =~= cases_of(rows.deep_view()));
    Ok(cases)
}

/// Reads a manifest. Succeeds exactly when the text is a JSON array of
/// two-element arrays of strings, and then gives one test case for each
/// inner array, in order. Every other text is a manifest failure.
pub fn parse_manifest(text: &[u8]) -> (r: Result<Vec<TestCase>, Verdict>)
    ensures
        match r {
            Ok(cases) => manifest_of(text@) == Some(cases.deep_view()),
            Err(verdict) => manifest_of(text@) is None && verdict == Verdict::InternalError(
                FailureKind::Manifest,
            ),
        },
{
    match decode_rows(text) {
        Ok(rows) => cases_from_rows(&rows),
        Err(error) => Err(Verdict::from(error)),
    }
}

} // verus!
