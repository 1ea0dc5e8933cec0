use judge::manifest::{parse_manifest, TestCase};
use judge::suite::{Step, Suite};
use judge::verdict::{classify, FailureKind, RunOutcome, Verdict};

fn case(input: &str, expected: &str) -> TestCase {
    TestCase { input_path: input.to_string(), expected_output_path: expected.to_string() }
}

/// Drives a suite with the outcomes that a candidate would give, one for each
/// case that gets run, against the expected answer `5`.
fn drive(manifest: &[u8], outcomes: Vec<RunOutcome>) -> (Vec<String>, Vec<usize>, Verdict) {
    let mut suite = Suite::new(parse_manifest(manifest).unwrap());
    let mut outcomes = outcomes.into_iter();
    let mut lines = Vec::new();
    let mut ran = Vec::new();
    loop {
        match suite.next_step() {
            Step::Run(index) => {
                ran.push(index);
                let outcome = outcomes.next().unwrap();
                let verdict = classify(&outcome, b"5\n");
                lines.push(suite.record(verdict).unwrap());
            }
            Step::Done(verdict) => return (lines, ran, verdict),
        }
    }
}

fn printed(exit_code: i64, stdout: &[u8]) -> RunOutcome {
    RunOutcome::Completed { exit_code, stdout: stdout.to_vec() }
}

#[test]
fn identity_candidate_passes_the_suite() {
    let (lines, ran, verdict) = drive(br#"[["t1.in","t1.out"]]"#, vec![printed(0, b"5\n")]);
    assert_eq!(lines, vec!["t1.in OK".to_string()]);
    assert_eq!(ran, vec![0]);
    assert_eq!(verdict, Verdict::Pass);
    assert_eq!(verdict.exit_status(), 0);
}

#[test]
fn wrong_output_halts_the_suite() {
    let (lines, ran, verdict) = drive(br#"[["t1.in","t1.out"]]"#, vec![printed(0, b"6\n")]);
    assert_eq!(lines, vec!["t1.in Err WrongAnswer".to_string()]);
    assert_eq!(ran, vec![0]);
    assert_eq!(verdict, Verdict::WrongAnswer);
    assert_ne!(verdict.exit_status(), 0);
}

#[test]
fn sleeping_candidate_is_reported_timed_out() {
    let (lines, ran, verdict) = drive(br#"[["t1.in","t1.out"]]"#, vec![RunOutcome::TimedOut]);
    assert_eq!(lines, vec!["t1.in Err TimedOut".to_string()]);
    assert_eq!(ran, vec![0]);
    assert_eq!(verdict, Verdict::TimedOut);
    assert_eq!(verdict.exit_status(), 3);
}

#[test]
fn second_case_is_not_run_after_a_failure() {
    let manifest = br#"[["t1.in","t1.out"],["t2.in","t2.out"]]"#;
    let (lines, ran, verdict) = drive(manifest, vec![printed(2, b"5\n"), printed(0, b"5\n")]);
    assert_eq!(lines, vec!["t1.in Err RuntimeError(2)".to_string()]);
    assert_eq!(ran, vec![0]);
    assert_eq!(verdict, Verdict::RuntimeError(2));
}

#[test]
fn cases_run_in_manifest_order() {
    let manifest = br#"[["c.in","c.out"],["a.in","a.out"],["b.in","b.out"]]"#;
    let outcomes = vec![printed(0, b"5"), printed(0, b"5 \n"), printed(0, b"5\n\n")];
    let (lines, ran, verdict) = drive(manifest, outcomes);
    assert_eq!(lines, vec!["c.in OK".to_string(), "a.in OK".to_string(), "b.in OK".to_string()]);
    assert_eq!(ran, vec![0, 1, 2]);
    assert_eq!(verdict, Verdict::Pass);
}

#[test]
fn failure_in_the_middle_keeps_earlier_reports() {
    let manifest = br#"[["1.in","1.out"],["2.in","2.out"],["3.in","3.out"]]"#;
    let outcomes = vec![printed(0, b"5\n"), RunOutcome::SpawnFailed, printed(0, b"5\n")];
    let (lines, ran, verdict) = drive(manifest, outcomes);
    assert_eq!(
        lines,
        vec!["1.in OK".to_string(), "2.in Err InternalError(Spawn)".to_string()]
    );
    assert_eq!(ran, vec![0, 1]);
    assert_eq!(verdict, Verdict::InternalError(FailureKind::Spawn));
    assert_eq!(verdict.exit_status(), 4);
}

#[test]
fn empty_suite_is_done_with_a_pass() {
    let mut suite = Suite::new(Vec::new());
    assert_eq!(suite.next_step(), Step::Done(Verdict::Pass));
    assert_eq!(suite.record(Verdict::WrongAnswer), None);
    assert_eq!(suite.next_step(), Step::Done(Verdict::Pass));
}

#[test]
fn record_after_the_end_changes_nothing() {
    let mut suite = Suite::new(vec![case("a.in", "a.out")]);
    assert_eq!(suite.record(Verdict::Pass), Some("a.in OK".to_string()));
    assert_eq!(suite.next_step(), Step::Done(Verdict::Pass));
    assert_eq!(suite.record(Verdict::TimedOut), None);
    assert_eq!(suite.next_step(), Step::Done(Verdict::Pass));
}

#[test]
fn record_after_a_failure_changes_nothing() {
    let mut suite = Suite::new(vec![case("a.in", "a.out"), case("b.in", "b.out")]);
    assert_eq!(suite.record(Verdict::TimedOut), Some("a.in Err TimedOut".to_string()));
    assert_eq!(suite.record(Verdict::Pass), None);
    assert_eq!(suite.record(Verdict::WrongAnswer), None);
    assert_eq!(suite.next_step(), Step::Done(Verdict::TimedOut));
}

#[test]
fn cases_gives_the_manifest_back() {
    let suite = Suite::new(vec![case("a.in", "a.out"), case("b.in", "b.out")]);
    let cases = suite.cases();
    assert_eq!(cases.len(), 2);
    assert_eq!(cases[0].input_path, "a.in");
    assert_eq!(cases[0].expected_output_path, "a.out");
    assert_eq!(cases[1].input_path, "b.in");
    assert_eq!(cases[1].expected_output_path, "b.out");
}
