//! Outcomes of a run and the verdicts they lead to.

use vstd::prelude::*;
use vstd::std_specs::convert::FromSpecImpl;
use crate::text::{compare, same_output};

verus! {

/// `std::io::Error`, carried through without looking inside.
#[verifier::external_type_specification]
#[verifier::external_body]
pub struct ExIoError(std::io::Error);

/// What went wrong inside the judge itself, as opposed to in the candidate.
#[derive(Clone, Copy, Debug, PartialEq, Eq, Structural)]
pub enum FailureKind {
    /// The candidate could not be started.
    Spawn,
    /// A pipe or a file could not be read or written.
    Io,
    /// The manifest is not a list of pairs of paths.
    Manifest,
    /// The comparison step could not be carried out.
    Comparator,
}

/// The judgement on one test case.
#[derive(Clone, Copy, Debug, PartialEq, Eq, Structural)]
pub enum Verdict {
    /// The candidate exited with code 0 and printed the expected answer.
    Pass,
    /// The candidate exited with code 0 and printed something else.
    WrongAnswer,
    /// The candidate exited with the given code, which is not 0.
    RuntimeError(i64),
    /// The candidate ran longer than it was allowed to.
    TimedOut,
    /// The judge could not run the test case.
    InternalError(FailureKind),
}

/// What running the candidate on one input gave.
#[derive(Debug)]
pub enum RunOutcome {
    /// The candidate ran to its end.
    Completed { exit_code: i64, stdout: Vec<u8> },
    /// The candidate was stopped at the time limit.
    TimedOut,
    /// The candidate could not be started.
    SpawnFailed,
    /// Feeding the candidate or collecting its output failed.
    IoFailed,
}

/// A run as contracts see it: the captured output is a sequence of bytes.
pub enum Run {
    Completed { exit_code: i64, stdout: Seq<u8> },
    TimedOut,
    SpawnFailed,
    IoFailed,
}

impl View for RunOutcome {
    type V = Run;

    open spec fn view(&self) -> Run {
        match *self {
            RunOutcome::Completed { exit_code, stdout } => Run::Completed {
                exit_code,
                stdout: stdout@,
            },
            RunOutcome::TimedOut => Run::TimedOut,
            RunOutcome::SpawnFailed => Run::SpawnFailed,
            RunOutcome::IoFailed => Run::IoFailed,
        }
    }
}

/// The run that feeding and waiting on the candidate stand for. `fed` says
/// whether the whole input reached the candidate. `status` is `None` when
/// the time limit ran out, `Some(None)` when the candidate ended without an
/// exit code, and `Some(Some(code))` when it exited with `code`. Running out
/// of time comes first; after that, input that did not get through or a
/// missing exit code is an I/O failure.
pub open spec fn run_of_wait(fed: bool, status: Option<Option<i64>>, stdout: Seq<u8>) -> Run {
    match status {
        None => Run::TimedOut,
        Some(None) => Run::IoFailed,
        Some(Some(code)) => if fed {
            Run::Completed { exit_code: code, stdout }
        } else {
            Run::IoFailed
        },
    }
}

/// The verdict that a run deserves, given the expected answer.
pub open spec fn verdict_of(run: Run, expected: Seq<u8>) -> Verdict {
    match run {
        Run::Completed { exit_code, stdout } => if exit_code != 0 {
            Verdict::RuntimeError(exit_code)
        } else if same_output(expected, stdout) {
            Verdict::Pass
        } else {
            Verdict::WrongAnswer
        },
        Run::TimedOut => Verdict::TimedOut,
        Run::SpawnFailed => Verdict::InternalError(FailureKind::Spawn),
        Run::IoFailed => Verdict::InternalError(FailureKind::Io),
    }
}

/// The exit status that reports a verdict. It is 0 for a pass, and each
/// class of failure has a code of its own.
pub open spec fn status_of(verdict: Verdict) -> int {
    match verdict {
        Verdict::Pass => 0,
        Verdict::WrongAnswer => 1,
        Verdict::RuntimeError(_) => 2,
        Verdict::TimedOut => 3,
        Verdict::InternalError(_) => 4,
    }
}

/// Whether two verdicts belong to the same class: the same variant, whatever
/// exit code or failure kind they carry.
pub open spec fn same_class(a: Verdict, b: Verdict) -> bool {
    match (a, b) {
        (Verdict::Pass, Verdict::Pass) => true,
        (Verdict::WrongAnswer, Verdict::WrongAnswer) => true,
        (Verdict::RuntimeError(_), Verdict::RuntimeError(_)) => true,
        (Verdict::TimedOut, Verdict::TimedOut) => true,
        (Verdict::InternalError(_), Verdict::InternalError(_)) => true,
        _ => false,
    }
}

impl RunOutcome {
    /// Builds the outcome from what feeding and waiting on the candidate
    /// gave.
    pub fn from_wait(fed: bool, status: Option<Option<i64>>, stdout: Vec<u8>) -> (outcome:
        RunOutcome)
        ensures
            outcome@ == run_of_wait(fed, status, stdout@),
    {
        match status {
            None => RunOutcome::TimedOut,
            Some(None) => RunOutcome::IoFailed,
            Some(Some(code)) => if fed {
                RunOutcome::Completed { exit_code: code, stdout }
            } else {
                RunOutcome::IoFailed
            },
        }
    }
}

impl Verdict {
    /// Tells whether the test case passed.
    pub fn is_pass(&self) -> (r: bool)
        ensures
            r == (*self == Verdict::Pass),
    {
        match self {
            Verdict::Pass => true,
            _ => false,
        }
    }

    /// The exit status that reports this verdict.
    pub fn exit_status(&self) -> (code: u8)
        ensures
            code == status_of(*self),
    {
        match self {
            Verdict::Pass => 0,
            Verdict::WrongAnswer => 1,
            Verdict::RuntimeError(_) => 2,
            Verdict::TimedOut => 3,
            Verdict::InternalError(_) => 4,
        }
    }
}

impl From<std::io::Error> for Verdict {
    fn from(error: std::io::Error) -> (verdict: Verdict) {
        Verdict::InternalError(FailureKind::Io)
    }
}

impl FromSpecImpl<std::io::Error> for Verdict {
    open spec fn obeys_from_spec() -> bool {
        true
    }

    open spec fn from_spec(error: std::io::Error) -> Verdict {
        Verdict::InternalError(FailureKind::Io)
    }
}

/// Classifies the outcome of a run. A non-zero exit code is a runtime error
/// whatever was printed, an exit code of 0 passes exactly when the output is
/// the expected answer, and every other outcome keeps its name.
pub fn classify(outcome: &RunOutcome, expected: &[u8]) -> (verdict: Verdict)
    ensures
        verdict == verdict_of(outcome@, expected@),
{
    match outcome {
        RunOutcome::Completed { exit_code, stdout } => {
            if *exit_code != 0 {
                Verdict::RuntimeError(*exit_code)
            } else if compare(expected, stdout.as_slice()) {
                Verdict::Pass
            } else {
                Verdict::WrongAnswer
            }
        },
        RunOutcome::TimedOut => Verdict::TimedOut,
        RunOutcome::SpawnFailed => Verdict::InternalError(FailureKind::Spawn),
        RunOutcome::IoFailed => Verdict::InternalError(FailureKind::Io),
    }
}

/// A run that exits with code 0 and prints the expected answer passes.
pub proof fn lemma_expected_answer_passes(expected: Seq<u8>, stdout: Seq<u8>)
    requires
        same_output(expected, stdout),
    ensures
        verdict_of(Run::Completed { exit_code: 0, stdout }, expected) == Verdict::Pass,
{
}

/// A run that exits with a code other than 0 is a runtime error with that
/// code, whatever it printed and whatever was expected.
pub proof fn lemma_nonzero_exit_is_runtime_error(code: i64, stdout: Seq<u8>, expected: Seq<u8>)
    requires
        code != 0,
    ensures
        verdict_of(Run::Completed { exit_code: code, stdout }, expected)
            == Verdict::RuntimeError(code),
{
}

/// A run that was stopped at the time limit is judged timed out, whatever
/// was expected.
pub proof fn lemma_timeout_is_timed_out(expected: Seq<u8>)
    ensures
        verdict_of(Run::TimedOut, expected) == Verdict::TimedOut,
{
}

/// The exit status is 0 for a pass and for nothing else, and two verdicts
/// share an exit status exactly when they belong to the same class.
pub proof fn lemma_exit_status_tells_classes_apart(a: Verdict, b: Verdict)
    ensures
        status_of(a) == 0 <==> a == Verdict::Pass,
        status_of(a) == status_of(b) <==> same_class(a, b),
{
}

} // verus!
