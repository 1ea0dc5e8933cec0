//! The line that a judge prints for each test case.
//!
//! A passed case is reported as its input path followed by ` OK`, any other
//! as its input path followed by ` Err ` and the verdict written out, such as
//! `WrongAnswer`, `RuntimeError(3)` or `InternalError(Io)`.

use vstd::prelude::*;
use crate::verdict::{FailureKind, Verdict};

verus! {

/// The character for a digit from 0 to 9.
pub open spec fn digit(d: int) -> char {
    if d == 0 {
        '0'
    } else if d == 1 {
        '1'
    } else if d == 2 {
        '2'
    } else if d == 3 {
        '3'
    } else if d == 4 {
        '4'
    } else if d == 5 {
        '5'
    } else if d == 6 {
        '6'
    } else if d == 7 {
        '7'
    } else if d == 8 {
        '8'
    } else {
        '9'
    }
}

/// A natural number in decimal, without leading zeros.
pub open spec fn digits(n: nat) -> Seq<char>
    decreases n,
{
    if n < 10 {
        seq![digit(n as int)]
    } else {
        digits(n / 10).push(digit((n % 10) as int))
    }
}

/// An integer in decimal, with a minus sign in front where it is negative.
pub open spec fn decimal(n: int) -> Seq<char> {
    if n < 0 {
        seq!['-'] + digits((-n) as nat)
    } else {
        digits(n as nat)
    }
}

/// The name of a failure kind.
pub open spec fn kind_name(kind: FailureKind) -> Seq<char> {
    match kind {
        FailureKind::Spawn => "Spawn"@,
        FailureKind::Io => "Io"@,
        FailureKind::Manifest => "Manifest"@,
        FailureKind::Comparator => "Comparator"@,
    }
}

/// A verdict written out.
pub open spec fn detail_of(verdict: Verdict) -> Seq<char> {
    match verdict {
        Verdict::Pass => "Pass"@,
        Verdict::WrongAnswer => "WrongAnswer"@,
        Verdict::RuntimeError(code) => "RuntimeError("@ + decimal(code as int) + ")"@,
        Verdict::TimedOut => "TimedOut"@,
        Verdict::InternalError(kind) => "InternalError("@ + kind_name(kind) + ")"@,
    }
}

/// The line that reports the verdict on the case with the given input path.
pub open spec fn report_of(input_path: Seq<char>, verdict: Verdict) -> Seq<char> {
    if verdict == Verdict::Pass {
        input_path + " OK"@
    } else {
        input_path + " Err "@ + detail_of(verdict)
    }
}

fn digit_text(d: u64) -> (text: &'static str)
    requires
        d < 10,
    ensures
        text@ == seq![digit(d as int)],
{
    proof {
        reveal_strlit("0");
        reveal_strlit("1");
        reveal_strlit("2");
        reveal_strlit("3");
        reveal_strlit("4");
        reveal_strlit("5");
        reveal_strlit("6");
        reveal_strlit("7");
        reveal_strlit("8");
        reveal_strlit("9");
    }
    let text = if d == 0 {
        "0"
    } else if d == 1 {
        "1"
    } else if d == 2 {
        "2"
    } else if d == 3 {
        "3"
    } else if d == 4 {
        "4"
    } else if d == 5 {
        "5"
    } else if d == 6 {
        "6"
    } else if d == 7 {
        "7"
    } else if d == 8 {
        "8"
    } else {
        "9"
    };
    assert(text@ =~= seq![digit(d as int)]);
    text
}

fn push_digits(out: &mut String, n: u64)
    ensures
        final(out)@ == old(out)@ + digits(n as nat),
    decreases n,
{
    if n >= 10 {
        push_digits(out, n / 10);
    }
    out.append(digit_text(n % 10));
    assert(out@ =~= old(out)@ + digits(n as nat));
}

fn kind_text(kind: FailureKind) -> (text: &'static str)
    ensures
        text@ == kind_name(kind),
{
    match kind {
        FailureKind::Spawn => "Spawn",
        FailureKind::Io => "Io",
        FailureKind::Manifest => "Manifest",
        FailureKind::Comparator => "Comparator",
    }
}

/// Writes an integer in decimal.
pub fn decimal_string(n: i64) -> (text: String)
    ensures
        text@ == decimal(n as int),
{
    let mut text = String::new();
    if n < 0 {
        proof {
            reveal_strlit("-");
        }
        text.append("-");
        let magnitude: u64 = if n == i64::MIN {
            9223372036854775808u64
        } else {
            (-n) as u64
        };
        push_digits(&mut text, magnitude);
        assert(text@ =~= decimal(n as int));
    } else {
        push_digits(&mut text, n as u64);
        assert(text@ =~= decimal(n as int));
    }
    text
}

impl Verdict {
    /// Writes the verdict out.
    pub fn detail(&self) -> (text: String)
        ensures
            text@ == detail_of(*self),
    {
        match *self {
            Verdict::Pass => String::from_str("Pass"),
            Verdict::WrongAnswer => String::from_str("WrongAnswer"),
            Verdict::RuntimeError(code) => {
                let mut text = String::from_str("RuntimeError(");
                let number = decimal_string(code);
                text.append(number.as_str());
                text.append(")");
                text
            },
            Verdict::TimedOut => String::from_str("TimedOut"),
            Verdict::InternalError(kind) => {
                let mut text = String::from_str("InternalError(");
                text.append(kind_text(kind));
                text.append(")");
                text
            },
        }
    }
}

/// Writes the line that reports `verdict` for the case whose input is at
/// `input_path`.
pub fn report_line(input_path: &str, verdict: &Verdict) -> (line: String)
    ensures
        line@ == report_of(input_path@, *verdict),
{
    let mut line = String::from_str(input_path);
    if verdict.is_pass() {
        line.append(" OK");
    } else {
        line.append(" Err ");
        let detail = verdict.detail();
        line.append(detail.as_str());
    }
    line
}

} // verus!
