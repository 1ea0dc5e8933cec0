//! The course of a suite: which case to run next, and when to stop.
//!
//! A suite runs its cases one after the other, in the order of the manifest.
//! It stops at the first case that does not pass, and that case's verdict is
//! then the verdict on the whole suite. A suite whose cases all pass ends
//! with a pass. The driver performs the runs; this module only decides.

use vstd::prelude::*;
use crate::manifest::{Case, TestCase};
use crate::report::{report_line, report_of};
use crate::verdict::Verdict;

verus! {

/// What the driver has to do next.
#[derive(Clone, Copy, Debug, PartialEq, Eq, Structural)]
pub enum Step {
    /// Run the case at this index of the manifest and record its verdict.
    Run(usize),
    /// Nothing is left to run; this is the verdict on the suite.
    Done(Verdict),
}

/// A step as contracts see it.
pub enum Next {
    Run(int),
    Done(Verdict),
}

impl View for Step {
    type V = Next;

    open spec fn view(&self) -> Next {
        match *self {
            Step::Run(index) => Next::Run(index as int),
            Step::Done(verdict) => Next::Done(verdict),
        }
    }
}

/// How far a suite has come: its cases, how many of them have passed, and
/// the verdict that stopped it, if one did.
pub struct Progress {
    pub cases: Seq<Case>,
    pub passed: nat,
    pub stopped: Option<Verdict>,
}

impl Progress {
    /// A suite of which nothing has been run yet.
    pub open spec fn start(cases: Seq<Case>) -> Progress {
        Progress { cases, passed: 0, stopped: None }
    }

    /// No more cases have passed than there are, and a pass stops nothing.
    pub open spec fn valid(self) -> bool {
        self.passed <= self.cases.len() && self.stopped != Some(Verdict::Pass)
    }

    /// What is to be done next.
    pub open spec fn next(self) -> Next {
        match self.stopped {
            Some(verdict) => Next::Done(verdict),
            None => if self.passed < self.cases.len() {
                Next::Run(self.passed as int)
            } else {
                Next::Done(Verdict::Pass)
            },
        }
    }

    /// Whether a case is waiting to be run.
    pub open spec fn awaits_verdict(self) -> bool {
        self.next() is Run
    }

    /// The suite after the verdict on the waiting case has come in. Where no
    /// case is waiting, nothing changes.
    pub open spec fn after(self, verdict: Verdict) -> Progress {
        if !self.awaits_verdict() {
            self
        } else if verdict == Verdict::Pass {
            Progress { passed: self.passed + 1, ..self }
        } else {
            Progress { stopped: Some(verdict), ..self }
        }
    }

    /// The suite after a series of verdicts has come in, one by one.
    pub open spec fn replay(cases: Seq<Case>, verdicts: Seq<Verdict>) -> Progress
        decreases verdicts.len(),
    {
        if verdicts.len() == 0 {
            Progress::start(cases)
        } else {
            Progress::replay(cases, verdicts.drop_last()).after(verdicts.last())
        }
    }
}

/// A suite in the course of being run.
pub struct Suite {
    cases: Vec<TestCase>,
    passed: usize,
    stopped: Option<Verdict>,
}

impl View for Suite {
    type V = Progress;

    closed spec fn view(&self) -> Progress {
        Progress {
            cases: self.cases.deep_view(),
            passed: self.passed as nat,
            stopped: self.stopped,
        }
    }
}

impl Suite {
    #[verifier::type_invariant]
    spec fn consistent(self) -> bool {
        self.passed <= self.cases.len() && self.stopped != Some(Verdict::Pass)
    }

    /// A suite of the given cases, of which nothing has been run yet.
    pub fn new(cases: Vec<TestCase>) -> (suite: Suite)
        ensures
            suite@ == Progress::start(cases.deep_view()),
    {
        Suite { cases, passed: 0, stopped: None }
    }

    /// The cases of the suite, in the order of the manifest.
    pub fn cases(&self) -> (cases: &Vec<TestCase>)
        ensures
            cases.deep_view() == self@.cases,
    {
        &self.cases
    }

    /// Says what is to be done next: run the first case that has no verdict
    /// yet, or stop with the verdict on the suite.
    pub fn next_step(&self) -> (step: Step)
        ensures
            self@.valid(),
            step@ == self@.next(),
    {
        proof {
            use_type_invariant(self);
        }
        match self.stopped {
            Some(verdict) => Step::Done(verdict),
            None => if self.passed < self.cases.len() {
                Step::Run(self.passed)
            } else {
                Step::Done(Verdict::Pass)
            },
        }
    }

    /// Takes in the verdict on the waiting case and gives the line that
    /// reports it. A pass moves the suite on to the next case; any other
    /// verdict stops it. Where no case is waiting, nothing changes and
    /// `None` is returned.
    pub fn record(&mut self, verdict: Verdict) -> (line: Option<String>)
        ensures
            final(self)@ == old(self)@.after(verdict),
            match line {
                Some(text) => old(self)@.awaits_verdict() && text@ == report_of(
                    old(self)@.cases[old(self)@.passed as int].input_path,
                    verdict,
                ),
                None => !old(self)@.awaits_verdict(),
            },
    {
        proof {
            use_type_invariant(&*self);
        }
        if self.stopped.is_some() || self.passed >= self.cases.len() {
            return None;
        }
        let line = report_line(self.cases[self.passed].input_path.as_str(), &verdict);
        if verdict.is_pass() {
            self.passed = self.passed + 1;
        } else {
            self.stopped = Some(verdict);
        }
        Some(line)
    }
}

/// Verdicts that come in never lead a suite out of its bounds.
pub proof fn lemma_replay_valid(cases: Seq<Case>, verdicts: Seq<Verdict>)
    ensures
        Progress::replay(cases, verdicts).valid(),
    decreases verdicts.len(),
{
    if verdicts.len() > 0 {
        lemma_replay_valid(cases, verdicts.drop_last());
    }
}

/// As long as every case passes, the cases are run in the order of the
/// manifest, each exactly once: after `n` passes the case to run is the one
/// at index `n`, and after as many passes as there are cases the suite ends
/// with a pass.
pub proof fn lemma_passes_run_in_order(cases: Seq<Case>, verdicts: Seq<Verdict>)
    requires
        verdicts.len() <= cases.len(),
        forall|i: int| 0 <= i < verdicts.len() ==> verdicts[i] == Verdict::Pass,
    ensures
        Progress::replay(cases, verdicts) == (Progress {
            cases,
            passed: verdicts.len(),
            stopped: None,
        }),
        verdicts.len() < cases.len() ==> Progress::replay(cases, verdicts).next() == Next::Run(
            verdicts.len() as int,
        ),
        verdicts.len() == cases.len() ==> Progress::replay(cases, verdicts).next() == Next::Done(
            Verdict::Pass,
        ),
    decreases verdicts.len(),
{
    if verdicts.len() > 0 {
        lemma_passes_run_in_order(cases, verdicts.drop_last());
    }
}

/// A suite stops at its first failure: once a case has not passed, its
/// verdict is the verdict on the suite, no later case is run, and whatever
/// comes in afterwards changes nothing.
pub proof fn lemma_stops_at_first_failure(cases: Seq<Case>, verdicts: Seq<Verdict>, first: int)
    requires
        0 <= first < verdicts.len(),
        first < cases.len(),
        verdicts[first] != Verdict::Pass,
        forall|i: int| 0 <= i < first ==> verdicts[i] == Verdict::Pass,
    ensures
        Progress::replay(cases, verdicts) == (Progress {
            cases,
            passed: first as nat,
            stopped: Some(verdicts[first]),
        }),
        Progress::replay(cases, verdicts).next() == Next::Done(verdicts[first]),
        !Progress::replay(cases, verdicts).awaits_verdict(),
    decreases verdicts.len(),
{
    let earlier = verdicts.drop_last();
    if first == verdicts.len() - 1 {
        lemma_passes_run_in_order(cases, earlier);
    } else {
        lemma_stops_at_first_failure(cases, earlier, first);
    }
}

} // verus!
