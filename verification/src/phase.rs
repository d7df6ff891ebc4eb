//! The three experiment phases run on every pair, and what is recorded of them.
use vstd::prelude::*;

verus! {

/// One of the three experiments run against a pair, in pipeline order.
#[derive(Clone, Copy, Debug, PartialEq, Eq)]
pub enum Phase {
    /// Latency baseline without load.
    Control,
    /// Raw throughput.
    Iperf,
    /// Throughput managed by the bundler and its congestion controller.
    Bundler,
}

/// Why a phase did not finish.
#[derive(Clone, Copy, Debug, PartialEq, Eq)]
pub enum Failure {
    /// The phase's output directory could not be created.
    OutputDir,
    /// The load generator reported that it could not connect.
    Connect,
    /// A remote command or a file transfer failed.
    Transport,
}

/// What became of one phase of one pair.
#[derive(Clone, Copy, Debug, PartialEq, Eq)]
pub enum PhaseOutcome {
    /// The phase ran and its artifacts were collected.
    Completed,
    /// The phase was not run: its markers were already there, or the pair joins a node to itself.
    Skipped,
    /// The phase was attempted and failed.
    Failed(Failure),
}

/// The outcomes of the three phases of one pair. A slot is `None` until its phase is settled.
#[derive(Clone, Copy, Debug, PartialEq, Eq)]
pub struct PairReport {
    /// The pair joins a node to itself and was skipped as a whole.
    pub self_pair: bool,
    pub control: Option<PhaseOutcome>,
    pub iperf: Option<PhaseOutcome>,
    pub bundler: Option<PhaseOutcome>,
}

impl Phase {
    /// The phase that follows this one in the pipeline, if any.
    pub open spec fn successor(self) -> Option<Phase> {
        match self {
            Phase::Control => Some(Phase::Iperf),
            Phase::Iperf => Some(Phase::Bundler),
            Phase::Bundler => None,
        }
    }

    /// Position in the pipeline: 0, 1 or 2.
    pub open spec fn ordinal(self) -> nat {
        match self {
            Phase::Control => 0,
            Phase::Iperf => 1,
            Phase::Bundler => 2,
        }
    }

    /// The name of the phase's output directory.
    pub open spec fn name(self) -> Seq<char> {
        match self {
            Phase::Control => "control"@,
            Phase::Iperf => "iperf"@,
            Phase::Bundler => "bundler"@,
        }
    }

    /// The name of the phase's output directory: `control`, `iperf` or `bundler`.
    pub fn dir_name(self) -> (r: &'static str)
        ensures
            r@ == self.name(),
    {
        match self {
            Phase::Control => "control",
            Phase::Iperf => "iperf",
            Phase::Bundler => "bundler",
        }
    }

    /// The phase that follows this one in the pipeline, if any.
    #[verifier::when_used_as_spec(successor)]
    pub fn next(self) -> (r: Option<Phase>)
        ensures
            r == self.successor(),
    {
        match self {
            Phase::Control => Some(Phase::Iperf),
            Phase::Iperf => Some(Phase::Bundler),
            Phase::Bundler => None,
        }
    }
}

impl PairReport {
    /// The report of a pair of which nothing is settled yet.
    pub open spec fn blank() -> PairReport {
        PairReport { self_pair: false, control: None, iperf: None, bundler: None }
    }

    /// The report of a pair that joins a node to itself.
    pub open spec fn skipped_self() -> PairReport {
        PairReport {
            self_pair: true,
            control: Some(PhaseOutcome::Skipped),
            iperf: Some(PhaseOutcome::Skipped),
            bundler: Some(PhaseOutcome::Skipped),
        }
    }

    /// The slot of `phase`.
    pub open spec fn slot(self, phase: Phase) -> Option<PhaseOutcome> {
        match phase {
            Phase::Control => self.control,
            Phase::Iperf => self.iperf,
            Phase::Bundler => self.bundler,
        }
    }

    /// This report with the slot of `phase` set to `outcome`, and nothing else changed.
    pub open spec fn with(self, phase: Phase, outcome: PhaseOutcome) -> PairReport {
        match phase {
            Phase::Control => PairReport { control: Some(outcome), ..self },
            Phase::Iperf => PairReport { iperf: Some(outcome), ..self },
            Phase::Bundler => PairReport { bundler: Some(outcome), ..self },
        }
    }

    /// All three phases are settled.
    pub open spec fn settled(self) -> bool {
        self.control is Some && self.iperf is Some && self.bundler is Some
    }

    /// The first failure in pipeline order, if a phase failed.
    pub open spec fn first_failure(self) -> Option<Failure> {
        if let Some(PhaseOutcome::Failed(f)) = self.control {
            Some(f)
        } else if let Some(PhaseOutcome::Failed(f)) = self.iperf {
            Some(f)
        } else if let Some(PhaseOutcome::Failed(f)) = self.bundler {
            Some(f)
        } else {
            None
        }
    }

    /// Some phase ran to completion.
    pub open spec fn any_completed(self) -> bool {
        self.control == Some(PhaseOutcome::Completed) || self.iperf == Some(PhaseOutcome::Completed)
            || self.bundler == Some(PhaseOutcome::Completed)
    }

    /// The pair's aggregate outcome: `None` while a phase is unsettled; otherwise the first
    /// failure if any phase failed, else `Completed` if any phase ran, else `Skipped`.
    pub open spec fn aggregate(self) -> Option<PhaseOutcome> {
        if !self.settled() {
            None
        } else if let Some(f) = self.first_failure() {
            Some(PhaseOutcome::Failed(f))
        } else if self.any_completed() {
            Some(PhaseOutcome::Completed)
        } else {
            Some(PhaseOutcome::Skipped)
        }
    }

    /// A report with nothing settled.
    pub fn new() -> (r: PairReport)
        ensures
            r == PairReport::blank(),
    {
        PairReport { self_pair: false, control: None, iperf: None, bundler: None }
    }

    /// The report of a pair that joins a node to itself: every phase skipped.
    pub fn for_self_pair() -> (r: PairReport)
        ensures
            r == PairReport::skipped_self(),
    {
        PairReport {
            self_pair: true,
            control: Some(PhaseOutcome::Skipped),
            iperf: Some(PhaseOutcome::Skipped),
            bundler: Some(PhaseOutcome::Skipped),
        }
    }

    /// The outcome recorded for `phase`, if it is settled.
    pub fn get(&self, phase: Phase) -> (r: Option<PhaseOutcome>)
        ensures
            r == self.slot(phase),
    {
        match phase {
            Phase::Control => self.control,
            Phase::Iperf => self.iperf,
            Phase::Bundler => self.bundler,
        }
    }

    /// Records `outcome` for `phase`; the other slots keep their values.
    pub fn record(&mut self, phase: Phase, outcome: PhaseOutcome)
        ensures
            *final(self) == old(self).with(phase, outcome),
    {
        match phase {
            Phase::Control => {
                self.control = Some(outcome);
            },
            Phase::Iperf => {
                self.iperf = Some(outcome);
            },
            Phase::Bundler => {
                self.bundler = Some(outcome);
            },
        }
    }

    /// The pair's aggregate outcome, once all three phases are settled.
    pub fn outcome(&self) -> (r: Option<PhaseOutcome>)
        ensures
            r == self.aggregate(),
    {
        let (c, i, b) = match (self.control, self.iperf, self.bundler) {
            (Some(c), Some(i), Some(b)) => (c, i, b),
            _ => {
                return None;
            },
        };
        if let PhaseOutcome::Failed(f) = c {
            return Some(PhaseOutcome::Failed(f));
        }
        if let PhaseOutcome::Failed(f) = i {
            return Some(PhaseOutcome::Failed(f));
        }
        if let PhaseOutcome::Failed(f) = b {
            return Some(PhaseOutcome::Failed(f));
        }
        let ran = matches!(c, PhaseOutcome::Completed) || matches!(i, PhaseOutcome::Completed)
            || matches!(b, PhaseOutcome::Completed);
        if ran {
            Some(PhaseOutcome::Completed)
        } else {
            Some(PhaseOutcome::Skipped)
        }
    }
}

/// How a pair stands in the summary of a run.
#[derive(Clone, Copy, Debug, PartialEq, Eq)]
pub enum Standing {
    /// A phase is not settled yet.
    Unsettled,
    /// No phase failed and at least one ran.
    Completed,
    /// No phase ran: all were skipped.
    Skipped,
    /// A phase failed.
    Failed,
}

/// The summary of a run: how many pairs stand how.
#[derive(Clone, Copy, Debug, PartialEq, Eq)]
pub struct Summary {
    pub completed: usize,
    pub skipped: usize,
    pub failed: usize,
    pub unsettled: usize,
}

impl PairReport {
    /// How the pair stands, by its aggregate outcome.
    pub open spec fn standing(self) -> Standing {
        match self.aggregate() {
            None => Standing::Unsettled,
            Some(PhaseOutcome::Completed) => Standing::Completed,
            Some(PhaseOutcome::Skipped) => Standing::Skipped,
            Some(PhaseOutcome::Failed(_)) => Standing::Failed,
        }
    }
}

/// How many of `reports` stand as `standing`.
pub open spec fn count(reports: Seq<PairReport>, standing: Standing) -> nat
    decreases reports.len(),
{
    if reports.len() == 0 {
        0
    } else {
        count(reports.drop_last(), standing) + if reports.last().standing() == standing {
            1nat
        } else {
            0nat
        }
    }
}

/// The summary of `reports`: how many pairs completed, were skipped, failed, or are not
/// settled yet.
pub fn summarize(reports: &Vec<PairReport>) -> (r: Summary)
    ensures
        r.completed == count(reports@, Standing::Completed),
        r.skipped == count(reports@, Standing::Skipped),
        r.failed == count(reports@, Standing::Failed),
        r.unsettled == count(reports@, Standing::Unsettled),
        r.completed + r.skipped + r.failed + r.unsettled == reports.len(),
{
    let mut r = Summary { completed: 0, skipped: 0, failed: 0, unsettled: 0 };
    let mut i: usize = 0;
    assert(reports@.take(0) =~= Seq::empty());
    while i < reports.len()
        invariant
            i <= reports.len(),
            r.completed == count(reports@.take(i as int), Standing::Completed),
            r.skipped == count(reports@.take(i as int), Standing::Skipped),
            r.failed == count(reports@.take(i as int), Standing::Failed),
            r.unsettled == count(reports@.take(i as int), Standing::Unsettled),
            r.completed + r.skipped + r.failed + r.unsettled == i,
        decreases reports.len() - i,
    {
        proof {
            let upto = reports@.take(i + 1);
            assert(upto.drop_last() =~= reports@.take(i as int));
            assert(upto.last() == reports@[i as int]);
        }
        match reports[i].outcome() {
            None => {
                r.unsettled = r.unsettled + 1;
            },
            Some(PhaseOutcome::Completed) => {
                r.completed = r.completed + 1;
            },
            Some(PhaseOutcome::Skipped) => {
                r.skipped = r.skipped + 1;
            },
            Some(PhaseOutcome::Failed(_)) => {
                r.failed = r.failed + 1;
            },
        }
        i += 1;
    }
    assert(reports@.take(reports.len() as int) =~= reports@);
    r
}

} // verus!
