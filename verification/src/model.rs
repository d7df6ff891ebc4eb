//! The mathematical model of the pair scheduler: a transition system over workers, pairs
//! and node locks. The executable scheduler is proved to follow it step by step, and the
//! scheduler's guarantees are proved of it.
use vstd::prelude::*;
use crate::phase::{Failure, PairReport, Phase, PhaseOutcome};
use crate::text::lex_lt;
use crate::tracker::Probe;

verus! {

/// A pair of nodes, each given by its number in the node table.
#[derive(Clone, Copy, Debug, PartialEq, Eq)]
pub struct PairIx {
    /// The sender.
    pub from: usize,
    /// The receiver.
    pub to: usize,
}

/// Where a worker stands.
#[derive(Clone, Copy, Debug, PartialEq, Eq)]
pub enum Stage {
    /// No pair in hand.
    Idle,
    /// Holds no lock; wants the lock of the pair's lower node.
    LockFirst { pair: usize },
    /// Holds the lock of the lower node; wants that of the higher one.
    LockSecond { pair: usize },
    /// Holds both locks; clearing leftover processes before `then`, or before letting go.
    Reset { pair: usize, then: Option<Phase> },
    /// Holds both locks; asking whether `phase` is already complete.
    Inspect { pair: usize, phase: Phase },
    /// Holds both locks; `phase` is running.
    Run { pair: usize, phase: Phase },
    /// No pair is left to take.
    Retired,
}

/// What the driver reports back to the scheduler.
#[derive(Clone, Copy, Debug, PartialEq, Eq)]
pub enum Event {
    /// Nothing to report: the worker is ready to go on.
    Tick,
    /// The answer to `Action::Probe`.
    Probed(Probe),
    /// The answer to `Action::Launch`: the phase ran, or failed.
    Finished(Result<(), Failure>),
}

/// What the driver has to do for a worker before that worker's next step.
#[derive(Clone, Copy, Debug, PartialEq, Eq)]
pub enum Action {
    /// Nothing: step again.
    Proceed,
    /// The pair joins a node to itself and was skipped: step again.
    SkipPair { pair: usize },
    /// The lock of `node` is held by another worker: step again once a lock was released.
    Blocked { node: usize },
    /// Kill leftover processes on both nodes of `pair`, ignoring failures, then step again.
    Reset { pair: usize },
    /// Create the output directory of `phase` and look for its markers, then step with
    /// `Event::Probed`.
    Probe { pair: usize, phase: Phase },
    /// Run `phase` on `pair`, then step with `Event::Finished`.
    Launch { pair: usize, phase: Phase },
    /// Both locks of `pair` were released: wake blocked workers and step again.
    Released { pair: usize },
    /// The event did not answer the worker's open request; nothing changed.
    Unanswered,
    /// The worker is done for good.
    Retire,
}

/// The state of the whole scheduler.
#[verifier::ext_equal]
pub struct Model {
    /// The node table: the name of each node.
    pub names: Seq<Seq<char>>,
    /// The configured pairs, in order.
    pub pairs: Seq<PairIx>,
    /// How many pairs were handed out to workers.
    pub next: nat,
    /// For each node, the worker that holds its lock.
    pub owner: Seq<Option<usize>>,
    /// For each worker, where it stands.
    pub stages: Seq<Stage>,
    /// For each pair, what is settled of it.
    pub reports: Seq<PairReport>,
}

impl Stage {
    /// The pair that the worker has in hand, if any.
    pub open spec fn pair(self) -> Option<usize> {
        match self {
            Stage::Idle | Stage::Retired => None,
            Stage::LockFirst { pair } => Some(pair),
            Stage::LockSecond { pair } => Some(pair),
            Stage::Reset { pair, .. } => Some(pair),
            Stage::Inspect { pair, .. } => Some(pair),
            Stage::Run { pair, .. } => Some(pair),
        }
    }

    /// The worker holds both locks of its pair: it is inside its execution window.
    pub open spec fn executing(self) -> bool {
        self is Reset || self is Inspect || self is Run
    }
}

impl Model {
    /// The pair comes from a node to the same node.
    pub open spec fn self_pair(self, pair: int) -> bool {
        self.pairs[pair].from == self.pairs[pair].to
    }

    /// The node of `pair` whose name comes first: its lock is taken first.
    pub open spec fn first(self, pair: int) -> usize {
        let p = self.pairs[pair];
        if lex_lt(self.names[p.from as int], self.names[p.to as int]) {
            p.from
        } else {
            p.to
        }
    }

    /// The other node of `pair`: its lock is taken second.
    pub open spec fn second(self, pair: int) -> usize {
        let p = self.pairs[pair];
        if lex_lt(self.names[p.from as int], self.names[p.to as int]) {
            p.to
        } else {
            p.from
        }
    }

    /// `node` is one of the two nodes of `pair`.
    pub open spec fn touches(self, pair: int, node: int) -> bool {
        self.pairs[pair].from == node || self.pairs[pair].to == node
    }

    /// `node` is a node of some pair.
    pub open spec fn in_use(self, node: int) -> bool {
        exists|p: int| 0 <= p < self.pairs.len() && #[trigger] self.touches(p, node)
    }

    /// A worker at `stage` holds the lock of `node`.
    pub open spec fn holds(self, stage: Stage, node: int) -> bool {
        match stage {
            Stage::LockSecond { pair } => self.first(pair as int) == node,
            Stage::Reset { pair, .. } => self.touches(pair as int, node),
            Stage::Inspect { pair, .. } => self.touches(pair as int, node),
            Stage::Run { pair, .. } => self.touches(pair as int, node),
            _ => false,
        }
    }

    /// Worker `w` is inside its execution window and `node` is one of its two nodes.
    pub open spec fn executing_on(self, w: int, node: int) -> bool {
        &&& 0 <= w < self.stages.len()
        &&& self.stages[w].executing()
        &&& self.touches(self.stages[w].pair()->0 as int, node)
    }

    /// The node whose lock worker `w` is asking for, if it is asking for one.
    pub open spec fn wanted(self, w: int) -> Option<usize> {
        match self.stages[w] {
            Stage::LockFirst { pair } => Some(self.first(pair as int)),
            Stage::LockSecond { pair } => Some(self.second(pair as int)),
            _ => None,
        }
    }

    /// Worker `w` asks for a lock that is held: its step changes nothing.
    pub open spec fn blocked(self, w: int) -> bool {
        self.wanted(w) matches Some(n) && self.owner[n as int] is Some
    }

    /// Every worker is retired: the run is over.
    pub open spec fn finished(self) -> bool {
        forall|w: int| 0 <= w < self.stages.len() ==> self.stages[w] is Retired
    }

    /// The state before anything has happened: no pair handed out, every lock free, every
    /// worker idle.
    pub open spec fn init(names: Seq<Seq<char>>, pairs: Seq<PairIx>, workers: nat) -> Model {
        Model {
            names,
            pairs,
            next: 0,
            owner: Seq::new(names.len(), |n: int| None::<usize>),
            stages: Seq::new(workers, |w: int| Stage::Idle),
            reports: Seq::new(pairs.len(), |p: int| PairReport::blank()),
        }
    }

    /// This state with worker `w` at `stage`.
    pub open spec fn at(self, w: int, stage: Stage) -> Model {
        Model { stages: self.stages.update(w, stage), ..self }
    }

    /// This state with `outcome` recorded for `phase` of `pair`.
    pub open spec fn noting(self, pair: int, phase: Phase, outcome: PhaseOutcome) -> Model {
        Model {
            reports: self.reports.update(pair, self.reports[pair].with(phase, outcome)),
            ..self
        }
    }

    /// This state with the two locks of `pair` free.
    pub open spec fn letting_go(self, pair: int) -> Model {
        Model {
            owner: self.owner.update(self.pairs[pair].from as int, None).update(
                self.pairs[pair].to as int,
                None,
            ),
            ..self
        }
    }

    /// Worker `w` leaves `phase` of `pair` without having run it: on to the inspection of the next
    /// phase, or, after the last one, the locks are released and the worker is idle.
    pub open spec fn pass(self, w: int, pair: usize, phase: Phase) -> (Model, Action) {
        match phase.successor() {
            Some(q) => (
                self.at(w, Stage::Inspect { pair, phase: q }),
                Action::Probe { pair, phase: q },
            ),
            None => (self.letting_go(pair as int).at(w, Stage::Idle), Action::Released { pair }),
        }
    }

    /// An idle worker takes the next pair, if one is left.
    pub open spec fn take(self, w: int) -> (Model, Action) {
        if self.next >= self.pairs.len() {
            (self.at(w, Stage::Retired), Action::Retire)
        } else if self.self_pair(self.next as int) {
            (
                Model {
                    next: self.next + 1,
                    reports: self.reports.update(self.next as int, PairReport::skipped_self()),
                    ..self
                },
                Action::SkipPair { pair: self.next as usize },
            )
        } else {
            (
                Model { next: self.next + 1, ..self }.at(
                    w,
                    Stage::LockFirst { pair: self.next as usize },
                ),
                Action::Proceed,
            )
        }
    }

    /// A worker that wants the lock of `node` gets it and moves to `then`, or stays blocked.
    pub open spec fn lock(self, w: int, node: usize, then: Stage, granted: Action) -> (
        Model,
        Action,
    ) {
        if self.owner[node as int] is None {
            (
                Model { owner: self.owner.update(node as int, Some(w as usize)), ..self }.at(
                    w,
                    then,
                ),
                granted,
            )
        } else {
            (self, Action::Blocked { node })
        }
    }

    /// The inspection of `phase`: a complete phase is skipped, one whose directory cannot be made
    /// fails, any other is launched.
    pub open spec fn inspect(self, w: int, pair: usize, phase: Phase, probe: Probe) -> (
        Model,
        Action,
    ) {
        if !probe.dir_ok {
            self.noting(pair as int, phase, PhaseOutcome::Failed(Failure::OutputDir)).pass(
                w,
                pair,
                phase,
            )
        } else if probe.complete() {
            self.noting(pair as int, phase, PhaseOutcome::Skipped).pass(w, pair, phase)
        } else {
            (self.at(w, Stage::Run { pair, phase }), Action::Launch { pair, phase })
        }
    }

    /// One step of worker `w` on the event `ev`: the next state and what the driver has to
    /// do for that worker.
    pub open spec fn step(self, w: int, ev: Event) -> (Model, Action) {
        match self.stages[w] {
            Stage::Idle => self.take(w),
            Stage::LockFirst { pair } => self.lock(
                w,
                self.first(pair as int),
                Stage::LockSecond { pair },
                Action::Proceed,
            ),
            Stage::LockSecond { pair } => self.lock(
                w,
                self.second(pair as int),
                Stage::Reset { pair, then: Some(Phase::Control) },
                Action::Reset { pair },
            ),
            Stage::Reset { pair, then } => match then {
                Some(phase) => (
                    self.at(w, Stage::Inspect { pair, phase }),
                    Action::Probe { pair, phase },
                ),
                None => (
                    self.letting_go(pair as int).at(w, Stage::Idle),
                    Action::Released { pair },
                ),
            },
            Stage::Inspect { pair, phase } => match ev {
                Event::Probed(probe) => self.inspect(w, pair, phase, probe),
                _ => (self, Action::Unanswered),
            },
            Stage::Run { pair, phase } => match ev {
                Event::Finished(result) => (
                    self.noting(
                        pair as int,
                        phase,
                        match result {
                            Ok(_) => PhaseOutcome::Completed,
                            Err(f) => PhaseOutcome::Failed(f),
                        },
                    ).at(w, Stage::Reset { pair, then: phase.successor() }),
                    Action::Reset { pair },
                ),
                _ => (self, Action::Unanswered),
            },
            Stage::Retired => (self, Action::Retire),
        }
    }

    /// The stage of a worker fits the state: its pair was handed out and joins two
    /// different nodes.
    pub open spec fn stage_ok(self, stage: Stage) -> bool {
        stage.pair() matches Some(p) ==> p < self.next && !self.self_pair(p as int)
    }

    /// The invariant of the scheduler.
    pub open spec fn wf(self) -> bool {
        &&& forall|i: int, j: int|
            0 <= i < j < self.names.len() ==> self.names[i] != self.names[j]
        &&& self.owner.len() == self.names.len()
        &&& self.names.len() <= usize::MAX
        &&& self.stages.len() <= usize::MAX
        &&& self.pairs.len() <= usize::MAX
        &&& forall|p: int|
            0 <= p < self.pairs.len() ==> (#[trigger] self.pairs[p]).from < self.names.len()
                && self.pairs[p].to < self.names.len()
        &&& self.next <= self.pairs.len()
        &&& self.reports.len() == self.pairs.len()
        &&& forall|w: int| 0 <= w < self.stages.len() ==> self.stage_ok(#[trigger] self.stages[w])
        &&& forall|n: int|
            0 <= n < self.owner.len() ==> (#[trigger] self.owner[n] matches Some(w) ==> w
                < self.stages.len() && self.holds(self.stages[w as int], n))
        &&& forall|w: int, n: int|
            0 <= w < self.stages.len() && 0 <= n < self.names.len() && #[trigger] self.holds(
                self.stages[w],
                n,
            ) ==> self.owner[n] == Some(w as usize)
        &&& forall|v: int, w: int|
            0 <= v < w < self.stages.len() && (#[trigger] self.stages[v]).pair() is Some
                ==> self.stages[v].pair() != (#[trigger] self.stages[w]).pair()
    }

    /// Some worker has pair `pair` in hand.
    pub open spec fn in_hand(self, pair: int) -> bool {
        exists|w: int|
            0 <= w < self.stages.len() && (#[trigger] self.stages[w]).pair() == Some(
                pair as usize,
            )
    }

    /// The phases of `pair` that come before `phase` are settled.
    pub open spec fn settled_before(self, pair: int, phase: Phase) -> bool {
        &&& phase != Phase::Control ==> self.reports[pair].control is Some
        &&& phase == Phase::Bundler ==> self.reports[pair].iperf is Some
    }

    /// `phase` of `pair` and the phases after it are not settled.
    pub open spec fn open_from(self, pair: int, phase: Phase) -> bool {
        &&& self.reports[pair].bundler is None
        &&& phase != Phase::Bundler ==> self.reports[pair].iperf is None
        &&& phase == Phase::Control ==> self.reports[pair].control is None
    }

    /// The report of a worker's pair is exactly as far as the worker's stage says.
    pub open spec fn on_record(self, stage: Stage) -> bool {
        match stage {
            Stage::LockFirst { pair } => self.reports[pair as int] == PairReport::blank(),
            Stage::LockSecond { pair } => self.reports[pair as int] == PairReport::blank(),
            Stage::Reset { pair, then: Some(phase) } => self.settled_before(pair as int, phase)
                && self.open_from(pair as int, phase),
            Stage::Reset { pair, then: None } => self.reports[pair as int].settled(),
            Stage::Inspect { pair, phase } => self.settled_before(pair as int, phase)
                && self.open_from(pair as int, phase),
            Stage::Run { pair, phase } => self.settled_before(pair as int, phase)
                && self.open_from(pair as int, phase),
            _ => true,
        }
    }

    /// The bookkeeping invariant: a pair that was handed out is in a worker's hand or has
    /// all its phases settled; the report of a pair in hand is exactly as far as its
    /// worker's stage says; the report of a pair not handed out is blank; and a worker
    /// retires only when no pair is left.
    pub open spec fn accounted(self) -> bool {
        &&& forall|p: int|
            0 <= p < self.next ==> self.in_hand(p) || (#[trigger] self.reports[p]).settled()
        &&& forall|p: int|
            self.next <= p < self.pairs.len() ==> #[trigger] self.reports[p] == PairReport::blank()
        &&& forall|w: int| 0 <= w < self.stages.len() ==> self.on_record(#[trigger] self.stages[w])
        &&& forall|w: int|
            0 <= w < self.stages.len() && #[trigger] self.stages[w] is Retired ==> self.next
                >= self.pairs.len()
    }

    /// The event answers the open request of worker `w`, if that worker has one.
    pub open spec fn answers(self, w: int, ev: Event) -> bool {
        match self.stages[w] {
            Stage::Inspect { .. } => ev is Probed,
            Stage::Run { .. } => ev is Finished,
            _ => true,
        }
    }

    /// The step of worker `w` on `ev` makes progress: the worker is not retired, does not
    /// ask for a lock that is held, and the event answers its open request.
    pub open spec fn productive(self, w: int, ev: Event) -> bool {
        &&& 0 <= w < self.stages.len()
        &&& !(self.stages[w] is Retired)
        &&& !self.blocked(w)
        &&& self.answers(w, ev)
    }

    /// The state after the steps of `schedule`, taken in order. Each entry names the worker
    /// that steps and the event it is given.
    pub open spec fn after(self, schedule: Seq<(int, Event)>) -> Model
        decreases schedule.len(),
    {
        if schedule.len() == 0 {
            self
        } else {
            self.after(schedule.drop_last()).step(schedule.last().0, schedule.last().1).0
        }
    }

    /// Every entry of `schedule` names a worker.
    pub open spec fn admits(self, schedule: Seq<(int, Event)>) -> bool {
        forall|i: int|
            0 <= i < schedule.len() ==> 0 <= (#[trigger] schedule[i]).0 < self.stages.len()
    }

    /// Every step of `schedule` makes progress in the state in which it is taken.
    pub open spec fn all_productive(self, schedule: Seq<(int, Event)>) -> bool
        decreases schedule.len(),
    {
        schedule.len() > 0 ==> self.all_productive(schedule.drop_last()) && self.after(
            schedule.drop_last(),
        ).productive(schedule.last().0, schedule.last().1)
    }

    /// The work that is left: it bounds the number of productive steps still possible.
    pub open spec fn remaining(self) -> nat {
        (14 * (self.pairs.len() - self.next) + total_weight(self.stages)) as nat
    }
}

/// How many productive steps a worker at `stage` can still take on the pair in hand, plus
/// one for retiring.
pub open spec fn weight(stage: Stage) -> nat {
    match stage {
        Stage::Retired => 0,
        Stage::Idle => 1,
        Stage::LockFirst { .. } => 14,
        Stage::LockSecond { .. } => 13,
        Stage::Reset { then: Some(phase), .. } => (12 - 3 * phase.ordinal()) as nat,
        Stage::Inspect { phase, .. } => (11 - 3 * phase.ordinal()) as nat,
        Stage::Run { phase, .. } => (10 - 3 * phase.ordinal()) as nat,
        Stage::Reset { then: None, .. } => 3,
    }
}

/// The sum of the weights of all workers.
pub open spec fn total_weight(stages: Seq<Stage>) -> nat
    decreases stages.len(),
{
    if stages.len() == 0 {
        0
    } else {
        total_weight(stages.drop_last()) + weight(stages.last())
    }
}

} // verus!
