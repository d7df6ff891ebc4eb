//! The pair scheduler: hands the configured pairs out to a fixed number of workers, grants
//! the node locks in name order, lets a phase run only if its markers are missing and
//! records what became of each phase. It performs no I/O: a driver carries out the actions
//! it returns and reports back with events.
use vstd::prelude::*;
use vstd::string::*;
use crate::laws::{lemma_init_accounted, lemma_init_wf, lemma_step_accounted, lemma_step_wf};
use crate::model::{Action, Event, Model, PairIx, Stage};
use crate::tracker::is_phase_complete;
use crate::phase::{
    count, summarize, Failure, PairReport, Phase, PhaseOutcome, Standing, Summary,
};
use crate::pool::MachinePool;
use crate::text::{precedes, views};

verus! {

/// One experiment: traffic from the node named `from` to the node named `to`.
#[derive(Debug, PartialEq, Eq)]
pub struct ExperimentPair {
    pub from: String,
    pub to: String,
}

/// The scheduler's state. Its view is the model state that the guarantees are proved of.
pub struct Scheduler {
    names: Vec<String>,
    pairs: Vec<PairIx>,
    next: usize,
    pool: MachinePool,
    stages: Vec<Stage>,
    reports: Vec<PairReport>,
}

/// What a list of experiments says, as plain text.
pub open spec fn pair_views(pairs: Seq<ExperimentPair>) -> Seq<(Seq<char>, Seq<char>)> {
    Seq::new(pairs.len(), |k: int| (pairs[k].from@, pairs[k].to@))
}

/// `names` with `name` at its end unless it is in it already.
pub open spec fn with_name(names: Seq<Seq<char>>, name: Seq<char>) -> Seq<Seq<char>> {
    if names.contains(name) {
        names
    } else {
        names.push(name)
    }
}

/// The node table of a list of pairs: every name that occurs in it, once, in the order of
/// first occurrence, a pair's sender before its receiver.
pub open spec fn node_table(pairs: Seq<(Seq<char>, Seq<char>)>) -> Seq<Seq<char>>
    decreases pairs.len(),
{
    if pairs.len() == 0 {
        Seq::empty()
    } else {
        with_name(with_name(node_table(pairs.drop_last()), pairs.last().0), pairs.last().1)
    }
}

/// No name occurs twice.
pub open spec fn distinct(names: Seq<Seq<char>>) -> bool {
    forall|i: int, j: int| 0 <= i < j < names.len() ==> names[i] != names[j]
}

/// `node` is one of the two nodes of `pair`.
spec fn joins(pair: PairIx, node: int) -> bool {
    pair.from == node || pair.to == node
}

/// `node` is a node of one of `pairs`.
spec fn covered(pairs: Seq<PairIx>, node: int) -> bool {
    exists|p: int| 0 <= p < pairs.len() && joins(#[trigger] pairs[p], node)
}

impl View for Scheduler {
    type V = Model;

    closed spec fn view(&self) -> Model {
        Model {
            names: views(self.names@),
            pairs: self.pairs@,
            next: self.next as nat,
            owner: self.pool@,
            stages: self.stages@,
            reports: self.reports@,
        }
    }
}

/// The position of `name` in `names`, if it is there.
fn position(names: &Vec<String>, name: &String) -> (r: Option<usize>)
    ensures
        match r {
            Some(i) => i < names.len() && names@[i as int]@ == name@,
            None => forall|i: int| 0 <= i < names.len() ==> names@[i]@ != name@,
        },
{
    let mut i: usize = 0;
    while i < names.len()
        invariant
            i <= names.len(),
            forall|j: int| 0 <= j < i ==> names@[j]@ != name@,
        decreases names.len() - i,
    {
        if names[i] == *name {
            return Some(i);
        }
        i += 1;
    }
    None
}

/// The number of `name` in the node table, which gets a new entry at its end if the name is
/// not in it yet.
fn intern(names: &mut Vec<String>, name: &String) -> (ix: usize)
    requires
        distinct(views(old(names)@)),
    ensures
        distinct(views(final(names)@)),
        views(final(names)@) == with_name(views(old(names)@), name@),
        ix < final(names).len(),
        final(names)@[ix as int]@ == name@,
        old(names).len() <= final(names).len() <= old(names).len() + 1,
        forall|i: int| 0 <= i < old(names).len() ==> final(names)@[i] == old(names)@[i],
        ix < old(names).len() ==> final(names).len() == old(names).len(),
{
    match position(names, name) {
        Some(i) => {
            assert(views(names@)[i as int] == name@);
            i
        },
        None => {
            assert(!views(names@).contains(name@)) by {
                if views(names@).contains(name@) {
                    let j = choose|j: int| 0 <= j < names.len() && views(names@)[j] == name@;
                    assert(names@[j]@ == name@);
                }
            }
            let ix = names.len();
            names.push(name.clone());
            assert forall|i: int, j: int| 0 <= i < j < names.len() implies views(names@)[i]
                != views(names@)[j] by {
                if j < ix {
                    assert(views(old(names)@)[i] != views(old(names)@)[j]);
                }
            }
            assert(views(names@) =~= views(old(names)@).push(name@));
            ix
        },
    }
}

impl Scheduler {
    /// A scheduler for `pairs` with `workers` workers. The node table holds each name that
    /// occurs in `pairs` once; no pair is handed out, every lock is free, every worker idle.
    #[verifier::rlimit(40)]
    pub fn new(pairs: &Vec<ExperimentPair>, workers: usize) -> (s: Scheduler)
        ensures
            s@.wf(),
            s@.accounted(),
            s@ == Model::init(s@.names, s@.pairs, workers as nat),
            s@.names == node_table(pair_views(pairs@)),
            s@.pairs.len() == pairs.len(),
            forall|p: int|
                0 <= p < pairs.len() ==> s@.names[(#[trigger] s@.pairs[p]).from as int]
                    == pairs@[p].from@ && s@.names[s@.pairs[p].to as int] == pairs@[p].to@,
            forall|n: int| 0 <= n < s@.names.len() ==> #[trigger] s@.in_use(n),
    {
        let mut names: Vec<String> = Vec::new();
        let mut ixs: Vec<PairIx> = Vec::new();
        let mut i: usize = 0;
        assert(pair_views(pairs@).take(0) =~= Seq::empty());
        assert(views(names@) =~= node_table(pair_views(pairs@).take(0)));
        while i < pairs.len()
            invariant
                i <= pairs.len(),
                ixs.len() == i,
                distinct(views(names@)),
                views(names@) == node_table(pair_views(pairs@).take(i as int)),
                forall|p: int|
                    0 <= p < i ==> (#[trigger] ixs@[p]).from < names.len() && ixs@[p].to
                        < names.len() && names@[ixs@[p].from as int]@ == pairs@[p].from@
                        && names@[ixs@[p].to as int]@ == pairs@[p].to@,
                forall|n: int| 0 <= n < names.len() ==> #[trigger] covered(ixs@, n),
            decreases pairs.len() - i,
        {
            let ghost before = names@;
            let ghost done = ixs@;
            let from = intern(&mut names, &pairs[i].from);
            let to = intern(&mut names, &pairs[i].to);
            ixs.push(PairIx { from, to });
            proof {
                let upto = pair_views(pairs@).take(i + 1);
                assert(upto.drop_last() =~= pair_views(pairs@).take(i as int));
                assert(upto.last() == (pairs@[i as int].from@, pairs@[i as int].to@));
            }
            assert forall|n: int| 0 <= n < names.len() implies #[trigger] covered(ixs@, n) by {
                if n < before.len() {
                    assert(covered(done, n));
                    let p = choose|p: int| 0 <= p < done.len() && joins(#[trigger] done[p], n);
                    assert(ixs@[p] == done[p]);
                    assert(joins(ixs@[p], n));
                } else {
                    assert(joins(ixs@[i as int], n));
                }
            }
            assert forall|p: int| 0 <= p < i + 1 implies (#[trigger] ixs@[p]).from < names.len()
                && ixs@[p].to < names.len() && names@[ixs@[p].from as int]@ == pairs@[p].from@
                && names@[ixs@[p].to as int]@ == pairs@[p].to@ by {
                if p < i {
                    assert(ixs@[p] == done[p]);
                }
            }
            i += 1;
        }
        assert(pair_views(pairs@).take(pairs.len() as int) =~= pair_views(pairs@));
        let pool = MachinePool::new(names.len());
        let mut stages: Vec<Stage> = Vec::new();
        let mut w: usize = 0;
        while w < workers
            invariant
                w <= workers,
                stages@ == Seq::new(w as nat, |w: int| Stage::Idle),
            decreases workers - w,
        {
            stages.push(Stage::Idle);
            assert(stages@ =~= Seq::new((w + 1) as nat, |w: int| Stage::Idle));
            w += 1;
        }
        let mut reports: Vec<PairReport> = Vec::new();
        let mut p: usize = 0;
        while p < ixs.len()
            invariant
                p <= ixs.len(),
                reports@ == Seq::new(p as nat, |p: int| PairReport::blank()),
            decreases ixs.len() - p,
        {
            reports.push(PairReport::new());
            assert(reports@ =~= Seq::new((p + 1) as nat, |p: int| PairReport::blank()));
            p += 1;
        }
        let s = Scheduler { names, pairs: ixs, next: 0, pool, stages, reports };
        proof {
            assert(s@ =~= Model::init(s@.names, s@.pairs, workers as nat));
            lemma_init_wf(s@.names, s@.pairs, workers as nat);
            lemma_init_accounted(s@.names, s@.pairs, workers as nat);
            assert forall|n: int| 0 <= n < s@.names.len() implies #[trigger] s@.in_use(n) by {
                assert(covered(s.pairs@, n));
                let p = choose|p: int| 0 <= p < s.pairs@.len() && joins(#[trigger] s.pairs@[p], n);
                assert(s@.touches(p, n));
            }
        }
        s
    }

    /// The number of workers.
    pub fn workers(&self) -> (n: usize)
        ensures
            n == self@.stages.len(),
    {
        self.stages.len()
    }

    /// The number of pairs.
    pub fn pair_count(&self) -> (n: usize)
        ensures
            n == self@.pairs.len(),
    {
        self.pairs.len()
    }

    /// The number of nodes.
    pub fn node_count(&self) -> (n: usize)
        ensures
            n == self@.names.len(),
    {
        self.names.len()
    }

    /// The name of node `node`.
    pub fn node_name(&self, node: usize) -> (name: &String)
        requires
            node < self@.names.len(),
        ensures
            name@ == self@.names[node as int],
    {
        &self.names[node]
    }

    /// The two nodes of pair `pair`.
    pub fn pair(&self, pair: usize) -> (p: PairIx)
        requires
            pair < self@.pairs.len(),
        ensures
            p == self@.pairs[pair as int],
    {
        self.pairs[pair]
    }

    /// Where worker `w` stands.
    pub fn stage(&self, w: usize) -> (stage: Stage)
        requires
            w < self@.stages.len(),
        ensures
            stage == self@.stages[w as int],
    {
        self.stages[w]
    }

    /// What is settled of pair `pair`.
    pub fn report(&self, pair: usize) -> (r: PairReport)
        requires
            self@.wf(),
            pair < self@.pairs.len(),
        ensures
            r == self@.reports[pair as int],
    {
        self.reports[pair]
    }

    /// The summary of the run so far: how many pairs completed, were skipped, failed, or are
    /// not settled yet.
    pub fn summary(&self) -> (r: Summary)
        ensures
            r.completed == count(self@.reports, Standing::Completed),
            r.skipped == count(self@.reports, Standing::Skipped),
            r.failed == count(self@.reports, Standing::Failed),
            r.unsettled == count(self@.reports, Standing::Unsettled),
            r.completed + r.skipped + r.failed + r.unsettled == self@.reports.len(),
    {
        summarize(&self.reports)
    }

    /// The worker that holds the lock of `node`, if one does.
    pub fn holder(&self, node: usize) -> (r: Option<usize>)
        requires
            self@.wf(),
            node < self@.names.len(),
        ensures
            r == self@.owner[node as int],
    {
        self.pool.holder(node)
    }

    /// How many pairs were handed out to workers.
    pub fn handed_out(&self) -> (n: usize)
        ensures
            n == self@.next,
    {
        self.next
    }

    /// Whether every worker is retired.
    pub fn finished(&self) -> (r: bool)
        ensures
            r == self@.finished(),
    {
        let mut w: usize = 0;
        while w < self.stages.len()
            invariant
                w <= self.stages.len(),
                forall|v: int| 0 <= v < w ==> self.stages@[v] is Retired,
            decreases self.stages.len() - w,
        {
            match self.stages[w] {
                Stage::Retired => {},
                _ => {
                    return false;
                },
            }
            w += 1;
        }
        true
    }

    /// The nodes of pair `pair` in the order in which their locks are taken: the one whose
    /// name comes first, then the other.
    pub fn lock_order(&self, pair: usize) -> (r: (usize, usize))
        requires
            self@.wf(),
            pair < self@.pairs.len(),
        ensures
            r.0 == self@.first(pair as int),
            r.1 == self@.second(pair as int),
    {
        let p = self.pairs[pair];
        assert(self@.pairs[pair as int].from < self@.names.len());
        if precedes(self.names[p.from].as_str(), self.names[p.to].as_str()) {
            (p.from, p.to)
        } else {
            (p.to, p.from)
        }
    }

    /// Frees the two locks of `pair`, which worker `w` holds.
    fn let_go(&mut self, w: usize, pair: usize)
        requires
            old(self)@.wf(),
            w < old(self)@.stages.len(),
            old(self)@.stages[w as int].executing(),
            old(self)@.stages[w as int].pair() == Some(pair),
        ensures
            final(self)@ == old(self)@.letting_go(pair as int),
    {
        proof {
            assert(self@.stage_ok(self@.stages[w as int]));
            assert(self@.holds(self@.stages[w as int], self@.pairs[pair as int].from as int));
            assert(self@.holds(self@.stages[w as int], self@.pairs[pair as int].to as int));
        }
        let p = self.pairs[pair];
        self.pool.release(p.from, w);
        self.pool.release(p.to, w);
        assert(self@ =~= old(self)@.letting_go(pair as int));
    }

    /// Worker `w` leaves `phase` of `pair` without having run it.
    fn pass(&mut self, w: usize, pair: usize, phase: Phase) -> (act: Action)
        requires
            old(self)@.wf(),
            w < old(self)@.stages.len(),
            old(self)@.stages[w as int].executing(),
            old(self)@.stages[w as int].pair() == Some(pair),
        ensures
            final(self)@ == old(self)@.pass(w as int, pair, phase).0,
            act == old(self)@.pass(w as int, pair, phase).1,
    {
        match phase.next() {
            Some(q) => {
                self.stages.set(w, Stage::Inspect { pair, phase: q });
                assert(self@ =~= old(self)@.pass(w as int, pair, phase).0);
                Action::Probe { pair, phase: q }
            },
            None => {
                self.let_go(w, pair);
                self.stages.set(w, Stage::Idle);
                assert(self@ =~= old(self)@.pass(w as int, pair, phase).0);
                Action::Released { pair }
            },
        }
    }

    /// Records `outcome` for `phase` of `pair`.
    fn note(&mut self, pair: usize, phase: Phase, outcome: PhaseOutcome)
        requires
            old(self)@.wf(),
            pair < old(self)@.pairs.len(),
        ensures
            final(self)@ == old(self)@.noting(pair as int, phase, outcome),
            final(self)@.wf(),
    {
        let mut report = self.reports[pair];
        report.record(phase, outcome);
        self.reports.set(pair, report);
        proof {
            let s = old(self)@;
            let t = self@;
            assert(t =~= s.noting(pair as int, phase, outcome));
            assert forall|w: int, n: int|
                0 <= w < t.stages.len() && 0 <= n < t.names.len() && #[trigger] t.holds(
                    t.stages[w],
                    n,
                ) implies t.owner[n] == Some(w as usize) by {
                assert(s.holds(s.stages[w], n));
            }
            assert forall|w: int| 0 <= w < t.stages.len() implies t.stage_ok(
                #[trigger] t.stages[w],
            ) by {
                assert(s.stage_ok(s.stages[w]));
            }
        }
    }

    /// Worker `w` asks for the lock of `node`; if it is free the worker gets it and moves to
    /// `then`.
    fn lock(&mut self, w: usize, node: usize, then: Stage, granted: Action) -> (act: Action)
        requires
            old(self)@.wf(),
            w < old(self)@.stages.len(),
            node < old(self)@.names.len(),
        ensures
            final(self)@ == old(self)@.lock(w as int, node, then, granted).0,
            act == old(self)@.lock(w as int, node, then, granted).1,
    {
        if self.pool.try_acquire(node, w) {
            self.stages.set(w, then);
            assert(self@ =~= old(self)@.lock(w as int, node, then, granted).0);
            granted
        } else {
            assert(self@ =~= old(self)@);
            Action::Blocked { node }
        }
    }

    /// One step of worker `w` on the event `ev`. Returns what the driver has to do for this
    /// worker before the worker's next step. The new state and the action are those of the
    /// model's `step`, and both invariants are kept.
    #[verifier::rlimit(40)]
    pub fn step(&mut self, w: usize, ev: Event) -> (act: Action)
        requires
            old(self)@.wf(),
            w < old(self)@.stages.len(),
        ensures
            final(self)@.wf(),
            old(self)@.accounted() ==> final(self)@.accounted(),
            final(self)@ == old(self)@.step(w as int, ev).0,
            act == old(self)@.step(w as int, ev).1,
    {
        proof {
            lemma_step_wf(self@, w as int, ev);
            if self@.accounted() {
                lemma_step_accounted(self@, w as int, ev);
            }
            assert(self@.stage_ok(self@.stages[w as int]));
        }
        match self.stages[w] {
            Stage::Idle => {
                if self.next >= self.pairs.len() {
                    self.stages.set(w, Stage::Retired);
                    assert(self@ =~= old(self)@.step(w as int, ev).0);
                    Action::Retire
                } else {
                    let pair = self.next;
                    let p = self.pairs[pair];
                    self.next = pair + 1;
                    if p.from == p.to {
                        self.reports.set(pair, PairReport::for_self_pair());
                        assert(self@ =~= old(self)@.step(w as int, ev).0);
                        Action::SkipPair { pair }
                    } else {
                        self.stages.set(w, Stage::LockFirst { pair });
                        assert(self@ =~= old(self)@.step(w as int, ev).0);
                        Action::Proceed
                    }
                }
            },
            Stage::LockFirst { pair } => {
                let (first, _) = self.lock_order(pair);
                self.lock(w, first, Stage::LockSecond { pair }, Action::Proceed)
            },
            Stage::LockSecond { pair } => {
                let (_, second) = self.lock_order(pair);
                self.lock(
                    w,
                    second,
                    Stage::Reset { pair, then: Some(Phase::Control) },
                    Action::Reset { pair },
                )
            },
            Stage::Reset { pair, then } => match then {
                Some(phase) => {
                    self.stages.set(w, Stage::Inspect { pair, phase });
                    assert(self@ =~= old(self)@.step(w as int, ev).0);
                    Action::Probe { pair, phase }
                },
                None => {
                    self.let_go(w, pair);
                    self.stages.set(w, Stage::Idle);
                    assert(self@ =~= old(self)@.step(w as int, ev).0);
                    Action::Released { pair }
                },
            },
            Stage::Inspect { pair, phase } => match ev {
                Event::Probed(probe) => {
                    if !probe.dir_ok {
                        self.note(pair, phase, PhaseOutcome::Failed(Failure::OutputDir));
                        self.pass(w, pair, phase)
                    } else if is_phase_complete(&probe) {
                        self.note(pair, phase, PhaseOutcome::Skipped);
                        self.pass(w, pair, phase)
                    } else {
                        self.stages.set(w, Stage::Run { pair, phase });
                        assert(self@ =~= old(self)@.step(w as int, ev).0);
                        Action::Launch { pair, phase }
                    }
                },
                _ => Action::Unanswered,
            },
            Stage::Run { pair, phase } => match ev {
                Event::Finished(result) => {
                    let outcome = match result {
                        Ok(_) => PhaseOutcome::Completed,
                        Err(f) => PhaseOutcome::Failed(f),
                    };
                    self.note(pair, phase, outcome);
                    self.stages.set(w, Stage::Reset { pair, then: phase.next() });
                    assert(self@ =~= old(self)@.step(w as int, ev).0);
                    Action::Reset { pair }
                },
                _ => Action::Unanswered,
            },
            Stage::Retired => Action::Retire,
        }
    }
}

} // verus!
