//! What holds of every run of the scheduler, proved of the model.
use vstd::prelude::*;
use crate::model::{total_weight, weight, Action, Event, Model, PairIx, Stage};
use crate::tracker::Probe;
use crate::phase::{Failure, PairReport, Phase, PhaseOutcome};
use crate::text::{
    lemma_lex_asymmetric, lemma_lex_irreflexive, lemma_lex_total, lemma_lex_transitive, lex_lt,
};

verus! {

/// The two locks of a pair of different nodes are its two nodes, in one order or the other.
pub proof fn lemma_lock_order(s: Model, pair: int)
    ensures
        s.touches(pair, s.first(pair) as int),
        s.touches(pair, s.second(pair) as int),
        forall|n: int| s.touches(pair, n) ==> n == s.first(pair) || n == s.second(pair),
        !s.self_pair(pair) ==> s.first(pair) != s.second(pair),
{
}

/// A node table and a pair list that a scheduler can be made of.
pub open spec fn configured(names: Seq<Seq<char>>, pairs: Seq<PairIx>, workers: nat) -> bool {
    &&& forall|i: int, j: int| 0 <= i < j < names.len() ==> names[i] != names[j]
    &&& forall|p: int|
        0 <= p < pairs.len() ==> (#[trigger] pairs[p]).from < names.len() && pairs[p].to
            < names.len()
    &&& names.len() <= usize::MAX
    &&& pairs.len() <= usize::MAX
    &&& workers <= usize::MAX
}

/// The initial state satisfies the invariant.
pub proof fn lemma_init_wf(names: Seq<Seq<char>>, pairs: Seq<PairIx>, workers: nat)
    requires
        configured(names, pairs, workers),
    ensures
        Model::init(names, pairs, workers).wf(),
{
}

/// A step of any worker on any event keeps the invariant.
#[verifier::rlimit(40)]
#[verifier::spinoff_prover]
pub proof fn lemma_step_wf(s: Model, w: int, ev: Event)
    requires
        s.wf(),
        0 <= w < s.stages.len(),
    ensures
        s.step(w, ev).0.wf(),
{
    let t = s.step(w, ev).0;
    if let Some(p) = s.stages[w].pair() {
        lemma_lock_order(s, p as int);
        assert(s.stage_ok(s.stages[w]));
        if s.stages[w].executing() {
            assert(s.holds(s.stages[w], s.pairs[p as int].from as int));
            assert(s.holds(s.stages[w], s.pairs[p as int].to as int));
        }
        if s.stages[w] is LockSecond {
            assert(s.holds(s.stages[w], s.first(p as int) as int));
        }
    }
    assert forall|v: int, n: int|
        0 <= v < t.stages.len() && 0 <= n < t.names.len() && #[trigger] t.holds(
            t.stages[v],
            n,
        ) implies t.owner[n] == Some(v as usize) by {
        if v != w {
            assert(t.stages[v] == s.stages[v]);
            assert(s.holds(s.stages[v], n));
        }
    }
    assert forall|n: int| 0 <= n < t.owner.len() implies (#[trigger] t.owner[n] matches Some(v)
        ==> v < t.stages.len() && t.holds(t.stages[v as int], n)) by {
        if let Some(v) = t.owner[n] {
            if v != w {
                assert(s.owner[n] == Some(v));
                assert(t.stages[v as int] == s.stages[v as int]);
            }
        }
    }
    assert forall|v: int| 0 <= v < t.stages.len() implies t.stage_ok(#[trigger] t.stages[v]) by {
        assert(s.stage_ok(s.stages[v]));
    }
    assert forall|u: int, v: int|
        0 <= u < v < t.stages.len() && (#[trigger] t.stages[u]).pair()
            is Some implies t.stages[u].pair() != (#[trigger] t.stages[v]).pair() by {
        assert(s.stage_ok(s.stages[u]));
        assert(s.stage_ok(s.stages[v]));
    }
}

/// Every run keeps the invariant: whatever the order in which workers step and whatever
/// they are told, the state reached satisfies it.
pub proof fn lemma_after_wf(s: Model, schedule: Seq<(int, Event)>)
    requires
        s.wf(),
        s.admits(schedule),
    ensures
        s.after(schedule).wf(),
        s.after(schedule).stages.len() == s.stages.len(),
        s.after(schedule).names == s.names,
        s.after(schedule).pairs == s.pairs,
    decreases schedule.len(),
{
    if schedule.len() > 0 {
        let head = schedule.drop_last();
        assert forall|i: int| 0 <= i < head.len() implies 0 <= (#[trigger] head[i]).0
            < s.stages.len() by {
            assert(head[i] == schedule[i]);
        }
        lemma_after_wf(s, head);
        assert(0 <= schedule[schedule.len() - 1].0 < s.stages.len());
        lemma_step_wf(s.after(head), schedule.last().0, schedule.last().1);
    }
}

/// Mutual exclusion. In a state that satisfies the invariant, two workers that are both
/// inside their execution window on one node are the same worker: pairs that share a node
/// never run on it at the same time.
pub proof fn law_mutual_exclusion(s: Model, v: int, w: int, node: int)
    requires
        s.wf(),
        0 <= node < s.names.len(),
        s.executing_on(v, node),
        s.executing_on(w, node),
    ensures
        v == w,
{
    assert(s.holds(s.stages[v], node));
    assert(s.holds(s.stages[w], node));
}

/// Mutual exclusion in every run. Start from any pair list over any node table with any
/// number of workers, and let the workers step in any order on any events: in the state
/// reached, no node is inside the execution window of two workers.
pub proof fn law_mutual_exclusion_in_every_run(
    names: Seq<Seq<char>>,
    pairs: Seq<PairIx>,
    workers: nat,
    schedule: Seq<(int, Event)>,
    v: int,
    w: int,
    node: int,
)
    requires
        configured(names, pairs, workers),
        Model::init(names, pairs, workers).admits(schedule),
        0 <= node < names.len(),
        Model::init(names, pairs, workers).after(schedule).executing_on(v, node),
        Model::init(names, pairs, workers).after(schedule).executing_on(w, node),
    ensures
        v == w,
{
    let s = Model::init(names, pairs, workers);
    lemma_init_wf(names, pairs, workers);
    lemma_after_wf(s, schedule);
    law_mutual_exclusion(s.after(schedule), v, w, node);
}

/// Locks are taken in the order of the node names: the name of a pair's first lock comes
/// strictly before the name of its second.
pub proof fn lemma_first_before_second(s: Model, pair: int)
    requires
        s.wf(),
        0 <= pair < s.pairs.len(),
        !s.self_pair(pair),
    ensures
        lex_lt(s.names[s.first(pair) as int], s.names[s.second(pair) as int]),
{
    let p = s.pairs[pair];
    let a = s.names[p.from as int];
    let b = s.names[p.to as int];
    assert(a != b) by {
        if p.from < p.to {
            assert(s.names[p.from as int] != s.names[p.to as int]);
        } else {
            assert(s.names[p.to as int] != s.names[p.from as int]);
        }
    }
    lemma_lex_total(a, b);
}

/// The lock order is the same for every worker: two pairs over the same two nodes take the
/// locks in the same order, whichever way each pair points.
pub proof fn law_lock_order_ignores_direction(s: Model, p: int, q: int)
    requires
        s.wf(),
        0 <= p < s.pairs.len(),
        0 <= q < s.pairs.len(),
        !s.self_pair(p),
        s.touches(q, s.pairs[p].from as int),
        s.touches(q, s.pairs[p].to as int),
    ensures
        s.first(p) == s.first(q),
        s.second(p) == s.second(q),
{
    let a = s.names[s.pairs[p].from as int];
    let b = s.names[s.pairs[p].to as int];
    lemma_first_before_second(s, p);
    if lex_lt(a, b) {
        lemma_lex_asymmetric(a, b);
    } else {
        lemma_lex_asymmetric(b, a);
    }
}

/// Among the first `k` workers, if one is blocked, one is blocked on a node whose name no
/// other blocked worker's node comes after.
proof fn lemma_highest_blocked(s: Model, k: int) -> (m: int)
    requires
        s.wf(),
        0 <= k <= s.stages.len(),
        exists|w: int| 0 <= w < k && s.blocked(w),
    ensures
        0 <= m < k,
        s.blocked(m),
        forall|w: int|
            0 <= w < k && #[trigger] s.blocked(w) ==> !lex_lt(
                s.names[s.wanted(m)->0 as int],
                s.names[s.wanted(w)->0 as int],
            ),
    decreases k,
{
    let last = k - 1;
    if exists|w: int| 0 <= w < last && s.blocked(w) {
        let m = lemma_highest_blocked(s, last);
        if s.blocked(last) && lex_lt(
            s.names[s.wanted(m)->0 as int],
            s.names[s.wanted(last)->0 as int],
        ) {
            assert forall|w: int| 0 <= w < k && #[trigger] s.blocked(w) implies !lex_lt(
                s.names[s.wanted(last)->0 as int],
                s.names[s.wanted(w)->0 as int],
            ) by {
                if w == last {
                    lemma_lex_irreflexive(s.names[s.wanted(last)->0 as int]);
                } else if lex_lt(
                    s.names[s.wanted(last)->0 as int],
                    s.names[s.wanted(w)->0 as int],
                ) {
                    lemma_lex_transitive(
                        s.names[s.wanted(m)->0 as int],
                        s.names[s.wanted(last)->0 as int],
                        s.names[s.wanted(w)->0 as int],
                    );
                }
            }
            last
        } else {
            m
        }
    } else {
        assert(s.blocked(last));
        assert forall|w: int| 0 <= w < k && #[trigger] s.blocked(w) implies !lex_lt(
            s.names[s.wanted(last)->0 as int],
            s.names[s.wanted(w)->0 as int],
        ) by {
            assert(w == last);
            lemma_lex_irreflexive(s.names[s.wanted(last)->0 as int]);
        }
        last
    }
}

/// Freedom from deadlock. As long as some worker is not retired, some worker that is not
/// retired can step without waiting for a lock: the rule that every worker takes the lock
/// of the lower name first leaves no cycle of workers that wait for one another.
#[verifier::rlimit(40)]
#[verifier::spinoff_prover]
pub proof fn law_no_deadlock(s: Model)
    requires
        s.wf(),
        !s.finished(),
    ensures
        exists|w: int| 0 <= w < s.stages.len() && !(s.stages[w] is Retired) && !s.blocked(w),
{
    let w0 = choose|w: int| 0 <= w < s.stages.len() && !(s.stages[w] is Retired);
    if s.blocked(w0) {
        let m = lemma_highest_blocked(s, s.stages.len() as int);
        let n = s.wanted(m)->0;
        assert(s.stage_ok(s.stages[m]));
        let pm = s.stages[m].pair()->0;
        lemma_lock_order(s, pm as int);
        assert(0 <= n < s.owner.len());
        let h = s.owner[n as int]->0;
        assert(s.holds(s.stages[h as int], n as int));
        if s.blocked(h as int) {
            // The holder waits too: it holds its first lock and wants its second, whose name
            // comes later.
            assert(s.stage_ok(s.stages[h as int]));
            let ph = s.stages[h as int].pair()->0;
            lemma_first_before_second(s, ph as int);
            assert(false);
        } else {
            assert(!(s.stages[h as int] is Retired));
        }
    }
}

/// Replacing the stage of one worker changes the total weight by the difference of the
/// two stages' weights.
proof fn lemma_total_weight_update(stages: Seq<Stage>, w: int, stage: Stage)
    requires
        0 <= w < stages.len(),
    ensures
        total_weight(stages.update(w, stage)) + weight(stages[w]) == total_weight(stages) + weight(
            stage,
        ),
    decreases stages.len(),
{
    let last = stages.len() - 1;
    if w == last {
        assert(stages.update(w, stage).drop_last() =~= stages.drop_last());
    } else {
        lemma_total_weight_update(stages.drop_last(), w, stage);
        assert(stages.update(w, stage).drop_last() =~= stages.drop_last().update(w, stage));
    }
}

/// Progress. A productive step leaves strictly less work than there was.
#[verifier::rlimit(40)]
#[verifier::spinoff_prover]
pub proof fn law_productive_step_decreases_remaining(s: Model, w: int, ev: Event)
    requires
        s.wf(),
        s.productive(w, ev),
    ensures
        s.step(w, ev).0.remaining() < s.remaining(),
{
    let t = s.step(w, ev).0;
    assert(s.stage_ok(s.stages[w]));
    lemma_total_weight_update(s.stages, w, t.stages[w]);
    assert(t.stages =~= s.stages.update(w, t.stages[w]));
}

/// Every run ends. A run of productive steps is never longer than the work that was left at
/// its start, which is at most fourteen steps for each pair not yet handed out and fourteen
/// for each worker. Together with freedom from deadlock: the workers can always go on until
/// all are retired, and they get there.
pub proof fn law_productive_runs_are_bounded(s: Model, schedule: Seq<(int, Event)>)
    requires
        s.wf(),
        s.all_productive(schedule),
    ensures
        schedule.len() + s.after(schedule).remaining() <= s.remaining(),
        s.after(schedule).wf(),
    decreases schedule.len(),
{
    if schedule.len() > 0 {
        let head = schedule.drop_last();
        law_productive_runs_are_bounded(s, head);
        law_productive_step_decreases_remaining(
            s.after(head),
            schedule.last().0,
            schedule.last().1,
        );
        lemma_step_wf(s.after(head), schedule.last().0, schedule.last().1);
    }
}

/// Idempotency. A worker that inspects a phase whose two markers are there does not
/// launch the phase: the phase is recorded as skipped and the worker passes on.
pub proof fn law_complete_phase_is_not_launched(s: Model, w: int, probe: Probe)
    requires
        0 <= w < s.stages.len(),
        s.stages[w] is Inspect,
        probe.dir_ok && probe.complete(),
    ensures
        !(s.step(w, Event::Probed(probe)).1 is Launch),
        !(s.step(w, Event::Probed(probe)).0.stages[w] is Run),
        s.stages[w] matches Stage::Inspect { pair, phase } && s.step(
            w,
            Event::Probed(probe),
        ).0.reports == s.reports.update(
            pair as int,
            s.reports[pair as int].with(phase, PhaseOutcome::Skipped),
        ),
{
}

/// A phase is launched only from its inspection, and only when the worker was told that the
/// directory is there and a marker is missing.
pub proof fn law_launch_needs_a_missing_marker(s: Model, w: int, ev: Event)
    requires
        0 <= w < s.stages.len(),
        s.step(w, ev).1 is Launch,
    ensures
        s.step(w, ev).1 matches Action::Launch { pair, phase } && s.stages[w] == (Stage::Inspect {
            pair,
            phase,
        }),
        ev matches Event::Probed(probe) && probe.dir_ok && !probe.complete(),
{
}

/// A pair that joins a node to itself is skipped when it is taken: no lock changes hands, no
/// worker changes its stage, and the pair's report says that every phase was skipped.
pub proof fn law_self_pair_is_skipped(s: Model, w: int, ev: Event)
    requires
        0 <= w < s.stages.len(),
        s.stages[w] is Idle,
        s.next < s.pairs.len(),
        s.self_pair(s.next as int),
    ensures
        s.step(w, ev).1 == (Action::SkipPair { pair: s.next as usize }),
        s.step(w, ev).0.owner == s.owner,
        s.step(w, ev).0.stages == s.stages,
        s.step(w, ev).0.next == s.next + 1,
        s.step(w, ev).0.reports == s.reports.update(s.next as int, PairReport::skipped_self()),
{
}

/// The pair that an action is about, if it is about one.
pub open spec fn subject(action: Action) -> Option<usize> {
    match action {
        Action::Reset { pair } => Some(pair),
        Action::Probe { pair, .. } => Some(pair),
        Action::Launch { pair, .. } => Some(pair),
        Action::Released { pair } => Some(pair),
        _ => None,
    }
}

/// Nothing is ever asked of the driver for a pair that joins a node to itself: no cleanup, no
/// directory, no launch. Nor does a worker ever wait for a lock on its behalf.
pub proof fn law_nothing_is_done_for_a_self_pair(s: Model, w: int, ev: Event)
    requires
        s.wf(),
        0 <= w < s.stages.len(),
    ensures
        subject(s.step(w, ev).1) matches Some(pair) ==> pair < s.pairs.len() && !s.self_pair(
            pair as int,
        ),
        s.step(w, ev).0.stages[w].pair() matches Some(pair) ==> !s.self_pair(pair as int),
        s.step(w, ev).1 is Blocked ==> (s.stages[w].pair() matches Some(pair) && !s.self_pair(
            pair as int,
        )),
{
    assert(s.stage_ok(s.stages[w]));
}

/// A failure stays where it happened. When a running phase ends in failure, that failure is
/// recorded for that phase of that pair and for nothing else; no lock changes hands; no other
/// worker is touched; and the worker goes on to clean up and then to the inspection of the next
/// phase, or, after the last phase, to letting go of its locks.
pub proof fn law_failure_is_local(s: Model, w: int, failure: Failure)
    requires
        0 <= w < s.stages.len(),
        s.stages[w] is Run,
    ensures
        ({
            let pair = s.stages[w]->Run_pair;
            let phase = s.stages[w]->Run_phase;
            let t = s.step(w, Event::Finished(Err(failure))).0;
            let u = t.step(w, Event::Tick);
            &&& t.reports == s.reports.update(
                pair as int,
                s.reports[pair as int].with(phase, PhaseOutcome::Failed(failure)),
            )
            &&& t.owner == s.owner
            &&& t.next == s.next
            &&& t.stages == s.stages.update(
                w as int,
                Stage::Reset { pair, then: phase.successor() },
            )
            &&& phase.successor() matches Some(q) ==> u.1 == (Action::Probe { pair, phase: q })
                && u.0.stages[w] == (Stage::Inspect { pair, phase: q })
            &&& phase.successor() is None ==> u.1 == (Action::Released { pair })
        }),
{
}

/// The initial state satisfies the bookkeeping invariant.
pub proof fn lemma_init_accounted(names: Seq<Seq<char>>, pairs: Seq<PairIx>, workers: nat)
    ensures
        Model::init(names, pairs, workers).accounted(),
{
}

/// Two different workers never have the same pair in hand.
proof fn lemma_pairs_apart(s: Model, v: int, w: int)
    requires
        s.wf(),
        0 <= v < s.stages.len(),
        0 <= w < s.stages.len(),
        v != w,
        s.stages[v].pair() is Some,
    ensures
        s.stages[v].pair() != s.stages[w].pair(),
{
    if v < w {
        assert(s.stages[v].pair() != s.stages[w].pair());
    } else if s.stages[w].pair() is Some {
        assert(s.stages[w].pair() != s.stages[v].pair());
    }
}

/// A step changes the report of no pair but the one that the stepping worker has in hand
/// or takes.
#[verifier::rlimit(40)]
#[verifier::spinoff_prover]
proof fn lemma_step_touches_one_report(s: Model, w: int, ev: Event, p: int)
    requires
        s.wf(),
        0 <= w < s.stages.len(),
        0 <= p < s.pairs.len(),
        s.stages[w].pair() != Some(p as usize),
        !(s.stages[w] is Idle && p == s.next),
    ensures
        s.step(w, ev).0.reports[p] == s.reports[p],
{
    assert(s.stage_ok(s.stages[w]));
}

/// After a step, the report of the stepping worker's pair is as far as its new stage says.
#[verifier::rlimit(40)]
#[verifier::spinoff_prover]
proof fn lemma_step_keeps_own_record(s: Model, w: int, ev: Event)
    requires
        s.wf(),
        s.accounted(),
        0 <= w < s.stages.len(),
    ensures
        s.step(w, ev).0.on_record(s.step(w, ev).0.stages[w]),
        s.stages[w].pair() is Some && s.step(w, ev).0.stages[w].pair() != s.stages[w].pair()
            ==> s.step(w, ev).0.reports[s.stages[w].pair()->0 as int].settled(),
{
    assert(s.stage_ok(s.stages[w]));
    assert(s.on_record(s.stages[w]));
    if s.stages[w] is Idle && s.next < s.pairs.len() {
        assert(s.reports[s.next as int] == PairReport::blank());
    }
}

/// A step of any worker on any event keeps the bookkeeping invariant.
#[verifier::rlimit(40)]
#[verifier::spinoff_prover]
pub proof fn lemma_step_accounted(s: Model, w: int, ev: Event)
    requires
        s.wf(),
        s.accounted(),
        0 <= w < s.stages.len(),
    ensures
        s.step(w, ev).0.accounted(),
{
    let t = s.step(w, ev).0;
    lemma_step_wf(s, w, ev);
    lemma_step_keeps_own_record(s, w, ev);
    assert(s.stage_ok(s.stages[w]));
    assert(t.stages.len() == s.stages.len());
    assert(t.next == s.next || (s.stages[w] is Idle && t.next == s.next + 1));
    assert forall|v: int| 0 <= v < t.stages.len() implies t.on_record(#[trigger] t.stages[v]) by {
        if v != w {
            assert(t.stages[v] == s.stages[v]);
            assert(s.on_record(s.stages[v]));
            assert(s.stage_ok(s.stages[v]));
            if let Some(p) = s.stages[v].pair() {
                lemma_pairs_apart(s, v, w);
                lemma_step_touches_one_report(s, w, ev, p as int);
            }
        }
    }
    assert forall|p: int| 0 <= p < t.next implies t.in_hand(p) || (
    #[trigger] t.reports[p]).settled() by {
        if t.stages[w].pair() == Some(p as usize) {
            assert(t.in_hand(p));
        } else if s.stages[w].pair() == Some(p as usize) {
            assert(t.reports[p].settled());
        } else if p < s.next {
            lemma_step_touches_one_report(s, w, ev, p);
            if s.in_hand(p) {
                let v = choose|v: int|
                    0 <= v < s.stages.len() && (#[trigger] s.stages[v]).pair() == Some(
                        p as usize,
                    );
                assert(t.stages[v] == s.stages[v]);
                assert(t.in_hand(p));
            }
        }
    }
    assert forall|p: int| t.next <= p < t.pairs.len() implies #[trigger] t.reports[p]
        == PairReport::blank() by {
        assert(s.reports[p] == PairReport::blank());
        lemma_step_touches_one_report(s, w, ev, p);
    }
    assert forall|v: int| 0 <= v < t.stages.len() && #[trigger] t.stages[v] is Retired implies t.next
        >= t.pairs.len() by {
        if v != w {
            assert(t.stages[v] == s.stages[v]);
            assert(s.stages[v] is Retired);
        }
    }
}

/// What is settled stays settled. A step never changes the recorded outcome of a phase, of
/// any pair, that had one before the step.
#[verifier::rlimit(40)]
#[verifier::spinoff_prover]
pub proof fn law_outcomes_are_never_retracted(s: Model, w: int, ev: Event, pair: int, phase: Phase)
    requires
        s.wf(),
        s.accounted(),
        0 <= w < s.stages.len(),
        0 <= pair < s.pairs.len(),
        s.reports[pair].slot(phase) is Some,
    ensures
        s.step(w, ev).0.reports[pair].slot(phase) == s.reports[pair].slot(phase),
{
    assert(s.on_record(s.stages[w]));
    assert(s.stage_ok(s.stages[w]));
}

/// A phase runs at most once. A step launches no phase that has a recorded outcome.
pub proof fn law_settled_phase_is_not_launched(s: Model, w: int, ev: Event)
    requires
        s.wf(),
        s.accounted(),
        0 <= w < s.stages.len(),
    ensures
        s.step(w, ev).1 matches Action::Launch { pair, phase } ==> s.reports[pair as int].slot(
            phase,
        ) is None,
{
    assert(s.on_record(s.stages[w]));
}

/// Every run keeps both invariants.
pub proof fn lemma_after_accounted(s: Model, schedule: Seq<(int, Event)>)
    requires
        s.wf(),
        s.accounted(),
        s.admits(schedule),
    ensures
        s.after(schedule).wf(),
        s.after(schedule).accounted(),
    decreases schedule.len(),
{
    if schedule.len() > 0 {
        let head = schedule.drop_last();
        assert forall|i: int| 0 <= i < head.len() implies 0 <= (#[trigger] head[i]).0
            < s.stages.len() by {
            assert(head[i] == schedule[i]);
        }
        lemma_after_accounted(s, head);
        lemma_after_wf(s, head);
        assert(0 <= schedule[schedule.len() - 1].0 < s.stages.len());
        lemma_step_wf(s.after(head), schedule.last().0, schedule.last().1);
        lemma_step_accounted(s.after(head), schedule.last().0, schedule.last().1);
    }
}

/// Nothing is left behind. When every worker of a scheduler with at least one worker is
/// retired, every pair was handed out and every pair has an aggregate outcome.
pub proof fn law_finished_run_settles_every_pair(s: Model)
    requires
        s.wf(),
        s.accounted(),
        s.stages.len() > 0,
        s.finished(),
    ensures
        s.next == s.pairs.len(),
        forall|p: int| 0 <= p < s.pairs.len() ==> (#[trigger] s.reports[p]).aggregate() is Some,
        forall|n: int| 0 <= n < s.owner.len() ==> #[trigger] s.owner[n] is None,
{
    assert(s.stages[0] is Retired);
    assert forall|p: int| 0 <= p < s.pairs.len() implies (
    #[trigger] s.reports[p]).aggregate() is Some by {
        if s.in_hand(p) {
            let v = choose|v: int|
                0 <= v < s.stages.len() && (#[trigger] s.stages[v]).pair() == Some(p as usize);
            assert(s.stages[v] is Retired);
        }
    }
    assert forall|n: int| 0 <= n < s.owner.len() implies #[trigger] s.owner[n] is None by {
        if let Some(v) = s.owner[n] {
            assert(s.holds(s.stages[v as int], n));
            assert(s.stages[v as int] is Retired);
        }
    }
}

/// No run gets stuck, and every run that ends is complete. Start from any pair list over any
/// node table with at least one worker, and let the workers step in any order on any events.
/// In the state reached, either a worker that is not retired can step without waiting for a
/// lock, or all workers are retired; and then every pair was handed out, every pair has its
/// aggregate outcome, and every lock is free.
pub proof fn law_every_run_goes_on_or_is_complete(
    names: Seq<Seq<char>>,
    pairs: Seq<PairIx>,
    workers: nat,
    schedule: Seq<(int, Event)>,
)
    requires
        configured(names, pairs, workers),
        workers > 0,
        Model::init(names, pairs, workers).admits(schedule),
    ensures
        ({
            let s = Model::init(names, pairs, workers).after(schedule);
            if s.finished() {
                &&& s.next == pairs.len()
                &&& forall|p: int|
                    0 <= p < pairs.len() ==> (#[trigger] s.reports[p]).aggregate() is Some
                &&& forall|n: int| 0 <= n < s.owner.len() ==> #[trigger] s.owner[n] is None
            } else {
                exists|w: int|
                    0 <= w < s.stages.len() && !(s.stages[w] is Retired) && !s.blocked(w)
            }
        }),
{
    let start = Model::init(names, pairs, workers);
    lemma_init_wf(names, pairs, workers);
    lemma_init_accounted(names, pairs, workers);
    lemma_after_wf(start, schedule);
    lemma_after_accounted(start, schedule);
    let s = start.after(schedule);
    if s.finished() {
        law_finished_run_settles_every_pair(s);
    } else {
        law_no_deadlock(s);
    }
}

} // verus!
