use std::collections::HashSet;

use cloud::model::{Action, Event, PairIx, Stage};
use cloud::phase::{summarize, Failure, PairReport, Phase, PhaseOutcome, Summary};
use cloud::plan::{get_file, plan_for, Step};
use cloud::command::Setting;
use cloud::node::Node;
use cloud::scheduler::{ExperimentPair, Scheduler};
use cloud::tracker::{marker_paths, phase_dir, Probe};

fn pair(from: &str, to: &str) -> ExperimentPair {
    ExperimentPair { from: from.to_string(), to: to.to_string() }
}

fn node(name: &str) -> Node {
    Node {
        name: name.to_string(),
        ip: format!("10.0.0.{}", name.len()),
        iface: "ens5".to_string(),
        user: "ubuntu".to_string(),
    }
}

/// A driver without machines: files are names in a set, a launch copies the plan's
/// artifacts into it, and every step is checked for mutual exclusion.
struct Double {
    sched: Scheduler,
    files: HashSet<String>,
    failing: Vec<(usize, Phase)>,
    pending: Vec<Event>,
    launches: Vec<(usize, Phase)>,
    probes: Vec<(usize, Phase)>,
    resets: Vec<usize>,
    skipped: Vec<usize>,
    blocked: usize,
    retired: Vec<bool>,
}

impl Double {
    fn new(pairs: &Vec<ExperimentPair>, workers: usize, files: HashSet<String>) -> Double {
        Double {
            sched: Scheduler::new(pairs, workers),
            files,
            failing: Vec::new(),
            pending: vec![Event::Tick; workers],
            launches: Vec::new(),
            probes: Vec::new(),
            resets: Vec::new(),
            skipped: Vec::new(),
            blocked: 0,
            retired: vec![false; workers],
        }
    }

    fn names(&self, pair: usize) -> (String, String) {
        let p = self.sched.pair(pair);
        (self.sched.node_name(p.from).clone(), self.sched.node_name(p.to).clone())
    }

    fn executing_on(&self, w: usize, node: usize) -> bool {
        let pair = match self.sched.stage(w) {
            Stage::Reset { pair, .. } => pair,
            Stage::Inspect { pair, .. } => pair,
            Stage::Run { pair, .. } => pair,
            _ => return false,
        };
        let p = self.sched.pair(pair);
        p.from == node || p.to == node
    }

    fn check_exclusion(&self) {
        for n in 0..self.sched.node_count() {
            let inside = (0..self.sched.workers()).filter(|w| self.executing_on(*w, n)).count();
            assert!(inside <= 1, "node {} is inside {} execution windows", n, inside);
            if inside == 1 {
                let w = (0..self.sched.workers()).find(|w| self.executing_on(*w, n)).unwrap();
                assert_eq!(self.sched.holder(n), Some(w));
            }
        }
    }

    /// One step of worker `w`. Returns whether the state may have changed.
    fn step(&mut self, w: usize) -> bool {
        let action = self.sched.step(w, self.pending[w]);
        self.pending[w] = Event::Tick;
        self.check_exclusion();
        match action {
            Action::Proceed | Action::Released { .. } => true,
            Action::SkipPair { pair } => {
                self.skipped.push(pair);
                true
            },
            Action::Blocked { .. } => {
                self.blocked += 1;
                false
            },
            Action::Reset { pair } => {
                self.resets.push(pair);
                true
            },
            Action::Probe { pair, phase } => {
                self.probes.push((pair, phase));
                let (from, to) = self.names(pair);
                let dir = phase_dir(&from, &to, phase);
                let (bmon, udping) = marker_paths(&dir);
                self.pending[w] = Event::Probed(Probe {
                    dir_ok: true,
                    bmon: self.files.contains(&bmon),
                    udping: self.files.contains(&udping),
                });
                true
            },
            Action::Launch { pair, phase } => {
                self.launches.push((pair, phase));
                if self.failing.contains(&(pair, phase)) {
                    self.pending[w] = Event::Finished(Err(Failure::Connect));
                    return true;
                }
                let (from, to) = self.names(pair);
                let dir = phase_dir(&from, &to, phase);
                let setting = Setting {
                    sender: node(&from),
                    receiver: node(&to),
                    sender_home: "/home/ubuntu".to_string(),
                    receiver_home: "/home/ubuntu".to_string(),
                    inbox_qtype: "sfq".to_string(),
                    inbox_qlen: "1000mbit".to_string(),
                };
                for step in plan_for(phase) {
                    if let Step::Fetch(artifact) = step {
                        let (_, local) = get_file(artifact, &setting, &dir);
                        self.files.insert(local);
                    }
                }
                self.pending[w] = Event::Finished(Ok(()));
                true
            },
            Action::Unanswered => panic!("worker {} was given the wrong event", w),
            Action::Retire => {
                self.retired[w] = true;
                false
            },
        }
    }

    /// Runs to the end, choosing the next worker with a fixed pseudo-random sequence.
    fn run(&mut self, seed: u64) {
        let workers = self.sched.workers();
        let mut x = seed;
        let mut steps = 0usize;
        let bound = 14 * (self.sched.pair_count() + workers) * (workers + 1) * 50 + 1000;
        while !self.sched.finished() {
            x = x.wrapping_mul(6364136223846793005).wrapping_add(1442695040888963407);
            let w = ((x >> 33) as usize) % workers;
            self.step(w);
            steps += 1;
            assert!(steps < bound, "the run does not end");
        }
    }
}

#[test]
fn three_pairs_sharing_nodes_all_complete() {
    let pairs = vec![pair("A", "B"), pair("B", "C"), pair("A", "C")];
    for seed in 0..20 {
        let mut d = Double::new(&pairs, 3, HashSet::new());
        d.run(seed);
        assert_eq!(d.launches.len(), 9);
        for p in 0..3 {
            let r = d.sched.report(p);
            assert_eq!(r.control, Some(PhaseOutcome::Completed));
            assert_eq!(r.iperf, Some(PhaseOutcome::Completed));
            assert_eq!(r.bundler, Some(PhaseOutcome::Completed));
            assert_eq!(r.outcome(), Some(PhaseOutcome::Completed));
        }
        for (from, to) in [("A", "B"), ("B", "C"), ("A", "C")] {
            for phase in ["control", "iperf", "bundler"] {
                assert!(d.files.contains(&format!("./{}-{}/{}/bmon.log", from, to, phase)));
                assert!(d.files.contains(&format!("./{}-{}/{}/udping.log", from, to, phase)));
            }
        }
        for n in 0..d.sched.node_count() {
            assert_eq!(d.sched.holder(n), None);
        }
    }
}

#[test]
fn node_table_holds_each_name_once() {
    let pairs = vec![pair("A", "B"), pair("B", "C"), pair("A", "C")];
    let s = Scheduler::new(&pairs, 2);
    assert_eq!(s.node_count(), 3);
    assert_eq!(s.pair_count(), 3);
    assert_eq!(s.workers(), 2);
    assert_eq!(s.node_name(0), "A");
    assert_eq!(s.node_name(1), "B");
    assert_eq!(s.node_name(2), "C");
    assert_eq!(s.pair(0), PairIx { from: 0, to: 1 });
    assert_eq!(s.pair(1), PairIx { from: 1, to: 2 });
    assert_eq!(s.pair(2), PairIx { from: 0, to: 2 });
    assert_eq!(s.handed_out(), 0);
    assert_eq!(s.stage(0), Stage::Idle);
    assert_eq!(s.report(1), PairReport::new());
    assert!(!s.finished());
}

#[test]
fn locks_are_taken_in_name_order() {
    let pairs = vec![pair("zeta", "alpha"), pair("alpha", "zeta"), pair("ab", "a")];
    let s = Scheduler::new(&pairs, 1);
    // zeta is node 0, alpha node 1, ab node 2, a node 3
    assert_eq!(s.lock_order(0), (1, 0));
    assert_eq!(s.lock_order(1), (1, 0));
    assert_eq!(s.lock_order(2), (3, 2));
}

#[test]
fn one_worker_walks_a_pair_through_every_stage() {
    let pairs = vec![pair("b", "a")];
    let mut s = Scheduler::new(&pairs, 1);
    let missing = Event::Probed(Probe { dir_ok: true, bmon: false, udping: true });
    assert_eq!(s.step(0, Event::Tick), Action::Proceed);
    assert_eq!(s.stage(0), Stage::LockFirst { pair: 0 });
    assert_eq!(s.step(0, Event::Tick), Action::Proceed);
    assert_eq!(s.stage(0), Stage::LockSecond { pair: 0 });
    assert_eq!(s.holder(1), Some(0));
    assert_eq!(s.holder(0), None);
    assert_eq!(s.step(0, Event::Tick), Action::Reset { pair: 0 });
    assert_eq!(s.holder(0), Some(0));
    assert_eq!(s.step(0, Event::Tick), Action::Probe { pair: 0, phase: Phase::Control });
    assert_eq!(s.step(0, Event::Tick), Action::Unanswered);
    assert_eq!(s.step(0, missing), Action::Launch { pair: 0, phase: Phase::Control });
    assert_eq!(s.step(0, Event::Tick), Action::Unanswered);
    assert_eq!(s.step(0, missing), Action::Unanswered);
    assert_eq!(s.stage(0), Stage::Run { pair: 0, phase: Phase::Control });
    assert_eq!(s.step(0, Event::Finished(Ok(()))), Action::Reset { pair: 0 });
    assert_eq!(s.stage(0), Stage::Reset { pair: 0, then: Some(Phase::Iperf) });
    assert_eq!(s.step(0, Event::Tick), Action::Probe { pair: 0, phase: Phase::Iperf });
    assert_eq!(s.step(0, missing), Action::Launch { pair: 0, phase: Phase::Iperf });
    assert_eq!(s.step(0, Event::Finished(Ok(()))), Action::Reset { pair: 0 });
    assert_eq!(s.step(0, Event::Tick), Action::Probe { pair: 0, phase: Phase::Bundler });
    assert_eq!(s.step(0, missing), Action::Launch { pair: 0, phase: Phase::Bundler });
    assert_eq!(s.step(0, Event::Finished(Ok(()))), Action::Reset { pair: 0 });
    assert_eq!(s.stage(0), Stage::Reset { pair: 0, then: None });
    assert_eq!(s.step(0, Event::Tick), Action::Released { pair: 0 });
    assert_eq!(s.holder(0), None);
    assert_eq!(s.holder(1), None);
    assert_eq!(s.stage(0), Stage::Idle);
    assert_eq!(s.step(0, Event::Tick), Action::Retire);
    assert_eq!(s.step(0, Event::Tick), Action::Retire);
    assert!(s.finished());
    assert_eq!(s.report(0).outcome(), Some(PhaseOutcome::Completed));
}

#[test]
fn second_worker_waits_for_a_shared_node() {
    let pairs = vec![pair("A", "B"), pair("B", "C")];
    let mut s = Scheduler::new(&pairs, 2);
    assert_eq!(s.step(0, Event::Tick), Action::Proceed);
    assert_eq!(s.step(1, Event::Tick), Action::Proceed);
    assert_eq!(s.step(0, Event::Tick), Action::Proceed); // worker 0 holds A
    assert_eq!(s.step(0, Event::Tick), Action::Reset { pair: 0 }); // and B
    assert_eq!(s.step(1, Event::Tick), Action::Blocked { node: 1 });
    assert_eq!(s.step(1, Event::Tick), Action::Blocked { node: 1 });
    assert_eq!(s.stage(1), Stage::LockFirst { pair: 1 });
    assert_eq!(s.holder(2), None);
    let done = Event::Probed(Probe { dir_ok: true, bmon: true, udping: true });
    assert_eq!(s.step(0, Event::Tick), Action::Probe { pair: 0, phase: Phase::Control });
    assert_eq!(s.step(0, done), Action::Probe { pair: 0, phase: Phase::Iperf });
    assert_eq!(s.step(0, done), Action::Probe { pair: 0, phase: Phase::Bundler });
    assert_eq!(s.step(1, Event::Tick), Action::Blocked { node: 1 });
    assert_eq!(s.step(0, done), Action::Released { pair: 0 });
    assert_eq!(s.step(1, Event::Tick), Action::Proceed);
    assert_eq!(s.holder(1), Some(1));
    assert_eq!(s.report(0).outcome(), Some(PhaseOutcome::Skipped));
    assert!(!s.report(0).self_pair);
}

#[test]
fn all_pairs_of_a_matrix_complete_without_hanging() {
    let names: Vec<String> = ["n0", "n1", "n2", "n3", "n4"].iter().map(|s| s.to_string()).collect();
    let pairs = cloud::matrix::matrix(&names);
    assert_eq!(pairs.len(), 25);
    for workers in [1usize, 2, 5, 25, 40] {
        for seed in 0..8 {
            let mut d = Double::new(&pairs, workers, HashSet::new());
            d.run(seed * 7919 + workers as u64);
            assert_eq!(d.skipped.len(), 5);
            assert_eq!(d.launches.len(), 20 * 3);
            assert_eq!(d.sched.handed_out(), 25);
            for p in 0..25 {
                let expected = if p % 6 == 0 { PhaseOutcome::Skipped } else { PhaseOutcome::Completed };
                assert_eq!(d.sched.report(p).outcome(), Some(expected));
                assert_eq!(d.sched.report(p).self_pair, p % 6 == 0);
            }
        }
    }
}

#[test]
fn opposite_pairs_do_not_deadlock() {
    let pairs = vec![pair("A", "B"), pair("B", "A"), pair("A", "B"), pair("B", "A")];
    for seed in 0..50 {
        let mut d = Double::new(&pairs, 4, HashSet::new());
        d.run(seed);
        // two directories, three phases each; the repeated pairs find the markers
        assert_eq!(d.launches.len(), 6);
        assert_eq!(d.probes.len(), 12);
    }
}

#[test]
fn completed_phases_are_not_launched_again() {
    let pairs = vec![pair("A", "B"), pair("B", "C"), pair("A", "C")];
    let mut first = Double::new(&pairs, 2, HashSet::new());
    first.run(3);
    assert_eq!(first.launches.len(), 9);
    let mut second = Double::new(&pairs, 2, first.files.clone());
    second.run(4);
    assert_eq!(second.launches.len(), 0);
    assert_eq!(second.probes.len(), 9);
    for p in 0..3 {
        assert_eq!(second.sched.report(p).outcome(), Some(PhaseOutcome::Skipped));
    }
}

#[test]
fn only_the_missing_phase_is_launched() {
    let pairs = vec![pair("A", "B")];
    let mut files = HashSet::new();
    for name in ["./A-B/control/bmon.log", "./A-B/control/udping.log", "./A-B/bundler/bmon.log",
        "./A-B/bundler/udping.log", "./A-B/iperf/bmon.log"]
    {
        files.insert(name.to_string());
    }
    let mut d = Double::new(&pairs, 1, files);
    d.run(1);
    assert_eq!(d.launches, vec![(0, Phase::Iperf)]);
    let r = d.sched.report(0);
    assert_eq!(r.control, Some(PhaseOutcome::Skipped));
    assert_eq!(r.iperf, Some(PhaseOutcome::Completed));
    assert_eq!(r.bundler, Some(PhaseOutcome::Skipped));
    assert_eq!(r.outcome(), Some(PhaseOutcome::Completed));
    // cleanup runs once when the locks are taken and once after the launched phase
    assert_eq!(d.resets, vec![0, 0]);
}

#[test]
fn self_pair_takes_no_lock_and_makes_no_directory() {
    let pairs = vec![pair("A", "A"), pair("A", "B")];
    let mut s = Scheduler::new(&pairs, 1);
    assert_eq!(s.node_count(), 2);
    assert_eq!(s.step(0, Event::Tick), Action::SkipPair { pair: 0 });
    assert_eq!(s.stage(0), Stage::Idle);
    assert_eq!(s.holder(0), None);
    assert_eq!(s.holder(1), None);
    assert_eq!(s.handed_out(), 1);
    assert_eq!(s.report(0), PairReport::for_self_pair());
    assert_eq!(s.report(0).outcome(), Some(PhaseOutcome::Skipped));
    let mut d = Double::new(&pairs, 2, HashSet::new());
    d.run(11);
    assert_eq!(d.skipped, vec![0]);
    assert!(d.probes.iter().all(|(p, _)| *p == 1));
    assert!(d.resets.iter().all(|p| *p == 1));
    assert!(d.files.iter().all(|f| f.starts_with("./A-B/")));
}

#[test]
fn failed_phase_does_not_stop_later_phases_or_other_pairs() {
    let pairs = vec![pair("A", "B"), pair("C", "D"), pair("B", "C")];
    for seed in 0..10 {
        let mut d = Double::new(&pairs, 3, HashSet::new());
        d.failing.push((0, Phase::Iperf));
        d.run(seed);
        let r = d.sched.report(0);
        assert_eq!(r.control, Some(PhaseOutcome::Completed));
        assert_eq!(r.iperf, Some(PhaseOutcome::Failed(Failure::Connect)));
        assert_eq!(r.bundler, Some(PhaseOutcome::Completed));
        assert_eq!(r.outcome(), Some(PhaseOutcome::Failed(Failure::Connect)));
        assert_eq!(d.sched.report(1).outcome(), Some(PhaseOutcome::Completed));
        assert_eq!(d.sched.report(2).outcome(), Some(PhaseOutcome::Completed));
        assert_eq!(d.launches.len(), 9);
        assert!(!d.files.contains("./A-B/iperf/bmon.log"));
        assert!(d.files.contains("./A-B/bundler/bmon.log"));
    }
}

#[test]
fn unusable_directory_fails_the_phase_only() {
    let pairs = vec![pair("A", "B")];
    let mut s = Scheduler::new(&pairs, 1);
    for _ in 0..3 {
        s.step(0, Event::Tick);
    }
    assert_eq!(s.step(0, Event::Tick), Action::Probe { pair: 0, phase: Phase::Control });
    let broken = Event::Probed(Probe { dir_ok: false, bmon: true, udping: true });
    assert_eq!(s.step(0, broken), Action::Probe { pair: 0, phase: Phase::Iperf });
    assert_eq!(s.report(0).control, Some(PhaseOutcome::Failed(Failure::OutputDir)));
    assert_eq!(s.report(0).iperf, None);
    assert_eq!(s.report(0).outcome(), None);
}

#[test]
fn no_pairs_means_workers_retire_at_once() {
    let mut s = Scheduler::new(&Vec::new(), 2);
    assert_eq!(s.node_count(), 0);
    assert!(!s.finished());
    assert_eq!(s.step(1, Event::Tick), Action::Retire);
    assert_eq!(s.step(0, Event::Tick), Action::Retire);
    assert!(s.finished());
    let none = Scheduler::new(&vec![pair("A", "B")], 0);
    assert!(none.finished());
}

#[test]
fn summary_counts_pairs_by_outcome() {
    let pairs = vec![pair("A", "A"), pair("A", "B"), pair("C", "D"), pair("B", "C"), pair("D", "A")];
    let mut d = Double::new(&pairs, 2, HashSet::new());
    assert_eq!(d.sched.summary(), Summary { completed: 0, skipped: 0, failed: 0, unsettled: 5 });
    for name in ["bmon.log", "udping.log"] {
        for phase in ["control", "iperf", "bundler"] {
            d.files.insert(format!("./C-D/{}/{}", phase, name));
        }
    }
    d.failing.push((3, Phase::Control));
    d.run(5);
    assert_eq!(d.sched.summary(), Summary { completed: 2, skipped: 2, failed: 1, unsettled: 0 });
    assert_eq!(summarize(&Vec::new()), Summary { completed: 0, skipped: 0, failed: 0, unsettled: 0 });
    let mut half = PairReport::new();
    half.record(Phase::Control, PhaseOutcome::Failed(Failure::Transport));
    assert_eq!(summarize(&vec![half]), Summary { completed: 0, skipped: 0, failed: 0, unsettled: 1 });
}
