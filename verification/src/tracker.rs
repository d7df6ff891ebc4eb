//! The completion tracker: whether a phase of a pair has already left its two marker files
//! in its output directory. The files are the only record of completed work.
use vstd::prelude::*;
use vstd::string::*;
use crate::phase::Phase;

verus! {

/// What was found in the output directory of one phase of one pair.
#[derive(Clone, Copy, Debug, PartialEq, Eq)]
pub struct Probe {
    /// The directory exists or could be created.
    pub dir_ok: bool,
    /// The bandwidth monitor's log is there.
    pub bmon: bool,
    /// The latency probe's log is there.
    pub udping: bool,
}

/// What was found in the three output directories of one pair.
#[derive(Clone, Copy, Debug, PartialEq, Eq)]
pub struct PathProbe {
    pub control: Probe,
    pub iperf: Probe,
    pub bundler: Probe,
}

impl Probe {
    /// Both markers are there.
    pub open spec fn complete(self) -> bool {
        self.bmon && self.udping
    }
}

impl PathProbe {
    /// All three directories are there.
    pub open spec fn dirs_ok(self) -> bool {
        self.control.dir_ok && self.iperf.dir_ok && self.bundler.dir_ok
    }

    /// All six markers are there.
    pub open spec fn complete(self) -> bool {
        self.control.complete() && self.iperf.complete() && self.bundler.complete()
    }
}

/// The output directory of the pair: `./<from>-<to>`.
pub open spec fn pair_dir_of(from: Seq<char>, to: Seq<char>) -> Seq<char> {
    "./"@ + from + "-"@ + to
}

/// The output directory of `phase` of the pair: `./<from>-<to>/<phase>`.
pub open spec fn phase_dir_of(from: Seq<char>, to: Seq<char>, phase: Phase) -> Seq<char> {
    pair_dir_of(from, to) + "/"@ + phase.name()
}

/// The path of the bandwidth monitor's log in `dir`.
pub open spec fn bmon_marker_of(dir: Seq<char>) -> Seq<char> {
    dir + "/bmon.log"@
}

/// The path of the latency probe's log in `dir`.
pub open spec fn udping_marker_of(dir: Seq<char>) -> Seq<char> {
    dir + "/udping.log"@
}

/// The output directory of the pair `from`, `to`.
pub fn pair_dir(from: &str, to: &str) -> (dir: String)
    ensures
        dir@ == pair_dir_of(from@, to@),
{
    let mut dir = String::from_str("./");
    dir.append(from);
    dir.append("-");
    dir.append(to);
    dir
}

/// The output directory of `phase` of the pair `from`, `to`.
pub fn phase_dir(from: &str, to: &str, phase: Phase) -> (dir: String)
    ensures
        dir@ == phase_dir_of(from@, to@, phase),
{
    let mut dir = pair_dir(from, to);
    dir.append("/");
    dir.append(phase.dir_name());
    dir
}

/// The paths of the two markers in the phase directory `dir`: the bandwidth monitor's log
/// and the latency probe's log.
pub fn marker_paths(dir: &str) -> (paths: (String, String))
    ensures
        paths.0@ == bmon_marker_of(dir@),
        paths.1@ == udping_marker_of(dir@),
{
    let mut bmon = String::from_str(dir);
    bmon.append("/bmon.log");
    let mut udping = String::from_str(dir);
    udping.append("/udping.log");
    (bmon, udping)
}

/// Whether the phase is complete: both of its markers are there. Nothing else is looked at.
pub fn is_phase_complete(probe: &Probe) -> (r: bool)
    ensures
        r == probe.complete(),
{
    probe.bmon && probe.udping
}

/// Whether the pair still has work to do: a directory could not be made, or one of the six
/// markers is missing. Only a pair with all three directories and all six markers is left
/// out of the run.
pub fn check_path(probe: &PathProbe) -> (pending: bool)
    ensures
        pending == !(probe.dirs_ok() && probe.complete()),
{
    if !probe.control.dir_ok {
        return true;
    }
    if !probe.iperf.dir_ok {
        return true;
    }
    if !probe.bundler.dir_ok {
        return true;
    }
    if is_phase_complete(&probe.control) && is_phase_complete(&probe.iperf) && is_phase_complete(
        &probe.bundler,
    ) {
        false
    } else {
        true
    }
}

} // verus!
