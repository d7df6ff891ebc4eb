//! The phase pipeline: what each experiment does, step by step. A plan is plain data; the
//! driver carries it out and stops at the first step that fails.
use vstd::prelude::*;
use vstd::string::*;
use crate::command::{Command, Process, Setting};
use crate::phase::{Failure, Phase};
use crate::tracker::{bmon_marker_of, udping_marker_of};

verus! {

/// One of the two machines of a pair.
#[derive(Clone, Copy, Debug, PartialEq, Eq)]
pub enum Host {
    Sender,
    Receiver,
}

/// A file that an experiment leaves on a machine and that is collected afterwards.
#[derive(Clone, Copy, Debug, PartialEq, Eq)]
pub enum Artifact {
    /// The second load generator's output.
    IperfClient,
    /// The first load generator's output.
    IperfClientFirst,
    /// The latency probe's output: one of the two markers.
    Udping,
    /// The inbox's output.
    Inbox,
    /// The congestion controller's output.
    Nimbus,
    /// The throughput sink's output.
    IperfServer,
    /// The bandwidth monitor's output: the other marker.
    Bmon,
    /// The outbox's output.
    Outbox,
}

/// One step of a plan.
#[derive(Clone, Copy, Debug, PartialEq, Eq)]
pub enum Step {
    /// Run the command on the host. If it cannot be run, the plan fails.
    Run(Host, Command),
    /// Run the command on the host and go on whatever comes of it.
    Try(Host, Command),
    /// Wait for so many seconds.
    Sleep(u64),
    /// Copy the artifact into the phase's output directory. If it cannot be copied, the
    /// plan fails.
    Fetch(Artifact),
}

/// What came of trying a step.
#[derive(Clone, Copy, Debug, PartialEq, Eq)]
pub enum Attempt {
    /// The command ran to its end, the wait passed, or the file was copied. Of a command,
    /// `clean` tells whether its exit status was zero.
    Done { clean: bool },
    /// The command could not be run, or the file could not be copied.
    Lost,
}

impl Step {
    /// Whether the plan goes on after this step, given what came of trying it. A step that
    /// is only tried never ends the plan. Any other step ends it, as a transport failure,
    /// exactly when it was lost; the exit status of a command that ran ends nothing.
    pub open spec fn verdict(self, attempt: Attempt) -> Result<(), Failure> {
        if self is Try || attempt is Done {
            Ok(())
        } else {
            Err(Failure::Transport)
        }
    }
}

/// What comes of carrying out `plan` when trying its steps gives `attempts`, one for each
/// step: the failure of the first step that ends the plan, or success if none does.
pub open spec fn outcome(plan: Seq<Step>, attempts: Seq<Attempt>) -> Result<(), Failure>
    decreases plan.len(),
{
    if plan.len() == 0 {
        Ok(())
    } else {
        match plan[0].verdict(attempts[0]) {
            Err(f) => Err(f),
            Ok(_) => outcome(plan.skip(1), attempts.skip(1)),
        }
    }
}

/// Whether the plan goes on after `step`, given what came of trying it.
pub fn goes_on(step: Step, attempt: Attempt) -> (r: Result<(), Failure>)
    ensures
        r == step.verdict(attempt),
{
    match step {
        Step::Try(_, _) => Ok(()),
        _ => match attempt {
            Attempt::Done { .. } => Ok(()),
            Attempt::Lost => Err(Failure::Transport),
        },
    }
}

impl Artifact {
    /// The machine that the artifact lies on.
    pub open spec fn host(self) -> Host {
        match self {
            Artifact::IperfServer | Artifact::Bmon | Artifact::Outbox => Host::Receiver,
            _ => Host::Sender,
        }
    }

    /// The artifact's file name in the home directory on its machine.
    pub open spec fn remote_name(self) -> Seq<char> {
        match self {
            Artifact::IperfClient => "iperf_client.out"@,
            Artifact::IperfClientFirst => "iperf_client_1.out"@,
            Artifact::Udping => "udping_receiver.out"@,
            Artifact::Inbox => "inbox.out"@,
            Artifact::Nimbus => "ccp.out"@,
            Artifact::IperfServer => "iperf_server.out"@,
            Artifact::Bmon => "bmon.out"@,
            Artifact::Outbox => "outbox.out"@,
        }
    }

    /// The artifact's file name in the output directory.
    pub open spec fn local_name(self) -> Seq<char> {
        match self {
            Artifact::IperfClient => "iperf_client.log"@,
            Artifact::IperfClientFirst => "iperf_client_1.log"@,
            Artifact::Udping => "udping.log"@,
            Artifact::Inbox => "inbox.log"@,
            Artifact::Nimbus => "nimbus.log"@,
            Artifact::IperfServer => "iperf_server.log"@,
            Artifact::Bmon => "bmon.log"@,
            Artifact::Outbox => "outbox.log"@,
        }
    }

    /// Where the artifact lies on its machine.
    pub open spec fn remote_path(self, setting: &Setting) -> Seq<char> {
        match self.host() {
            Host::Sender => setting.sender_home@ + "/"@ + self.remote_name(),
            Host::Receiver => setting.receiver_home@ + "/"@ + self.remote_name(),
        }
    }

    /// Where the artifact goes in the output directory `out_dir`.
    pub open spec fn local_path(self, out_dir: Seq<char>) -> Seq<char> {
        out_dir + "/"@ + self.local_name()
    }

    /// The machine that the artifact lies on.
    pub fn on(self) -> (r: Host)
        ensures
            r == self.host(),
    {
        match self {
            Artifact::IperfServer | Artifact::Bmon | Artifact::Outbox => Host::Receiver,
            _ => Host::Sender,
        }
    }

    /// The artifact's file name in the home directory on its machine.
    pub fn remote_file(self) -> (r: &'static str)
        ensures
            r@ == self.remote_name(),
    {
        match self {
            Artifact::IperfClient => "iperf_client.out",
            Artifact::IperfClientFirst => "iperf_client_1.out",
            Artifact::Udping => "udping_receiver.out",
            Artifact::Inbox => "inbox.out",
            Artifact::Nimbus => "ccp.out",
            Artifact::IperfServer => "iperf_server.out",
            Artifact::Bmon => "bmon.out",
            Artifact::Outbox => "outbox.out",
        }
    }

    /// The artifact's file name in the output directory.
    pub fn local_file(self) -> (r: &'static str)
        ensures
            r@ == self.local_name(),
    {
        match self {
            Artifact::IperfClient => "iperf_client.log",
            Artifact::IperfClientFirst => "iperf_client_1.log",
            Artifact::Udping => "udping.log",
            Artifact::Inbox => "inbox.log",
            Artifact::Nimbus => "nimbus.log",
            Artifact::IperfServer => "iperf_server.log",
            Artifact::Bmon => "bmon.log",
            Artifact::Outbox => "outbox.log",
        }
    }
}

/// From where and to where `artifact` is copied: its path on its machine, and its path in
/// the output directory `out_dir`.
pub fn get_file(artifact: Artifact, setting: &Setting, out_dir: &str) -> (paths: (String, String))
    ensures
        paths.0@ == artifact.remote_path(setting),
        paths.1@ == artifact.local_path(out_dir@),
{
    let mut remote = match artifact.on() {
        Host::Sender => setting.sender_home.clone(),
        Host::Receiver => setting.receiver_home.clone(),
    };
    remote.append("/");
    remote.append(artifact.remote_file());
    let mut local = String::from_str(out_dir);
    local.append("/");
    local.append(artifact.local_file());
    (remote, local)
}

/// The steps that build the bundler's network namespace on the sender.
pub open spec fn netns_setup() -> Seq<Step> {
    seq![
        Step::Run(Host::Sender, Command::NetnsAdd),
        Step::Run(Host::Sender, Command::VethAdd),
        Step::Run(Host::Sender, Command::VethIntoNetns),
        Step::Run(Host::Sender, Command::NetnsList),
        Step::Run(Host::Sender, Command::BridgeAdd),
        Step::Run(Host::Sender, Command::VethIntoBridge),
        Step::Run(Host::Sender, Command::BridgeAddr),
        Step::Run(Host::Sender, Command::BridgeUp),
        Step::Run(Host::Sender, Command::VethOuterUp),
        Step::Run(Host::Sender, Command::VethInnerUp),
        Step::Run(Host::Sender, Command::VethInnerAddr),
        Step::Run(Host::Sender, Command::NetnsRoute),
        Step::Run(Host::Sender, Command::Masquerade),
        Step::Run(Host::Sender, Command::ForwardAccept),
    ]
}

/// The steps that take the bundler's network namespace down again. None of them can fail
/// a plan.
pub open spec fn netns_cleanup() -> Seq<Step> {
    seq![
        Step::Try(Host::Sender, Command::NetnsDel),
        Step::Try(Host::Sender, Command::BridgeDel),
        Step::Try(Host::Sender, Command::VethDel),
        Step::Try(Host::Sender, Command::IptablesFlush),
        Step::Try(Host::Sender, Command::NetnsList),
    ]
}

/// The control phase: latency without load, observed for 180 seconds.
pub open spec fn control_plan() -> Seq<Step> {
    seq![
        Step::Run(Host::Receiver, Command::UdpingServer),
        Step::Run(Host::Sender, Command::UdpingClient),
        Step::Run(Host::Receiver, Command::BmonControl),
        Step::Sleep(180),
        Step::Fetch(Artifact::Udping),
        Step::Fetch(Artifact::Bmon),
    ]
}

/// The throughput phase: two load generators against one sink, observed for 165 seconds
/// after the bandwidth monitor has started.
pub open spec fn iperf_plan() -> Seq<Step> {
    seq![
        Step::Run(Host::Receiver, Command::IperfServer),
        Step::Run(Host::Receiver, Command::UdpingServer),
        Step::Run(Host::Sender, Command::UdpingClient),
        Step::Sleep(5),
        Step::Run(Host::Sender, Command::IperfFirst),
        Step::Run(Host::Sender, Command::IperfSecond),
        Step::Sleep(15),
        Step::Run(Host::Receiver, Command::Bmon),
        Step::Sleep(165),
        Step::Fetch(Artifact::IperfClient),
        Step::Fetch(Artifact::IperfClientFirst),
        Step::Fetch(Artifact::Udping),
        Step::Fetch(Artifact::IperfServer),
        Step::Fetch(Artifact::Bmon),
    ]
}

/// What the bundler phase does between building its namespace and collecting its artifacts.
pub open spec fn bundler_run() -> Seq<Step> {
    seq![
        Step::Run(Host::Receiver, Command::Outbox),
        Step::Run(Host::Sender, Command::Inbox),
        Step::Sleep(5),
        Step::Run(Host::Sender, Command::Nimbus),
        Step::Sleep(5),
        Step::Run(Host::Receiver, Command::IperfServer),
        Step::Run(Host::Receiver, Command::UdpingServer),
        Step::Run(Host::Sender, Command::UdpingClient),
        Step::Run(Host::Sender, Command::BundledIperfFirst),
        Step::Run(Host::Sender, Command::BundledIperfSecond),
        Step::Sleep(15),
        Step::Run(Host::Receiver, Command::Bmon),
        Step::Sleep(165),
    ]
}

/// What the bundler phase collects.
pub open spec fn bundler_fetches() -> Seq<Step> {
    seq![
        Step::Fetch(Artifact::IperfClient),
        Step::Fetch(Artifact::IperfClientFirst),
        Step::Fetch(Artifact::Udping),
        Step::Fetch(Artifact::Inbox),
        Step::Fetch(Artifact::Nimbus),
        Step::Fetch(Artifact::IperfServer),
        Step::Fetch(Artifact::Bmon),
        Step::Fetch(Artifact::Outbox),
    ]
}

/// The bundler phase: the throughput experiment with the sender's traffic sent through the
/// bundler. A namespace left over is taken down, a new one is built, the experiment runs,
/// the artifacts are collected, and then the namespace is taken down, whatever comes of
/// that.
pub open spec fn bundler_plan() -> Seq<Step> {
    netns_cleanup() + netns_setup() + bundler_run() + bundler_fetches() + netns_cleanup()
}

/// The steps that kill what an experiment may have left running on the two machines. None
/// of them can fail the plan.
pub open spec fn reset_plan() -> Seq<Step> {
    seq![
        Step::Try(Host::Sender, Command::Kill(Process::UdpingClient)),
        Step::Try(Host::Sender, Command::Kill(Process::Iperf)),
        Step::Try(Host::Sender, Command::Kill(Process::Bmon)),
        Step::Try(Host::Sender, Command::KillInbox),
        Step::Try(Host::Sender, Command::KillNimbus),
        Step::Try(Host::Sender, Command::QdiscDel),
        Step::Try(Host::Receiver, Command::Kill(Process::UdpingServer)),
        Step::Try(Host::Receiver, Command::Kill(Process::Iperf)),
        Step::Try(Host::Receiver, Command::Kill(Process::Bmon)),
        Step::Try(Host::Receiver, Command::KillOutbox),
    ]
}

/// The plan of `phase`.
pub open spec fn plan_of(phase: Phase) -> Seq<Step> {
    match phase {
        Phase::Control => control_plan(),
        Phase::Iperf => iperf_plan(),
        Phase::Bundler => bundler_plan(),
    }
}

/// Puts the steps of `more` at the end of `plan`.
fn extend(plan: &mut Vec<Step>, more: &Vec<Step>)
    ensures
        final(plan)@ == old(plan)@ + more@,
{
    let mut i: usize = 0;
    while i < more.len()
        invariant
            i <= more.len(),
            plan@ == old(plan)@ + more@.take(i as int),
        decreases more.len() - i,
    {
        plan.push(more[i]);
        assert(more@.take(i + 1) =~= more@.take(i as int).push(more@[i as int]));
        i += 1;
    }
    assert(more@.take(more.len() as int) =~= more@);
}

/// The steps that build the bundler's network namespace on the sender.
pub fn setup_netns() -> (plan: Vec<Step>)
    ensures
        plan@ == netns_setup(),
{
    let plan = vec![
        Step::Run(Host::Sender, Command::NetnsAdd),
        Step::Run(Host::Sender, Command::VethAdd),
        Step::Run(Host::Sender, Command::VethIntoNetns),
        Step::Run(Host::Sender, Command::NetnsList),
        Step::Run(Host::Sender, Command::BridgeAdd),
        Step::Run(Host::Sender, Command::VethIntoBridge),
        Step::Run(Host::Sender, Command::BridgeAddr),
        Step::Run(Host::Sender, Command::BridgeUp),
        Step::Run(Host::Sender, Command::VethOuterUp),
        Step::Run(Host::Sender, Command::VethInnerUp),
        Step::Run(Host::Sender, Command::VethInnerAddr),
        Step::Run(Host::Sender, Command::NetnsRoute),
        Step::Run(Host::Sender, Command::Masquerade),
        Step::Run(Host::Sender, Command::ForwardAccept),
    ];
    assert(plan@ =~= netns_setup());
    plan
}

/// The steps that take the bundler's network namespace down.
pub fn cleanup_netns() -> (plan: Vec<Step>)
    ensures
        plan@ == netns_cleanup(),
{
    let plan = vec![
        Step::Try(Host::Sender, Command::NetnsDel),
        Step::Try(Host::Sender, Command::BridgeDel),
        Step::Try(Host::Sender, Command::VethDel),
        Step::Try(Host::Sender, Command::IptablesFlush),
        Step::Try(Host::Sender, Command::NetnsList),
    ];
    assert(plan@ =~= netns_cleanup());
    plan
}

/// The plan of the control phase.
pub fn nobundler_exp_control() -> (plan: Vec<Step>)
    ensures
        plan@ == control_plan(),
{
    let plan = vec![
        Step::Run(Host::Receiver, Command::UdpingServer),
        Step::Run(Host::Sender, Command::UdpingClient),
        Step::Run(Host::Receiver, Command::BmonControl),
        Step::Sleep(180),
        Step::Fetch(Artifact::Udping),
        Step::Fetch(Artifact::Bmon),
    ];
    assert(plan@ =~= control_plan());
    plan
}

/// The plan of the throughput phase.
pub fn nobundler_exp_iperf() -> (plan: Vec<Step>)
    ensures
        plan@ == iperf_plan(),
{
    let plan = vec![
        Step::Run(Host::Receiver, Command::IperfServer),
        Step::Run(Host::Receiver, Command::UdpingServer),
        Step::Run(Host::Sender, Command::UdpingClient),
        Step::Sleep(5),
        Step::Run(Host::Sender, Command::IperfFirst),
        Step::Run(Host::Sender, Command::IperfSecond),
        Step::Sleep(15),
        Step::Run(Host::Receiver, Command::Bmon),
        Step::Sleep(165),
        Step::Fetch(Artifact::IperfClient),
        Step::Fetch(Artifact::IperfClientFirst),
        Step::Fetch(Artifact::Udping),
        Step::Fetch(Artifact::IperfServer),
        Step::Fetch(Artifact::Bmon),
    ];
    assert(plan@ =~= iperf_plan());
    plan
}

/// The plan of the bundler phase.
pub fn bundler_exp_iperf() -> (plan: Vec<Step>)
    ensures
        plan@ == bundler_plan(),
{
    let mut plan = cleanup_netns();
    let setup = setup_netns();
    extend(&mut plan, &setup);
    let run = vec![
        Step::Run(Host::Receiver, Command::Outbox),
        Step::Run(Host::Sender, Command::Inbox),
        Step::Sleep(5),
        Step::Run(Host::Sender, Command::Nimbus),
        Step::Sleep(5),
        Step::Run(Host::Receiver, Command::IperfServer),
        Step::Run(Host::Receiver, Command::UdpingServer),
        Step::Run(Host::Sender, Command::UdpingClient),
        Step::Run(Host::Sender, Command::BundledIperfFirst),
        Step::Run(Host::Sender, Command::BundledIperfSecond),
        Step::Sleep(15),
        Step::Run(Host::Receiver, Command::Bmon),
        Step::Sleep(165),
    ];
    assert(run@ =~= bundler_run());
    extend(&mut plan, &run);
    let fetches = vec![
        Step::Fetch(Artifact::IperfClient),
        Step::Fetch(Artifact::IperfClientFirst),
        Step::Fetch(Artifact::Udping),
        Step::Fetch(Artifact::Inbox),
        Step::Fetch(Artifact::Nimbus),
        Step::Fetch(Artifact::IperfServer),
        Step::Fetch(Artifact::Bmon),
        Step::Fetch(Artifact::Outbox),
    ];
    assert(fetches@ =~= bundler_fetches());
    extend(&mut plan, &fetches);
    let cleanup = cleanup_netns();
    extend(&mut plan, &cleanup);
    plan
}

/// The steps that kill what an experiment may have left running on the two machines.
pub fn reset() -> (plan: Vec<Step>)
    ensures
        plan@ == reset_plan(),
{
    let plan = vec![
        Step::Try(Host::Sender, Command::Kill(Process::UdpingClient)),
        Step::Try(Host::Sender, Command::Kill(Process::Iperf)),
        Step::Try(Host::Sender, Command::Kill(Process::Bmon)),
        Step::Try(Host::Sender, Command::KillInbox),
        Step::Try(Host::Sender, Command::KillNimbus),
        Step::Try(Host::Sender, Command::QdiscDel),
        Step::Try(Host::Receiver, Command::Kill(Process::UdpingServer)),
        Step::Try(Host::Receiver, Command::Kill(Process::Iperf)),
        Step::Try(Host::Receiver, Command::Kill(Process::Bmon)),
        Step::Try(Host::Receiver, Command::KillOutbox),
    ];
    assert(plan@ =~= reset_plan());
    plan
}

/// The plan of `phase`.
pub fn plan_for(phase: Phase) -> (plan: Vec<Step>)
    ensures
        plan@ == plan_of(phase),
{
    match phase {
        Phase::Control => nobundler_exp_control(),
        Phase::Iperf => nobundler_exp_iperf(),
        Phase::Bundler => bundler_exp_iperf(),
    }
}

/// The seconds that a plan spends waiting.
pub open spec fn waiting(plan: Seq<Step>) -> nat
    decreases plan.len(),
{
    if plan.len() == 0 {
        0
    } else {
        waiting(plan.drop_last()) + match plan.last() {
            Step::Sleep(seconds) => seconds as nat,
            _ => 0,
        }
    }
}

/// The first position of `step` in `plan`, or the plan's length if it is not in it.
pub open spec fn position(plan: Seq<Step>, step: Step) -> int
    decreases plan.len(),
{
    if plan.len() == 0 {
        0
    } else if plan[0] == step {
        0
    } else {
        1 + position(plan.skip(1), step)
    }

}

/// The two markers are artifacts: the bandwidth monitor's and the latency probe's output
/// are copied to the very paths at which the completion tracker looks for them.
pub proof fn law_markers_are_artifacts(out_dir: Seq<char>)
    ensures
        Artifact::Bmon.local_path(out_dir) == bmon_marker_of(out_dir),
        Artifact::Udping.local_path(out_dir) == udping_marker_of(out_dir),
{
    reveal_strlit("/");
    reveal_strlit("bmon.log");
    reveal_strlit("udping.log");
    reveal_strlit("/bmon.log");
    reveal_strlit("/udping.log");
    assert("/"@ + "bmon.log"@ =~= "/bmon.log"@);
    assert("/"@ + "udping.log"@ =~= "/udping.log"@);
    assert(out_dir + "/"@ + "bmon.log"@ =~= out_dir + ("/"@ + "bmon.log"@));
    assert(out_dir + "/"@ + "udping.log"@ =~= out_dir + ("/"@ + "udping.log"@));
}

/// Every phase collects both markers, and nothing that can fail follows the collection: once
/// a plan has begun to copy artifacts, it only copies artifacts and takes the namespace
/// down with steps that are only tried. So no marker exists before the experiment is over.
pub proof fn law_every_phase_ends_by_collecting_its_markers(phase: Phase)
    ensures
        exists|i: int|
            0 <= i < plan_of(phase).len() && #[trigger] plan_of(phase)[i] == Step::Fetch(
                Artifact::Bmon,
            ),
        exists|i: int|
            0 <= i < plan_of(phase).len() && #[trigger] plan_of(phase)[i] == Step::Fetch(
                Artifact::Udping,
            ),
        forall|i: int, j: int|
            0 <= i < j < plan_of(phase).len() && #[trigger] plan_of(phase)[i] is Fetch ==> (
            #[trigger] plan_of(phase)[j]) is Fetch || plan_of(phase)[j] is Try,
        phase != Phase::Bundler ==> forall|i: int, j: int|
            0 <= i < j < plan_of(phase).len() && #[trigger] plan_of(phase)[i] is Fetch
                ==> #[trigger] plan_of(phase)[j] is Fetch,
{
    match phase {
        Phase::Control => {
            assert(control_plan()[5] == Step::Fetch(Artifact::Bmon));
            assert(control_plan()[4] == Step::Fetch(Artifact::Udping));
        },
        Phase::Iperf => {
            assert(iperf_plan()[13] == Step::Fetch(Artifact::Bmon));
            assert(iperf_plan()[11] == Step::Fetch(Artifact::Udping));
        },
        Phase::Bundler => {
            lemma_bundler_layout();
            assert(bundler_fetches()[6] == Step::Fetch(Artifact::Bmon));
            assert(bundler_fetches()[2] == Step::Fetch(Artifact::Udping));
            assert(bundler_plan()[38] == Step::Fetch(Artifact::Bmon));
            assert(bundler_plan()[34] == Step::Fetch(Artifact::Udping));
        },
    }
}

/// Where the parts of the bundler plan stand: the first 32 steps copy nothing, the next 8
/// copy the artifacts, and the last 5 take the namespace down and are only tried.
proof fn lemma_bundler_layout()
    ensures
        bundler_plan().len() == 45,
        forall|i: int| 0 <= i < 32 ==> !(#[trigger] bundler_plan()[i] is Fetch),
        forall|i: int| 32 <= i < 40 ==> #[trigger] bundler_plan()[i] == bundler_fetches()[i - 32],
        forall|i: int| 32 <= i < 40 ==> #[trigger] bundler_plan()[i] is Fetch,
        forall|i: int| 40 <= i < 45 ==> #[trigger] bundler_plan()[i] == netns_cleanup()[i - 40],
        forall|i: int| 40 <= i < 45 ==> #[trigger] bundler_plan()[i] is Try,
{
    let a = netns_cleanup() + netns_setup() + bundler_run();
    let b = a + bundler_fetches();
    assert(a.len() == 32);
    assert(b.len() == 40);
    assert forall|i: int| 0 <= i < 32 implies !(#[trigger] bundler_plan()[i] is Fetch) by {
        assert(bundler_plan()[i] == a[i]);
        if i < 5 {
            assert(a[i] == netns_cleanup()[i]);
        } else if i < 19 {
            assert(a[i] == netns_setup()[i - 5]);
        } else {
            assert(a[i] == bundler_run()[i - 19]);
        }
    }
    assert forall|i: int| 32 <= i < 40 implies #[trigger] bundler_plan()[i] == bundler_fetches()[i
        - 32] && bundler_plan()[i] is Fetch by {
        assert(bundler_plan()[i] == b[i]);
    }
    assert forall|i: int| 40 <= i < 45 implies #[trigger] bundler_plan()[i] == netns_cleanup()[i
        - 40] && bundler_plan()[i] is Try by {
        assert(netns_cleanup()[i - 40] is Try);
    }
}

/// A plan succeeds exactly when no step ends it.
pub proof fn lemma_outcome(plan: Seq<Step>, attempts: Seq<Attempt>)
    requires
        attempts.len() == plan.len(),
    ensures
        outcome(plan, attempts) is Ok <==> forall|i: int|
            0 <= i < plan.len() ==> (#[trigger] plan[i]).verdict(attempts[i]) is Ok,
    decreases plan.len(),
{
    if plan.len() > 0 {
        lemma_outcome(plan.skip(1), attempts.skip(1));
        if outcome(plan, attempts) is Ok {
            assert forall|i: int| 0 <= i < plan.len() implies (#[trigger] plan[i]).verdict(
                attempts[i],
            ) is Ok by {
                if i > 0 {
                    assert(plan.skip(1)[i - 1] == plan[i]);
                    assert(attempts.skip(1)[i - 1] == attempts[i]);
                }
            }
        }
        if forall|i: int| 0 <= i < plan.len() ==> (#[trigger] plan[i]).verdict(attempts[i]) is Ok {
            assert(plan[0].verdict(attempts[0]) is Ok);
            assert forall|i: int| 0 <= i < plan.skip(1).len() implies (#[trigger] plan.skip(
                1,
            )[i]).verdict(attempts.skip(1)[i]) is Ok by {
                assert(plan[i + 1].verdict(attempts[i + 1]) is Ok);
            }
        }
    }
}

/// Taking the namespace down cannot fail the bundler phase. Once the experiment has run and
/// every artifact is copied, the phase succeeds, whatever comes of the five steps that
/// take the namespace down; and whatever comes of the five that clear a namespace left
/// over before the experiment does not fail it either.
pub proof fn law_teardown_cannot_fail_the_bundler_phase(attempts: Seq<Attempt>)
    requires
        attempts.len() == bundler_plan().len(),
        forall|i: int| 5 <= i < 40 ==> #[trigger] attempts[i] is Done,
    ensures
        outcome(bundler_plan(), attempts) is Ok,
{
    lemma_bundler_layout();
    lemma_outcome(bundler_plan(), attempts);
    assert forall|i: int| 0 <= i < 45 implies (#[trigger] bundler_plan()[i]).verdict(
        attempts[i],
    ) is Ok by {
        if i < 5 {
            assert(bundler_plan()[i] == netns_cleanup()[i]);
        } else if i < 40 {
            assert(attempts[i] is Done);
        } else {
            assert(bundler_plan()[i] is Try);
        }
    }
}

/// A command's exit status fails no plan: what comes of a plan is the same whether the
/// commands that ran ended cleanly or not.
pub proof fn law_exit_status_is_ignored(step: Step, clean: bool)
    ensures
        step.verdict(Attempt::Done { clean }) == Ok::<(), Failure>(()),
{
}

/// The observation windows: the control phase waits 180 seconds in all, the throughput
/// phase 185, and the bundler phase 190, of which the last 165 (180 for the control phase)
/// pass with every process running.
pub proof fn law_observation_windows()
    ensures
        waiting(control_plan()) == 180,
        waiting(iperf_plan()) == 185,
        waiting(bundler_run()) == 190,
{
    reveal_with_fuel(waiting, 16);
}

/// Cleaning up cannot fail: every step of the reset plan is only tried, so the plan
/// succeeds whatever comes of its steps.
pub proof fn law_reset_cannot_fail(attempts: Seq<Attempt>)
    requires
        attempts.len() == reset_plan().len(),
    ensures
        forall|i: int| 0 <= i < reset_plan().len() ==> #[trigger] reset_plan()[i] is Try,
        outcome(reset_plan(), attempts) is Ok,
{
    lemma_outcome(reset_plan(), attempts);
}

/// In every phase the receiving side is started before the sending side: the latency
/// responder before the latency probe, the throughput sink before the load generators, and
/// in the bundler phase the outbox before the inbox and the inbox before the congestion
/// controller.
pub proof fn law_receivers_start_first()
    ensures
        position(control_plan(), Step::Run(Host::Receiver, Command::UdpingServer)) < position(
            control_plan(),
            Step::Run(Host::Sender, Command::UdpingClient),
        ) < control_plan().len(),
        position(iperf_plan(), Step::Run(Host::Receiver, Command::UdpingServer)) < position(
            iperf_plan(),
            Step::Run(Host::Sender, Command::UdpingClient),
        ) < iperf_plan().len(),
        position(iperf_plan(), Step::Run(Host::Receiver, Command::IperfServer)) < position(
            iperf_plan(),
            Step::Run(Host::Sender, Command::IperfFirst),
        ) < position(iperf_plan(), Step::Run(Host::Sender, Command::IperfSecond))
            < iperf_plan().len(),
        position(bundler_run(), Step::Run(Host::Receiver, Command::Outbox)) < position(
            bundler_run(),
            Step::Run(Host::Sender, Command::Inbox),
        ) < position(bundler_run(), Step::Run(Host::Sender, Command::Nimbus)) < position(
            bundler_run(),
            Step::Run(Host::Receiver, Command::IperfServer),
        ) < position(bundler_run(), Step::Run(Host::Sender, Command::BundledIperfFirst))
            < bundler_run().len(),
{
    reveal_with_fuel(position, 12);
}

} // verus!
