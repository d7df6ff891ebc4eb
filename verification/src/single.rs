//! Single-pair experiments: the ping-based pipeline between one sender and one receiver,
//! without and with the bundler, in three deployments. The load generator runs in the
//! foreground here, so a failure to connect shows in what it prints.
use vstd::prelude::*;
use vstd::string::*;
use crate::phase::Failure;
use crate::plan::Attempt;
use crate::text::{contains, occurs};

verus! {

/// Where the machines of a single-pair experiment stand.
#[derive(Clone, Copy, Debug, PartialEq, Eq)]
pub enum Deployment {
    /// Sender and receiver are both started in the cloud.
    BothCloud,
    /// The sender is started in the cloud; the receiver is a machine that exists.
    CloudSender,
    /// The receiver is started in the cloud; the sender and a separate inbox machine exist.
    CloudReceiver,
}

/// A machine of a single-pair experiment.
#[derive(Clone, Copy, Debug, PartialEq, Eq)]
pub enum Machine {
    Sender,
    Inbox,
    Receiver,
}

/// Whose home directory an artifact lies in.
#[derive(Clone, Copy, Debug, PartialEq, Eq)]
pub enum Home {
    /// The login of a cloud machine.
    Cloud,
    /// The login of the machines that exist.
    Lab,
    /// The login of the receiver, as configured.
    Receiver,
}

/// A file that a single-pair experiment leaves behind.
#[derive(Clone, Copy, Debug, PartialEq, Eq)]
pub enum File {
    Ping,
    IperfServer,
    IperfClient,
    Ccp,
    Inbox,
    Outbox,
}

/// The local file that takes what the foreground load generator printed.
#[derive(Clone, Copy, Debug, PartialEq, Eq)]
pub enum Log {
    First,
    Second,
    SecondMarked,
}

/// One step of a single-pair plan.
#[derive(Clone, Copy, Debug, PartialEq, Eq)]
pub enum SingleStep {
    /// Run the command on the machine. If it cannot be run, the plan fails.
    Run(Machine, SingleCommand),
    /// Run the command on the machine and go on whatever comes of it.
    Try(Machine, SingleCommand),
    /// Run the load generator on the machine and wait for it. What it printed as errors
    /// decides whether the plan fails; what it printed otherwise goes into the log.
    Measure(Machine, SingleCommand, Log),
    /// Wait for so many seconds.
    Sleep(u64),
    /// Copy the file from the home directory on the machine into the output directory.
    Fetch(Machine, Home, File),
}

/// What the commands of a single-pair experiment are made from.
#[derive(Debug, PartialEq, Eq)]
pub struct SingleSetting {
    pub sender_ip: String,
    pub sender_iface: String,
    pub receiver_ip: String,
    pub receiver_iface: String,
    /// The login on the receiver.
    pub receiver_user: String,
    /// The address of the inbox machine.
    pub inbox_ip: String,
    /// The inbox's queue type.
    pub inbox_qtype: String,
    /// The inbox's buffer size.
    pub inbox_qlen: String,
}

/// A remote command of a single-pair experiment, named by what it is for.
#[derive(Clone, Copy, Debug, PartialEq, Eq)]
pub enum SingleCommand {
    /// Start the throughput sink that was built with the tools.
    IperfServerBuilt,
    /// Start the installed throughput sink.
    IperfServer,
    /// Start pinging the receiver.
    Ping,
    /// Start pinging the receiver as fast as the answers come.
    PingAdaptive,
    /// Run the load generator that was built with the tools, for 60 seconds.
    IperfBuilt,
    /// Run the installed load generator in a delay shell, for 90 seconds.
    IperfShaped,
    /// Run the installed load generator with 30 flows, for 60 seconds.
    IperfWide,
    /// Start a load generator in a delay shell and leave it running.
    IperfShapedDetached,
    /// Start a load generator with 30 flows in a delay shell and leave it running.
    IperfWideDetached,
    /// Start the outbox, which reports to the sender.
    Outbox,
    /// Start the outbox, which reports to the sender and writes into the home directory of
    /// the receiver's login.
    OutboxOfUser,
    /// Start the outbox, which reports to the inbox machine.
    OutboxToInbox,
    /// Start the inbox on the sender's interface.
    Inbox,
    /// Start the inbox on the inbox machine's interface.
    InboxOnMachine,
    /// Start the congestion controller.
    Nimbus,
    /// Let the machine forward packets.
    Forwarding,
    /// Enlarge the TCP send buffers.
    SendBuffers,
    /// Enlarge the TCP receive buffers.
    ReceiveBuffers,
    /// Look whether the outbox was built.
    FindOutbox,
    /// Look whether the throughput tool was built.
    FindIperf,
    /// Remove the output of an earlier ping.
    ForgetPing,
    /// Remove the output of an earlier load generator.
    ForgetIperf,
    /// Route what goes to the receiver through the inbox machine.
    RouteViaInbox,
    /// Forward from the inner to the outer interface of the inbox machine.
    ForwardAccept,
    /// Masquerade what leaves the inbox machine.
    Masquerade,
    /// Remove the queueing discipline of the inbox machine's interface.
    QdiscDel,
    /// Give the inbox machine's interface a plain queue.
    QdiscFifo,
    /// Take the branch of the bundler that the inbox machine runs.
    Checkout,
    /// Build the inbox and the congestion controller.
    MakeInbox,
    /// Kill the load generators and sinks.
    KillIperf,
    /// Kill the congestion controller.
    KillNimbus,
    /// Kill the inbox.
    KillInbox,
    /// Kill the ping.
    KillPing,
    /// Kill the outbox.
    KillOutbox,
    /// Ask the load generators and sinks to stop.
    StopIperf,
    /// Ask the ping to stop.
    StopPing,
}

impl SingleCommand {
    /// The text of the command for the machines of `setting`.
    pub open spec fn text(self, setting: &SingleSetting) -> Seq<char> {
        match self {
            SingleCommand::IperfServerBuilt =>
                "cd ~/tools/iperf && screen -d -m bash -c \"./src/iperf -s -p 5001 > ~/iperf_server.out 2> ~/iperf_server.out\""@,
            SingleCommand::IperfServer =>
                "screen -d -m bash -c \"iperf -s -p 5001 > ~/iperf_server.out 2> ~/iperf_server.out\""@,
            SingleCommand::Ping =>
                "sudo screen -d -m bash -c \"ping "@
                + setting.receiver_ip@
                + " > ~/ping.out 2> ~/ping.out\""@,
            SingleCommand::PingAdaptive =>
                "sudo screen -d -m bash -c \"ping -A "@
                + setting.receiver_ip@
                + " > ~/ping.out 2> ~/ping.out\""@,
            SingleCommand::IperfBuilt =>
                "cd ~/tools/iperf && mm-delay 0 ./src/iperf -c "@
                + setting.receiver_ip@
                + " -p 5001 -t 60 -i 1 -P 10"@,
            SingleCommand::IperfShaped =>
                "mm-delay 0 iperf -c "@
                + setting.receiver_ip@
                + " -p 5001 -t 90 -i 1 -P 10"@,
            SingleCommand::IperfWide => "iperf -c "@ + setting.receiver_ip@ + " -p 5001 -t 60 -i 1 -P 30"@,
            SingleCommand::IperfShapedDetached =>
                "screen -d -m bash -c \"mm-delay 0 iperf -c "@
                + setting.receiver_ip@
                + " -p 5001 -t 90 -i 1 -P 10 > ~/iperf_client_1.out 2> ~/iperf_client_1.out\""@,
            SingleCommand::IperfWideDetached =>
                "screen -d -m bash -c \"mm-delay 0 iperf -c "@
                + setting.receiver_ip@
                + " -p 5001 -t 90 -i 1 -P 30 > ~/iperf_client_1.out 2> ~/iperf_client_1.out\""@,
            SingleCommand::Outbox =>
                "cd ~/tools/bundler && sudo screen -d -m bash -c \"./target/debug/outbox --filter=\\\"dst portrange 5000-6000\\\" --iface="@
                + setting.receiver_iface@
                + " --inbox "@
                + setting.sender_ip@
                + ":28316 --sample_rate=64 > ~/outbox.out 2> ~/outbox.out\""@,
            SingleCommand::OutboxOfUser =>
                "cd ~/tools/bundler && sudo screen -d -m bash -c \"./target/debug/outbox --filter=\\\"dst portrange 5000-6000\\\" --iface="@
                + setting.receiver_iface@
                + " --inbox "@
                + setting.sender_ip@
                + ":28316 --sample_rate=64 > /home/"@
                + setting.receiver_user@
                + "/outbox.out 2> /home/"@
                + setting.receiver_user@
                + "/outbox.out\""@,
            SingleCommand::OutboxToInbox =>
                "cd ~/tools/bundler && sudo screen -d -m bash -c \"./target/debug/outbox --filter=\\\"dst portrange 5000-6000\\\" --iface="@
                + setting.receiver_iface@
                + " --inbox 18.26.5.2:28316 --sample_rate=64 > ~/outbox.out 2> ~/outbox.out\""@,
            SingleCommand::Inbox =>
                "cd ~/tools/bundler && sudo screen -d -m bash -c \"./target/debug/inbox --iface="@
                + setting.sender_iface@
                + " --port 28316 --sample_rate=128 --qtype="@
                + setting.inbox_qtype@
                + " --buffer="@
                + setting.inbox_qlen@
                + " > ~/inbox.out 2> ~/inbox.out\""@,
            SingleCommand::InboxOnMachine =>
                "cd ~/tools/bundler && sudo screen -d -m bash -c \"./target/debug/inbox --iface=em1 --port 28316 --sample_rate=128 --qtype="@
                + setting.inbox_qtype@
                + " --buffer="@
                + setting.inbox_qlen@
                + " > ~/inbox.out 2> ~/inbox.out\""@,
            SingleCommand::Nimbus =>
                "cd ~/tools/nimbus && sudo screen -d -m bash -c \"./target/debug/nimbus --ipc=unix --use_switching=true --loss_mode=Bundle --delay_mode=Nimbus --flow_mode=XTCP --bw_est_mode=true --bundler_qlen_alpha=100 --bundler_qlen_beta=10000 --bundler_qlen=100 > ~/ccp.out 2> ~/ccp.out\""@,
            SingleCommand::Forwarding => "sudo sysctl -w net.ipv4.ip_forward=1"@,
            SingleCommand::SendBuffers => "sudo sysctl -w net.ipv4.tcp_wmem=\"4096000 50331648 50331648\""@,
            SingleCommand::ReceiveBuffers => "sudo sysctl -w net.ipv4.tcp_rmem=\"4096000 50331648 50331648\""@,
            SingleCommand::FindOutbox => "ls ~/tools/bundler/target/debug/outbox"@,
            SingleCommand::FindIperf => "ls ~/tools/iperf/src/iperf"@,
            SingleCommand::ForgetPing => "rm -f ~/ping.out"@,
            SingleCommand::ForgetIperf => "rm -f ~/iperf_client_1.out"@,
            SingleCommand::RouteViaInbox =>
                "sudo ip route add "@
                + setting.receiver_ip@
                + " via "@
                + setting.inbox_ip@,
            SingleCommand::ForwardAccept => "sudo iptables -A FORWARD -i 10gp1 -o em1 -j ACCEPT"@,
            SingleCommand::Masquerade => "sudo iptables -t nat -A POSTROUTING -o em1 -j MASQUERADE"@,
            SingleCommand::QdiscDel => "sudo tc qdisc del dev em1 root"@,
            SingleCommand::QdiscFifo => "sudo tc qdisc add dev em1 root pfifo_fast"@,
            SingleCommand::Checkout => "cd ~/tools/bundler && git fetch && git checkout origin/no_dst_ip"@,
            SingleCommand::MakeInbox => "make -C tools bundler/target/debug/inbox nimbus/target/debug/nimbus"@,
            SingleCommand::KillIperf => "sudo pkill -9 iperf"@,
            SingleCommand::KillNimbus => "sudo pkill -9 nimbus"@,
            SingleCommand::KillInbox => "sudo pkill -9 inbox"@,
            SingleCommand::KillPing => "sudo pkill -9 ping"@,
            SingleCommand::KillOutbox => "sudo pkill -9 outbox"@,
            SingleCommand::StopIperf => "sudo pkill iperf"@,
            SingleCommand::StopPing => "sudo pkill ping"@,
        }
    }

    /// The text of the command for the machines of `setting`.
    pub fn render(self, setting: &SingleSetting) -> (r: String)
        ensures
            r@ == self.text(setting),
    {
        match self {
            SingleCommand::IperfServerBuilt => String::from_str("cd ~/tools/iperf && screen -d -m bash -c \"./src/iperf -s -p 5001 > ~/iperf_server.out 2> ~/iperf_server.out\""),
            SingleCommand::IperfServer => String::from_str("screen -d -m bash -c \"iperf -s -p 5001 > ~/iperf_server.out 2> ~/iperf_server.out\""),
            SingleCommand::Ping => {
                let mut s = String::from_str("sudo screen -d -m bash -c \"ping ");
                s.append(setting.receiver_ip.as_str());
                s.append(" > ~/ping.out 2> ~/ping.out\"");
                s
            },
            SingleCommand::PingAdaptive => {
                let mut s = String::from_str("sudo screen -d -m bash -c \"ping -A ");
                s.append(setting.receiver_ip.as_str());
                s.append(" > ~/ping.out 2> ~/ping.out\"");
                s
            },
            SingleCommand::IperfBuilt => {
                let mut s = String::from_str("cd ~/tools/iperf && mm-delay 0 ./src/iperf -c ");
                s.append(setting.receiver_ip.as_str());
                s.append(" -p 5001 -t 60 -i 1 -P 10");
                s
            },
            SingleCommand::IperfShaped => {
                let mut s = String::from_str("mm-delay 0 iperf -c ");
                s.append(setting.receiver_ip.as_str());
                s.append(" -p 5001 -t 90 -i 1 -P 10");
                s
            },
            SingleCommand::IperfWide => {
                let mut s = String::from_str("iperf -c ");
                s.append(setting.receiver_ip.as_str());
                s.append(" -p 5001 -t 60 -i 1 -P 30");
                s
            },
            SingleCommand::IperfShapedDetached => {
                let mut s = String::from_str("screen -d -m bash -c \"mm-delay 0 iperf -c ");
                s.append(setting.receiver_ip.as_str());
                s.append(" -p 5001 -t 90 -i 1 -P 10 > ~/iperf_client_1.out 2> ~/iperf_client_1.out\"");
                s
            },
            SingleCommand::IperfWideDetached => {
                let mut s = String::from_str("screen -d -m bash -c \"mm-delay 0 iperf -c ");
                s.append(setting.receiver_ip.as_str());
                s.append(" -p 5001 -t 90 -i 1 -P 30 > ~/iperf_client_1.out 2> ~/iperf_client_1.out\"");
                s
            },
            SingleCommand::Outbox => {
                let mut s = String::from_str("cd ~/tools/bundler && sudo screen -d -m bash -c \"./target/debug/outbox --filter=\\\"dst portrange 5000-6000\\\" --iface=");
                s.append(setting.receiver_iface.as_str());
                s.append(" --inbox ");
                s.append(setting.sender_ip.as_str());
                s.append(":28316 --sample_rate=64 > ~/outbox.out 2> ~/outbox.out\"");
                s
            },
            SingleCommand::OutboxOfUser => {
                let mut s = String::from_str("cd ~/tools/bundler && sudo screen -d -m bash -c \"./target/debug/outbox --filter=\\\"dst portrange 5000-6000\\\" --iface=");
                s.append(setting.receiver_iface.as_str());
                s.append(" --inbox ");
                s.append(setting.sender_ip.as_str());
                s.append(":28316 --sample_rate=64 > /home/");
                s.append(setting.receiver_user.as_str());
                s.append("/outbox.out 2> /home/");
                s.append(setting.receiver_user.as_str());
                s.append("/outbox.out\"");
                s
            },
            SingleCommand::OutboxToInbox => {
                let mut s = String::from_str("cd ~/tools/bundler && sudo screen -d -m bash -c \"./target/debug/outbox --filter=\\\"dst portrange 5000-6000\\\" --iface=");
                s.append(setting.receiver_iface.as_str());
                s.append(" --inbox 18.26.5.2:28316 --sample_rate=64 > ~/outbox.out 2> ~/outbox.out\"");
                s
            },
            SingleCommand::Inbox => {
                let mut s = String::from_str("cd ~/tools/bundler && sudo screen -d -m bash -c \"./target/debug/inbox --iface=");
                s.append(setting.sender_iface.as_str());
                s.append(" --port 28316 --sample_rate=128 --qtype=");
                s.append(setting.inbox_qtype.as_str());
                s.append(" --buffer=");
                s.append(setting.inbox_qlen.as_str());
                s.append(" > ~/inbox.out 2> ~/inbox.out\"");
                s
            },
            SingleCommand::InboxOnMachine => {
                let mut s = String::from_str("cd ~/tools/bundler && sudo screen -d -m bash -c \"./target/debug/inbox --iface=em1 --port 28316 --sample_rate=128 --qtype=");
                s.append(setting.inbox_qtype.as_str());
                s.append(" --buffer=");
                s.append(setting.inbox_qlen.as_str());
                s.append(" > ~/inbox.out 2> ~/inbox.out\"");
                s
            },
            SingleCommand::Nimbus => String::from_str("cd ~/tools/nimbus && sudo screen -d -m bash -c \"./target/debug/nimbus --ipc=unix --use_switching=true --loss_mode=Bundle --delay_mode=Nimbus --flow_mode=XTCP --bw_est_mode=true --bundler_qlen_alpha=100 --bundler_qlen_beta=10000 --bundler_qlen=100 > ~/ccp.out 2> ~/ccp.out\""),
            SingleCommand::Forwarding => String::from_str("sudo sysctl -w net.ipv4.ip_forward=1"),
            SingleCommand::SendBuffers => String::from_str("sudo sysctl -w net.ipv4.tcp_wmem=\"4096000 50331648 50331648\""),
            SingleCommand::ReceiveBuffers => String::from_str("sudo sysctl -w net.ipv4.tcp_rmem=\"4096000 50331648 50331648\""),
            SingleCommand::FindOutbox => String::from_str("ls ~/tools/bundler/target/debug/outbox"),
            SingleCommand::FindIperf => String::from_str("ls ~/tools/iperf/src/iperf"),
            SingleCommand::ForgetPing => String::from_str("rm -f ~/ping.out"),
            SingleCommand::ForgetIperf => String::from_str("rm -f ~/iperf_client_1.out"),
            SingleCommand::RouteViaInbox => {
                let mut s = String::from_str("sudo ip route add ");
                s.append(setting.receiver_ip.as_str());
                s.append(" via ");
                s.append(setting.inbox_ip.as_str());
                s
            },
            SingleCommand::ForwardAccept => String::from_str("sudo iptables -A FORWARD -i 10gp1 -o em1 -j ACCEPT"),
            SingleCommand::Masquerade => String::from_str("sudo iptables -t nat -A POSTROUTING -o em1 -j MASQUERADE"),
            SingleCommand::QdiscDel => String::from_str("sudo tc qdisc del dev em1 root"),
            SingleCommand::QdiscFifo => String::from_str("sudo tc qdisc add dev em1 root pfifo_fast"),
            SingleCommand::Checkout => String::from_str("cd ~/tools/bundler && git fetch && git checkout origin/no_dst_ip"),
            SingleCommand::MakeInbox => String::from_str("make -C tools bundler/target/debug/inbox nimbus/target/debug/nimbus"),
            SingleCommand::KillIperf => String::from_str("sudo pkill -9 iperf"),
            SingleCommand::KillNimbus => String::from_str("sudo pkill -9 nimbus"),
            SingleCommand::KillInbox => String::from_str("sudo pkill -9 inbox"),
            SingleCommand::KillPing => String::from_str("sudo pkill -9 ping"),
            SingleCommand::KillOutbox => String::from_str("sudo pkill -9 outbox"),
            SingleCommand::StopIperf => String::from_str("sudo pkill iperf"),
            SingleCommand::StopPing => String::from_str("sudo pkill ping"),
        }
    }
}

impl File {
    /// The file's name on the machine.
    pub open spec fn remote_name(self) -> Seq<char> {
        match self {
            File::Ping => "ping.out"@,
            File::IperfServer => "iperf_server.out"@,
            File::IperfClient => "iperf_client_1.out"@,
            File::Ccp => "ccp.out"@,
            File::Inbox => "inbox.out"@,
            File::Outbox => "outbox.out"@,
        }
    }

    /// The file's name in the output directory.
    pub open spec fn local_name(self) -> Seq<char> {
        match self {
            File::Ping => "ping.log"@,
            File::IperfServer => "iperf_server.log"@,
            File::IperfClient => "iperf_client_1.log"@,
            File::Ccp => "ccp.log"@,
            File::Inbox => "inbox.log"@,
            File::Outbox => "outbox.log"@,
        }
    }

    /// The file's name on the machine.
    pub fn remote_file(self) -> (r: &'static str)
        ensures
            r@ == self.remote_name(),
    {
        match self {
            File::Ping => "ping.out",
            File::IperfServer => "iperf_server.out",
            File::IperfClient => "iperf_client_1.out",
            File::Ccp => "ccp.out",
            File::Inbox => "inbox.out",
            File::Outbox => "outbox.out",
        }
    }

    /// The file's name in the output directory.
    pub fn local_file(self) -> (r: &'static str)
        ensures
            r@ == self.local_name(),
    {
        match self {
            File::Ping => "ping.log",
            File::IperfServer => "iperf_server.log",
            File::IperfClient => "iperf_client_1.log",
            File::Ccp => "ccp.log",
            File::Inbox => "inbox.log",
            File::Outbox => "outbox.log",
        }
    }
}

impl Home {
    /// The login whose home directory it is.
    pub open spec fn login(self, setting: &SingleSetting) -> Seq<char> {
        match self {
            Home::Cloud => "ubuntu"@,
            Home::Lab => "akshayn"@,
            Home::Receiver => setting.receiver_user@,
        }
    }

    /// The login whose home directory it is.
    pub fn user(self, setting: &SingleSetting) -> (r: String)
        ensures
            r@ == self.login(setting),
    {
        match self {
            Home::Cloud => String::from_str("ubuntu"),
            Home::Lab => String::from_str("akshayn"),
            Home::Receiver => setting.receiver_user.clone(),
        }
    }
}

impl Log {
    /// The log's file name.
    pub open spec fn name(self) -> Seq<char> {
        match self {
            Log::First => "iperf_client.log"@,
            Log::Second => "iperf_client_2.log"@,
            Log::SecondMarked => "iperf_client_2:.log"@,
        }
    }

    /// The log's file name.
    pub fn file(self) -> (r: &'static str)
        ensures
            r@ == self.name(),
    {
        match self {
            Log::First => "iperf_client.log",
            Log::Second => "iperf_client_2.log",
            Log::SecondMarked => "iperf_client_2:.log",
        }
    }
}

/// From where and to where a file is copied: `/home/<login>/<file>` on the machine, and the
/// file's local name in `out_dir`.
pub fn fetch_paths(home: Home, file: File, setting: &SingleSetting, out_dir: &str) -> (paths: (
    String,
    String,
))
    ensures
        paths.0@ == "/home/"@ + home.login(setting) + "/"@ + file.remote_name(),
        paths.1@ == out_dir@ + "/"@ + file.local_name(),
{
    let mut remote = String::from_str("/home/");
    remote.append(home.user(setting).as_str());
    remote.append("/");
    remote.append(file.remote_file());
    let mut local = String::from_str(out_dir);
    local.append("/");
    local.append(file.local_file());
    (remote, local)
}

/// The path of `log` in `out_dir`.
pub fn log_path(log: Log, out_dir: &str) -> (path: String)
    ensures
        path@ == out_dir@ + "/"@ + log.name(),
{
    let mut path = String::from_str(out_dir);
    path.append("/");
    path.append(log.file());
    path
}

/// What the load generator's error output says of the launch: a failure to connect if it
/// holds the words `connect failed`, success otherwise.
pub fn launch_result(stderr: &str) -> (r: Result<(), Failure>)
    ensures
        r == launch_verdict(stderr@),
{
    if contains(stderr, "connect failed") {
        Err(Failure::Connect)
    } else {
        Ok(())
    }
}

/// What the error output of a load generator that ran says: a failure to connect if it
/// holds the words `connect failed`.
pub open spec fn launch_verdict(stderr: Seq<char>) -> Result<(), Failure> {
    if occurs(stderr, "connect failed"@) {
        Err(Failure::Connect)
    } else {
        Ok(())
    }
}

impl SingleStep {
    /// Whether the plan goes on after this step, given what came of trying it and, for a
    /// measurement, what the load generator printed as errors. A step that is only tried
    /// never ends the plan. Any other step ends it as a transport failure when it was lost.
    /// A measurement that ran ends it when the load generator could not connect. The exit
    /// status of a command that ran ends nothing.
    pub open spec fn verdict(self, attempt: Attempt, stderr: Seq<char>) -> Result<(), Failure> {
        if self is Try {
            Ok(())
        } else if attempt is Lost {
            Err(Failure::Transport)
        } else if self is Measure {
            launch_verdict(stderr)
        } else {
            Ok(())
        }
    }
}

/// Whether the plan goes on after `step`, given what came of trying it and what it printed
/// as errors.
pub fn goes_on(step: SingleStep, attempt: Attempt, stderr: &str) -> (r: Result<(), Failure>)
    ensures
        r == step.verdict(attempt, stderr@),
{
    match step {
        SingleStep::Try(_, _) => Ok(()),
        _ => match attempt {
            Attempt::Lost => Err(Failure::Transport),
            Attempt::Done { .. } => match step {
                SingleStep::Measure(_, _, _) => launch_result(stderr),
                _ => Ok(()),
            },
        },
    }
}

/// The experiment without the bundler in `deployment`.
pub open spec fn plain_plan(deployment: Deployment) -> Seq<SingleStep> {
    match deployment {
        Deployment::BothCloud => seq![
            SingleStep::Run(Machine::Receiver, SingleCommand::IperfServerBuilt),
            SingleStep::Run(Machine::Sender, SingleCommand::Ping),
            SingleStep::Measure(Machine::Sender, SingleCommand::IperfBuilt, Log::First),
            SingleStep::Sleep(5),
            SingleStep::Fetch(Machine::Sender, Home::Cloud, File::Ping),
            SingleStep::Fetch(Machine::Receiver, Home::Cloud, File::IperfServer),
        ],
        Deployment::CloudSender => seq![
            SingleStep::Run(Machine::Receiver, SingleCommand::IperfServerBuilt),
            SingleStep::Run(Machine::Sender, SingleCommand::PingAdaptive),
            SingleStep::Run(Machine::Sender, SingleCommand::IperfShapedDetached),
            SingleStep::Measure(Machine::Sender, SingleCommand::IperfShaped, Log::SecondMarked),
            SingleStep::Sleep(5),
            SingleStep::Fetch(Machine::Sender, Home::Cloud, File::Ping),
            SingleStep::Fetch(Machine::Sender, Home::Cloud, File::IperfClient),
            SingleStep::Fetch(Machine::Receiver, Home::Receiver, File::IperfServer),
        ],
        Deployment::CloudReceiver => seq![
            SingleStep::Run(Machine::Receiver, SingleCommand::IperfServer),
            SingleStep::Run(Machine::Sender, SingleCommand::Ping),
            SingleStep::Run(Machine::Inbox, SingleCommand::IperfWideDetached),
            SingleStep::Measure(Machine::Sender, SingleCommand::IperfWide, Log::Second),
            SingleStep::Fetch(Machine::Receiver, Home::Cloud, File::IperfServer),
            SingleStep::Fetch(Machine::Inbox, Home::Lab, File::IperfClient),
            SingleStep::Fetch(Machine::Sender, Home::Lab, File::Ping),
        ],
    }
}

/// The experiment with the bundler in `deployment`.
pub open spec fn bundled_plan(deployment: Deployment) -> Seq<SingleStep> {
    match deployment {
        Deployment::BothCloud => seq![
            SingleStep::Run(Machine::Receiver, SingleCommand::Outbox),
            SingleStep::Run(Machine::Receiver, SingleCommand::IperfServerBuilt),
            SingleStep::Run(Machine::Sender, SingleCommand::Ping),
            SingleStep::Run(Machine::Sender, SingleCommand::Inbox),
            SingleStep::Sleep(5),
            SingleStep::Run(Machine::Sender, SingleCommand::Nimbus),
            SingleStep::Measure(Machine::Sender, SingleCommand::IperfBuilt, Log::First),
            SingleStep::Sleep(5),
            SingleStep::Fetch(Machine::Sender, Home::Cloud, File::Ping),
            SingleStep::Fetch(Machine::Sender, Home::Cloud, File::Ccp),
            SingleStep::Fetch(Machine::Sender, Home::Cloud, File::Inbox),
            SingleStep::Fetch(Machine::Receiver, Home::Cloud, File::Outbox),
            SingleStep::Fetch(Machine::Receiver, Home::Cloud, File::IperfServer),
        ],
        Deployment::CloudSender => seq![
            SingleStep::Run(Machine::Receiver, SingleCommand::OutboxOfUser),
            SingleStep::Run(Machine::Receiver, SingleCommand::IperfServerBuilt),
            SingleStep::Run(Machine::Sender, SingleCommand::PingAdaptive),
            SingleStep::Run(Machine::Sender, SingleCommand::Inbox),
            SingleStep::Sleep(5),
            SingleStep::Run(Machine::Sender, SingleCommand::Nimbus),
            SingleStep::Run(Machine::Sender, SingleCommand::IperfShapedDetached),
            SingleStep::Measure(Machine::Sender, SingleCommand::IperfShaped, Log::SecondMarked),
            SingleStep::Sleep(5),
            SingleStep::Fetch(Machine::Sender, Home::Cloud, File::Ping),
            SingleStep::Fetch(Machine::Sender, Home::Cloud, File::Ccp),
            SingleStep::Fetch(Machine::Sender, Home::Cloud, File::Inbox),
            SingleStep::Fetch(Machine::Sender, Home::Cloud, File::IperfClient),
            SingleStep::Fetch(Machine::Receiver, Home::Receiver, File::Outbox),
            SingleStep::Fetch(Machine::Receiver, Home::Receiver, File::IperfServer),
        ],
        Deployment::CloudReceiver => seq![
            SingleStep::Run(Machine::Receiver, SingleCommand::IperfServer),
            SingleStep::Run(Machine::Receiver, SingleCommand::OutboxToInbox),
            SingleStep::Run(Machine::Sender, SingleCommand::Ping),
            SingleStep::Run(Machine::Inbox, SingleCommand::InboxOnMachine),
            SingleStep::Sleep(5),
            SingleStep::Run(Machine::Inbox, SingleCommand::Nimbus),
            SingleStep::Sleep(5),
            SingleStep::Run(Machine::Inbox, SingleCommand::IperfWideDetached),
            SingleStep::Measure(Machine::Sender, SingleCommand::IperfWide, Log::Second),
            SingleStep::Fetch(Machine::Receiver, Home::Cloud, File::IperfServer),
            SingleStep::Fetch(Machine::Receiver, Home::Cloud, File::Outbox),
            SingleStep::Fetch(Machine::Inbox, Home::Lab, File::IperfClient),
            SingleStep::Fetch(Machine::Inbox, Home::Lab, File::Inbox),
            SingleStep::Fetch(Machine::Inbox, Home::Lab, File::Ccp),
            SingleStep::Fetch(Machine::Sender, Home::Lab, File::Ping),
        ],
    }
}

/// What is stopped between the two experiments in `deployment`; with a cloud sender, also
/// before the first. No step can fail the plan.
pub open spec fn stop_plan(deployment: Deployment) -> Seq<SingleStep> {
    match deployment {
        Deployment::BothCloud => seq![
            SingleStep::Try(Machine::Sender, SingleCommand::StopIperf),
            SingleStep::Try(Machine::Sender, SingleCommand::StopPing),
            SingleStep::Try(Machine::Receiver, SingleCommand::StopIperf),
        ],
        Deployment::CloudSender => seq![
            SingleStep::Try(Machine::Sender, SingleCommand::KillIperf),
            SingleStep::Try(Machine::Sender, SingleCommand::KillNimbus),
            SingleStep::Try(Machine::Sender, SingleCommand::KillInbox),
            SingleStep::Try(Machine::Sender, SingleCommand::KillPing),
            SingleStep::Try(Machine::Receiver, SingleCommand::KillIperf),
            SingleStep::Try(Machine::Receiver, SingleCommand::KillOutbox),
        ],
        Deployment::CloudReceiver => Seq::empty(),
    }
}

/// What is done on a receiver that exists once it is connected.
pub open spec fn receiver_plan() -> Seq<SingleStep> {
    seq![
        SingleStep::Run(Machine::Receiver, SingleCommand::SendBuffers),
        SingleStep::Run(Machine::Receiver, SingleCommand::ReceiveBuffers),
        SingleStep::Run(Machine::Receiver, SingleCommand::FindOutbox),
        SingleStep::Run(Machine::Receiver, SingleCommand::FindIperf),
        SingleStep::Run(Machine::Receiver, SingleCommand::ForgetPing),
    ]
}

/// What is done on a sender that exists once it is connected.
pub open spec fn sender_plan() -> Seq<SingleStep> {
    seq![
        SingleStep::Run(Machine::Sender, SingleCommand::RouteViaInbox),
        SingleStep::Run(Machine::Sender, SingleCommand::Forwarding),
        SingleStep::Run(Machine::Sender, SingleCommand::SendBuffers),
        SingleStep::Run(Machine::Sender, SingleCommand::ReceiveBuffers),
        SingleStep::Run(Machine::Sender, SingleCommand::ForgetPing),
    ]
}

/// What is done on the inbox machine once it is connected.
pub open spec fn inbox_plan() -> Seq<SingleStep> {
    seq![
        SingleStep::Run(Machine::Inbox, SingleCommand::Forwarding),
        SingleStep::Run(Machine::Inbox, SingleCommand::ForwardAccept),
        SingleStep::Run(Machine::Inbox, SingleCommand::Masquerade),
        SingleStep::Try(Machine::Inbox, SingleCommand::QdiscDel),
        SingleStep::Run(Machine::Inbox, SingleCommand::QdiscFifo),
        SingleStep::Run(Machine::Inbox, SingleCommand::SendBuffers),
        SingleStep::Run(Machine::Inbox, SingleCommand::ReceiveBuffers),
        SingleStep::Run(Machine::Inbox, SingleCommand::Checkout),
        SingleStep::Run(Machine::Inbox, SingleCommand::MakeInbox),
        SingleStep::Run(Machine::Inbox, SingleCommand::ForgetIperf),
    ]
}

/// The plan of the experiment without the bundler in `deployment`.
pub fn nobundler_exp(deployment: Deployment) -> (plan: Vec<SingleStep>)
    ensures
        plan@ == plain_plan(deployment),
{
    match deployment {
        Deployment::BothCloud => {
            let plan = vec![
                SingleStep::Run(Machine::Receiver, SingleCommand::IperfServerBuilt),
                SingleStep::Run(Machine::Sender, SingleCommand::Ping),
                SingleStep::Measure(Machine::Sender, SingleCommand::IperfBuilt, Log::First),
                SingleStep::Sleep(5),
                SingleStep::Fetch(Machine::Sender, Home::Cloud, File::Ping),
                SingleStep::Fetch(Machine::Receiver, Home::Cloud, File::IperfServer),
            ];
            assert(plan@ =~= plain_plan(deployment));
            plan
        },
        Deployment::CloudSender => {
            let plan = vec![
                SingleStep::Run(Machine::Receiver, SingleCommand::IperfServerBuilt),
                SingleStep::Run(Machine::Sender, SingleCommand::PingAdaptive),
                SingleStep::Run(Machine::Sender, SingleCommand::IperfShapedDetached),
                SingleStep::Measure(Machine::Sender, SingleCommand::IperfShaped, Log::SecondMarked),
                SingleStep::Sleep(5),
                SingleStep::Fetch(Machine::Sender, Home::Cloud, File::Ping),
                SingleStep::Fetch(Machine::Sender, Home::Cloud, File::IperfClient),
                SingleStep::Fetch(Machine::Receiver, Home::Receiver, File::IperfServer),
            ];
            assert(plan@ =~= plain_plan(deployment));
            plan
        },
        Deployment::CloudReceiver => {
            let plan = vec![
                SingleStep::Run(Machine::Receiver, SingleCommand::IperfServer),
                SingleStep::Run(Machine::Sender, SingleCommand::Ping),
                SingleStep::Run(Machine::Inbox, SingleCommand::IperfWideDetached),
                SingleStep::Measure(Machine::Sender, SingleCommand::IperfWide, Log::Second),
                SingleStep::Fetch(Machine::Receiver, Home::Cloud, File::IperfServer),
                SingleStep::Fetch(Machine::Inbox, Home::Lab, File::IperfClient),
                SingleStep::Fetch(Machine::Sender, Home::Lab, File::Ping),
            ];
            assert(plan@ =~= plain_plan(deployment));
            plan
        },
    }
}

/// The plan of the experiment with the bundler in `deployment`.
pub fn bundler_exp(deployment: Deployment) -> (plan: Vec<SingleStep>)
    ensures
        plan@ == bundled_plan(deployment),
{
    match deployment {
        Deployment::BothCloud => {
            let plan = vec![
                SingleStep::Run(Machine::Receiver, SingleCommand::Outbox),
                SingleStep::Run(Machine::Receiver, SingleCommand::IperfServerBuilt),
                SingleStep::Run(Machine::Sender, SingleCommand::Ping),
                SingleStep::Run(Machine::Sender, SingleCommand::Inbox),
                SingleStep::Sleep(5),
                SingleStep::Run(Machine::Sender, SingleCommand::Nimbus),
                SingleStep::Measure(Machine::Sender, SingleCommand::IperfBuilt, Log::First),
                SingleStep::Sleep(5),
                SingleStep::Fetch(Machine::Sender, Home::Cloud, File::Ping),
                SingleStep::Fetch(Machine::Sender, Home::Cloud, File::Ccp),
                SingleStep::Fetch(Machine::Sender, Home::Cloud, File::Inbox),
                SingleStep::Fetch(Machine::Receiver, Home::Cloud, File::Outbox),
                SingleStep::Fetch(Machine::Receiver, Home::Cloud, File::IperfServer),
            ];
            assert(plan@ =~= bundled_plan(deployment));
            plan
        },
        Deployment::CloudSender => {
            let plan = vec![
                SingleStep::Run(Machine::Receiver, SingleCommand::OutboxOfUser),
                SingleStep::Run(Machine::Receiver, SingleCommand::IperfServerBuilt),
                SingleStep::Run(Machine::Sender, SingleCommand::PingAdaptive),
                SingleStep::Run(Machine::Sender, SingleCommand::Inbox),
                SingleStep::Sleep(5),
                SingleStep::Run(Machine::Sender, SingleCommand::Nimbus),
                SingleStep::Run(Machine::Sender, SingleCommand::IperfShapedDetached),
                SingleStep::Measure(Machine::Sender, SingleCommand::IperfShaped, Log::SecondMarked),
                SingleStep::Sleep(5),
                SingleStep::Fetch(Machine::Sender, Home::Cloud, File::Ping),
                SingleStep::Fetch(Machine::Sender, Home::Cloud, File::Ccp),
                SingleStep::Fetch(Machine::Sender, Home::Cloud, File::Inbox),
                SingleStep::Fetch(Machine::Sender, Home::Cloud, File::IperfClient),
                SingleStep::Fetch(Machine::Receiver, Home::Receiver, File::Outbox),
                SingleStep::Fetch(Machine::Receiver, Home::Receiver, File::IperfServer),
            ];
            assert(plan@ =~= bundled_plan(deployment));
            plan
        },
        Deployment::CloudReceiver => {
            let plan = vec![
                SingleStep::Run(Machine::Receiver, SingleCommand::IperfServer),
                SingleStep::Run(Machine::Receiver, SingleCommand::OutboxToInbox),
                SingleStep::Run(Machine::Sender, SingleCommand::Ping),
                SingleStep::Run(Machine::Inbox, SingleCommand::InboxOnMachine),
                SingleStep::Sleep(5),
                SingleStep::Run(Machine::Inbox, SingleCommand::Nimbus),
                SingleStep::Sleep(5),
                SingleStep::Run(Machine::Inbox, SingleCommand::IperfWideDetached),
                SingleStep::Measure(Machine::Sender, SingleCommand::IperfWide, Log::Second),
                SingleStep::Fetch(Machine::Receiver, Home::Cloud, File::IperfServer),
                SingleStep::Fetch(Machine::Receiver, Home::Cloud, File::Outbox),
                SingleStep::Fetch(Machine::Inbox, Home::Lab, File::IperfClient),
                SingleStep::Fetch(Machine::Inbox, Home::Lab, File::Inbox),
                SingleStep::Fetch(Machine::Inbox, Home::Lab, File::Ccp),
                SingleStep::Fetch(Machine::Sender, Home::Lab, File::Ping),
            ];
            assert(plan@ =~= bundled_plan(deployment));
            plan
        },
    }
}

/// What is stopped between the two experiments in `deployment`.
pub fn stop_between(deployment: Deployment) -> (plan: Vec<SingleStep>)
    ensures
        plan@ == stop_plan(deployment),
{
    match deployment {
        Deployment::BothCloud => {
            let plan = vec![
                SingleStep::Try(Machine::Sender, SingleCommand::StopIperf),
                SingleStep::Try(Machine::Sender, SingleCommand::StopPing),
                SingleStep::Try(Machine::Receiver, SingleCommand::StopIperf),
            ];
            assert(plan@ =~= stop_plan(deployment));
            plan
        },
        Deployment::CloudSender => {
            let plan = vec![
                SingleStep::Try(Machine::Sender, SingleCommand::KillIperf),
                SingleStep::Try(Machine::Sender, SingleCommand::KillNimbus),
                SingleStep::Try(Machine::Sender, SingleCommand::KillInbox),
                SingleStep::Try(Machine::Sender, SingleCommand::KillPing),
                SingleStep::Try(Machine::Receiver, SingleCommand::KillIperf),
                SingleStep::Try(Machine::Receiver, SingleCommand::KillOutbox),
            ];
            assert(plan@ =~= stop_plan(deployment));
            plan
        },
        Deployment::CloudReceiver => Vec::new(),
    }
}

/// What is done on a receiver that exists once it is connected.
pub fn connect_receiver() -> (plan: Vec<SingleStep>)
    ensures
        plan@ == receiver_plan(),
{
    let plan = vec![
        SingleStep::Run(Machine::Receiver, SingleCommand::SendBuffers),
        SingleStep::Run(Machine::Receiver, SingleCommand::ReceiveBuffers),
        SingleStep::Run(Machine::Receiver, SingleCommand::FindOutbox),
        SingleStep::Run(Machine::Receiver, SingleCommand::FindIperf),
        SingleStep::Run(Machine::Receiver, SingleCommand::ForgetPing),
    ];
    assert(plan@ =~= receiver_plan());
    plan
}

/// What is done on a sender that exists once it is connected.
pub fn connect_sender() -> (plan: Vec<SingleStep>)
    ensures
        plan@ == sender_plan(),
{
    let plan = vec![
        SingleStep::Run(Machine::Sender, SingleCommand::RouteViaInbox),
        SingleStep::Run(Machine::Sender, SingleCommand::Forwarding),
        SingleStep::Run(Machine::Sender, SingleCommand::SendBuffers),
        SingleStep::Run(Machine::Sender, SingleCommand::ReceiveBuffers),
        SingleStep::Run(Machine::Sender, SingleCommand::ForgetPing),
    ];
    assert(plan@ =~= sender_plan());
    plan
}

/// What is done on the inbox machine once it is connected.
pub fn connect_inbox() -> (plan: Vec<SingleStep>)
    ensures
        plan@ == inbox_plan(),
{
    let plan = vec![
        SingleStep::Run(Machine::Inbox, SingleCommand::Forwarding),
        SingleStep::Run(Machine::Inbox, SingleCommand::ForwardAccept),
        SingleStep::Run(Machine::Inbox, SingleCommand::Masquerade),
        SingleStep::Try(Machine::Inbox, SingleCommand::QdiscDel),
        SingleStep::Run(Machine::Inbox, SingleCommand::QdiscFifo),
        SingleStep::Run(Machine::Inbox, SingleCommand::SendBuffers),
        SingleStep::Run(Machine::Inbox, SingleCommand::ReceiveBuffers),
        SingleStep::Run(Machine::Inbox, SingleCommand::Checkout),
        SingleStep::Run(Machine::Inbox, SingleCommand::MakeInbox),
        SingleStep::Run(Machine::Inbox, SingleCommand::ForgetIperf),
    ];
    assert(plan@ =~= inbox_plan());
    plan
}

} // verus!
