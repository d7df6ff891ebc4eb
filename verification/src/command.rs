//! The remote commands of the experiments, by what they are for, and the text of each.
use vstd::prelude::*;
use vstd::string::*;
use crate::node::Node;

verus! {

/// What the commands of one pair's experiments are made from: the two machines, the home
/// directory of the login on each, and the settings of the bundler's inbox.
#[derive(Debug, PartialEq, Eq)]
pub struct Setting {
    pub sender: Node,
    pub receiver: Node,
    pub sender_home: String,
    pub receiver_home: String,
    /// The inbox's queue type.
    pub inbox_qtype: String,
    /// The inbox's buffer size.
    pub inbox_qlen: String,
}

/// A kind of process that an experiment starts without special rights.
#[derive(Clone, Copy, Debug, PartialEq, Eq)]
pub enum Process {
    UdpingClient,
    UdpingServer,
    Iperf,
    Bmon,
}

impl Process {
    /// The name under which the process runs.
    pub open spec fn name(self) -> Seq<char> {
        match self {
            Process::UdpingClient => "udping_client"@,
            Process::UdpingServer => "udping_server"@,
            Process::Iperf => "iperf"@,
            Process::Bmon => "bmon"@,
        }
    }

    /// The name under which the process runs.
    pub fn program(self) -> (r: &'static str)
        ensures
            r@ == self.name(),
    {
        match self {
            Process::UdpingClient => "udping_client",
            Process::UdpingServer => "udping_server",
            Process::Iperf => "iperf",
            Process::Bmon => "bmon",
        }
    }
}

/// The command that kills every process called `procname`.
pub fn pkill(procname: &str) -> (command: String)
    ensures
        command@ == "pkill -9 "@ + procname@,
{
    let mut command = String::from_str("pkill -9 ");
    command.append(procname);
    command
}

/// A remote command, named by what it is for.
#[derive(Clone, Copy, Debug, PartialEq, Eq)]
pub enum Command {
    /// Kill every process of the kind.
    Kill(Process),
    /// Create the network namespace of the bundler.
    NetnsAdd,
    /// Create the pair of virtual interfaces.
    VethAdd,
    /// Move one end of the pair into the namespace.
    VethIntoNetns,
    /// List the network namespaces.
    NetnsList,
    /// Create the bridge.
    BridgeAdd,
    /// Attach the outer end of the pair to the bridge.
    VethIntoBridge,
    /// Give the bridge its address.
    BridgeAddr,
    /// Bring the bridge up.
    BridgeUp,
    /// Bring the outer end of the pair up.
    VethOuterUp,
    /// Bring the inner end of the pair up.
    VethInnerUp,
    /// Give the inner end of the pair its address.
    VethInnerAddr,
    /// Route the namespace through the bridge.
    NetnsRoute,
    /// Masquerade what leaves by the sender's interface.
    Masquerade,
    /// Forward from the pair to the sender's interface.
    ForwardAccept,
    /// Delete the network namespace of the bundler.
    NetnsDel,
    /// Delete the bridge.
    BridgeDel,
    /// Delete the pair of virtual interfaces.
    VethDel,
    /// Drop every packet-filter rule.
    IptablesFlush,
    /// Start the bundler's outbox on the receiver.
    Outbox,
    /// Start the bundler's inbox on the sender.
    Inbox,
    /// Start the congestion controller on the sender.
    Nimbus,
    /// Start the throughput sink on the receiver.
    IperfServer,
    /// Start the latency responder on the receiver.
    UdpingServer,
    /// Start the latency probe on the sender.
    UdpingClient,
    /// Start the first load generator on the sender.
    IperfFirst,
    /// Start the second load generator on the sender.
    IperfSecond,
    /// Start the first load generator inside the bundler's namespace.
    BundledIperfFirst,
    /// Start the second load generator inside the bundler's namespace.
    BundledIperfSecond,
    /// Start the bandwidth monitor on the receiver.
    Bmon,
    /// Start the bandwidth monitor on the receiver, keeping what it says of errors.
    BmonControl,
    /// Kill the bundler's inbox.
    KillInbox,
    /// Kill the congestion controller.
    KillNimbus,
    /// Kill the bundler's outbox.
    KillOutbox,
    /// Remove the queueing discipline from the sender's interface.
    QdiscDel,
}

impl Command {
    /// The text of the command for the machines of `setting`.
    pub open spec fn text(self, setting: &Setting) -> Seq<char> {
        match self {
            Command::Kill(process) => "pkill -9 "@ + process.name(),
            Command::NetnsAdd => "sudo ip netns add BUNDLER_NS"@,
            Command::VethAdd => "sudo ip link add veth0 type veth peer name veth1"@,
            Command::VethIntoNetns => "sudo ip link set veth1 netns BUNDLER_NS"@,
            Command::NetnsList => "sudo ip netns"@,
            Command::BridgeAdd => "sudo ip link add name br0 type bridge"@,
            Command::VethIntoBridge => "sudo ip link set veth0 master br0"@,
            Command::BridgeAddr => "sudo ip addr add 100.64.0.1/24 dev br0"@,
            Command::BridgeUp => "sudo ip link set br0 up"@,
            Command::VethOuterUp => "sudo ip link set veth0 up"@,
            Command::VethInnerUp => "sudo ip netns exec BUNDLER_NS ip link set veth1 up"@,
            Command::VethInnerAddr => "sudo ip netns exec BUNDLER_NS ip addr add dev veth1 100.64.0.2/24"@,
            Command::NetnsRoute => "sudo ip netns exec BUNDLER_NS ip route add default via 100.64.0.1"@,
            Command::Masquerade =>
                "sudo iptables -t nat -A POSTROUTING -o "@
                + setting.sender.iface@
                + " -j MASQUERADE"@,
            Command::ForwardAccept =>
                "sudo iptables -A FORWARD -i veth0 -o "@
                + setting.sender.iface@
                + " -j ACCEPT"@,
            Command::NetnsDel => "sudo ip netns del BUNDLER_NS"@,
            Command::BridgeDel => "sudo ip link del dev br0"@,
            Command::VethDel => "sudo ip link del dev veth0"@,
            Command::IptablesFlush => "sudo bash -c \"iptables -F && iptables -t nat -F && iptables -X\""@,
            Command::Outbox =>
                "cd ~/tools/bundler && sudo screen -d -m bash -c \"./target/debug/outbox --filter=\\\"dst portrange 5000-6000\\\" --iface="@
                + setting.receiver.iface@
                + " --inbox "@
                + setting.sender.ip@
                + ":28316 --sample_rate=64 > "@
                + setting.receiver_home@
                + "/outbox.out 2> "@
                + setting.receiver_home@
                + "/outbox.out\""@,
            Command::Inbox =>
                "cd ~/tools/bundler && sudo screen -d -m bash -c \"./target/debug/inbox --iface="@
                + setting.sender.iface@
                + " --port 28316 --sample_rate=128 --qtype="@
                + setting.inbox_qtype@
                + " --buffer="@
                + setting.inbox_qlen@
                + " > "@
                + setting.sender_home@
                + "/inbox.out 2> "@
                + setting.sender_home@
                + "/inbox.out\""@,
            Command::Nimbus =>
                "cd ~/tools/nimbus && sudo screen -d -m bash -c \"./target/debug/nimbus --ipc=unix --loss_mode=Bundle --delay_mode=Nimbus --flow_mode=Delay --uest=875000000 --bundler_qlen_alpha=100 --bundler_qlen_beta=10000 --bundler_qlen=1000 > "@
                + setting.sender_home@
                + "/ccp.out 2> "@
                + setting.sender_home@
                + "/ccp.out\""@,
            Command::IperfServer =>
                "screen -d -m bash -c \"iperf -s -p 5001 > ~/iperf_server.out 2> ~/iperf_server.out\""@,
            Command::UdpingServer =>
                "cd ~/tools/udping && screen -d -m ./target/debug/udping_server -p 5999"@,
            Command::UdpingClient =>
                "cd ~/tools/udping && screen -d -m bash -c \"./target/debug/udping_client -c "@
                + setting.receiver.ip@
                + " -p 5999 > "@
                + setting.sender_home@
                + "/udping_receiver.out 2> "@
                + setting.sender_home@
                + "/udping_receiver.out\""@,
            Command::IperfFirst =>
                "screen -d -m bash -c \"iperf -c "@
                + setting.receiver.ip@
                + " -p 5001 -t 150 -i 1 -P 10 > "@
                + setting.sender_home@
                + "/iperf_client_1.out 2> "@
                + setting.sender_home@
                + "/iperf_client_1.out\""@,
            Command::IperfSecond =>
                "screen -d -m bash -c \"iperf -c "@
                + setting.receiver.ip@
                + " -p 5001 -t 150 -i 1 -P 10 > "@
                + setting.sender_home@
                + "/iperf_client.out 2> "@
                + setting.sender_home@
                + "/iperf_client.out\""@,
            Command::BundledIperfFirst =>
                "screen -d -m bash -c \"sudo ip netns exec BUNDLER_NS iperf -c "@
                + setting.receiver.ip@
                + " -p 5001 -t 150 -i 1 -P 10 > "@
                + setting.sender_home@
                + "/iperf_client_1.out 2> "@
                + setting.sender_home@
                + "/iperf_client_1.out\""@,
            Command::BundledIperfSecond =>
                "screen -d -m bash -c \"sudo ip netns exec BUNDLER_NS iperf -c "@
                + setting.receiver.ip@
                + " -p 5001 -t 150 -i 1 -P 10 > "@
                + setting.sender_home@
                + "/iperf_client.out 2> "@
                + setting.sender_home@
                + "/iperf_client.out\""@,
            Command::Bmon =>
                "screen -d -m bash -c \"stdbuf -o0 bmon -p "@
                + setting.receiver.iface@
                + " -b -o format:fmt='\\$(element:name) \\$(attr:rxrate:bytes)\n' > "@
                + setting.receiver_home@
                + "/bmon.out\""@,
            Command::BmonControl =>
                "screen -d -m bash -c \"stdbuf -o0 bmon -p "@
                + setting.receiver.iface@
                + " -b -o format:fmt='\\$(element:name) \\$(attr:rxrate:bytes)\n' > "@
                + setting.receiver_home@
                + "/bmon.out 2> "@
                + setting.receiver_home@
                + "/bmon.out\""@,
            Command::KillInbox => "sudo pkill -9 inbox"@,
            Command::KillNimbus => "sudo pkill -9 nimbus"@,
            Command::KillOutbox => "sudo pkill -9 outbox"@,
            Command::QdiscDel => "sudo tc qdisc del dev "@ + setting.sender.iface@ + " root"@,
        }
    }

    /// The text of the command for the machines of `setting`.
    pub fn render(self, setting: &Setting) -> (r: String)
        ensures
            r@ == self.text(setting),
    {
        match self {
            Command::Kill(process) => pkill(process.program()),
            Command::NetnsAdd => String::from_str("sudo ip netns add BUNDLER_NS"),
            Command::VethAdd => String::from_str("sudo ip link add veth0 type veth peer name veth1"),
            Command::VethIntoNetns => String::from_str("sudo ip link set veth1 netns BUNDLER_NS"),
            Command::NetnsList => String::from_str("sudo ip netns"),
            Command::BridgeAdd => String::from_str("sudo ip link add name br0 type bridge"),
            Command::VethIntoBridge => String::from_str("sudo ip link set veth0 master br0"),
            Command::BridgeAddr => String::from_str("sudo ip addr add 100.64.0.1/24 dev br0"),
            Command::BridgeUp => String::from_str("sudo ip link set br0 up"),
            Command::VethOuterUp => String::from_str("sudo ip link set veth0 up"),
            Command::VethInnerUp => String::from_str("sudo ip netns exec BUNDLER_NS ip link set veth1 up"),
            Command::VethInnerAddr => String::from_str("sudo ip netns exec BUNDLER_NS ip addr add dev veth1 100.64.0.2/24"),
            Command::NetnsRoute => String::from_str("sudo ip netns exec BUNDLER_NS ip route add default via 100.64.0.1"),
            Command::Masquerade => {
                let mut s = String::from_str("sudo iptables -t nat -A POSTROUTING -o ");
                s.append(setting.sender.iface.as_str());
                s.append(" -j MASQUERADE");
                s
            },
            Command::ForwardAccept => {
                let mut s = String::from_str("sudo iptables -A FORWARD -i veth0 -o ");
                s.append(setting.sender.iface.as_str());
                s.append(" -j ACCEPT");
                s
            },
            Command::NetnsDel => String::from_str("sudo ip netns del BUNDLER_NS"),
            Command::BridgeDel => String::from_str("sudo ip link del dev br0"),
            Command::VethDel => String::from_str("sudo ip link del dev veth0"),
            Command::IptablesFlush => String::from_str("sudo bash -c \"iptables -F && iptables -t nat -F && iptables -X\""),
            Command::Outbox => {
                let mut s = String::from_str("cd ~/tools/bundler && sudo screen -d -m bash -c \"./target/debug/outbox --filter=\\\"dst portrange 5000-6000\\\" --iface=");
                s.append(setting.receiver.iface.as_str());
                s.append(" --inbox ");
                s.append(setting.sender.ip.as_str());
                s.append(":28316 --sample_rate=64 > ");
                s.append(setting.receiver_home.as_str());
                s.append("/outbox.out 2> ");
                s.append(setting.receiver_home.as_str());
                s.append("/outbox.out\"");
                s
            },
            Command::Inbox => {
                let mut s = String::from_str("cd ~/tools/bundler && sudo screen -d -m bash -c \"./target/debug/inbox --iface=");
                s.append(setting.sender.iface.as_str());
                s.append(" --port 28316 --sample_rate=128 --qtype=");
                s.append(setting.inbox_qtype.as_str());
                s.append(" --buffer=");
                s.append(setting.inbox_qlen.as_str());
                s.append(" > ");
                s.append(setting.sender_home.as_str());
                s.append("/inbox.out 2> ");
                s.append(setting.sender_home.as_str());
                s.append("/inbox.out\"");
                s
            },
            Command::Nimbus => {
                let mut s = String::from_str("cd ~/tools/nimbus && sudo screen -d -m bash -c \"./target/debug/nimbus --ipc=unix --loss_mode=Bundle --delay_mode=Nimbus --flow_mode=Delay --uest=875000000 --bundler_qlen_alpha=100 --bundler_qlen_beta=10000 --bundler_qlen=1000 > ");
                s.append(setting.sender_home.as_str());
                s.append("/ccp.out 2> ");
                s.append(setting.sender_home.as_str());
                s.append("/ccp.out\"");
                s
            },
            Command::IperfServer => String::from_str("screen -d -m bash -c \"iperf -s -p 5001 > ~/iperf_server.out 2> ~/iperf_server.out\""),
            Command::UdpingServer => String::from_str("cd ~/tools/udping && screen -d -m ./target/debug/udping_server -p 5999"),
            Command::UdpingClient => {
                let mut s = String::from_str("cd ~/tools/udping && screen -d -m bash -c \"./target/debug/udping_client -c ");
                s.append(setting.receiver.ip.as_str());
                s.append(" -p 5999 > ");
                s.append(setting.sender_home.as_str());
                s.append("/udping_receiver.out 2> ");
                s.append(setting.sender_home.as_str());
                s.append("/udping_receiver.out\"");
                s
            },
            Command::IperfFirst => {
                let mut s = String::from_str("screen -d -m bash -c \"iperf -c ");
                s.append(setting.receiver.ip.as_str());
                s.append(" -p 5001 -t 150 -i 1 -P 10 > ");
                s.append(setting.sender_home.as_str());
                s.append("/iperf_client_1.out 2> ");
                s.append(setting.sender_home.as_str());
                s.append("/iperf_client_1.out\"");
                s
            },
            Command::IperfSecond => {
                let mut s = String::from_str("screen -d -m bash -c \"iperf -c ");
                s.append(setting.receiver.ip.as_str());
                s.append(" -p 5001 -t 150 -i 1 -P 10 > ");
                s.append(setting.sender_home.as_str());
                s.append("/iperf_client.out 2> ");
                s.append(setting.sender_home.as_str());
                s.append("/iperf_client.out\"");
                s
            },
            Command::BundledIperfFirst => {
                let mut s = String::from_str("screen -d -m bash -c \"sudo ip netns exec BUNDLER_NS iperf -c ");
                s.append(setting.receiver.ip.as_str());
                s.append(" -p 5001 -t 150 -i 1 -P 10 > ");
                s.append(setting.sender_home.as_str());
                s.append("/iperf_client_1.out 2> ");
                s.append(setting.sender_home.as_str());
                s.append("/iperf_client_1.out\"");
                s
            },
            Command::BundledIperfSecond => {
                let mut s = String::from_str("screen -d -m bash -c \"sudo ip netns exec BUNDLER_NS iperf -c ");
                s.append(setting.receiver.ip.as_str());
                s.append(" -p 5001 -t 150 -i 1 -P 10 > ");
                s.append(setting.sender_home.as_str());
                s.append("/iperf_client.out 2> ");
                s.append(setting.sender_home.as_str());
                s.append("/iperf_client.out\"");
                s
            },
            Command::Bmon => {
                let mut s = String::from_str("screen -d -m bash -c \"stdbuf -o0 bmon -p ");
                s.append(setting.receiver.iface.as_str());
                s.append(" -b -o format:fmt='\\$(element:name) \\$(attr:rxrate:bytes)\n' > ");
                s.append(setting.receiver_home.as_str());
                s.append("/bmon.out\"");
                s
            },
            Command::BmonControl => {
                let mut s = String::from_str("screen -d -m bash -c \"stdbuf -o0 bmon -p ");
                s.append(setting.receiver.iface.as_str());
                s.append(" -b -o format:fmt='\\$(element:name) \\$(attr:rxrate:bytes)\n' > ");
                s.append(setting.receiver_home.as_str());
                s.append("/bmon.out 2> ");
                s.append(setting.receiver_home.as_str());
                s.append("/bmon.out\"");
                s
            },
            Command::KillInbox => String::from_str("sudo pkill -9 inbox"),
            Command::KillNimbus => String::from_str("sudo pkill -9 nimbus"),
            Command::KillOutbox => String::from_str("sudo pkill -9 outbox"),
            Command::QdiscDel => {
                let mut s = String::from_str("sudo tc qdisc del dev ");
                s.append(setting.sender.iface.as_str());
                s.append(" root");
                s
            },
        }
    }
}

} // verus!
