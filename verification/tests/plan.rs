use cloud::command::{pkill, Command, Process, Setting};
use cloud::matrix::matrix;
use cloud::node::Node;
use cloud::phase::{Failure, PairReport, Phase, PhaseOutcome};
use cloud::plan::{
    bundler_exp_iperf, cleanup_netns, get_file, goes_on, nobundler_exp_control,
    nobundler_exp_iperf, plan_for, reset, setup_netns, Artifact, Attempt, Host, Step,
};
use cloud::pool::MachinePool;
use cloud::scheduler::ExperimentPair;
use cloud::setup::{
    follow_up, get_home, get_iface_name, get_tools, home_from_output, install_basic_packages,
    retry_install, Next, Retry, SetupCommand, SetupStep,
};

fn setting() -> Setting {
    Setting {
        sender: Node {
            name: "aws_useast1".to_string(),
            ip: "3.4.5.6".to_string(),
            iface: "ens5".to_string(),
            user: "ubuntu".to_string(),
        },
        receiver: Node {
            name: "pd4".to_string(),
            ip: "18.26.5.4".to_string(),
            iface: "em1".to_string(),
            user: "akshayn".to_string(),
        },
        sender_home: "/home/ubuntu".to_string(),
        receiver_home: "/home/akshayn".to_string(),
        inbox_qtype: "sfq".to_string(),
        inbox_qlen: "1000mbit".to_string(),
    }
}

#[test]
fn command_texts_with_machine_values() {
    let s = setting();
    assert_eq!(
        Command::Masquerade.render(&s),
        "sudo iptables -t nat -A POSTROUTING -o ens5 -j MASQUERADE"
    );
    assert_eq!(Command::ForwardAccept.render(&s), "sudo iptables -A FORWARD -i veth0 -o ens5 -j ACCEPT");
    assert_eq!(Command::QdiscDel.render(&s), "sudo tc qdisc del dev ens5 root");
    assert_eq!(
        Command::Outbox.render(&s),
        "cd ~/tools/bundler && sudo screen -d -m bash -c \"./target/debug/outbox --filter=\\\"dst portrange 5000-6000\\\" --iface=em1 --inbox 3.4.5.6:28316 --sample_rate=64 > /home/akshayn/outbox.out 2> /home/akshayn/outbox.out\""
    );
    assert_eq!(
        Command::Inbox.render(&s),
        "cd ~/tools/bundler && sudo screen -d -m bash -c \"./target/debug/inbox --iface=ens5 --port 28316 --sample_rate=128 --qtype=sfq --buffer=1000mbit > /home/ubuntu/inbox.out 2> /home/ubuntu/inbox.out\""
    );
    assert_eq!(
        Command::Nimbus.render(&s),
        "cd ~/tools/nimbus && sudo screen -d -m bash -c \"./target/debug/nimbus --ipc=unix --loss_mode=Bundle --delay_mode=Nimbus --flow_mode=Delay --uest=875000000 --bundler_qlen_alpha=100 --bundler_qlen_beta=10000 --bundler_qlen=1000 > /home/ubuntu/ccp.out 2> /home/ubuntu/ccp.out\""
    );
    assert_eq!(
        Command::UdpingClient.render(&s),
        "cd ~/tools/udping && screen -d -m bash -c \"./target/debug/udping_client -c 18.26.5.4 -p 5999 > /home/ubuntu/udping_receiver.out 2> /home/ubuntu/udping_receiver.out\""
    );
    assert_eq!(
        Command::IperfFirst.render(&s),
        "screen -d -m bash -c \"iperf -c 18.26.5.4 -p 5001 -t 150 -i 1 -P 10 > /home/ubuntu/iperf_client_1.out 2> /home/ubuntu/iperf_client_1.out\""
    );
    assert_eq!(
        Command::IperfSecond.render(&s),
        "screen -d -m bash -c \"iperf -c 18.26.5.4 -p 5001 -t 150 -i 1 -P 10 > /home/ubuntu/iperf_client.out 2> /home/ubuntu/iperf_client.out\""
    );
    assert_eq!(
        Command::BundledIperfFirst.render(&s),
        "screen -d -m bash -c \"sudo ip netns exec BUNDLER_NS iperf -c 18.26.5.4 -p 5001 -t 150 -i 1 -P 10 > /home/ubuntu/iperf_client_1.out 2> /home/ubuntu/iperf_client_1.out\""
    );
    assert_eq!(
        Command::BundledIperfSecond.render(&s),
        "screen -d -m bash -c \"sudo ip netns exec BUNDLER_NS iperf -c 18.26.5.4 -p 5001 -t 150 -i 1 -P 10 > /home/ubuntu/iperf_client.out 2> /home/ubuntu/iperf_client.out\""
    );
    assert_eq!(
        Command::Bmon.render(&s),
        "screen -d -m bash -c \"stdbuf -o0 bmon -p em1 -b -o format:fmt='\\$(element:name) \\$(attr:rxrate:bytes)\n' > /home/akshayn/bmon.out\""
    );
    assert_eq!(
        Command::BmonControl.render(&s),
        "screen -d -m bash -c \"stdbuf -o0 bmon -p em1 -b -o format:fmt='\\$(element:name) \\$(attr:rxrate:bytes)\n' > /home/akshayn/bmon.out 2> /home/akshayn/bmon.out\""
    );
}

#[test]
fn command_texts_without_machine_values() {
    let s = setting();
    let fixed = [
        (Command::NetnsAdd, "sudo ip netns add BUNDLER_NS"),
        (Command::VethAdd, "sudo ip link add veth0 type veth peer name veth1"),
        (Command::VethIntoNetns, "sudo ip link set veth1 netns BUNDLER_NS"),
        (Command::NetnsList, "sudo ip netns"),
        (Command::BridgeAdd, "sudo ip link add name br0 type bridge"),
        (Command::VethIntoBridge, "sudo ip link set veth0 master br0"),
        (Command::BridgeAddr, "sudo ip addr add 100.64.0.1/24 dev br0"),
        (Command::BridgeUp, "sudo ip link set br0 up"),
        (Command::VethOuterUp, "sudo ip link set veth0 up"),
        (Command::VethInnerUp, "sudo ip netns exec BUNDLER_NS ip link set veth1 up"),
        (Command::VethInnerAddr, "sudo ip netns exec BUNDLER_NS ip addr add dev veth1 100.64.0.2/24"),
        (Command::NetnsRoute, "sudo ip netns exec BUNDLER_NS ip route add default via 100.64.0.1"),
        (Command::NetnsDel, "sudo ip netns del BUNDLER_NS"),
        (Command::BridgeDel, "sudo ip link del dev br0"),
        (Command::VethDel, "sudo ip link del dev veth0"),
        (Command::IptablesFlush, "sudo bash -c \"iptables -F && iptables -t nat -F && iptables -X\""),
        (
            Command::IperfServer,
            "screen -d -m bash -c \"iperf -s -p 5001 > ~/iperf_server.out 2> ~/iperf_server.out\"",
        ),
        (Command::UdpingServer, "cd ~/tools/udping && screen -d -m ./target/debug/udping_server -p 5999"),
        (Command::KillInbox, "sudo pkill -9 inbox"),
        (Command::KillNimbus, "sudo pkill -9 nimbus"),
        (Command::KillOutbox, "sudo pkill -9 outbox"),
        (Command::Kill(Process::UdpingClient), "pkill -9 udping_client"),
        (Command::Kill(Process::UdpingServer), "pkill -9 udping_server"),
        (Command::Kill(Process::Iperf), "pkill -9 iperf"),
        (Command::Kill(Process::Bmon), "pkill -9 bmon"),
    ];
    for (command, text) in fixed {
        assert_eq!(command.render(&s), text);
    }
    assert_eq!(pkill("screen"), "pkill -9 screen");
}

#[test]
fn artifacts_go_from_home_to_output_directory() {
    let s = setting();
    let dir = "./aws_useast1-pd4/bundler";
    let expected = [
        (Artifact::IperfClient, "/home/ubuntu/iperf_client.out", "iperf_client.log"),
        (Artifact::IperfClientFirst, "/home/ubuntu/iperf_client_1.out", "iperf_client_1.log"),
        (Artifact::Udping, "/home/ubuntu/udping_receiver.out", "udping.log"),
        (Artifact::Inbox, "/home/ubuntu/inbox.out", "inbox.log"),
        (Artifact::Nimbus, "/home/ubuntu/ccp.out", "nimbus.log"),
        (Artifact::IperfServer, "/home/akshayn/iperf_server.out", "iperf_server.log"),
        (Artifact::Bmon, "/home/akshayn/bmon.out", "bmon.log"),
        (Artifact::Outbox, "/home/akshayn/outbox.out", "outbox.log"),
    ];
    for (artifact, remote, local) in expected {
        let (r, l) = get_file(artifact, &s, dir);
        assert_eq!(r, remote);
        assert_eq!(l, format!("{}/{}", dir, local));
    }
    assert_eq!(Artifact::Bmon.on(), Host::Receiver);
    assert_eq!(Artifact::Udping.on(), Host::Sender);
}

#[test]
fn control_plan_steps() {
    assert_eq!(
        nobundler_exp_control(),
        vec![
            Step::Run(Host::Receiver, Command::UdpingServer),
            Step::Run(Host::Sender, Command::UdpingClient),
            Step::Run(Host::Receiver, Command::BmonControl),
            Step::Sleep(180),
            Step::Fetch(Artifact::Udping),
            Step::Fetch(Artifact::Bmon),
        ]
    );
    assert_eq!(plan_for(Phase::Control), nobundler_exp_control());
}

#[test]
fn iperf_plan_steps() {
    let plan = nobundler_exp_iperf();
    assert_eq!(plan.len(), 14);
    assert_eq!(plan[0], Step::Run(Host::Receiver, Command::IperfServer));
    assert_eq!(plan[3], Step::Sleep(5));
    assert_eq!(plan[4], Step::Run(Host::Sender, Command::IperfFirst));
    assert_eq!(plan[5], Step::Run(Host::Sender, Command::IperfSecond));
    assert_eq!(plan[6], Step::Sleep(15));
    assert_eq!(plan[7], Step::Run(Host::Receiver, Command::Bmon));
    assert_eq!(plan[8], Step::Sleep(165));
    assert_eq!(plan[13], Step::Fetch(Artifact::Bmon));
    assert_eq!(plan_for(Phase::Iperf), plan);
}

#[test]
fn bundler_plan_builds_and_removes_its_namespace() {
    let plan = bundler_exp_iperf();
    let cleanup = cleanup_netns();
    let setup = setup_netns();
    assert_eq!(cleanup.len(), 5);
    assert_eq!(setup.len(), 14);
    assert_eq!(plan.len(), 45);
    assert_eq!(plan[..5], cleanup[..]);
    assert_eq!(plan[5..19], setup[..]);
    assert_eq!(plan[19], Step::Run(Host::Receiver, Command::Outbox));
    assert_eq!(plan[20], Step::Run(Host::Sender, Command::Inbox));
    assert_eq!(plan[21], Step::Sleep(5));
    assert_eq!(plan[22], Step::Run(Host::Sender, Command::Nimbus));
    assert_eq!(plan[23], Step::Sleep(5));
    assert_eq!(plan[27], Step::Run(Host::Sender, Command::BundledIperfFirst));
    assert_eq!(plan[31], Step::Sleep(165));
    assert!(plan[32..40].iter().all(|s| matches!(s, Step::Fetch(_))));
    assert_eq!(plan[32], Step::Fetch(Artifact::IperfClient));
    assert_eq!(plan[38], Step::Fetch(Artifact::Bmon));
    assert_eq!(plan[39], Step::Fetch(Artifact::Outbox));
    assert_eq!(plan[40..], cleanup[..]);
    assert!(cleanup.iter().all(|s| matches!(s, Step::Try(Host::Sender, _))));
    assert_eq!(cleanup[0], Step::Try(Host::Sender, Command::NetnsDel));
    assert_eq!(cleanup[4], Step::Try(Host::Sender, Command::NetnsList));
    assert!(setup.iter().all(|s| matches!(s, Step::Run(Host::Sender, _))));
    assert_eq!(plan_for(Phase::Bundler), plan);
    let waits: u64 = plan.iter().map(|s| if let Step::Sleep(n) = s { *n } else { 0 }).sum();
    assert_eq!(waits, 190);
}

#[test]
fn reset_only_tries() {
    let plan = reset();
    assert_eq!(plan.len(), 10);
    assert!(plan.iter().all(|s| matches!(s, Step::Try(_, _))));
    assert_eq!(plan[0], Step::Try(Host::Sender, Command::Kill(Process::UdpingClient)));
    assert_eq!(plan[5], Step::Try(Host::Sender, Command::QdiscDel));
    assert_eq!(plan[9], Step::Try(Host::Receiver, Command::KillOutbox));
}

#[test]
fn machine_setup() {
    assert_eq!(
        install_basic_packages(),
        vec![SetupStep::Run(SetupCommand::AptUpdate), SetupStep::Run(SetupCommand::AptInstall)]
    );
    assert_eq!(SetupCommand::AptUpdate.render(), "sudo apt update");
    assert_eq!(
        SetupCommand::AptInstall.render(),
        "sudo apt update && sudo DEBIAN_FRONTEND=noninteractive apt install -y build-essential bmon iperf coreutils git automake autoconf libtool"
    );
    assert_eq!(
        get_tools(),
        vec![
            SetupStep::Run(SetupCommand::SysctlForward),
            SetupStep::Run(SetupCommand::SysctlWmem),
            SetupStep::Run(SetupCommand::SysctlRmem),
            SetupStep::RunOr(SetupCommand::GitClone, SetupCommand::LsTools),
            SetupStep::Run(SetupCommand::GitCheckout),
            SetupStep::Run(SetupCommand::Make),
        ]
    );
    assert_eq!(SetupCommand::SysctlForward.render(), "sudo sysctl -w net.ipv4.ip_forward=1");
    assert_eq!(
        SetupCommand::SysctlWmem.render(),
        "sudo sysctl -w net.ipv4.tcp_wmem=\"4096000 50331648 50331648\""
    );
    assert_eq!(
        SetupCommand::SysctlRmem.render(),
        "sudo sysctl -w net.ipv4.tcp_rmem=\"4096000 50331648 50331648\""
    );
    assert_eq!(
        SetupCommand::GitClone.render(),
        "git clone --recursive https://github.com/bundler-project/tools"
    );
    assert_eq!(SetupCommand::LsTools.render(), "ls ~/tools");
    assert_eq!(SetupCommand::GitCheckout.render(), "cd ~/tools/bundler && git checkout master");
    assert_eq!(SetupCommand::Make.render(), "make -C tools");
    assert_eq!(get_iface_name(), "bash -c \"ip -o addr | awk '{print $2}'\"");
}

#[test]
fn install_is_retried_sixteen_times() {
    assert_eq!(retry_install(1, true), Retry::Done);
    assert_eq!(retry_install(16, true), Retry::Done);
    assert_eq!(retry_install(1, false), Retry::Again { after_seconds: 100 });
    assert_eq!(retry_install(15, false), Retry::Again { after_seconds: 100 });
    assert_eq!(retry_install(16, false), Retry::GiveUp);
    assert_eq!(retry_install(17, false), Retry::GiveUp);
}

#[test]
fn home_directory_question_and_answer() {
    assert_eq!(get_home("ubuntu"), "echo ~ubuntu");
    assert_eq!(get_home(""), "echo ~");
    assert_eq!(home_from_output("/home/ubuntu\n"), "/home/ubuntu");
    assert_eq!(home_from_output(" /home/akshayn \r\n"), "/home/akshayn");
}

#[test]
fn matrix_pairs_every_node_with_every_node() {
    let names: Vec<String> = vec!["a".to_string(), "b".to_string(), "c".to_string()];
    let pairs = matrix(&names);
    let expected: Vec<ExperimentPair> = [
        ("a", "a"), ("a", "b"), ("a", "c"), ("b", "a"), ("b", "b"), ("b", "c"), ("c", "a"), ("c", "b"),
        ("c", "c"),
    ]
    .iter()
    .map(|(f, t)| ExperimentPair { from: f.to_string(), to: t.to_string() })
    .collect();
    assert_eq!(pairs, expected);
    assert_eq!(matrix(&Vec::new()), Vec::new());
    assert_eq!(matrix(&vec!["x".to_string()]), vec![ExperimentPair { from: "x".to_string(), to: "x".to_string() }]);
}

#[test]
fn pool_grants_a_lock_to_one_owner() {
    let mut pool = MachinePool::new(3);
    assert_eq!(pool.len(), 3);
    assert_eq!(pool.holder(1), None);
    assert!(pool.try_acquire(1, 7));
    assert_eq!(pool.holder(1), Some(7));
    assert!(!pool.try_acquire(1, 8));
    assert!(!pool.try_acquire(1, 7));
    assert_eq!(pool.holder(1), Some(7));
    assert!(pool.try_acquire(0, 8));
    assert!(!pool.release(1, 8));
    assert_eq!(pool.holder(1), Some(7));
    assert!(pool.release(1, 7));
    assert!(!pool.release(1, 7));
    assert_eq!(pool.holder(1), None);
    assert!(pool.try_acquire(1, 8));
    assert_eq!(pool.holder(0), Some(8));
    assert_eq!(pool.holder(2), None);
}

#[test]
fn aggregate_outcome_of_a_pair() {
    let mut r = PairReport::new();
    assert_eq!(r.outcome(), None);
    r.record(Phase::Control, PhaseOutcome::Skipped);
    r.record(Phase::Iperf, PhaseOutcome::Skipped);
    assert_eq!(r.outcome(), None);
    assert_eq!(r.get(Phase::Control), Some(PhaseOutcome::Skipped));
    assert_eq!(r.get(Phase::Bundler), None);
    r.record(Phase::Bundler, PhaseOutcome::Skipped);
    assert_eq!(r.outcome(), Some(PhaseOutcome::Skipped));
    r.record(Phase::Iperf, PhaseOutcome::Completed);
    assert_eq!(r.outcome(), Some(PhaseOutcome::Completed));
    r.record(Phase::Bundler, PhaseOutcome::Failed(Failure::Transport));
    assert_eq!(r.outcome(), Some(PhaseOutcome::Failed(Failure::Transport)));
    r.record(Phase::Control, PhaseOutcome::Failed(Failure::Connect));
    assert_eq!(r.outcome(), Some(PhaseOutcome::Failed(Failure::Connect)));
    assert_eq!(Phase::Control.next(), Some(Phase::Iperf));
    assert_eq!(Phase::Iperf.next(), Some(Phase::Bundler));
    assert_eq!(Phase::Bundler.next(), None);
    assert_eq!(Phase::Bundler.dir_name(), "bundler");
}

/// What comes of `plan` when the steps whose numbers are in `lost` cannot be carried out.
fn run(plan: &[Step], lost: &[usize]) -> (Result<(), Failure>, usize) {
    for (i, step) in plan.iter().enumerate() {
        let came = if lost.contains(&i) { Attempt::Lost } else { Attempt::Done { clean: i % 2 == 0 } };
        if let Err(f) = goes_on(*step, came) {
            return (Err(f), i);
        }
    }
    (Ok(()), plan.len())
}

#[test]
fn a_lost_step_ends_the_plan_unless_it_is_only_tried() {
    let run_it = Step::Run(Host::Sender, Command::NetnsAdd);
    let try_it = Step::Try(Host::Sender, Command::NetnsDel);
    for clean in [true, false] {
        assert_eq!(goes_on(run_it, Attempt::Done { clean }), Ok(()));
        assert_eq!(goes_on(try_it, Attempt::Done { clean }), Ok(()));
        assert_eq!(goes_on(Step::Sleep(5), Attempt::Done { clean }), Ok(()));
        assert_eq!(goes_on(Step::Fetch(Artifact::Bmon), Attempt::Done { clean }), Ok(()));
    }
    assert_eq!(goes_on(run_it, Attempt::Lost), Err(Failure::Transport));
    assert_eq!(goes_on(Step::Fetch(Artifact::Bmon), Attempt::Lost), Err(Failure::Transport));
    assert_eq!(goes_on(Step::Sleep(5), Attempt::Lost), Err(Failure::Transport));
    assert_eq!(goes_on(try_it, Attempt::Lost), Ok(()));
}

#[test]
fn teardown_does_not_fail_a_collected_bundler_phase() {
    let plan = bundler_exp_iperf();
    assert_eq!(run(&plan, &[]), (Ok(()), 45));
    // the namespace cannot be taken down, before or after
    assert_eq!(run(&plan, &[0, 1, 2, 3, 4, 40, 41, 42, 43, 44]), (Ok(()), 45));
    // the namespace cannot be built
    assert_eq!(run(&plan, &[5]), (Err(Failure::Transport), 5));
    // the inbox cannot be started
    assert_eq!(run(&plan, &[20]), (Err(Failure::Transport), 20));
    // a marker cannot be copied: the phase fails before the teardown
    assert_eq!(run(&plan, &[38]), (Err(Failure::Transport), 38));
    assert_eq!(run(&reset(), &[0, 1, 2, 3, 4, 5, 6, 7, 8, 9]), (Ok(()), 10));
    assert_eq!(run(&nobundler_exp_control(), &[5]), (Err(Failure::Transport), 5));
}

#[test]
fn a_lost_setup_command_fails_or_falls_back() {
    let plain = SetupStep::Run(SetupCommand::Make);
    let guarded = SetupStep::RunOr(SetupCommand::GitClone, SetupCommand::LsTools);
    for clean in [true, false] {
        assert_eq!(follow_up(plain, Attempt::Done { clean }), Next::GoOn);
        assert_eq!(follow_up(guarded, Attempt::Done { clean }), Next::GoOn);
    }
    assert_eq!(follow_up(plain, Attempt::Lost), Next::Fail);
    assert_eq!(follow_up(guarded, Attempt::Lost), Next::Fallback(SetupCommand::LsTools));
    assert_eq!(follow_up(SetupStep::Run(SetupCommand::LsTools), Attempt::Lost), Next::Fail);
}
