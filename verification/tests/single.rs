use cloud::phase::Failure;
use cloud::plan::Attempt;
use cloud::single::{
    bundler_exp, connect_inbox, connect_receiver, connect_sender, fetch_paths, goes_on,
    launch_result, log_path, nobundler_exp, stop_between, Deployment, File, Home, Log, Machine,
    SingleCommand, SingleSetting, SingleStep,
};

#[test]
fn connect_failure_is_read_from_the_error_output() {
    assert_eq!(launch_result(""), Ok(()));
    assert_eq!(launch_result("------\nClient connecting to 1.2.3.4, TCP port 5001\n"), Ok(()));
    assert_eq!(launch_result("connect failed: Connection refused\n"), Err(Failure::Connect));
    assert_eq!(launch_result("iperf: connect failed"), Err(Failure::Connect));
    assert_eq!(launch_result("Connect Failed"), Ok(()));
}

#[test]
fn single_pair_command_texts() {
    let s = SingleSetting {
        sender_ip: "3.4.5.6".to_string(),
        sender_iface: "ens5".to_string(),
        receiver_ip: "18.26.5.4".to_string(),
        receiver_iface: "em1".to_string(),
        receiver_user: "akshayn".to_string(),
        inbox_ip: "18.26.5.2".to_string(),
        inbox_qtype: "sfq".to_string(),
        inbox_qlen: "15mbit".to_string(),
    };
    assert_eq!(
        SingleCommand::Ping.render(&s),
        "sudo screen -d -m bash -c \"ping 18.26.5.4 > ~/ping.out 2> ~/ping.out\""
    );
    assert_eq!(
        SingleCommand::PingAdaptive.render(&s),
        "sudo screen -d -m bash -c \"ping -A 18.26.5.4 > ~/ping.out 2> ~/ping.out\""
    );
    assert_eq!(
        SingleCommand::IperfBuilt.render(&s),
        "cd ~/tools/iperf && mm-delay 0 ./src/iperf -c 18.26.5.4 -p 5001 -t 60 -i 1 -P 10"
    );
    assert_eq!(SingleCommand::IperfShaped.render(&s), "mm-delay 0 iperf -c 18.26.5.4 -p 5001 -t 90 -i 1 -P 10");
    assert_eq!(SingleCommand::IperfWide.render(&s), "iperf -c 18.26.5.4 -p 5001 -t 60 -i 1 -P 30");
    assert_eq!(
        SingleCommand::IperfWideDetached.render(&s),
        "screen -d -m bash -c \"mm-delay 0 iperf -c 18.26.5.4 -p 5001 -t 90 -i 1 -P 30 > ~/iperf_client_1.out 2> ~/iperf_client_1.out\""
    );
    assert_eq!(
        SingleCommand::OutboxOfUser.render(&s),
        "cd ~/tools/bundler && sudo screen -d -m bash -c \"./target/debug/outbox --filter=\\\"dst portrange 5000-6000\\\" --iface=em1 --inbox 3.4.5.6:28316 --sample_rate=64 > /home/akshayn/outbox.out 2> /home/akshayn/outbox.out\""
    );
    assert_eq!(
        SingleCommand::OutboxToInbox.render(&s),
        "cd ~/tools/bundler && sudo screen -d -m bash -c \"./target/debug/outbox --filter=\\\"dst portrange 5000-6000\\\" --iface=em1 --inbox 18.26.5.2:28316 --sample_rate=64 > ~/outbox.out 2> ~/outbox.out\""
    );
    assert_eq!(
        SingleCommand::InboxOnMachine.render(&s),
        "cd ~/tools/bundler && sudo screen -d -m bash -c \"./target/debug/inbox --iface=em1 --port 28316 --sample_rate=128 --qtype=sfq --buffer=15mbit > ~/inbox.out 2> ~/inbox.out\""
    );
    assert_eq!(
        SingleCommand::Nimbus.render(&s),
        "cd ~/tools/nimbus && sudo screen -d -m bash -c \"./target/debug/nimbus --ipc=unix --use_switching=true --loss_mode=Bundle --delay_mode=Nimbus --flow_mode=XTCP --bw_est_mode=true --bundler_qlen_alpha=100 --bundler_qlen_beta=10000 --bundler_qlen=100 > ~/ccp.out 2> ~/ccp.out\""
    );
    assert_eq!(SingleCommand::RouteViaInbox.render(&s), "sudo ip route add 18.26.5.4 via 18.26.5.2");
    assert_eq!(SingleCommand::QdiscFifo.render(&s), "sudo tc qdisc add dev em1 root pfifo_fast");
    assert_eq!(SingleCommand::StopPing.render(&s), "sudo pkill ping");
    assert_eq!(SingleCommand::KillPing.render(&s), "sudo pkill -9 ping");
}

#[test]
fn single_pair_plans() {
    assert_eq!(
        nobundler_exp(Deployment::BothCloud),
        vec![
            SingleStep::Run(Machine::Receiver, SingleCommand::IperfServerBuilt),
            SingleStep::Run(Machine::Sender, SingleCommand::Ping),
            SingleStep::Measure(Machine::Sender, SingleCommand::IperfBuilt, Log::First),
            SingleStep::Sleep(5),
            SingleStep::Fetch(Machine::Sender, Home::Cloud, File::Ping),
            SingleStep::Fetch(Machine::Receiver, Home::Cloud, File::IperfServer),
        ]
    );
    assert_eq!(nobundler_exp(Deployment::CloudSender).len(), 8);
    assert_eq!(nobundler_exp(Deployment::CloudReceiver).len(), 7);
    assert_eq!(bundler_exp(Deployment::BothCloud).len(), 13);
    assert_eq!(bundler_exp(Deployment::CloudSender).len(), 15);
    let three = bundler_exp(Deployment::CloudReceiver);
    assert_eq!(three.len(), 15);
    assert_eq!(three[3], SingleStep::Run(Machine::Inbox, SingleCommand::InboxOnMachine));
    assert_eq!(three[8], SingleStep::Measure(Machine::Sender, SingleCommand::IperfWide, Log::Second));
    assert_eq!(three[14], SingleStep::Fetch(Machine::Sender, Home::Lab, File::Ping));
    assert_eq!(stop_between(Deployment::BothCloud).len(), 3);
    assert_eq!(stop_between(Deployment::CloudSender).len(), 6);
    assert_eq!(stop_between(Deployment::CloudReceiver), Vec::new());
    assert_eq!(connect_receiver().len(), 5);
    assert_eq!(connect_sender()[0], SingleStep::Run(Machine::Sender, SingleCommand::RouteViaInbox));
    assert_eq!(connect_inbox()[3], SingleStep::Try(Machine::Inbox, SingleCommand::QdiscDel));
    assert_eq!(connect_inbox().len(), 10);
    let s = SingleSetting {
        sender_ip: String::new(),
        sender_iface: String::new(),
        receiver_ip: String::new(),
        receiver_iface: String::new(),
        receiver_user: "rcv".to_string(),
        inbox_ip: String::new(),
        inbox_qtype: String::new(),
        inbox_qlen: String::new(),
    };
    assert_eq!(
        fetch_paths(Home::Cloud, File::Ping, &s, "./nobundler-exp"),
        ("/home/ubuntu/ping.out".to_string(), "./nobundler-exp/ping.log".to_string())
    );
    assert_eq!(
        fetch_paths(Home::Receiver, File::Outbox, &s, "./bundler-exp"),
        ("/home/rcv/outbox.out".to_string(), "./bundler-exp/outbox.log".to_string())
    );
    assert_eq!(
        fetch_paths(Home::Lab, File::Ccp, &s, "out"),
        ("/home/akshayn/ccp.out".to_string(), "out/ccp.log".to_string())
    );
    assert_eq!(log_path(Log::First, "./nobundler-exp"), "./nobundler-exp/iperf_client.log");
    assert_eq!(log_path(Log::SecondMarked, "d"), "d/iperf_client_2:.log");
    assert_eq!(log_path(Log::Second, "d"), "d/iperf_client_2.log");
}

#[test]
fn single_pair_steps_go_on_or_end_the_plan() {
    let measure = SingleStep::Measure(Machine::Sender, SingleCommand::IperfBuilt, Log::First);
    let run = SingleStep::Run(Machine::Sender, SingleCommand::Ping);
    let tried = SingleStep::Try(Machine::Inbox, SingleCommand::QdiscDel);
    let fetch = SingleStep::Fetch(Machine::Sender, Home::Cloud, File::Ping);
    let refused = "connect failed: Connection refused";
    for clean in [true, false] {
        let done = Attempt::Done { clean };
        assert_eq!(goes_on(measure, done, ""), Ok(()));
        assert_eq!(goes_on(measure, done, refused), Err(Failure::Connect));
        assert_eq!(goes_on(run, done, refused), Ok(()));
        assert_eq!(goes_on(fetch, done, refused), Ok(()));
        assert_eq!(goes_on(tried, done, refused), Ok(()));
        assert_eq!(goes_on(SingleStep::Sleep(5), done, ""), Ok(()));
    }
    assert_eq!(goes_on(measure, Attempt::Lost, ""), Err(Failure::Transport));
    assert_eq!(goes_on(measure, Attempt::Lost, refused), Err(Failure::Transport));
    assert_eq!(goes_on(run, Attempt::Lost, ""), Err(Failure::Transport));
    assert_eq!(goes_on(fetch, Attempt::Lost, ""), Err(Failure::Transport));
    assert_eq!(goes_on(tried, Attempt::Lost, refused), Ok(()));
}
