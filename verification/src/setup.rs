//! Preparing one machine: the packages and tools that the experiments need, and the two
//! facts that are asked of a machine before it is used, its login's home directory and its
//! network interface.
use vstd::prelude::*;
use vstd::string::*;
use crate::plan::Attempt;
use crate::text::{trim, trimmed};

verus! {

/// A command that prepares a machine or asks it something.
#[derive(Clone, Copy, Debug, PartialEq, Eq)]
pub enum SetupCommand {
    /// Refresh the package lists.
    AptUpdate,
    /// Install the packages that the tools are built with and that the experiments run.
    AptInstall,
    /// Let the machine forward packets.
    SysctlForward,
    /// Enlarge the TCP send buffers.
    SysctlWmem,
    /// Enlarge the TCP receive buffers.
    SysctlRmem,
    /// Fetch the tools.
    GitClone,
    /// Look whether the tools are there.
    LsTools,
    /// Take the bundler's main line.
    GitCheckout,
    /// Build the tools.
    Make,
    /// List the interfaces that have an address.
    IfaceList,
}

/// One step of preparing a machine.
#[derive(Clone, Copy, Debug, PartialEq, Eq)]
pub enum SetupStep {
    /// Run the command. If it cannot be run, the preparation fails.
    Run(SetupCommand),
    /// Run the first command. If it cannot be run, run the second; if that cannot be run
    /// either, the preparation fails.
    RunOr(SetupCommand, SetupCommand),
}

/// What follows a step of preparing a machine.
#[derive(Clone, Copy, Debug, PartialEq, Eq)]
pub enum Next {
    /// The preparation goes on with the next step.
    GoOn,
    /// The preparation fails.
    Fail,
    /// The command is to be run in place of the one that was lost; if it is lost too, the
    /// preparation fails.
    Fallback(SetupCommand),
}

impl SetupStep {
    /// What follows this step, given what came of trying its first command. A command that
    /// ran lets the preparation go on, whatever its exit status. A lost command fails the
    /// preparation unless the step names another to run in its place.
    pub open spec fn next(self, attempt: Attempt) -> Next {
        match (attempt, self) {
            (Attempt::Done { .. }, _) => Next::GoOn,
            (Attempt::Lost, SetupStep::Run(_)) => Next::Fail,
            (Attempt::Lost, SetupStep::RunOr(_, other)) => Next::Fallback(other),
        }
    }
}

/// What follows `step`, given what came of trying its first command. What follows a
/// command run in place of a lost one is what follows a plain step of that command.
pub fn follow_up(step: SetupStep, attempt: Attempt) -> (r: Next)
    ensures
        r == step.next(attempt),
{
    match attempt {
        Attempt::Done { .. } => Next::GoOn,
        Attempt::Lost => match step {
            SetupStep::Run(_) => Next::Fail,
            SetupStep::RunOr(_, other) => Next::Fallback(other),
        },
    }
}

/// What to do after an attempt to install the packages.
#[derive(Clone, Copy, Debug, PartialEq, Eq)]
pub enum Retry {
    /// The attempt succeeded.
    Done,
    /// The attempt failed and was the last one: its error is the result.
    GiveUp,
    /// The attempt failed: wait for so many seconds and try again.
    Again { after_seconds: u64 },
}

/// How many attempts to install the packages are made before giving up.
pub const INSTALL_ATTEMPTS: u32 = 16;

/// How many seconds lie between two attempts to install the packages.
pub const INSTALL_PAUSE: u64 = 100;

impl SetupCommand {
    /// The text of the command.
    pub open spec fn text(self) -> Seq<char> {
        match self {
            SetupCommand::AptUpdate => "sudo apt update"@,
            SetupCommand::AptInstall =>
                "sudo apt update && sudo DEBIAN_FRONTEND=noninteractive apt install -y build-essential bmon iperf coreutils git automake autoconf libtool"@,
            SetupCommand::SysctlForward => "sudo sysctl -w net.ipv4.ip_forward=1"@,
            SetupCommand::SysctlWmem =>
                "sudo sysctl -w net.ipv4.tcp_wmem=\"4096000 50331648 50331648\""@,
            SetupCommand::SysctlRmem =>
                "sudo sysctl -w net.ipv4.tcp_rmem=\"4096000 50331648 50331648\""@,
            SetupCommand::GitClone =>
                "git clone --recursive https://github.com/bundler-project/tools"@,
            SetupCommand::LsTools => "ls ~/tools"@,
            SetupCommand::GitCheckout => "cd ~/tools/bundler && git checkout master"@,
            SetupCommand::Make => "make -C tools"@,
            SetupCommand::IfaceList => "bash -c \"ip -o addr | awk '{print $2}'\""@,
        }
    }

    /// The text of the command.
    pub fn render(self) -> (r: &'static str)
        ensures
            r@ == self.text(),
    {
        match self {
            SetupCommand::AptUpdate => "sudo apt update",
            SetupCommand::AptInstall =>
                "sudo apt update && sudo DEBIAN_FRONTEND=noninteractive apt install -y build-essential bmon iperf coreutils git automake autoconf libtool",
            SetupCommand::SysctlForward => "sudo sysctl -w net.ipv4.ip_forward=1",
            SetupCommand::SysctlWmem =>
                "sudo sysctl -w net.ipv4.tcp_wmem=\"4096000 50331648 50331648\"",
            SetupCommand::SysctlRmem =>
                "sudo sysctl -w net.ipv4.tcp_rmem=\"4096000 50331648 50331648\"",
            SetupCommand::GitClone =>
                "git clone --recursive https://github.com/bundler-project/tools",
            SetupCommand::LsTools => "ls ~/tools",
            SetupCommand::GitCheckout => "cd ~/tools/bundler && git checkout master",
            SetupCommand::Make => "make -C tools",
            SetupCommand::IfaceList => "bash -c \"ip -o addr | awk '{print $2}'\"",
        }
    }
}

/// One attempt to install the packages: refresh the package lists, then install.
pub open spec fn install_attempt() -> Seq<SetupStep> {
    seq![SetupStep::Run(SetupCommand::AptUpdate), SetupStep::Run(SetupCommand::AptInstall)]
}

/// The steps that fetch and build the tools. A machine on which the tools cannot be fetched
/// passes if they are there already.
pub open spec fn tools_plan() -> Seq<SetupStep> {
    seq![
        SetupStep::Run(SetupCommand::SysctlForward),
        SetupStep::Run(SetupCommand::SysctlWmem),
        SetupStep::Run(SetupCommand::SysctlRmem),
        SetupStep::RunOr(SetupCommand::GitClone, SetupCommand::LsTools),
        SetupStep::Run(SetupCommand::GitCheckout),
        SetupStep::Run(SetupCommand::Make),
    ]
}

/// What follows the `attempts`-th attempt to install the packages.
pub open spec fn after_attempt(attempts: u32, succeeded: bool) -> Retry {
    if succeeded {
        Retry::Done
    } else if attempts >= INSTALL_ATTEMPTS {
        Retry::GiveUp
    } else {
        Retry::Again { after_seconds: INSTALL_PAUSE }
    }
}

/// One attempt to install the packages.
pub fn install_basic_packages() -> (plan: Vec<SetupStep>)
    ensures
        plan@ == install_attempt(),
{
    let plan = vec![
        SetupStep::Run(SetupCommand::AptUpdate),
        SetupStep::Run(SetupCommand::AptInstall),
    ];
    assert(plan@ =~= install_attempt());
    plan
}

/// What to do after the `attempts`-th attempt to install the packages, which succeeded or
/// did not: a failed attempt is repeated after a pause of 100 seconds, up to 16 attempts in
/// all.
pub fn retry_install(attempts: u32, succeeded: bool) -> (r: Retry)
    ensures
        r == after_attempt(attempts, succeeded),
{
    if succeeded {
        Retry::Done
    } else if attempts >= INSTALL_ATTEMPTS {
        Retry::GiveUp
    } else {
        Retry::Again { after_seconds: INSTALL_PAUSE }
    }
}

/// The steps that fetch and build the tools.
pub fn get_tools() -> (plan: Vec<SetupStep>)
    ensures
        plan@ == tools_plan(),
{
    let plan = vec![
        SetupStep::Run(SetupCommand::SysctlForward),
        SetupStep::Run(SetupCommand::SysctlWmem),
        SetupStep::Run(SetupCommand::SysctlRmem),
        SetupStep::RunOr(SetupCommand::GitClone, SetupCommand::LsTools),
        SetupStep::Run(SetupCommand::GitCheckout),
        SetupStep::Run(SetupCommand::Make),
    ];
    assert(plan@ =~= tools_plan());
    plan
}

/// The command that prints the home directory of `user`.
pub fn get_home(user: &str) -> (command: String)
    ensures
        command@ == "echo ~"@ + user@,
{
    let mut command = String::from_str("echo ~");
    command.append(user);
    command
}

/// The home directory in what the command of `get_home` printed: the output without the
/// white space around it.
pub fn home_from_output(output: &str) -> (home: String)
    ensures
        home@ == trimmed(output@),
{
    trim(output)
}

/// The command whose output `iface_name` reads.
pub fn get_iface_name() -> (command: &'static str)
    ensures
        command@ == SetupCommand::IfaceList.text(),
{
    SetupCommand::IfaceList.render()
}

} // verus!
