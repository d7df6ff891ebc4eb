//! Machines: how the configuration describes them, and what an experiment needs to know of
//! a machine that is up.
use vstd::prelude::*;
use vstd::string::*;
use crate::phase::Phase;
use crate::text::{remove_char, without};
use crate::tracker::{phase_dir, phase_dir_of};

verus! {

/// A machine that is up and connected, as the experiments see it.
#[derive(Debug, PartialEq, Eq)]
pub struct Node {
    /// The node's identity.
    pub name: String,
    /// The address at which the other end reaches it.
    pub ip: String,
    /// The network interface that carries the traffic.
    pub iface: String,
    /// The login on the machine.
    pub user: String,
}

/// Where a machine comes from.
#[derive(Clone, Copy, Debug, PartialEq, Eq)]
pub enum Provider {
    Aws,
    Azure,
    Baremetal,
}

/// A machine as the configuration describes it.
#[derive(Debug, PartialEq, Eq)]
pub enum NodeSpec {
    /// A machine to be started in a region of AWS.
    Aws { region: String },
    /// A machine to be started in a region of Azure.
    Azure { region: String },
    /// A machine that exists, reached at `ip` as `user`, with traffic on `iface`.
    Baremetal { name: String, ip: String, user: String, iface: String },
}

/// One configured experiment: traffic from `from` to `to`.
#[derive(Debug, PartialEq, Eq)]
pub struct Exp {
    pub from: NodeSpec,
    pub to: NodeSpec,
}

impl NodeSpec {
    /// The node's identity: `aws_` or `az_` and the region without its hyphens for a cloud
    /// machine, the given name for any other.
    pub open spec fn name(&self) -> Seq<char> {
        match self {
            NodeSpec::Aws { region } => "aws_"@ + without(region@, '-'),
            NodeSpec::Azure { region } => "az_"@ + without(region@, '-'),
            NodeSpec::Baremetal { name, .. } => name@,
        }
    }

    /// The login on the machine: `ubuntu` on a cloud machine, the given one on any other.
    pub open spec fn user(&self) -> Seq<char> {
        match self {
            NodeSpec::Baremetal { user, .. } => user@,
            _ => "ubuntu"@,
        }
    }

    /// The interface that carries the traffic: `ens5` on a cloud machine, the given one on
    /// any other.
    pub open spec fn iface(&self) -> Seq<char> {
        match self {
            NodeSpec::Baremetal { iface, .. } => iface@,
            _ => "ens5"@,
        }
    }

    /// Where the machine comes from.
    pub open spec fn provider(&self) -> Provider {
        match self {
            NodeSpec::Aws { .. } => Provider::Aws,
            NodeSpec::Azure { .. } => Provider::Azure,
            NodeSpec::Baremetal { .. } => Provider::Baremetal,
        }
    }

    /// The node's identity.
    pub fn get_name(&self) -> (r: String)
        ensures
            r@ == self.name(),
    {
        match self {
            NodeSpec::Aws { region } => {
                let mut r = String::from_str("aws_");
                r.append(remove_char(region.as_str(), '-').as_str());
                r
            },
            NodeSpec::Azure { region } => {
                let mut r = String::from_str("az_");
                r.append(remove_char(region.as_str(), '-').as_str());
                r
            },
            NodeSpec::Baremetal { name, .. } => name.clone(),
        }
    }

    /// The login on the machine.
    pub fn get_user(&self) -> (r: String)
        ensures
            r@ == self.user(),
    {
        match self {
            NodeSpec::Baremetal { user, .. } => user.clone(),
            _ => String::from_str("ubuntu"),
        }
    }

    /// The interface that carries the traffic.
    pub fn get_iface(&self) -> (r: String)
        ensures
            r@ == self.iface(),
    {
        match self {
            NodeSpec::Baremetal { iface, .. } => iface.clone(),
            _ => String::from_str("ens5"),
        }
    }

    /// Where the machine comes from.
    pub fn get_provider(&self) -> (r: Provider)
        ensures
            r == self.provider(),
    {
        match self {
            NodeSpec::Aws { .. } => Provider::Aws,
            NodeSpec::Azure { .. } => Provider::Azure,
            NodeSpec::Baremetal { .. } => Provider::Baremetal,
        }
    }
}

impl Exp {
    /// The experiment joins a node to itself.
    pub open spec fn self_pair(&self) -> bool {
        self.from.name() == self.to.name()
    }

    /// The three output directories of the experiment, in pipeline order, which are to be
    /// made and inspected before the experiment is enlisted. An experiment that joins a node
    /// to itself has none: nothing is made or inspected for it.
    pub fn output_dirs(&self) -> (r: Option<(String, String, String)>)
        ensures
            r is None == self.self_pair(),
            r matches Some(dirs) ==> dirs.0@ == phase_dir_of(
                self.from.name(),
                self.to.name(),
                Phase::Control,
            ) && dirs.1@ == phase_dir_of(self.from.name(), self.to.name(), Phase::Iperf) && dirs.2@
                == phase_dir_of(self.from.name(), self.to.name(), Phase::Bundler),
    {
        let from = self.from.get_name();
        let to = self.to.get_name();
        if from == to {
            None
        } else {
            Some(
                (
                    phase_dir(from.as_str(), to.as_str(), Phase::Control),
                    phase_dir(from.as_str(), to.as_str(), Phase::Iperf),
                    phase_dir(from.as_str(), to.as_str(), Phase::Bundler),
                ),
            )
        }
    }
}

} // verus!
