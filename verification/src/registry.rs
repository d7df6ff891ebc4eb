//! The node registry: every machine that an enlisted experiment needs, once, under its name.
use vstd::prelude::*;
use vstd::string::*;
use crate::node::{Exp, NodeSpec, Provider};
use crate::scheduler::ExperimentPair;
use crate::tracker::{check_path, PathProbe};

verus! {

/// A registered machine.
#[derive(Debug, PartialEq, Eq)]
pub struct Registered {
    pub name: String,
    pub provider: Provider,
    pub user: String,
    pub iface: String,
}

/// What a registered machine says, as plain text.
pub struct RegisteredView {
    pub name: Seq<char>,
    pub provider: Provider,
    pub user: Seq<char>,
    pub iface: Seq<char>,
}

impl View for Registered {
    type V = RegisteredView;

    open spec fn view(&self) -> RegisteredView {
        RegisteredView {
            name: self.name@,
            provider: self.provider,
            user: self.user@,
            iface: self.iface@,
        }
    }
}

/// The registered machines, in the order in which they were registered.
pub struct NodeRegistry {
    nodes: Vec<Registered>,
}

impl View for NodeRegistry {
    type V = Seq<RegisteredView>;

    closed spec fn view(&self) -> Seq<RegisteredView> {
        Seq::new(self.nodes@.len(), |i: int| self.nodes@[i]@)
    }
}

/// The entry that registering `node` adds.
pub open spec fn entry_of(node: &NodeSpec) -> RegisteredView {
    RegisteredView {
        name: node.name(),
        provider: node.provider(),
        user: node.user(),
        iface: node.iface(),
    }
}

/// A machine called `name` is among `nodes`.
pub open spec fn has_name(nodes: Seq<RegisteredView>, name: Seq<char>) -> bool {
    exists|i: int| 0 <= i < nodes.len() && (#[trigger] nodes[i]).name == name
}

/// What registering `node` makes of `nodes`: nothing new if a machine of that name is
/// there, else the same with the node's entry at the end.
pub open spec fn registering(nodes: Seq<RegisteredView>, node: &NodeSpec) -> Seq<RegisteredView> {
    if has_name(nodes, node.name()) {
        nodes
    } else {
        nodes.push(entry_of(node))
    }
}

/// No two of `nodes` have the same name.
pub open spec fn unique_names(nodes: Seq<RegisteredView>) -> bool {
    forall|i: int, j: int| 0 <= i < j < nodes.len() ==> nodes[i].name != nodes[j].name
}

/// Enlists an experiment that joins a node to itself. Its pair is put at the end of `pairs`
/// so that the scheduler records it as skipped; no node is registered for it, since it
/// needs no machine, and nothing is looked up or made on disk. Any other experiment is left
/// to `NodeRegistry::enlist`, and `pairs` stays as it was. Returns whether the experiment
/// joins a node to itself.
pub fn enlist_self_pair(pairs: &mut Vec<ExperimentPair>, exp: &Exp) -> (r: bool)
    ensures
        r == exp.self_pair(),
        !r ==> final(pairs)@ == old(pairs)@,
        r ==> {
            &&& final(pairs)@.len() == old(pairs)@.len() + 1
            &&& final(pairs)@.drop_last() == old(pairs)@
            &&& final(pairs)@.last().from@ == exp.from.name()
            &&& final(pairs)@.last().to@ == exp.to.name()
        },
{
    let from = exp.from.get_name();
    let to = exp.to.get_name();
    if from == to {
        pairs.push(ExperimentPair { from, to });
        assert(pairs@.drop_last() =~= old(pairs)@);
        true
    } else {
        false
    }
}

impl NodeRegistry {
    /// The registry's invariant: no name is registered twice.
    pub open spec fn wf(&self) -> bool {
        unique_names(self@)
    }

    /// A registry without machines.
    pub fn new() -> (r: NodeRegistry)
        ensures
            r@ == Seq::<RegisteredView>::empty(),
            r.wf(),
    {
        let r = NodeRegistry { nodes: Vec::new() };
        assert(r@ =~= Seq::<RegisteredView>::empty());
        r
    }

    /// The number of registered machines.
    pub fn len(&self) -> (n: usize)
        ensures
            n == self@.len(),
    {
        self.nodes.len()
    }

    /// The machine registered as number `i`.
    pub fn get(&self, i: usize) -> (r: &Registered)
        requires
            i < self@.len(),
        ensures
            r@ == self@[i as int],
    {
        &self.nodes[i]
    }

    /// The number under which a machine called `name` is registered, if one is.
    pub fn lookup(&self, name: &String) -> (r: Option<usize>)
        ensures
            r is Some == has_name(self@, name@),
            r matches Some(i) ==> i < self@.len() && self@[i as int].name == name@,
    {
        let mut i: usize = 0;
        while i < self.nodes.len()
            invariant
                i <= self.nodes.len(),
                forall|j: int| 0 <= j < i ==> (#[trigger] self@[j]).name != name@,
            decreases self.nodes.len() - i,
        {
            if self.nodes[i].name == *name {
                assert(self@[i as int].name == name@);
                return Some(i);
            }
            i += 1;
        }
        None
    }

    /// Registers `node` unless a machine of its name is registered already. Returns the
    /// node's name and whether the node is new to the registry; a new node is to be set up
    /// and started, a known one is not.
    pub fn register_node(&mut self, node: &NodeSpec) -> (r: (String, bool))
        requires
            old(self).wf(),
        ensures
            final(self).wf(),
            r.0@ == node.name(),
            r.1 == !has_name(old(self)@, node.name()),
            final(self)@ == registering(old(self)@, node),
    {
        let name = node.get_name();
        match self.lookup(&name) {
            Some(_) => {
                (name, false)
            },
            None => {
                let entry = Registered {
                    name: name.clone(),
                    provider: node.get_provider(),
                    user: node.get_user(),
                    iface: node.get_iface(),
                };
                self.nodes.push(entry);
                assert(self@ =~= old(self)@.push(entry_of(node)));
                assert forall|i: int, j: int| 0 <= i < j < self@.len() implies self@[i].name
                    != self@[j].name by {
                    if j < old(self)@.len() {
                        assert(old(self)@[i].name != old(self)@[j].name);
                    } else {
                        assert(old(self)@[i].name != node.name());
                    }
                }
                (name, true)
            },
        }
    }

    /// Enlists the experiment `exp`, of whose output directories `probe` tells what was
    /// found. An experiment with work left has its two nodes registered, sender first, and
    /// its pair put at the end of `pairs`; the result names which of the two nodes are new.
    /// An experiment with all its markers in place changes nothing and gives `None`.
    pub fn enlist(&mut self, pairs: &mut Vec<ExperimentPair>, exp: &Exp, probe: &PathProbe) -> (r:
        Option<(bool, bool)>)
        requires
            old(self).wf(),
        ensures
            final(self).wf(),
            r is Some == !(probe.dirs_ok() && probe.complete()),
            r is None ==> final(self)@ == old(self)@ && final(pairs)@ == old(pairs)@,
            r matches Some(fresh) ==> {
                &&& final(self)@ == registering(registering(old(self)@, &exp.from), &exp.to)
                &&& fresh.0 == !has_name(old(self)@, exp.from.name())
                &&& fresh.1 == !has_name(registering(old(self)@, &exp.from), exp.to.name())
                &&& final(pairs)@.len() == old(pairs)@.len() + 1
                &&& final(pairs)@.drop_last() == old(pairs)@
                &&& final(pairs)@.last().from@ == exp.from.name()
                &&& final(pairs)@.last().to@ == exp.to.name()
            },
    {
        if check_path(probe) {
            let (from, fresh_from) = self.register_node(&exp.from);
            let (to, fresh_to) = self.register_node(&exp.to);
            pairs.push(ExperimentPair { from, to });
            assert(pairs@.drop_last() =~= old(pairs)@);
            Some((fresh_from, fresh_to))
        } else {
            None
        }
    }
}

} // verus!
