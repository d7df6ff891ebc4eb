//! The machine pool: one exclusive lock per node.
use vstd::prelude::*;

verus! {

/// One exclusive lock per node. Nodes are numbered from 0; a lock is free or held by one
/// owner, named by a number that the caller chooses.
pub struct MachinePool {
    owner: Vec<Option<usize>>,
}

impl View for MachinePool {
    type V = Seq<Option<usize>>;

    /// For each node, who holds its lock.
    closed spec fn view(&self) -> Seq<Option<usize>> {
        self.owner@
    }
}

impl MachinePool {
    /// A pool of `nodes` locks, all free.
    pub fn new(nodes: usize) -> (pool: MachinePool)
        ensures
            pool@ == Seq::new(nodes as nat, |i: int| None::<usize>),
    {
        let mut owner: Vec<Option<usize>> = Vec::new();
        let mut i: usize = 0;
        while i < nodes
            invariant
                i <= nodes,
                owner@ == Seq::new(i as nat, |i: int| None::<usize>),
            decreases nodes - i,
        {
            owner.push(None);
            assert(owner@ =~= Seq::new((i + 1) as nat, |i: int| None::<usize>));
            i += 1;
        }
        MachinePool { owner }
    }

    /// The number of nodes.
    pub fn len(&self) -> (n: usize)
        ensures
            n == self@.len(),
    {
        self.owner.len()
    }

    /// Who holds the lock of `node`, if anyone.
    pub fn holder(&self, node: usize) -> (r: Option<usize>)
        requires
            node < self@.len(),
        ensures
            r == self@[node as int],
    {
        self.owner[node]
    }

    /// Takes the lock of `node` for `who` if it is free. Returns whether the lock was granted;
    /// a lock that is held, by `who` or another, is never granted and the pool stays as it was.
    pub fn try_acquire(&mut self, node: usize, who: usize) -> (granted: bool)
        requires
            node < old(self)@.len(),
        ensures
            granted == (old(self)@[node as int] is None),
            granted ==> final(self)@ == old(self)@.update(node as int, Some(who)),
            !granted ==> final(self)@ == old(self)@,
    {
        match self.owner[node] {
            None => {
                self.owner.set(node, Some(who));
                true
            },
            Some(_) => false,
        }
    }

    /// Gives the lock of `node` back if `who` holds it. Returns whether it did; otherwise the
    /// pool stays as it was.
    pub fn release(&mut self, node: usize, who: usize) -> (released: bool)
        requires
            node < old(self)@.len(),
        ensures
            released == (old(self)@[node as int] == Some(who)),
            released ==> final(self)@ == old(self)@.update(node as int, None),
            !released ==> final(self)@ == old(self)@,
    {
        match self.owner[node] {
            Some(h) => {
                if h == who {
                    self.owner.set(node, None);
                    true
                } else {
                    false
                }
            },
            None => false,
        }
    }
}

} // verus!
