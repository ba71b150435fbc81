//! The set of open connections.

use vstd::prelude::*;
use crate::addr::SocketAddr;

verus! {

/// The addresses that a connection is open to.
#[derive(Debug)]
pub struct Connections {
    addrs: Vec<SocketAddr>,
}

impl View for Connections {
    type V = Set<SocketAddr>;

    closed spec fn view(&self) -> Set<SocketAddr> {
        self.addrs@.to_set()
    }
}

impl Connections {
    /// No connections.
    pub fn new() -> (connections: Connections)
        ensures
            connections@ == Set::<SocketAddr>::empty(),
    {
        let connections = Connections { addrs: Vec::new() };
        assert(connections@ =~= Set::<SocketAddr>::empty());
        connections
    }

    /// Whether a connection to `addr` is open.
    pub fn contains(&self, addr: SocketAddr) -> (r: bool)
        ensures
            r == self@.contains(addr),
    {
        let n: usize = self.addrs.len();
        for i in 0..n
            invariant
                n == self.addrs@.len(),
                forall|j: int| 0 <= j < i ==> self.addrs@[j] != addr,
        {
            if self.addrs[i] == addr {
                return true;
            }
        }
        false
    }

    /// Notes that a connection to `addr` is open.
    pub fn insert(&mut self, addr: SocketAddr)
        ensures
            final(self)@ == old(self)@.insert(addr),
    {
        if !self.contains(addr) {
            let ghost before = self.addrs@;
            self.addrs.push(addr);
            proof {
                let after = self.addrs@;
                assert(after[before.len() as int] == addr);
                assert forall|a: SocketAddr| before.contains(a) implies after.contains(a) by {
                    let j = choose|j: int| 0 <= j < before.len() && before[j] == a;
                    assert(after[j] == a);
                }
            }
        }
        assert(self@ =~= old(self)@.insert(addr));
    }
}

} // verus!
