//! Choosing the address of a node among those that its name resolves to.

use vstd::prelude::*;
use crate::addr::SocketAddr;
use crate::error::NetworkError;
use crate::key::PubKey;

verus! {

/// What the resolution of a name gave: the addresses in order, or what went wrong.
pub type Resolution = Result<Vec<SocketAddr>, String>;

/// The address to use for `input`: the first one that it resolved to.
pub open spec fn picked(input: String, outcome: Resolution) -> Result<SocketAddr, NetworkError> {
    match outcome {
        Err(source) => Err(NetworkError::SocketDecodeError { input, source }),
        Ok(addrs) => if addrs@.len() == 0 {
            Err(NetworkError::NoSocketsError { input })
        } else {
            Ok(addrs@[0])
        },
    }
}

/// Picks the address to use for `input`.
pub fn pick_address(input: &String, outcome: &Resolution) -> (r: Result<SocketAddr, NetworkError>)
    ensures
        r == picked(*input, *outcome),
{
    match outcome {
        Err(source) => Err(
            NetworkError::SocketDecodeError { input: input.clone(), source: source.clone() },
        ),
        Ok(addrs) => if addrs.len() == 0 {
            Err(NetworkError::NoSocketsError { input: input.clone() })
        } else {
            Ok(addrs[0])
        },
    }
}

/// A node that was named by key and address, and what its address resolved to.
#[derive(Debug)]
pub struct Lookup {
    pub key: PubKey,
    pub input: String,
    pub outcome: Resolution,
}

impl Lookup {
    /// The address of the node.
    pub open spec fn address(self) -> Result<SocketAddr, NetworkError> {
        picked(self.input, self.outcome)
    }

    /// Whether the node has an address; the lookups behind one that has none are not needed.
    pub fn usable(&self) -> (r: bool)
        ensures
            r == (self.address() is Ok),
    {
        match pick_address(&self.input, &self.outcome) {
            Ok(_) => true,
            Err(_) => false,
        }
    }
}

/// Whether lookup `i` is the first one without an address.
pub open spec fn first_unusable(list: Seq<Lookup>, i: int) -> bool {
    &&& 0 <= i < list.len()
    &&& list[i].address() is Err
    &&& forall|j: int| 0 <= j < i ==> (#[trigger] list[j]).address() is Ok
}

/// Whether every lookup gave an address.
pub open spec fn all_usable(list: Seq<Lookup>) -> bool {
    forall|i: int| 0 <= i < list.len() ==> (#[trigger] list[i]).address() is Ok
}

/// The table of nodes that usable lookups give, entered in order.
pub open spec fn resolved(list: Seq<Lookup>) -> Map<Seq<u8>, SocketAddr>
    decreases list.len(),
{
    if list.len() == 0 {
        Map::empty()
    } else {
        resolved(list.drop_last()).insert(list.last().key@, list.last().address()->Ok_0)
    }
}

} // verus!
