//! Public keys, by which nodes are known.

use vstd::prelude::*;

verus! {

/// The public key of a node: its canonical byte encoding.
#[derive(Debug, PartialEq, Eq, Hash)]
pub struct PubKey {
    bytes: Vec<u8>,
}

impl View for PubKey {
    type V = Seq<u8>;

    closed spec fn view(&self) -> Seq<u8> {
        self.bytes@
    }
}

impl PubKey {
    /// The key with the given encoding.
    pub fn new(bytes: Vec<u8>) -> (key: PubKey)
        ensures
            key@ == bytes@,
    {
        PubKey { bytes }
    }

    /// The encoding of this key.
    pub fn as_bytes(&self) -> (bytes: &[u8])
        ensures
            bytes@ == self@,
    {
        self.bytes.as_slice()
    }

    /// Whether both keys are the same.
    pub fn same(&self, other: &PubKey) -> (r: bool)
        ensures
            r == (self@ == other@),
    {
        if self.bytes.len() != other.bytes.len() {
            return false;
        }
        let n: usize = self.bytes.len();
        for i in 0..n
            invariant
                n == self.bytes@.len(),
                n == other.bytes@.len(),
                forall|j: int| 0 <= j < i ==> self.bytes@[j] == other.bytes@[j],
        {
            if self.bytes[i] != other.bytes[i] {
                return false;
            }
        }
        assert(self.bytes@ =~= other.bytes@);
        true
    }
}

impl Clone for PubKey {
    fn clone(&self) -> (key: PubKey)
        ensures
            key@ == self@,
    {
        let bytes = self.bytes.clone();
        assert(bytes@ =~= self.bytes@);
        PubKey { bytes }
    }
}

} // verus!
