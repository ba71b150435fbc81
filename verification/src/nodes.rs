//! The table of known nodes.

use vstd::prelude::*;
use crate::addr::SocketAddr;
use crate::key::PubKey;

verus! {

/// Which address each known node is reached at.
#[derive(Debug)]
pub struct NodeTable {
    entries: Vec<(PubKey, SocketAddr)>,
}

/// Whether entry `i` is the one of the node with key `key`.
spec fn is_entry(entries: Seq<(PubKey, SocketAddr)>, key: Seq<u8>, i: int) -> bool {
    0 <= i < entries.len() && entries[i].0@ == key
}

/// The addresses by key.
spec fn addresses(entries: Seq<(PubKey, SocketAddr)>) -> Map<Seq<u8>, SocketAddr> {
    Map::new(
        |key: Seq<u8>| exists|i: int| is_entry(entries, key, i),
        |key: Seq<u8>| entries[choose|i: int| is_entry(entries, key, i)].1,
    )
}

/// Whether no node has two entries.
spec fn one_entry_each(entries: Seq<(PubKey, SocketAddr)>) -> bool {
    forall|i: int, j: int|
        0 <= i < entries.len() && 0 <= j < entries.len() && i != j ==> (#[trigger] entries[i]).0@
            != (#[trigger] entries[j]).0@
}

/// The table that results where the pairs of `list` are entered in order: of two pairs with one
/// key the later one counts.
pub open spec fn entered(list: Seq<(PubKey, SocketAddr)>) -> Map<Seq<u8>, SocketAddr>
    decreases list.len(),
{
    if list.len() == 0 {
        Map::empty()
    } else {
        entered(list.drop_last()).insert(list.last().0@, list.last().1)
    }
}

/// The keys of `keys`.
pub open spec fn key_views(keys: Seq<PubKey>) -> Seq<Seq<u8>> {
    keys.map_values(|key: PubKey| key@)
}

impl View for NodeTable {
    type V = Map<Seq<u8>, SocketAddr>;

    closed spec fn view(&self) -> Map<Seq<u8>, SocketAddr> {
        addresses(self.entries@)
    }
}

/// An entry's address is the one that the table gives.
proof fn lemma_entry(entries: Seq<(PubKey, SocketAddr)>, i: int)
    requires
        one_entry_each(entries),
        0 <= i < entries.len(),
    ensures
        addresses(entries).contains_key(entries[i].0@),
        addresses(entries)[entries[i].0@] == entries[i].1,
{
    let key = entries[i].0@;
    assert(is_entry(entries, key, i));
    let k = choose|k: int| is_entry(entries, key, k);
    assert(is_entry(entries, key, k));
    if k != i {
        assert(entries[k].0@ != entries[i].0@);
    }
}

impl NodeTable {
    #[verifier::type_invariant]
    spec fn well_formed(self) -> bool {
        one_entry_each(self.entries@)
    }

    /// The table without nodes.
    pub fn new() -> (table: NodeTable)
        ensures
            table@ == Map::<Seq<u8>, SocketAddr>::empty(),
    {
        let table = NodeTable { entries: Vec::new() };
        assert(table@ =~= Map::<Seq<u8>, SocketAddr>::empty());
        table
    }

    /// The position of a node's entry.
    fn position(&self, key: &PubKey) -> (r: Option<usize>)
        ensures
            match r {
                Some(i) => is_entry(self.entries@, key@, i as int),
                None => forall|i: int| !is_entry(self.entries@, key@, i),
            },
    {
        let n: usize = self.entries.len();
        for i in 0..n
            invariant
                n == self.entries@.len(),
                forall|j: int| 0 <= j < i ==> !is_entry(self.entries@, key@, j),
        {
            if self.entries[i].0.same(key) {
                return Some(i);
            }
        }
        None
    }

    /// The address of a node, if it is known.
    pub fn get(&self, key: &PubKey) -> (r: Option<SocketAddr>)
        ensures
            match r {
                Some(addr) => self@.contains_key(key@) && addr == self@[key@],
                None => !self@.contains_key(key@),
            },
    {
        proof {
            use_type_invariant(self);
        }
        match self.position(key) {
            Some(i) => {
                proof {
                    lemma_entry(self.entries@, i as int);
                }
                Some(self.entries[i].1)
            },
            None => None,
        }
    }

    /// Enters a node, or moves one that is known to a new address.
    pub fn insert(&mut self, key: PubKey, addr: SocketAddr)
        ensures
            final(self)@ == old(self)@.insert(key@, addr),
    {
        proof {
            use_type_invariant(&*self);
        }
        let found = self.position(&key);
        let ghost before = self.entries@;
        let ghost k = key@;
        let mut entries: Vec<(PubKey, SocketAddr)> = Vec::new();
        std::mem::swap(&mut entries, &mut self.entries);
        match found {
            Some(i) => {
                entries.set(i, (key, addr));
                proof {
                    let after = entries@;
                    assert(is_entry(after, k, i as int));
                    assert(forall|j: int| 0 <= j < after.len() ==> (#[trigger] after[j]).0@
                        == before[j].0@);
                    assert(one_entry_each(after)) by {
                        assert forall|a: int, b: int|
                            0 <= a < after.len() && 0 <= b < after.len() && a
                                != b implies (#[trigger] after[a]).0@ != (
                        #[trigger] after[b]).0@ by {
                            assert(before[a].0@ != before[b].0@);
                        }
                    }
                }
            },
            None => {
                entries.push((key, addr));
                proof {
                    let after = entries@;
                    assert(is_entry(after, k, before.len() as int));
                    assert(one_entry_each(after)) by {
                        assert forall|a: int, b: int|
                            0 <= a < after.len() && 0 <= b < after.len() && a
                                != b implies (#[trigger] after[a]).0@ != (
                        #[trigger] after[b]).0@ by {
                            assert(!is_entry(before, k, a));
                            assert(!is_entry(before, k, b));
                            if a < before.len() && b < before.len() {
                                assert(before[a].0@ != before[b].0@);
                            }
                        }
                    }
                }
            },
        }
        proof {
            lemma_entry_replaced(before, entries@, k, addr);
        }
        self.entries = entries;
    }

    /// The keys of all known nodes, each once, in no promised order.
    pub fn keys(&self) -> (keys: Vec<PubKey>)
        ensures
            key_views(keys@).no_duplicates(),
            key_views(keys@).to_set() == self@.dom(),
    {
        proof {
            use_type_invariant(self);
        }
        let mut keys: Vec<PubKey> = Vec::new();
        let n: usize = self.entries.len();
        for i in 0..n
            invariant
                n == self.entries@.len(),
                keys@.len() == i,
                forall|j: int| 0 <= j < i ==> (#[trigger] keys@[j])@ == self.entries@[j].0@,
        {
            keys.push(self.entries[i].0.clone());
        }
        proof {
            let views = key_views(keys@);
            assert forall|a: int, b: int|
                0 <= a < views.len() && 0 <= b < views.len() && a != b implies views[a]
                != views[b] by {
                assert(keys@[a]@ == self.entries@[a].0@);
                assert(keys@[b]@ == self.entries@[b].0@);
            }
            assert forall|key: Seq<u8>| views.to_set().contains(key) == self@.contains_key(key) by {
                if views.contains(key) {
                    let j = choose|j: int| 0 <= j < views.len() && views[j] == key;
                    assert(keys@[j]@ == self.entries@[j].0@);
                    assert(is_entry(self.entries@, key, j));
                }
                if self@.contains_key(key) {
                    let j = choose|j: int| is_entry(self.entries@, key, j);
                    assert(keys@[j]@ == self.entries@[j].0@);
                    assert(views[j] == key);
                }
            }
            assert(views.to_set() =~= self@.dom());
        }
        keys
    }

    /// Whether `other` gives the same address for each node of this table.
    pub fn agrees_with(&self, other: &NodeTable) -> (r: bool)
        ensures
            r == self@.submap_of(other@),
    {
        proof {
            use_type_invariant(self);
        }
        let n: usize = self.entries.len();
        for i in 0..n
            invariant
                n == self.entries@.len(),
                one_entry_each(self.entries@),
                forall|j: int|
                    0 <= j < i ==> other@.contains_key((#[trigger] self.entries@[j]).0@)
                        && other@[self.entries@[j].0@] == self.entries@[j].1,
        {
            proof {
                lemma_entry(self.entries@, i as int);
            }
            match other.get(&self.entries[i].0) {
                None => {
                    return false;
                },
                Some(addr) => {
                    if addr != self.entries[i].1 {
                        return false;
                    }
                },
            }
        }
        assert forall|key: Seq<u8>| #[trigger] self@.contains_key(key) implies other@.contains_key(
            key,
        ) && other@[key] == self@[key] by {
            let j = choose|j: int| is_entry(self.entries@, key, j);
            lemma_entry(self.entries@, j);
        }
        true
    }

    /// The table with the pairs of `list` entered in order.
    pub fn from_list(list: Vec<(PubKey, SocketAddr)>) -> (table: NodeTable)
        ensures
            table@ == entered(list@),
    {
        let mut table = NodeTable::new();
        let n: usize = list.len();
        assert(list@.take(0) =~= Seq::empty());
        for i in 0..n
            invariant
                n == list@.len(),
                table@ == entered(list@.take(i as int)),
        {
            let ghost next = list@.take(i + 1);
            assert(next.drop_last() =~= list@.take(i as int));
            table.insert(list[i].0.clone(), list[i].1);
        }
        assert(list@.take(n as int) =~= list@);
        table
    }
}

/// Where entries differ only in the one of `key`, so do the tables.
proof fn lemma_entry_replaced(
    before: Seq<(PubKey, SocketAddr)>,
    after: Seq<(PubKey, SocketAddr)>,
    key: Seq<u8>,
    addr: SocketAddr,
)
    requires
        one_entry_each(before),
        one_entry_each(after),
        before.len() <= after.len(),
        exists|i: int| is_entry(after, key, i) && after[i].1 == addr,
        forall|j: int|
            0 <= j < before.len() && before[j].0@ != key ==> after[j] == #[trigger] before[j],
        forall|j: int|
            0 <= j < after.len() && (#[trigger] after[j]).0@ != key ==> j < before.len() && after[j]
                == before[j],
    ensures
        addresses(after) == addresses(before).insert(key, addr),
{
    let expected = addresses(before).insert(key, addr);
    let at = choose|i: int| is_entry(after, key, i) && after[i].1 == addr;
    lemma_entry(after, at);
    assert forall|k: Seq<u8>|
        #![auto]
        addresses(after).contains_key(k) == expected.contains_key(k) by {
        if k != key {
            if addresses(after).contains_key(k) {
                let j = choose|j: int| is_entry(after, k, j);
                assert(is_entry(before, k, j));
            }
            if addresses(before).contains_key(k) {
                let j = choose|j: int| is_entry(before, k, j);
                assert(is_entry(after, k, j));
            }
        }
    }
    assert forall|k: Seq<u8>| #![auto] addresses(after).contains_key(k) implies addresses(after)[k]
        == expected[k] by {
        if k != key {
            let j = choose|j: int| is_entry(after, k, j);
            lemma_entry(after, j);
            lemma_entry(before, j);
        }
    }
    assert(addresses(after) =~= expected);
}

} // verus!
