//! Which addresses names stand for, and what the background task does.

use vstd::prelude::*;
use crate::addr::SocketAddr;
use crate::error::NetworkError;
use crate::fault::Fault;
use crate::listen::{action_on, decimal, Arrival, ListenAction};
use crate::resolve::{all_usable, first_unusable, picked, resolved, Lookup};

verus! {

/// A name stands for the first address that it resolved to; a name that resolved to none, or
/// that could not be resolved, is answered with an error that holds it.
pub proof fn law_first_address_is_picked(input: String, addrs: Vec<SocketAddr>, source: String)
    ensures
        addrs@.len() > 0 ==> picked(input, Ok(addrs)) == Ok::<SocketAddr, NetworkError>(addrs@[0]),
        addrs@.len() == 0 ==> picked(input, Ok(addrs)) == Err::<SocketAddr, NetworkError>(
            NetworkError::NoSocketsError { input },
        ),
        picked(input, Err(source)) == Err::<SocketAddr, NetworkError>(
            NetworkError::SocketDecodeError { input, source },
        ),
{
}

/// A lookup's address is the first one that its own name resolved to.
pub proof fn law_lookups_have_their_own_address(lookup: Lookup)
    ensures
        match lookup.outcome {
            Ok(addrs) => if addrs@.len() > 0 {
                lookup.address() == Ok::<SocketAddr, NetworkError>(addrs@[0])
            } else {
                lookup.address() == Err::<SocketAddr, NetworkError>(
                    NetworkError::NoSocketsError { input: lookup.input },
                )
            },
            Err(source) => lookup.address() == Err::<SocketAddr, NetworkError>(
                NetworkError::SocketDecodeError { input: lookup.input, source },
            ),
        },
{
}

/// Either every lookup resolved to some address, or there is exactly one first lookup that did
/// not, and all before it did.
pub proof fn law_there_is_one_first_failure(list: Seq<Lookup>)
    ensures
        all_usable(list) <==> forall|i: int|
            0 <= i < list.len() ==> ((#[trigger] list[i]).outcome matches Ok(addrs) && addrs@.len()
                > 0),
        !all_usable(list) <==> exists|i: int| first_unusable(list, i),
        forall|i: int, j: int|
            #![trigger first_unusable(list, i), first_unusable(list, j)]
            first_unusable(list, i) && first_unusable(list, j) ==> i == j,
        forall|i: int| #[trigger]
            first_unusable(list, i) ==> 0 <= i < list.len() && !(list[i].outcome matches Ok(addrs)
                && addrs@.len() > 0),
        forall|i: int, j: int|
            #![trigger first_unusable(list, i), list[j]]
            first_unusable(list, i) && 0 <= j < i ==> (list[j].outcome matches Ok(addrs)
                && addrs@.len() > 0),
{
    assert forall|i: int| 0 <= i < list.len() implies ((#[trigger] list[i]).address() is Ok <==> (
    list[i].outcome matches Ok(addrs) && addrs@.len() > 0)) by {
        law_lookups_have_their_own_address(list[i]);
    }
    if !all_usable(list) {
        let i = choose|i: int| 0 <= i < list.len() && !((#[trigger] list[i]).address() is Ok);
        lemma_first_failure_exists(list, i);
    }
}

proof fn lemma_first_failure_exists(list: Seq<Lookup>, i: int)
    requires
        0 <= i < list.len(),
        list[i].address() is Err,
    ensures
        exists|j: int| first_unusable(list, j),
    decreases i,
{
    if exists|j: int| 0 <= j < i && (#[trigger] list[j]).address() is Err {
        let j = choose|j: int| 0 <= j < i && (#[trigger] list[j]).address() is Err;
        lemma_first_failure_exists(list, j);
    } else {
        assert forall|j: int| 0 <= j < i implies (#[trigger] list[j]).address() is Ok by {
            assert(!(list[j].address() is Err));
        }
        assert(first_unusable(list, i));
    }
}

/// Of the lookups, the last one of each key counts: the node is reached at the first address that
/// its name resolved to.
pub proof fn law_last_lookup_counts(list: Seq<Lookup>, i: int, addrs: Vec<SocketAddr>)
    requires
        0 <= i < list.len(),
        list[i].outcome == Ok::<Vec<SocketAddr>, String>(addrs),
        addrs@.len() > 0,
        forall|j: int| i < j < list.len() ==> (#[trigger] list[j]).key@ != list[i].key@,
    ensures
        resolved(list).contains_key(list[i].key@),
        resolved(list)[list[i].key@] == addrs@[0],
    decreases list.len(),
{
    let last = list[list.len() - 1];
    if i < list.len() - 1 {
        let shorter = list.drop_last();
        assert forall|j: int| i < j < shorter.len() implies (#[trigger] shorter[j]).key@
            != shorter[i].key@ by {
            assert(shorter[j] == list[j]);
        }
        law_last_lookup_counts(shorter, i, addrs);
        assert(last.key@ != list[i].key@);
    }
}

/// Only nodes that were looked up are in the table.
pub proof fn law_only_looked_up_nodes_are_known(list: Seq<Lookup>, key: Seq<u8>)
    requires
        resolved(list).contains_key(key),
    ensures
        exists|i: int| 0 <= i < list.len() && (#[trigger] list[i]).key@ == key,
    decreases list.len(),
{
    if list.len() > 0 {
        if list[list.len() - 1].key@ != key {
            let shorter = list.drop_last();
            law_only_looked_up_nodes_are_known(shorter, key);
            let i = choose|i: int| 0 <= i < shorter.len() && (#[trigger] shorter[i]).key@ == key;
            assert(list[i].key@ == key);
        }
    }
}

/// The number that a row of decimal digits stands for.
pub open spec fn number(digits: Seq<char>) -> int
    decreases digits.len(),
{
    if digits.len() == 0 {
        0
    } else {
        number(digits.drop_last()) * 10 + (digits.last() as int - '0' as int)
    }
}

/// A number in decimal is a row of digits that stands for it, without leading zeros.
pub proof fn law_decimals_stand_for_their_number(n: nat)
    ensures
        number(decimal(n)) == n,
        decimal(n).len() > 0,
        forall|i: int| 0 <= i < decimal(n).len() ==> '0' <= #[trigger] decimal(n)[i] <= '9',
        decimal(n).len() > 1 ==> decimal(n)[0] != '0',
        n > 0 ==> decimal(n)[0] != '0',
    decreases n,
{
    let digit = (48 + n % 10) as char;
    if n < 10 {
        assert(decimal(n).drop_last() =~= Seq::empty());
        assert(number(decimal(n).drop_last()) == 0);
    } else {
        law_decimals_stand_for_their_number(n / 10);
        assert(decimal(n).drop_last() =~= decimal(n / 10));
        assert(decimal(n)[0] == decimal(n / 10)[0]);
    }
}

/// The background task ends with success when no more connections come, performs the handshake
/// on each that comes, and fails where one could not be accepted.
pub proof fn law_background_task_goes_on(arrival: Arrival)
    ensures
        action_on(arrival) is Finish <==> arrival is Exhausted,
        action_on(arrival) is Handshake <==> arrival is Stream,
        action_on(arrival) == ListenAction::Fail(Fault::IncomingFailed) <==> arrival is Failed,
{
}

} // verus!
