//! Ascending order on port numbers.

use vstd::prelude::*;
use vstd::seq_lib::{to_multiset_build, to_multiset_insert};

verus! {

/// Whether `ports` never goes down from one position to a later one.
pub open spec fn is_sorted(ports: Seq<u16>) -> bool {
    forall|i: int, j: int| 0 <= i <= j < ports.len() ==> ports[i] <= ports[j]
}

/// Whether `ports` goes up from each position to every later one, so that it
/// is sorted and holds no port twice.
pub open spec fn is_ascending(ports: Seq<u16>) -> bool {
    forall|i: int, j: int| 0 <= i < j < ports.len() ==> ports[i] < ports[j]
}

/// Where `port` goes in a sorted `ports`: behind everything that is not above
/// it.
fn insertion_point(ports: &Vec<u16>, port: u16) -> (at: usize)
    requires
        is_sorted(ports@),
    ensures
        at <= ports@.len(),
        forall|k: int| 0 <= k < at ==> ports@[k] <= port,
        forall|k: int| at <= k < ports@.len() ==> port < ports@[k],
{
    let mut at: usize = 0;
    while at < ports.len() && ports[at] <= port
        invariant
            at <= ports@.len(),
            forall|k: int| 0 <= k < at ==> ports@[k] <= port,
        decreases ports@.len() - at,
    {
        at = at + 1;
    }
    at
}

/// Sorts `ports` into ascending order, keeping every port as often as it
/// occurs.
pub fn sort_ports(ports: &mut Vec<u16>)
    ensures
        is_sorted(final(ports)@),
        final(ports)@.to_multiset() == old(ports)@.to_multiset(),
{
    let mut sorted: Vec<u16> = Vec::new();
    let mut i: usize = 0;
    assert(ports@.take(0) =~= sorted@);
    while i < ports.len()
        invariant
            i <= ports@.len(),
            ports@ == old(ports)@,
            is_sorted(sorted@),
            sorted@.to_multiset() == ports@.take(i as int).to_multiset(),
        decreases ports@.len() - i,
    {
        let port: u16 = ports[i];
        let at: usize = insertion_point(&sorted, port);
        proof {
            sorted@.insert_ensures(at as int, port);
            to_multiset_insert(sorted@, at as int, port);
            to_multiset_build(ports@.take(i as int), port);
            assert(ports@.take(i + 1) =~= ports@.take(i as int).push(port));
            let after = sorted@.insert(at as int, port);
            assert forall|a: int, b: int| 0 <= a <= b < after.len() implies after[a]
                <= after[b] by {
                if a < at && b > at {
                    assert(after[b] == sorted@[b - 1]);
                } else if a > at {
                    assert(after[a] == sorted@[a - 1]);
                    assert(after[b] == sorted@[b - 1]);
                } else if a == at && b > at {
                    assert(after[b] == sorted@[b - 1]);
                }
            }
        }
        sorted.insert(at, port);
        i = i + 1;
    }
    assert(ports@.take(i as int) =~= ports@);
    *ports = sorted;
}

/// A sequence that goes up at every step is sorted and holds no port
/// twice.
pub proof fn lemma_ascending_sorted_distinct(ports: Seq<u16>)
    requires
        is_ascending(ports),
    ensures
        is_sorted(ports),
        ports.no_duplicates(),
{
    assert forall|i: int, j: int|
        0 <= i < ports.len() && 0 <= j < ports.len() && i != j implies ports[i] != ports[j] by {
        if i < j {
            assert(ports[i] < ports[j]);
        } else {
            assert(ports[j] < ports[i]);
        }
    }
}

/// A sorted sequence without duplicates goes up at every step.
pub proof fn lemma_sorted_distinct_ascending(ports: Seq<u16>)
    requires
        is_sorted(ports),
        ports.no_duplicates(),
    ensures
        is_ascending(ports),
{
}

} // verus!
