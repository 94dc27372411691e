//! The ports found open so far.

use vstd::prelude::*;
use vstd::seq_lib::to_multiset_contains;
use crate::sort::{is_ascending, lemma_sorted_distinct_ascending, sort_ports};

verus! {

/// A set of port numbers. It holds each of its ports once, in the order in
/// which they were first recorded.
#[derive(Debug)]
pub struct OpenPortSet {
    ports: Vec<u16>,
}

impl View for OpenPortSet {
    type V = Set<u16>;

    closed spec fn view(&self) -> Set<u16> {
        self.ports@.to_set()
    }
}

impl OpenPortSet {
    #[verifier::type_invariant]
    spec fn distinct(self) -> bool {
        self.ports@.no_duplicates()
    }

    /// The empty set.
    pub fn new() -> (set: OpenPortSet)
        ensures
            set@ == Set::<u16>::empty(),
    {
        let set = OpenPortSet { ports: Vec::new() };
        assert(set.ports@.to_set() =~= Set::<u16>::empty());
        set
    }

    /// Whether `port` is in the set.
    pub fn contains(&self, port: u16) -> (found: bool)
        ensures
            found == self@.contains(port),
    {
        let mut i: usize = 0;
        while i < self.ports.len()
            invariant
                i <= self.ports@.len(),
                forall|k: int| 0 <= k < i ==> self.ports@[k] != port,
            decreases self.ports@.len() - i,
        {
            if self.ports[i] == port {
                return true;
            }
            i = i + 1;
        }
        false
    }

    /// Puts `port` into the set, and says whether it was new.
    pub fn record(&mut self, port: u16) -> (added: bool)
        ensures
            final(self)@ == old(self)@.insert(port),
            added == !old(self)@.contains(port),
    {
        proof {
            use_type_invariant(&*self);
        }
        if self.contains(port) {
            assert(self@ =~= self@.insert(port));
            false
        } else {
            let mut taken = OpenPortSet { ports: Vec::new() };
            core::mem::swap(self, &mut taken);
            let mut ports: Vec<u16> = taken.ports;
            ports.push(port);
            *self = OpenPortSet { ports };
            assert(self.ports@.to_set() =~= old(self).ports@.to_set().insert(port)) by {
                let before = old(self).ports@;
                assert forall|p: u16| before.push(port).contains(p) <==> (before.contains(p) || p
                    == port) by {
                    if before.contains(p) {
                        let k = choose|k: int| 0 <= k < before.len() && before[k] == p;
                        assert(before.push(port)[k] == p);
                    }
                    if p == port {
                        assert(before.push(port)[before.len() as int] == p);
                    }
                }
            }
            true
        }
    }

    /// How many ports the set holds.
    pub fn len(&self) -> (n: usize)
        ensures
            self@.finite(),
            n == self@.len(),
    {
        proof {
            use_type_invariant(self);
            self.ports@.unique_seq_to_set();
        }
        self.ports.len()
    }

    /// Whether the set holds no port.
    pub fn is_empty(&self) -> (empty: bool)
        ensures
            empty == (self@ == Set::<u16>::empty()),
    {
        proof {
            if self.ports@.len() == 0 {
                assert(self.ports@.to_set() =~= Set::<u16>::empty());
            } else {
                assert(self.ports@.contains(self.ports@[0]));
                assert(self.ports@.to_set().contains(self.ports@[0]));
            }
        }
        self.ports.len() == 0
    }

    /// The ports of the set in ascending order, each once.
    pub fn sorted(&self) -> (ports: Vec<u16>)
        ensures
            is_ascending(ports@),
            ports@.to_set() == self@,
    {
        let mut ports: Vec<u16> = Vec::new();
        let mut i: usize = 0;
        while i < self.ports.len()
            invariant
                i <= self.ports@.len(),
                ports@ == self.ports@.take(i as int),
            decreases self.ports@.len() - i,
        {
            ports.push(self.ports[i]);
            assert(self.ports@.take(i + 1) =~= self.ports@.take(i as int).push(
                self.ports@[i as int],
            ));
            i = i + 1;
        }
        assert(self.ports@.take(i as int) =~= self.ports@);
        sort_ports(&mut ports);
        proof {
            use_type_invariant(self);
            let before = self.ports@;
            let after = ports@;
            before.lemma_multiset_has_no_duplicates();
            after.lemma_multiset_has_no_duplicates_conv();
            lemma_sorted_distinct_ascending(after);
            assert forall|p: u16| after.contains(p) <==> before.contains(p) by {
                to_multiset_contains(after, p);
                to_multiset_contains(before, p);
            }
            assert(after.to_set() =~= before.to_set());
        }
        ports
    }
}

} // verus!
