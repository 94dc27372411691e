//! Choosing the network interface that a scan goes out on.

use vstd::prelude::*;
use crate::addr::{IpAddress, Ipv4};

verus! {

/// What a scan needs to know of one network interface of the host.
#[derive(Clone, Debug)]
pub struct InterfaceInfo {
    pub name: String,
    pub is_up: bool,
    pub is_loopback: bool,
    /// The addresses assigned to the interface, in the order the host lists
    /// them.
    pub ips: Vec<IpAddress>,
}

/// The first IPv4 address among `ips` at or behind position `from`.
pub open spec fn first_ipv4_from(ips: Seq<IpAddress>, from: int) -> Option<Ipv4>
    decreases ips.len() - from,
{
    if from < 0 || from >= ips.len() {
        None
    } else {
        match ips[from] {
            IpAddress::V4(ip) => Some(ip),
            IpAddress::V6(_) => first_ipv4_from(ips, from + 1),
        }
    }
}

/// The first IPv4 address among `ips`.
pub open spec fn first_ipv4(ips: Seq<IpAddress>) -> Option<Ipv4> {
    first_ipv4_from(ips, 0)
}

impl InterfaceInfo {
    /// Whether a scan can go out on this interface: it is up, it is not the
    /// loopback interface, and it has an IPv4 address.
    pub open spec fn is_eligible(self) -> bool {
        !self.is_loopback && self.is_up && first_ipv4(self.ips@) is Some
    }

    /// The first IPv4 address of the interface.
    pub fn ipv4(&self) -> (ip: Option<Ipv4>)
        ensures
            ip == first_ipv4(self.ips@),
    {
        let mut i: usize = 0;
        while i < self.ips.len()
            invariant
                i <= self.ips@.len(),
                first_ipv4(self.ips@) == first_ipv4_from(self.ips@, i as int),
            decreases self.ips@.len() - i,
        {
            match self.ips[i] {
                IpAddress::V4(ip) => {
                    return Some(ip);
                },
                IpAddress::V6(_) => {},
            }
            i = i + 1;
        }
        None
    }
}

/// The position of the first eligible interface among `interfaces` at or
/// behind position `from`.
pub open spec fn first_eligible_from(interfaces: Seq<InterfaceInfo>, from: int) -> Option<int>
    decreases interfaces.len() - from,
{
    if from < 0 || from >= interfaces.len() {
        None
    } else if interfaces[from].is_eligible() {
        Some(from)
    } else {
        first_eligible_from(interfaces, from + 1)
    }
}

/// The interface that a scan goes out on, by its position among
/// `interfaces`, and the source address of the scan: the first interface
/// that is eligible, with its first IPv4 address. There is none where no
/// interface is eligible.
pub open spec fn default_interface(interfaces: Seq<InterfaceInfo>) -> Option<(int, Ipv4)> {
    match first_eligible_from(interfaces, 0) {
        Some(index) => Some((index, first_ipv4(interfaces[index].ips@).unwrap())),
        None => None,
    }
}

/// What `first_eligible_from` finds is eligible and nothing from `from` up to
/// it is; it finds nothing only where nothing from `from` on is eligible.
pub proof fn lemma_first_eligible(interfaces: Seq<InterfaceInfo>, from: int)
    requires
        0 <= from,
    ensures
        match first_eligible_from(interfaces, from) {
            Some(index) => {
                &&& from <= index < interfaces.len()
                &&& interfaces[index].is_eligible()
                &&& forall|j: int| from <= j < index ==> !(#[trigger] interfaces[j]).is_eligible()
            },
            None => forall|j: int|
                from <= j < interfaces.len() ==> !(#[trigger] interfaces[j]).is_eligible(),
        },
    decreases interfaces.len() - from,
{
    if from < interfaces.len() && !interfaces[from].is_eligible() {
        lemma_first_eligible(interfaces, from + 1);
    }
}

/// There is a default interface if and only if some interface is eligible,
/// and it is the first of those.
pub proof fn lemma_default_interface(interfaces: Seq<InterfaceInfo>)
    ensures
        default_interface(interfaces) is None <==> forall|j: int|
            0 <= j < interfaces.len() ==> !(#[trigger] interfaces[j]).is_eligible(),
        default_interface(interfaces) matches Some((index, ip)) ==> {
            &&& 0 <= index < interfaces.len()
            &&& interfaces[index].is_eligible()
            &&& first_ipv4(interfaces[index].ips@) == Some(ip)
            &&& forall|j: int| 0 <= j < index ==> !(#[trigger] interfaces[j]).is_eligible()
        },
{
    lemma_first_eligible(interfaces, 0);
}

/// Picks the interface that a scan goes out on: the first one that is up, is
/// not the loopback interface and has an IPv4 address, together with the
/// first such address.
pub fn get_default_interface(interfaces: &Vec<InterfaceInfo>) -> (found: Option<(usize, Ipv4)>)
    ensures
        match found {
            Some((index, ip)) => default_interface(interfaces@) == Some((index as int, ip)),
            None => default_interface(interfaces@) is None,
        },
{
    let mut i: usize = 0;
    while i < interfaces.len()
        invariant
            i <= interfaces@.len(),
            first_eligible_from(interfaces@, 0) == first_eligible_from(interfaces@, i as int),
        decreases interfaces@.len() - i,
    {
        let interface = &interfaces[i];
        if !interface.is_loopback && interface.is_up && !interface.ips.is_empty() {
            match interface.ipv4() {
                Some(ip) => {
                    return Some((i, ip));
                },
                None => {},
            }
        }
        i = i + 1;
    }
    None
}

} // verus!
