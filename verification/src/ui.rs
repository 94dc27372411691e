//! What a finished scan is reported as.

use vstd::prelude::*;
use crate::sort::{is_sorted, sort_ports};

verus! {

/// The name of the service that is usually found on `port`.
pub open spec fn service_name(port: u16) -> Seq<char> {
    if port == 21 {
        "FTP"@
    } else if port == 22 {
        "SSH"@
    } else if port == 23 {
        "Telnet"@
    } else if port == 25 {
        "SMTP"@
    } else if port == 53 {
        "DNS"@
    } else if port == 80 {
        "HTTP"@
    } else if port == 443 {
        "HTTPS"@
    } else if port == 445 {
        "SMB"@
    } else if port == 3306 {
        "MySQL"@
    } else if port == 3389 {
        "RDP"@
    } else if port == 5432 {
        "PostgreSQL"@
    } else if port == 8080 {
        "HTTP-Proxy"@
    } else if port == 27017 {
        "MongoDB"@
    } else {
        "Unknown"@
    }
}

/// The name of the service that is usually found on `port`, or `"Unknown"`.
pub fn get_service_name(port: u16) -> (name: &'static str)
    ensures
        name@ == service_name(port),
{
    match port {
        21 => "FTP",
        22 => "SSH",
        23 => "Telnet",
        25 => "SMTP",
        53 => "DNS",
        80 => "HTTP",
        443 => "HTTPS",
        445 => "SMB",
        3306 => "MySQL",
        3389 => "RDP",
        5432 => "PostgreSQL",
        8080 => "HTTP-Proxy",
        27017 => "MongoDB",
        _ => "Unknown",
    }
}

/// One line of the report: an open port and the service usually found on it.
#[derive(Clone, Copy, Debug)]
pub struct ReportRow {
    pub port: u16,
    pub service: &'static str,
}

/// Puts `ports` into ascending order and returns the lines of the report,
/// one for each port in that order. No line stands for "no open ports
/// found".
pub fn print_results(ports: &mut Vec<u16>) -> (rows: Vec<ReportRow>)
    ensures
        is_sorted(final(ports)@),
        final(ports)@.to_multiset() == old(ports)@.to_multiset(),
        rows@.len() == final(ports)@.len(),
        forall|i: int|
            0 <= i < rows@.len() ==> {
                &&& (#[trigger] rows@[i]).port == final(ports)@[i]
                &&& rows@[i].service@ == service_name(final(ports)@[i])
            },
{
    sort_ports(ports);
    let mut rows: Vec<ReportRow> = Vec::new();
    let mut i: usize = 0;
    while i < ports.len()
        invariant
            i <= ports@.len(),
            rows@.len() == i,
            forall|k: int|
                0 <= k < i ==> (#[trigger] rows@[k]).port == ports@[k] && rows@[k].service@
                    == service_name(ports@[k]),
        decreases ports@.len() - i,
    {
        let port: u16 = ports[i];
        rows.push(ReportRow { port, service: get_service_name(port) });
        i = i + 1;
    }
    rows
}

} // verus!
