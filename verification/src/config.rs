//! What a scan is asked to do, and whether it can be done.

use vstd::prelude::*;
use vstd::string::StrSliceExecFns;
use crate::addr::{IpAddress, Ipv4};
use crate::error::{PortField, ScanError, TargetFault};

verus! {

/// The first port of a scan where none is given.
pub const DEFAULT_START_PORT: u16 = 1;

/// The last port of a scan where none is given.
pub const DEFAULT_END_PORT: u16 = 1000;

/// What the command line asks for: the target as it was typed, and the port
/// range.
#[derive(Clone, Debug)]
pub struct Args {
    /// Target IP address to scan.
    pub target: String,
    /// First port of the range.
    pub start_port: u16,
    /// Last port of the range.
    pub end_port: u16,
}

/// A scan that can be run: an IPv4 target and a port range that does not
/// start above its end.
#[derive(Clone, Copy, Debug, PartialEq, Eq, Structural)]
pub struct ScanConfig {
    pub target_ip: Ipv4,
    pub start_port: u16,
    pub end_port: u16,
}

/// What is made of a target address and a port range: the target must be an
/// IP address, and one of version 4, and the range must not start above its
/// end. The first of these that fails gives the error.
pub open spec fn checked_config(address: Option<IpAddress>, start_port: u16, end_port: u16)
    -> Result<ScanConfig, ScanError> {
    match address {
        None => Err(ScanError::InvalidTarget(TargetFault::Unparsable)),
        Some(IpAddress::V6(_)) => Err(ScanError::InvalidTarget(TargetFault::Ipv6)),
        Some(IpAddress::V4(target_ip)) => if start_port > end_port {
            Err(ScanError::InvalidRange)
        } else {
            Ok(ScanConfig { target_ip, start_port, end_port })
        },
    }
}

/// What is made of a target address: it must be an IP address, and one of
/// version 4.
pub open spec fn checked_target(address: Option<IpAddress>) -> Result<Ipv4, ScanError> {
    match address {
        None => Err(ScanError::InvalidTarget(TargetFault::Unparsable)),
        Some(IpAddress::V6(_)) => Err(ScanError::InvalidTarget(TargetFault::Ipv6)),
        Some(IpAddress::V4(target_ip)) => Ok(target_ip),
    }
}

/// Checks a target address. `address` is what the host's address parser made
/// of the target text, `None` where the text is no address.
pub fn check_target(address: Option<IpAddress>) -> (target: Result<Ipv4, ScanError>)
    ensures
        target == checked_target(address),
{
    match address {
        None => Err(ScanError::InvalidTarget(TargetFault::Unparsable)),
        Some(IpAddress::V6(_)) => Err(ScanError::InvalidTarget(TargetFault::Ipv6)),
        Some(IpAddress::V4(target_ip)) => Ok(target_ip),
    }
}

impl ScanConfig {
    /// Whether the range does not start above its end.
    pub open spec fn wf(self) -> bool {
        self.start_port <= self.end_port
    }

    /// Checks a target address and a port range. `address` is what the
    /// host's address parser made of the target text, `None` where the text
    /// is no address.
    pub fn new(address: Option<IpAddress>, start_port: u16, end_port: u16) -> (config: Result<
        ScanConfig,
        ScanError,
    >)
        ensures
            config == checked_config(address, start_port, end_port),
            config matches Ok(c) ==> c.wf(),
    {
        match check_target(address) {
            Err(error) => Err(error),
            Ok(target_ip) => {
                if start_port > end_port {
                    Err(ScanError::InvalidRange)
                } else {
                    Ok(ScanConfig { target_ip, start_port, end_port })
                }
            },
        }
    }

    /// Checks what the command line asks for. `address` is what the host's
    /// address parser made of `args.target`, `None` where that is no address.
    pub fn parse(args: &Args, address: Option<IpAddress>) -> (config: Result<ScanConfig, ScanError>)
        ensures
            config == checked_config(address, args.start_port, args.end_port),
    {
        ScanConfig::new(address, args.start_port, args.end_port)
    }
}

/// The value of a decimal digit.
pub open spec fn digit_value(c: char) -> Option<nat> {
    if '0' <= c <= '9' {
        Some((c as nat - '0' as nat) as nat)
    } else {
        None
    }
}

/// The number that a run of decimal digits spells; the empty run spells zero.
/// There is none where a character is no decimal digit.
pub open spec fn decimal_value(digits: Seq<char>) -> Option<nat>
    decreases digits.len(),
{
    if digits.len() == 0 {
        Some(0)
    } else {
        match (decimal_value(digits.drop_last()), digit_value(digits.last())) {
            (Some(value), Some(digit)) => Some(10 * value + digit),
            _ => None,
        }
    }
}

/// The port number that `text` spells: decimal digits, at least one, with
/// nothing before them but at most one `+` and nothing behind them, whose
/// number is no more than 65535.
pub open spec fn port_of_text(text: Seq<char>) -> Option<u16> {
    let digits = if text.len() > 0 && text[0] == '+' {
        text.skip(1)
    } else {
        text
    };
    if digits.len() == 0 {
        None
    } else {
        match decimal_value(digits) {
            Some(value) => if value <= 0xFFFF {
                Some(value as u16)
            } else {
                None
            },
            None => None,
        }
    }
}

/// Once a run of digits spells more than 65535, so does every longer run
/// that starts with it, as far as it spells a number at all.
proof fn lemma_decimal_value_grows(digits: Seq<char>, shorter: int)
    requires
        0 <= shorter <= digits.len(),
    ensures
        decimal_value(digits) matches Some(value) ==> {
            &&& decimal_value(digits.take(shorter)) matches Some(part)
            &&& part <= value
        },
        decimal_value(digits.take(shorter)) is None ==> decimal_value(digits) is None,
    decreases digits.len() - shorter,
{
    if shorter == digits.len() {
        assert(digits.take(shorter) =~= digits);
    } else {
        lemma_decimal_value_grows(digits, shorter + 1);
        assert(digits.take(shorter + 1).drop_last() =~= digits.take(shorter));
    }
}

/// Reads a port number: see `port_of_text`.
pub fn parse_port(text: &str) -> (port: Option<u16>)
    ensures
        port == port_of_text(text@),
{
    let len: usize = text.unicode_len();
    let first: usize = if len > 0 && text.get_char(0) == '+' {
        1
    } else {
        0
    };
    if first == len {
        return None;
    }
    let ghost digits = text@.skip(first as int);
    assert(text@.skip(0) =~= text@);
    let mut value: u32 = 0;
    let mut i: usize = first;
    assert(digits.take(0) =~= Seq::<char>::empty());
    while i < len
        invariant
            first <= i <= len,
            first < len,
            len == text@.len(),
            first == if text@.len() > 0 && text@[0] == '+' {
                1usize
            } else {
                0usize
            },
            digits == text@.skip(first as int),
            text@.skip(0) == text@,
            decimal_value(digits.take(i - first)) == Some(value as nat),
            value <= 0xFFFF,
        decreases len - i,
    {
        let c: char = text.get_char(i);
        proof {
            assert(digits.take(i - first + 1).drop_last() =~= digits.take(i - first));
            assert(digits.take(i - first + 1).last() == c);
            lemma_decimal_value_grows(digits, i - first + 1);
        }
        if c < '0' || c > '9' {
            assert(digit_value(c) is None);
            assert(decimal_value(digits.take(i - first + 1)) is None);
            return None;
        }
        let digit: u32 = c as u32 - '0' as u32;
        assert(digit_value(c) == Some(digit as nat));
        value = 10 * value + digit;
        assert(decimal_value(digits.take(i - first + 1)) == Some(value as nat));
        if value > 0xFFFF {
            return None;
        }
        i = i + 1;
    }
    assert(digits.take(len - first) =~= digits);
    Some(value as u16)
}

/// Reads the port number given for one end of the range, and names that end
/// where the text spells no port.
pub fn check_port(text: &str, field: PortField) -> (port: Result<u16, ScanError>)
    ensures
        port == match port_of_text(text@) {
            Some(number) => Ok::<u16, ScanError>(number),
            None => Err::<u16, ScanError>(ScanError::InvalidPort(field)),
        },
{
    match parse_port(text) {
        Some(number) => Ok(number),
        None => Err(ScanError::InvalidPort(field)),
    }
}

/// What is made of a target address and of the texts given for the two ends
/// of the port range: the checks of `checked_config`, with the reading of the
/// start port and of the end port, in this order, between the check of the
/// target and that of the range.
pub open spec fn read_config(
    address: Option<IpAddress>,
    start_input: Seq<char>,
    end_input: Seq<char>,
) -> Result<ScanConfig, ScanError> {
    match address {
        None => Err(ScanError::InvalidTarget(TargetFault::Unparsable)),
        Some(IpAddress::V6(_)) => Err(ScanError::InvalidTarget(TargetFault::Ipv6)),
        Some(IpAddress::V4(_)) => match port_of_text(start_input) {
            None => Err(ScanError::InvalidPort(PortField::Start)),
            Some(start_port) => match port_of_text(end_input) {
                None => Err(ScanError::InvalidPort(PortField::End)),
                Some(end_port) => checked_config(address, start_port, end_port),
            },
        },
    }
}

/// Checks what was typed in answer to the three questions of an interactive
/// scan. `address` is what the host's address parser made of the first
/// answer, `None` where that is no address.
pub fn get_config(address: Option<IpAddress>, start_input: &str, end_input: &str) -> (config:
    Result<ScanConfig, ScanError>)
    ensures
        config == read_config(address, start_input@, end_input@),
{
    match check_target(address) {
        Err(error) => Err(error),
        Ok(_) => match check_port(start_input, PortField::Start) {
            Err(error) => Err(error),
            Ok(start_port) => match check_port(end_input, PortField::End) {
                Err(error) => Err(error),
                Ok(end_port) => ScanConfig::new(address, start_port, end_port),
            },
        },
    }
}

} // verus!
