//! Dotted IPv4 text, used to present a client address to the upstream.
use vstd::prelude::*;

use crate::text::{decimal, push_char, push_text, u64_to_decimal};

verus! {

/// The first address of the range that addresses are drawn from.
pub const IP_RANGE_START: u32 = 1884815360;

/// The end, exclusive, of that range.
pub const IP_RANGE_END: u32 = 1884890111;

/// An IPv4 address as dotted decimal text.
#[derive(Debug)]
pub struct IpStr(pub String);

/// The octet of `ip` that stands `place` octets from the lowest.
pub open spec fn octet(ip: u32, place: nat) -> nat {
    let scale: nat = if place == 3 {
        0x1000000
    } else if place == 2 {
        0x10000
    } else if place == 1 {
        0x100
    } else {
        1
    };
    ((ip as nat) / scale) % 256
}

/// The dotted decimal text of an address, most significant octet first.
pub open spec fn dotted(ip: u32) -> Seq<char> {
    decimal(octet(ip, 3)) + seq!['.'] + decimal(octet(ip, 2)) + seq!['.'] + decimal(octet(ip, 1))
        + seq!['.'] + decimal(octet(ip, 0))
}

/// Relies on `rand::rng()` and `Rng::random_range` of rand: a number in
/// `lo..hi`, which must not be empty.
#[verifier::external_body]
fn random_in_range(lo: u32, hi: u32) -> (r: u32)
    requires
        lo < hi,
    ensures
        lo <= r < hi,
{
    rand::Rng::random_range(&mut rand::rng(), lo..hi)
}

impl IpStr {
    /// The dotted text of an address.
    pub fn from_u32(ip: u32) -> (r: IpStr)
        ensures
            r.0@ == dotted(ip),
    {
        let a: u32 = (ip / 0x1000000) % 256;
        let b: u32 = (ip / 0x10000) % 256;
        let c: u32 = (ip / 0x100) % 256;
        let d: u32 = ip % 256;
        let mut s = u64_to_decimal(a as u64);
        push_char(&mut s, '.');
        let t = u64_to_decimal(b as u64);
        push_text(&mut s, t.as_str());
        push_char(&mut s, '.');
        let t = u64_to_decimal(c as u64);
        push_text(&mut s, t.as_str());
        push_char(&mut s, '.');
        let t = u64_to_decimal(d as u64);
        push_text(&mut s, t.as_str());
        IpStr(s)
    }

    /// A random address of the range `IP_RANGE_START..IP_RANGE_END`.
    pub fn random_chinese_ip() -> (r: IpStr)
        ensures
            exists|ip: u32| IP_RANGE_START <= ip < IP_RANGE_END && r.0@ == #[trigger] dotted(ip),
    {
        let ip = random_in_range(IP_RANGE_START, IP_RANGE_END);
        IpStr::from_u32(ip)
    }

    /// The dotted text.
    pub fn as_str(&self) -> (r: &str)
        ensures
            r@ == self.0@,
    {
        self.0.as_str()
    }
}

impl From<u32> for IpStr {
    /// The dotted text of an address, as `IpStr::from_u32` gives it.
    fn from(ip: u32) -> IpStr {
        IpStr::from_u32(ip)
    }
}

impl vstd::std_specs::convert::FromSpecImpl<u32> for IpStr {
    open spec fn obeys_from_spec() -> bool {
        false
    }

    open spec fn from_spec(v: u32) -> IpStr {
        arbitrary()
    }
}

} // verus!
