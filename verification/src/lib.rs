//! Server-side core of an OAuth 2.0 device-authorization grant flow, as used
//! against GitHub: issuing a device code, enforcing one in-flight login
//! attempt per source IP, and translating upstream polling payloads into a
//! uniform outcome taxonomy.

use vstd::prelude::*;

pub mod flow;
pub mod github;
pub mod store;

verus! {

/// Packs the four octets of an IPv4 address into one integer, most
/// significant octet first.
pub fn ipv4(a: u8, b: u8, c: u8, d: u8) -> (r: u32)
    ensures
        r == (a as int) * 0x1000000 + (b as int) * 0x10000 + (c as int) * 0x100 + (d as int),
{
    (a as u32) * 0x1000000 + (b as u32) * 0x10000 + (c as u32) * 0x100 + (d as u32)
}

} // verus!
