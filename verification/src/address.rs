//! Network addresses of bridges, held as plain numbers.

use vstd::prelude::*;

verus! {

/// An IPv4 or IPv6 address, each held as its number in network order
/// (the first octet is the most significant one).
#[derive(Clone, Copy, Debug, PartialEq, Eq, Structural)]
pub enum IpAddress {
    V4(u32),
    V6(u128),
}

} // verus!
