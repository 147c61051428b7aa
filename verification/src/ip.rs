//! The IP-address example: a bare kind enum, and the refined form
//! where each variant carries its own representation.

use vstd::prelude::*;

verus! {

/// Which addressing scheme an address uses.
pub enum IpAddrKind {
    V4,
    V6,
}

/// An address, with the version-four form holding its four octets and
/// the version-six form holding its textual representation.
pub enum IpAddr {
    V4(u8, u8, u8, u8),
    V6(String),
}

/// Accept either kind of address; the body is deliberately empty.
pub fn route(ip_kind: IpAddrKind) {
}

} // verus!
