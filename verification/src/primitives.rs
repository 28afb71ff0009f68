//! Plain-value forms of the identifiers, instants and addresses the entity
//! shapes carry.
//!
//! The validation rules only ever compare these values or pass them
//! through, so each is held in its numeric form: a UUID as its 128-bit
//! value, an instant as seconds since the Unix epoch, an IP network as an
//! address with a prefix length. The adapters that speak to the outside
//! world convert between these and their textual or library-specific
//! representations.

use vstd::prelude::*;

verus! {

/// A 128-bit entity identifier: the numeric value of a UUID.
#[derive(Debug, Clone, Copy, PartialEq, Eq, Hash, Structural)]
pub struct Id {
    pub value: u128,
}

/// An instant in time, as whole seconds since the Unix epoch.
#[derive(Debug, Clone, Copy, PartialEq, Eq)]
pub struct Timestamp {
    pub unix_seconds: i64,
}

/// An IP network: an address together with the length of its routing
/// prefix.
#[derive(Debug, Clone, Copy, PartialEq, Eq)]
pub enum IpNet {
    V4 { addr: u32, prefix: u8 },
    V6 { addr: u128, prefix: u8 },
}

impl IpNet {
    /// A prefix length never exceeds the width of the address.
    pub open spec fn wf(self) -> bool {
        match self {
            IpNet::V4 { prefix, .. } => prefix <= 32,
            IpNet::V6 { prefix, .. } => prefix <= 128,
        }
    }

    /// Check that the prefix length fits the address family.
    pub fn is_wf(&self) -> (r: bool)
        ensures
            r == self.wf(),
    {
        match self {
            IpNet::V4 { addr: _, prefix } => *prefix <= 32,
            IpNet::V6 { addr: _, prefix } => *prefix <= 128,
        }
    }
}

} // verus!
