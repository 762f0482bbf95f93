//! Link-layer addresses of peers.

use vstd::prelude::*;
use vstd::std_specs::cmp::PartialEqSpecImpl;

verus! {

/// The 48-bit device address that identifies a peer.
#[derive(Debug, Clone, Copy, Eq)]
pub struct BdAddr {
    pub octets: [u8; 6],
}

impl BdAddr {
    pub fn from_bytes(octets: [u8; 6]) -> (addr: Self)
        ensures
            addr.octets == octets,
    {
        BdAddr { octets }
    }
}

impl PartialEq for BdAddr {
    fn eq(&self, other: &Self) -> (equal: bool) {
        let equal = self.octets[0] == other.octets[0] && self.octets[1] == other.octets[1]
            && self.octets[2] == other.octets[2] && self.octets[3] == other.octets[3]
            && self.octets[4] == other.octets[4] && self.octets[5] == other.octets[5];
        proof {
            if equal {
                assert(self.octets@ =~= other.octets@);
                assert(self.octets == other.octets);
            }
        }
        equal
    }
}

impl PartialEqSpecImpl for BdAddr {
    open spec fn obeys_eq_spec() -> bool {
        true
    }

    open spec fn eq_spec(&self, other: &Self) -> bool {
        *self == *other
    }
}

} // verus!
