//! Identifiers of the Lightning node that the protocols refer to.

use vstd::prelude::*;

use crate::collections::MapKey;

verus! {

/// A node's public key in its compressed serialisation.
#[derive(Clone, Copy, Debug, PartialEq, Eq, Hash)]
pub struct PublicKey {
    /// The 33 bytes of the compressed serialisation.
    pub bytes: [u8; 33],
}

impl View for PublicKey {
    type V = PublicKey;

    open spec fn view(&self) -> PublicKey {
        *self
    }
}

impl MapKey for PublicKey {
    type KeyView = PublicKey;

    open spec fn key_view(&self) -> PublicKey {
        *self
    }

    fn same_key(&self, other: &Self) -> (same: bool) {
        let mut i: usize = 0;
        while i < 33
            invariant
                i <= 33,
                forall|j: int| 0 <= j < i ==> self.bytes@[j] == other.bytes@[j],
            decreases 33 - i,
        {
            if self.bytes[i] != other.bytes[i] {
                return false;
            }
            i += 1;
        }
        assert(self.bytes@ =~= other.bytes@);
        assert(self.bytes =~= other.bytes);
        true
    }
}

/// The identifier of an intercepted HTLC.
#[derive(Clone, Copy, Debug, PartialEq, Eq, Hash)]
pub struct InterceptId(pub [u8; 32]);

} // verus!
