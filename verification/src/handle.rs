//! Opaque resource handles.

use vstd::prelude::*;

verus! {

/// A process-unique opaque token referencing a resource owned by the
/// asset bank. Handles are minted by the bank on registration, are never
/// reused, and support only equality and lookup.
#[derive(Clone, Copy, Debug, PartialEq, Eq, Hash, Structural)]
pub struct Handle {
    id: u64,
}

impl Handle {
    /// The bank-internal serial number behind the token.
    pub closed spec fn id(self) -> u64 {
        self.id
    }

    /// Mints the token for a given serial number; only the asset bank
    /// creates handles.
    pub(crate) fn from_serial(id: u64) -> (h: Handle)
        ensures
            h.id() == id,
    {
        Handle { id }
    }
}

/// Two handles are the same token exactly when they carry the same serial
/// number: comparing handles is comparing what the bank issued.
pub proof fn lemma_handle_eq(a: Handle, b: Handle)
    ensures
        (a == b) <==> (a.id() == b.id()),
{
}

} // verus!
