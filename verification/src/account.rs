//! Account identifiers: 32 opaque bytes, compared byte by byte.

use vstd::prelude::*;
use vstd::std_specs::cmp::PartialEqSpecImpl;

verus! {

/// The unit of ownership for balances, roles and sessions.
#[derive(Clone, Copy, Debug, Eq, Hash)]
pub struct AccountId {
    pub bytes: [u8; 32],
}

impl View for AccountId {
    type V = Seq<u8>;

    open spec fn view(&self) -> Seq<u8> {
        self.bytes@
    }
}

impl AccountId {
    /// The identifier made of the given bytes.
    pub fn new(bytes: [u8; 32]) -> (id: AccountId)
        ensures
            id.bytes == bytes,
            id@ == bytes@,
    {
        AccountId { bytes }
    }

    /// The identifier whose bytes are all zero.
    pub fn zero() -> (id: AccountId)
        ensures
            id@ == Seq::new(32, |i: int| 0u8),
    {
        let id = AccountId { bytes: [0u8; 32] };
        id
    }

    /// The bytes of the identifier.
    pub fn into_bytes(self) -> (bytes: [u8; 32])
        ensures
            bytes == self.bytes,
            bytes@ == self@,
    {
        self.bytes
    }

    /// Two identifiers with the same bytes are the same identifier.
    pub proof fn lemma_view_injective(self, other: AccountId)
        ensures
            self@ == other@ <==> self == other,
    {
        if self@ == other@ {
            assert(self.bytes =~= other.bytes);
        }
    }
}

impl PartialEq for AccountId {
    fn eq(&self, other: &AccountId) -> (same: bool) {
        let mut i: usize = 0;
        while i < 32
            invariant
                i <= 32,
                forall|j: int| 0 <= j < i ==> self.bytes[j] == other.bytes[j],
            decreases 32 - i,
        {
            if self.bytes[i] != other.bytes[i] {
                return false;
            }
            i += 1;
        }
        assert(self@ =~= other@);
        true
    }
}

impl PartialEqSpecImpl for AccountId {
    open spec fn obeys_eq_spec() -> bool {
        true
    }

    open spec fn eq_spec(&self, other: &AccountId) -> bool {
        self@ == other@
    }
}

} // verus!
