//! Identities: who signs, who administers, who is paid.

use vstd::prelude::*;
use vstd::std_specs::cmp::PartialEqSpecImpl;

verus! {

/// A principal of the ledger, named by the thirty-two bytes of its public key.
///
/// Two identities are the same exactly when their bytes are. One value is set
/// apart: the unset address, all of whose bytes are zero, stands for "nobody".
#[derive(Clone, Copy, Debug, Eq)]
pub struct Identity {
    pub bytes: [u8; 32],
}

impl View for Identity {
    type V = Seq<u8>;

    /// An identity is modelled by the sequence of its thirty-two bytes.
    open spec fn view(&self) -> Seq<u8> {
        self.bytes@
    }
}

impl PartialEq for Identity {
    fn eq(&self, other: &Self) -> (same: bool) {
        let mut i: usize = 0;
        while i < 32
            invariant
                i <= 32,
                forall|j: int| 0 <= j < i ==> self.bytes[j] == other.bytes[j],
            decreases 32 - i,
        {
            if self.bytes[i] != other.bytes[i] {
                return false;
            }
            i += 1;
        }
        proof {
            assert(self@ =~= other@);
            Identity::lemma_same_bytes_same_identity(*self, *other);
        }
        true
    }
}

impl PartialEqSpecImpl for Identity {
    open spec fn obeys_eq_spec() -> bool {
        true
    }

    open spec fn eq_spec(&self, other: &Self) -> bool {
        *self == *other
    }
}

/// The bytes of the default key of the ledger, `Pubkey::default()` as
/// `anchor_lang::prelude` hands it on, read out with `Pubkey::to_bytes`. It is
/// the key that a field of an account holds before anybody has written to it.
///
/// Trusted, not proved: all thirty-two bytes are zero. `Pubkey` wraps a
/// `[u8; 32]` and derives `Default`, and `to_bytes` returns the wrapped array.
#[verifier::external_body]
fn default_key_bytes() -> (bytes: [u8; 32])
    ensures
        forall|i: int| 0 <= i < 32 ==> bytes[i] == 0u8,
{
    anchor_lang::prelude::Pubkey::default().to_bytes()
}

impl Identity {
    /// The unset address.
    pub open spec fn spec_unset() -> Identity {
        Identity { bytes: vstd::array::spec_array_fill_for_copy_type::<u8, 32>(0u8) }
    }

    /// Whether this is the unset address.
    pub open spec fn spec_is_unset(&self) -> bool {
        *self == Identity::spec_unset()
    }

    /// The identity with the given key bytes.
    pub fn new(bytes: [u8; 32]) -> (id: Identity)
        ensures
            id.bytes == bytes,
    {
        Identity { bytes }
    }

    /// The unset address.
    #[verifier::when_used_as_spec(spec_unset)]
    pub fn unset() -> (id: Identity)
        ensures
            id == Identity::unset(),
    {
        let id = Identity { bytes: default_key_bytes() };
        proof {
            Identity::lemma_unset_is_all_zero(id);
        }
        id
    }

    /// Whether this is the unset address.
    #[verifier::when_used_as_spec(spec_is_unset)]
    pub fn is_unset(&self) -> (unset: bool)
        ensures
            unset == self.is_unset(),
    {
        *self == Identity::unset()
    }

    /// The unset address is the one all of whose bytes are zero.
    pub proof fn lemma_unset_is_all_zero(id: Identity)
        ensures
            id.is_unset() <==> forall|i: int| 0 <= i < 32 ==> id.bytes[i] == 0u8,
            id.is_unset() <==> id@ == Seq::new(32, |i: int| 0u8),
    {
        broadcast use vstd::array::axiom_spec_array_fill_for_copy_type;

        let zeros = Identity::unset().bytes;
        assert(forall|i: int| 0 <= i < 32 ==> zeros[i] == 0u8);
        if forall|i: int| 0 <= i < 32 ==> id.bytes[i] == 0u8 {
            assert(id.bytes =~= zeros);
        }
        if id@ == Seq::new(32, |i: int| 0u8) {
            assert(forall|i: int| 0 <= i < 32 ==> id.bytes[i] == id@[i]);
        }
        if id.is_unset() {
            assert(id@ =~= Seq::new(32, |i: int| 0u8));
        }
    }

    /// Identities with the same bytes are the same identity.
    pub proof fn lemma_same_bytes_same_identity(a: Identity, b: Identity)
        ensures
            a@ == b@ <==> a == b,
    {
        if a@ == b@ {
            assert(forall|i: int| 0 <= i < 32 ==> a.bytes[i] == a@[i] && b.bytes[i] == b@[i]);
            assert(a.bytes =~= b.bytes);
        }
    }
}

} // verus!
