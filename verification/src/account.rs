use vstd::prelude::*;
use vstd::std_specs::convert::FromSpecImpl;

verus! {

/// Amount of points. Every counter of the ledger has this type.
pub type Balance = u128;

/// Identity of an issuer, a store or a user: thirty-two opaque bytes handed in
/// by the host. Two identities are the same account exactly when their bytes
/// are equal.
#[derive(Clone, Copy, Debug, PartialEq, Eq, Hash)]
pub struct AccountId {
    pub bytes: [u8; 32],
}

impl View for AccountId {
    type V = Seq<u8>;

    /// The bytes of the identity, as the ledger's model keys its maps.
    open spec fn view(&self) -> Seq<u8> {
        self.bytes@
    }
}

impl From<[u8; 32]> for AccountId {
    fn from(bytes: [u8; 32]) -> (id: AccountId) {
        AccountId { bytes }
    }
}

impl FromSpecImpl<[u8; 32]> for AccountId {
    open spec fn obeys_from_spec() -> bool {
        true
    }

    open spec fn from_spec(bytes: [u8; 32]) -> AccountId {
        AccountId { bytes }
    }
}

} // verus!
