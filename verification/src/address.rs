use vstd::prelude::*;

verus! {

/// Which kind of ledger entity an address designates.
#[derive(Clone, Copy, PartialEq, Eq, Structural, Debug, Hash)]
pub enum AddressKind {
    /// A keypair-controlled account.
    Account,
    /// A deployed contract.
    Contract,
}

/// A ledger address: its kind and its 32-byte key, held as four big-endian words.
///
/// Two addresses are the same exactly when kind and key agree, which is what
/// `==` means on this type.
#[derive(Clone, Copy, PartialEq, Eq, Structural, Debug, Hash)]
pub struct Address {
    pub kind: AddressKind,
    pub w0: u64,
    pub w1: u64,
    pub w2: u64,
    pub w3: u64,
}

impl Address {
    /// The all-zero contract id, the conventional "zero address".
    pub open spec fn spec_zero_contract() -> Address {
        Address { kind: AddressKind::Contract, w0: 0, w1: 0, w2: 0, w3: 0 }
    }

    /// Builds the all-zero contract address.
    pub fn zero_contract() -> (a: Address)
        ensures
            a == Address::spec_zero_contract(),
    {
        Address { kind: AddressKind::Contract, w0: 0, w1: 0, w2: 0, w3: 0 }
    }

    /// Whether this is the all-zero contract address.
    pub fn is_zero_contract(&self) -> (b: bool)
        ensures
            b == (*self == Address::spec_zero_contract()),
    {
        match self.kind {
            AddressKind::Contract => self.w0 == 0 && self.w1 == 0 && self.w2 == 0 && self.w3 == 0,
            AddressKind::Account => false,
        }
    }

    /// Whether two addresses designate the same entity.
    pub fn same_as(&self, other: &Address) -> (b: bool)
        ensures
            b == (*self == *other),
    {
        *self == *other
    }
}

} // verus!
