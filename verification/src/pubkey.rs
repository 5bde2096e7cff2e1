//! Account addresses

use vstd::prelude::*;

use crate::packing::bytes_equal;

verus! {

/// The address of an account: 32 bytes.
#[derive(Clone, Copy, Debug, Eq)]
pub struct Pubkey(pub [u8; 32]);

impl PartialEq for Pubkey {
    fn eq(&self, other: &Self) -> (r: bool) {
        bytes_equal(self.0.as_slice(), other.0.as_slice())
    }
}

impl vstd::std_specs::cmp::PartialEqSpecImpl for Pubkey {
    open spec fn obeys_eq_spec() -> bool {
        true
    }

    open spec fn eq_spec(&self, other: &Pubkey) -> bool {
        self.0@ == other.0@
    }
}

impl Default for Pubkey {
    fn default() -> (r: Self)
        ensures
            r == Pubkey::zero(),
    {
        Pubkey([0u8; 32])
    }
}

impl Pubkey {
    /// The address made of zero bytes.
    pub open spec fn zero() -> Pubkey {
        Pubkey(vstd::array::spec_array_fill_for_copy_type::<u8, 32>(0u8))
    }

    /// The address made of the given bytes.
    pub fn new_from_array(bytes: [u8; 32]) -> (r: Pubkey)
        ensures
            r.0 == bytes,
    {
        Pubkey(bytes)
    }

    /// The bytes of the address.
    pub fn to_bytes(&self) -> (r: [u8; 32])
        ensures
            r == self.0,
    {
        self.0
    }

    /// Whether two addresses are the same.
    pub fn same(&self, other: &Pubkey) -> (r: bool)
        ensures
            r == (*self == *other),
    {
        proof {
            vstd::array::axiom_array_ext_equal(self.0, other.0);
        }
        *self == *other
    }
}

} // verus!
