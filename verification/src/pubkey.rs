use vstd::prelude::*;

verus! {

broadcast use vstd::array::group_array_axioms;

/// A 32-byte account address.
#[derive(Clone, Copy, Debug, PartialEq, Eq, Hash)]
pub struct Pubkey(pub [u8; 32]);

impl Pubkey {
    /// The all-zero address, which is also the default address.
    pub open spec fn spec_zero() -> Pubkey {
        Pubkey(vstd::array::spec_array_fill_for_copy_type::<u8, 32>(0u8))
    }

    /// Compares two addresses byte by byte.
    pub fn equals(&self, other: &Pubkey) -> (r: bool)
        ensures
            r == (*self == *other),
    {
        let mut i: usize = 0;
        while i < 32
            invariant
                i <= 32,
                forall|j: int| 0 <= j < i ==> self.0[j] == other.0[j],
            decreases 32 - i,
        {
            if self.0[i] != other.0[i] {
                return false;
            }
            i = i + 1;
        }
        assert(self.0 =~= other.0);
        true
    }
}

impl Default for Pubkey {
    fn default() -> (k: Pubkey)
        ensures
            k == Pubkey::spec_zero(),
    {
        Pubkey([0u8; 32])
    }
}

} // verus!
