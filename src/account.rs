use vstd::prelude::*;

verus! {

/// The raw bytes of a chain account identifier.
pub type AccountId = [u8; 32];

/// An account identifier as the auction ledger keys it.
#[derive(Clone, Copy, Debug, PartialEq, Eq, PartialOrd, Ord, Hash)]
pub struct AccountIdWrapper(pub AccountId);

impl View for AccountIdWrapper {
    type V = Seq<u8>;

    open spec fn view(&self) -> Seq<u8> {
        self.0@
    }
}

impl AccountIdWrapper {
    /// Whether both identifiers hold the same bytes.
    pub fn same_as(&self, other: &AccountIdWrapper) -> (r: bool)
        ensures
            r == (self@ == other@),
    {
        let mut i: usize = 0;
        while i < 32
            invariant
                0 <= i <= 32,
                self@.len() == 32,
                other@.len() == 32,
                forall|j: int| 0 <= j < i ==> self@[j] == other@[j],
            decreases 32 - i,
        {
            if self.0[i] != other.0[i] {
                return false;
            }
            i = i + 1;
        }
        assert(self@ =~= other@);
        true
    }
}

} // verus!
