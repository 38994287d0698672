use vstd::prelude::*;

verus! {

/// The 32-byte identity of an account.
#[derive(Clone, Copy, Debug, PartialEq, Eq)]
pub struct AccountId {
    pub bytes: [u8; 32],
}

impl View for AccountId {
    type V = Seq<u8>;

    open spec fn view(&self) -> Seq<u8> {
        self.bytes@
    }
}

impl AccountId {
    pub fn new(bytes: [u8; 32]) -> (r: AccountId)
        ensures
            r.bytes == bytes,
    {
        AccountId { bytes }
    }

    /// The all-zero identity, as held by an uninitialized record.
    pub fn zero() -> (r: AccountId)
        ensures
            r@ == Seq::new(32, |i: int| 0u8),
    {
        let r = AccountId { bytes: [0u8; 32] };
        assert(r@ =~= Seq::new(32, |i: int| 0u8));
        r
    }

    /// Whether two identities are the same bytes.
    pub fn same_as(&self, other: &AccountId) -> (r: bool)
        ensures
            r == (self@ == other@),
    {
        let mut i: usize = 0;
        while i < 32
            invariant
                0 <= i <= 32,
                self@.len() == 32,
                other@.len() == 32,
                forall|j: int| 0 <= j < i ==> self@[j] == other@[j],
            decreases 32 - i,
        {
            if self.bytes[i] != other.bytes[i] {
                return false;
            }
            i = i + 1;
        }
        assert(self@ =~= other@);
        true
    }
}

/// What the library sees of one account supplied to a call.
#[derive(Clone, Debug)]
pub struct AccountView {
    pub key: AccountId,
    pub is_signer: bool,
    /// The program that owns the account.
    pub owner: AccountId,
    pub lamports: u64,
    pub data: Vec<u8>,
}

} // verus!
