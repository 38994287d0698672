use vstd::prelude::*;

use crate::account::AccountId;
use crate::codec::{le_u64_at, lemma_u64_le_round_trip, push_u64_le, read_u64_le, u64_le};
use crate::error::EscrowError;

verus! {

/// Bytes of a stored escrow record: a flag, three identities, an amount.
pub const ESCROW_LEN: usize = 105;

/// The persisted state of one escrow.
#[derive(Clone, Copy, Debug, PartialEq, Eq)]
pub struct Escrow {
    pub is_initialized: bool,
    /// The party that opened the escrow and may cancel it.
    pub initializer_pubkey: AccountId,
    /// The temporary account that holds the offered asset.
    pub temp_token_account_pubkey: AccountId,
    /// Where the initializer wants the counter-asset delivered.
    pub initializer_token_to_receive_account_pubkey: AccountId,
    /// The counter-asset amount that fulfils the escrow.
    pub expected_amount: u64,
}

/// The stored form of a record: flag byte (1 or 0), the initializer, the
/// holding account, the receive account, and the amount little-endian.
pub open spec fn escrow_bytes(e: Escrow) -> Seq<u8> {
    seq![if e.is_initialized { 1u8 } else { 0u8 }] + e.initializer_pubkey@
        + e.temp_token_account_pubkey@ + e.initializer_token_to_receive_account_pubkey@ + u64_le(
        e.expected_amount,
    )
}

/// Whether `s` has the length of a record and a valid flag byte.
pub open spec fn layout_ok(s: Seq<u8>) -> bool {
    s.len() == ESCROW_LEN && s[0] <= 1
}

/// Whether the stored bytes `s` are the record `e`.
pub open spec fn decodes_to(s: Seq<u8>, e: Escrow) -> bool {
    &&& layout_ok(s)
    &&& e.is_initialized == (s[0] == 1)
    &&& e.initializer_pubkey@ == s.subrange(1, 33)
    &&& e.temp_token_account_pubkey@ == s.subrange(33, 65)
    &&& e.initializer_token_to_receive_account_pubkey@ == s.subrange(65, 97)
    &&& e.expected_amount == le_u64_at(s, 97)
}

/// Packing a record and reading the bytes back gives the same fields.
pub proof fn lemma_pack_unpack(e: Escrow)
    ensures
        escrow_bytes(e).len() == ESCROW_LEN,
        decodes_to(escrow_bytes(e), e),
{
    let s = escrow_bytes(e);
    let v = e.expected_amount;
    assert(s.subrange(1, 33) =~= e.initializer_pubkey@);
    assert(s.subrange(33, 65) =~= e.temp_token_account_pubkey@);
    assert(s.subrange(65, 97) =~= e.initializer_token_to_receive_account_pubkey@);
    let t = u64_le(v);
    assert(s.subrange(97, 105) =~= t);
    assert(s[97] == t[0] && s[98] == t[1] && s[99] == t[2] && s[100] == t[3]);
    assert(s[101] == t[4] && s[102] == t[5] && s[103] == t[6] && s[104] == t[7]) by {
        assert(s.subrange(97, 105)[4] == s[101]);
        assert(s.subrange(97, 105)[5] == s[102]);
        assert(s.subrange(97, 105)[6] == s[103]);
        assert(s.subrange(97, 105)[7] == s[104]);
    }
    lemma_u64_le_round_trip(v);
}

/// Reads the identity stored at `s[at..at + 32]`.
fn read_id(s: &[u8], at: usize) -> (r: AccountId)
    requires
        at + 32 <= s@.len(),
    ensures
        r@ == s@.subrange(at as int, at + 32),
{
    let n = s.len();
    let mut bytes = [0u8; 32];
    let mut i: usize = 0;
    while i < 32
        invariant
            0 <= i <= 32,
            n == s@.len(),
            at + 32 <= s@.len(),
            bytes@.len() == 32,
            forall|j: int| 0 <= j < i ==> bytes@[j] == s@[at + j],
        decreases 32 - i,
    {
        bytes[i] = s[at + i];
        i = i + 1;
    }
    let r = AccountId { bytes };
    assert(r@ =~= s@.subrange(at as int, at + 32));
    r
}

/// Appends the 32 bytes of an identity.
fn push_id(out: &mut Vec<u8>, id: &AccountId)
    ensures
        final(out)@ == old(out)@ + id@,
{
    let mut i: usize = 0;
    while i < 32
        invariant
            0 <= i <= 32,
            id@.len() == 32,
            out@ == old(out)@ + id@.subrange(0, i as int),
        decreases 32 - i,
    {
        out.push(id.bytes[i]);
        i = i + 1;
        assert(out@ =~= old(out)@ + id@.subrange(0, i as int));
    }
    assert(id@.subrange(0, 32) =~= id@);
}

impl Escrow {
    /// The record of an escrow that has just been opened.
    pub fn new(
        initializer: AccountId,
        holding: AccountId,
        receive: AccountId,
        expected_amount: u64,
    ) -> (r: Escrow)
        ensures
            r == (Escrow {
                is_initialized: true,
                initializer_pubkey: initializer,
                temp_token_account_pubkey: holding,
                initializer_token_to_receive_account_pubkey: receive,
                expected_amount,
            }),
    {
        Escrow {
            is_initialized: true,
            initializer_pubkey: initializer,
            temp_token_account_pubkey: holding,
            initializer_token_to_receive_account_pubkey: receive,
            expected_amount,
        }
    }

    pub fn is_initialized(&self) -> (r: bool)
        ensures
            r == self.is_initialized,
    {
        self.is_initialized
    }

    /// The stored bytes of this record; they read back as the same record.
    pub fn pack(&self) -> (r: Vec<u8>)
        ensures
            r@ == escrow_bytes(*self),
            decodes_to(r@, *self),
    {
        proof {
            lemma_pack_unpack(*self);
        }
        let mut out: Vec<u8> = Vec::new();
        out.push(if self.is_initialized { 1u8 } else { 0u8 });
        push_id(&mut out, &self.initializer_pubkey);
        push_id(&mut out, &self.temp_token_account_pubkey);
        push_id(&mut out, &self.initializer_token_to_receive_account_pubkey);
        push_u64_le(&mut out, self.expected_amount);
        assert(out@ =~= escrow_bytes(*self));
        out
    }

    /// Reads a record whatever its flag; malformed bytes are refused.
    pub fn unpack_unchecked(src: &[u8]) -> (r: Result<Escrow, EscrowError>)
        ensures
            layout_ok(src@) ==> (r matches Ok(e) && decodes_to(src@, e)),
            !layout_ok(src@) ==> r == Err::<Escrow, EscrowError>(EscrowError::InvalidAccountData),
    {
        if src.len() != ESCROW_LEN || src[0] > 1 {
            return Err(EscrowError::InvalidAccountData);
        }
        Ok(Escrow {
            is_initialized: src[0] == 1,
            initializer_pubkey: read_id(src, 1),
            temp_token_account_pubkey: read_id(src, 33),
            initializer_token_to_receive_account_pubkey: read_id(src, 65),
            expected_amount: read_u64_le(src, 97),
        })
    }

    /// Reads an active record; malformed bytes and an uninitialized record
    /// are refused.
    pub fn unpack(src: &[u8]) -> (r: Result<Escrow, EscrowError>)
        ensures
            !layout_ok(src@) ==> r == Err::<Escrow, EscrowError>(EscrowError::InvalidAccountData),
            layout_ok(src@) && src@[0] == 0 ==> r == Err::<Escrow, EscrowError>(
                EscrowError::UninitializedAccount,
            ),
            layout_ok(src@) && src@[0] == 1 ==> (r matches Ok(e) && decodes_to(src@, e)),
    {
        let e = Escrow::unpack_unchecked(src)?;
        if !e.is_initialized {
            return Err(EscrowError::UninitializedAccount);
        }
        Ok(e)
    }
}

} // verus!
