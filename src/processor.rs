use vstd::prelude::*;

use crate::account::{AccountId, AccountView};
use crate::authority::{
    authority_seed_bytes, find_authority, is_token_program, is_token_service, program_address_of,
    token_balance, token_balance_of,
};
use crate::codec::le_u64_at;
use crate::error::EscrowError;
use crate::instruction::{decode_instruction, EscrowInstruction};
use crate::state::{escrow_bytes, layout_ok, lemma_pack_unpack, Escrow};

verus! {

/// A call into the token-transfer service.
#[derive(Clone, Copy, Debug, PartialEq, Eq)]
pub enum TokenCall {
    /// Hand control of `account` from `current_owner` to `new_owner`.
    SetOwner { account: AccountId, new_owner: AccountId, current_owner: AccountId },
    /// Move `amount` from `source` to `destination`, authorized by `authority`.
    Transfer { source: AccountId, destination: AccountId, authority: AccountId, amount: u64 },
    /// Close the empty `account`, crediting its deposit to `destination`.
    CloseAccount { account: AccountId, destination: AccountId, authority: AccountId },
}

/// One call to make, in order. With `signer_bump` set, the program-controlled
/// authority signs it with the fixed seed and that bump.
#[derive(Clone, Copy, Debug, PartialEq, Eq)]
pub struct Invocation {
    pub token_program: AccountId,
    pub call: TokenCall,
    pub signer_bump: Option<u8>,
}

/// What the host carries out once a call is accepted: with `record_data` =
/// (record, bytes), store the bytes in the account at position `record`; make
/// `invocations` in order; and then, with
/// `close_record` = (record, refund), move the record's balance to the account
/// at position `refund` (see `reclaim_record`) and clear the record's data.
#[derive(Clone, Debug)]
pub struct Effects {
    pub record_data: Option<(usize, Vec<u8>)>,
    pub invocations: Vec<Invocation>,
    pub close_record: Option<(usize, usize)>,
}

/// The stateless entry point of the escrow program.
pub struct Processor;

pub open spec fn stored_initializer(s: Seq<u8>) -> Seq<u8> {
    s.subrange(1, 33)
}

pub open spec fn stored_holding(s: Seq<u8>) -> Seq<u8> {
    s.subrange(33, 65)
}

pub open spec fn stored_receive(s: Seq<u8>) -> Seq<u8> {
    s.subrange(65, 97)
}

pub open spec fn stored_amount(s: Seq<u8>) -> u64 {
    le_u64_at(s, 97)
}

pub open spec fn is_set_owner(
    inv: Invocation,
    token: Seq<u8>,
    account: Seq<u8>,
    new_owner: Seq<u8>,
    current: Seq<u8>,
) -> bool {
    &&& inv.token_program@ == token
    &&& inv.signer_bump is None
    &&& match inv.call {
        TokenCall::SetOwner { account: a, new_owner: n, current_owner: c } => a@ == account && n@
            == new_owner && c@ == current,
        _ => false,
    }
}

pub open spec fn is_transfer(
    inv: Invocation,
    token: Seq<u8>,
    source: Seq<u8>,
    destination: Seq<u8>,
    authority: Seq<u8>,
    amount: u64,
    bump: Option<u8>,
) -> bool {
    &&& inv.token_program@ == token
    &&& inv.signer_bump == bump
    &&& match inv.call {
        TokenCall::Transfer { source: s, destination: d, authority: au, amount: m } => s@ == source
            && d@ == destination && au@ == authority && m == amount,
        _ => false,
    }
}

pub open spec fn is_close(
    inv: Invocation,
    token: Seq<u8>,
    account: Seq<u8>,
    destination: Seq<u8>,
    authority: Seq<u8>,
    bump: Option<u8>,
) -> bool {
    &&& inv.token_program@ == token
    &&& inv.signer_bump == bump
    &&& match inv.call {
        TokenCall::CloseAccount { account: a, destination: d, authority: au } => a@ == account
            && d@ == destination && au@ == authority,
        _ => false,
    }
}

/// Init reads [initializer, holding, receive, record, exemption oracle,
/// token service]; each account is required where it is first read, and the
/// first check that fails decides the error.
pub open spec fn init_failure(program_id: Seq<u8>, a: Seq<AccountView>, minimum_balance: u64) -> Option<
    EscrowError,
> {
    if a.len() < 1 {
        Some(EscrowError::NotEnoughAccountKeys)
    } else if !a[0].is_signer {
        Some(EscrowError::MissingRequiredSignature)
    } else if a.len() < 3 {
        Some(EscrowError::NotEnoughAccountKeys)
    } else if !is_token_program(a[2].owner@) {
        Some(EscrowError::IncorrectProgramId)
    } else if a.len() < 5 {
        Some(EscrowError::NotEnoughAccountKeys)
    } else if a[3].lamports < minimum_balance {
        Some(EscrowError::NotRentExempt)
    } else if !layout_ok(a[3].data@) {
        Some(EscrowError::InvalidAccountData)
    } else if a[3].data@[0] == 1 {
        Some(EscrowError::AccountAlreadyInitialized)
    } else if program_address_of(authority_seed_bytes(), program_id) is None {
        Some(EscrowError::InvalidSeeds)
    } else if a.len() < 6 {
        Some(EscrowError::NotEnoughAccountKeys)
    } else if !is_token_program(a[5].key@) {
        Some(EscrowError::IncorrectProgramId)
    } else {
        None
    }
}

/// A successful Init stores the new active record and hands the holding
/// account to the program-controlled authority.
pub open spec fn init_effects(program_id: Seq<u8>, a: Seq<AccountView>, amount: u64, eff: Effects) -> bool {
    match program_address_of(authority_seed_bytes(), program_id) {
        Some(p) => {
            &&& eff.record_data matches Some(d) && d.0 == 3 && d.1@ == escrow_bytes(
                Escrow {
                    is_initialized: true,
                    initializer_pubkey: a[0].key,
                    temp_token_account_pubkey: a[1].key,
                    initializer_token_to_receive_account_pubkey: a[2].key,
                    expected_amount: amount,
                },
            )
            &&& eff.invocations@.len() == 1
            &&& is_set_owner(eff.invocations@[0], a[5].key@, a[1].key@, p.0, a[0].key@)
            &&& eff.close_record is None
        },
        None => false,
    }
}

pub open spec fn init_meets(
    program_id: Seq<u8>,
    a: Seq<AccountView>,
    amount: u64,
    minimum_balance: u64,
    r: Result<Effects, EscrowError>,
) -> bool {
    match init_failure(program_id, a, minimum_balance) {
        Some(e) => r == Err::<Effects, EscrowError>(e),
        None => r matches Ok(eff) && init_effects(program_id, a, amount, eff),
    }
}

/// Whether closing the holding account and the record into the refund
/// account would take its balance past the largest representable one.
pub open spec fn close_overflows(refund: AccountView, holding: AccountView, record: AccountView) -> bool {
    refund.lamports + holding.lamports + record.lamports > u64::MAX
}

/// Exchange reads [taker, taker source, holding, initializer main, record,
/// token service, authority, taker receive, initializer receive].
pub open spec fn exchange_failure(program_id: Seq<u8>, a: Seq<AccountView>, amount: u64) -> Option<
    EscrowError,
> {
    if a.len() < 1 {
        Some(EscrowError::NotEnoughAccountKeys)
    } else if !a[0].is_signer {
        Some(EscrowError::MissingRequiredSignature)
    } else if a.len() < 5 {
        Some(EscrowError::NotEnoughAccountKeys)
    } else if !layout_ok(a[4].data@) {
        Some(EscrowError::InvalidAccountData)
    } else if a[4].data@[0] == 0 {
        Some(EscrowError::UninitializedAccount)
    } else if stored_holding(a[4].data@) != a[2].key@ {
        Some(EscrowError::InvalidAccountData)
    } else if stored_initializer(a[4].data@) != a[3].key@ {
        Some(EscrowError::InvalidAccountData)
    } else if stored_amount(a[4].data@) != amount {
        Some(EscrowError::AmountMismatch)
    } else if token_balance_of(a[2].data@) is Err {
        Some(token_balance_of(a[2].data@)->Err_0)
    } else if program_address_of(authority_seed_bytes(), program_id) is None {
        Some(EscrowError::InvalidSeeds)
    } else if a.len() < 9 {
        Some(EscrowError::NotEnoughAccountKeys)
    } else if stored_receive(a[4].data@) != a[8].key@ {
        Some(EscrowError::InvalidAccountData)
    } else if !is_token_program(a[5].key@) {
        Some(EscrowError::IncorrectProgramId)
    } else if close_overflows(a[3], a[2], a[4]) {
        Some(EscrowError::AmountOverflow)
    } else {
        None
    }
}

/// A successful Exchange pays the initializer, releases the held asset to the
/// taker, closes the holding account and then the record.
pub open spec fn exchange_effects(program_id: Seq<u8>, a: Seq<AccountView>, amount: u64, eff: Effects) -> bool {
    match (program_address_of(authority_seed_bytes(), program_id), token_balance_of(a[2].data@)) {
        (Some(p), Ok(held)) => {
            let token = a[5].key@;
            &&& eff.record_data is None
            &&& eff.invocations@.len() == 3
            &&& is_transfer(eff.invocations@[0], token, a[1].key@, a[8].key@, a[0].key@, amount, None)
            &&& is_transfer(eff.invocations@[1], token, a[2].key@, a[7].key@, p.0, held, Some(p.1))
            &&& is_close(eff.invocations@[2], token, a[2].key@, a[3].key@, p.0, Some(p.1))
            &&& eff.close_record == Some((4usize, 3usize))
        },
        _ => false,
    }
}

pub open spec fn exchange_meets(
    program_id: Seq<u8>,
    a: Seq<AccountView>,
    amount: u64,
    r: Result<Effects, EscrowError>,
) -> bool {
    match exchange_failure(program_id, a, amount) {
        Some(e) => r == Err::<Effects, EscrowError>(e),
        None => r matches Ok(eff) && exchange_effects(program_id, a, amount, eff),
    }
}

/// Cancel reads [holding, initializer main, initializer receive, record, token
/// service, authority].
pub open spec fn cancel_failure(program_id: Seq<u8>, a: Seq<AccountView>) -> Option<EscrowError> {
    if a.len() < 4 {
        Some(EscrowError::NotEnoughAccountKeys)
    } else if !layout_ok(a[3].data@) {
        Some(EscrowError::InvalidAccountData)
    } else if a[3].data@[0] == 0 {
        Some(EscrowError::UninitializedAccount)
    } else if stored_holding(a[3].data@) != a[0].key@ {
        Some(EscrowError::InvalidAccountData)
    } else if stored_initializer(a[3].data@) != a[1].key@ {
        Some(EscrowError::InvalidAccountData)
    } else if !a[1].is_signer {
        Some(EscrowError::MissingRequiredSignature)
    } else if token_balance_of(a[0].data@) is Err {
        Some(token_balance_of(a[0].data@)->Err_0)
    } else if program_address_of(authority_seed_bytes(), program_id) is None {
        Some(EscrowError::InvalidSeeds)
    } else if a.len() < 6 {
        Some(EscrowError::NotEnoughAccountKeys)
    } else if !is_token_program(a[4].key@) {
        Some(EscrowError::IncorrectProgramId)
    } else if close_overflows(a[1], a[0], a[3]) {
        Some(EscrowError::AmountOverflow)
    } else {
        None
    }
}

/// A successful Cancel returns the held asset to the initializer, closes the
/// holding account and then the record.
pub open spec fn cancel_effects(program_id: Seq<u8>, a: Seq<AccountView>, eff: Effects) -> bool {
    match (program_address_of(authority_seed_bytes(), program_id), token_balance_of(a[0].data@)) {
        (Some(p), Ok(held)) => {
            let token = a[4].key@;
            &&& eff.record_data is None
            &&& eff.invocations@.len() == 2
            &&& is_transfer(eff.invocations@[0], token, a[0].key@, a[2].key@, p.0, held, Some(p.1))
            &&& is_close(eff.invocations@[1], token, a[0].key@, a[1].key@, p.0, Some(p.1))
            &&& eff.close_record == Some((3usize, 1usize))
        },
        _ => false,
    }
}

pub open spec fn cancel_meets(program_id: Seq<u8>, a: Seq<AccountView>, r: Result<Effects, EscrowError>) -> bool {
    match cancel_failure(program_id, a) {
        Some(e) => r == Err::<Effects, EscrowError>(e),
        None => r matches Ok(eff) && cancel_effects(program_id, a, eff),
    }
}

/// Adds the record's balance to the refund account's, refusing to wrap.
pub fn reclaim_record(refund_lamports: u64, record_lamports: u64) -> (r: Result<u64, EscrowError>)
    ensures
        refund_lamports + record_lamports <= u64::MAX ==> r == Ok::<u64, EscrowError>(
            (refund_lamports + record_lamports) as u64,
        ),
        refund_lamports + record_lamports > u64::MAX ==> r == Err::<u64, EscrowError>(
            EscrowError::AmountOverflow,
        ),
{
    match refund_lamports.checked_add(record_lamports) {
        Some(total) => Ok(total),
        None => Err(EscrowError::AmountOverflow),
    }
}


/// Whether the refund account can take the holding account's and the
/// record's balances without overflow.
fn close_fits(refund: &AccountView, holding: &AccountView, record: &AccountView) -> (r: bool)
    ensures
        r == !close_overflows(*refund, *holding, *record),
{
    match refund.lamports.checked_add(holding.lamports) {
        Some(s) => s.checked_add(record.lamports).is_some(),
        None => false,
    }
}

impl Processor {
    /// Opens an escrow in the supplied record storage.
    pub fn process_init_escrow(
        accounts: &Vec<AccountView>,
        amount: u64,
        program_id: &AccountId,
        record_minimum_balance: u64,
    ) -> (r: Result<Effects, EscrowError>)
        ensures
            init_meets(program_id@, accounts@, amount, record_minimum_balance, r),
    {
        if accounts.len() < 1 {
            return Err(EscrowError::NotEnoughAccountKeys);
        }
        let initializer = &accounts[0];
        if !initializer.is_signer {
            return Err(EscrowError::MissingRequiredSignature);
        }
        if accounts.len() < 3 {
            return Err(EscrowError::NotEnoughAccountKeys);
        }
        let holding = &accounts[1];
        let receive = &accounts[2];
        if !is_token_service(&receive.owner) {
            return Err(EscrowError::IncorrectProgramId);
        }
        if accounts.len() < 5 {
            return Err(EscrowError::NotEnoughAccountKeys);
        }
        let record = &accounts[3];
        if record.lamports < record_minimum_balance {
            return Err(EscrowError::NotRentExempt);
        }
        let stored = match Escrow::unpack_unchecked(record.data.as_slice()) {
            Ok(e) => e,
            Err(e) => return Err(e),
        };
        if stored.is_initialized() {
            return Err(EscrowError::AccountAlreadyInitialized);
        }
        let new_record = Escrow::new(initializer.key, holding.key, receive.key, amount);
        let record_data = new_record.pack();
        let (authority, _bump) = match find_authority(program_id) {
            Ok(p) => p,
            Err(e) => return Err(e),
        };
        if accounts.len() < 6 {
            return Err(EscrowError::NotEnoughAccountKeys);
        }
        let token_program = &accounts[5];
        if !is_token_service(&token_program.key) {
            return Err(EscrowError::IncorrectProgramId);
        }
        let mut invocations: Vec<Invocation> = Vec::new();
        invocations.push(
            Invocation {
                token_program: token_program.key,
                call: TokenCall::SetOwner {
                    account: holding.key,
                    new_owner: authority,
                    current_owner: initializer.key,
                },
                signer_bump: None,
            },
        );
        Ok(Effects { record_data: Some((3, record_data)), invocations, close_record: None })
    }

    /// Fulfils an escrow: the taker supplies `amount` of the counter-asset
    /// and receives the held asset.
    pub fn process_exchange(accounts: &Vec<AccountView>, amount: u64, program_id: &AccountId) -> (r:
        Result<Effects, EscrowError>)
        ensures
            exchange_meets(program_id@, accounts@, amount, r),
    {
        if accounts.len() < 1 {
            return Err(EscrowError::NotEnoughAccountKeys);
        }
        let taker = &accounts[0];
        if !taker.is_signer {
            return Err(EscrowError::MissingRequiredSignature);
        }
        if accounts.len() < 5 {
            return Err(EscrowError::NotEnoughAccountKeys);
        }
        let taker_source = &accounts[1];
        let holding = &accounts[2];
        let initializer_main = &accounts[3];
        let record = &accounts[4];
        let escrow = match Escrow::unpack(record.data.as_slice()) {
            Ok(e) => e,
            Err(e) => return Err(e),
        };
        if !escrow.temp_token_account_pubkey.same_as(&holding.key) {
            return Err(EscrowError::InvalidAccountData);
        }
        if !escrow.initializer_pubkey.same_as(&initializer_main.key) {
            return Err(EscrowError::InvalidAccountData);
        }
        if escrow.expected_amount != amount {
            return Err(EscrowError::AmountMismatch);
        }
        let held = match token_balance(holding.data.as_slice()) {
            Ok(a) => a,
            Err(e) => return Err(e),
        };
        let (authority, bump) = match find_authority(program_id) {
            Ok(p) => p,
            Err(e) => return Err(e),
        };
        if accounts.len() < 9 {
            return Err(EscrowError::NotEnoughAccountKeys);
        }
        let token_program = &accounts[5];
        let taker_receive = &accounts[7];
        let initializer_receive = &accounts[8];
        if !escrow.initializer_token_to_receive_account_pubkey.same_as(&initializer_receive.key) {
            return Err(EscrowError::InvalidAccountData);
        }
        if !is_token_service(&token_program.key) {
            return Err(EscrowError::IncorrectProgramId);
        }
        if !close_fits(initializer_main, holding, record) {
            return Err(EscrowError::AmountOverflow);
        }
        let mut invocations: Vec<Invocation> = Vec::new();
        invocations.push(
            Invocation {
                token_program: token_program.key,
                call: TokenCall::Transfer {
                    source: taker_source.key,
                    destination: initializer_receive.key,
                    authority: taker.key,
                    amount,
                },
                signer_bump: None,
            },
        );
        invocations.push(
            Invocation {
                token_program: token_program.key,
                call: TokenCall::Transfer {
                    source: holding.key,
                    destination: taker_receive.key,
                    authority,
                    amount: held,
                },
                signer_bump: Some(bump),
            },
        );
        invocations.push(
            Invocation {
                token_program: token_program.key,
                call: TokenCall::CloseAccount {
                    account: holding.key,
                    destination: initializer_main.key,
                    authority,
                },
                signer_bump: Some(bump),
            },
        );
        Ok(Effects { record_data: None, invocations, close_record: Some((4, 3)) })
    }

    /// Cancels an escrow: the held asset goes back to the initializer.
    pub fn process_cancel(accounts: &Vec<AccountView>, program_id: &AccountId) -> (r: Result<
        Effects,
        EscrowError,
    >)
        ensures
            cancel_meets(program_id@, accounts@, r),
    {
        if accounts.len() < 4 {
            return Err(EscrowError::NotEnoughAccountKeys);
        }
        let holding = &accounts[0];
        let initializer_main = &accounts[1];
        let initializer_receive = &accounts[2];
        let record = &accounts[3];
        let escrow = match Escrow::unpack(record.data.as_slice()) {
            Ok(e) => e,
            Err(e) => return Err(e),
        };
        if !escrow.temp_token_account_pubkey.same_as(&holding.key) {
            return Err(EscrowError::InvalidAccountData);
        }
        if !escrow.initializer_pubkey.same_as(&initializer_main.key) {
            return Err(EscrowError::InvalidAccountData);
        }
        if !initializer_main.is_signer {
            return Err(EscrowError::MissingRequiredSignature);
        }
        let held = match token_balance(holding.data.as_slice()) {
            Ok(a) => a,
            Err(e) => return Err(e),
        };
        let (authority, bump) = match find_authority(program_id) {
            Ok(p) => p,
            Err(e) => return Err(e),
        };
        if accounts.len() < 6 {
            return Err(EscrowError::NotEnoughAccountKeys);
        }
        let token_program = &accounts[4];
        if !is_token_service(&token_program.key) {
            return Err(EscrowError::IncorrectProgramId);
        }
        if !close_fits(initializer_main, holding, record) {
            return Err(EscrowError::AmountOverflow);
        }
        let mut invocations: Vec<Invocation> = Vec::new();
        invocations.push(
            Invocation {
                token_program: token_program.key,
                call: TokenCall::Transfer {
                    source: holding.key,
                    destination: initializer_receive.key,
                    authority,
                    amount: held,
                },
                signer_bump: Some(bump),
            },
        );
        invocations.push(
            Invocation {
                token_program: token_program.key,
                call: TokenCall::CloseAccount {
                    account: holding.key,
                    destination: initializer_main.key,
                    authority,
                },
                signer_bump: Some(bump),
            },
        );
        Ok(Effects { record_data: None, invocations, close_record: Some((3, 1)) })
    }

    /// Decodes the instruction and runs its handler. `record_minimum_balance`
    /// is the exemption oracle's minimum for the record storage; only Init
    /// consults it.
    pub fn process(
        program_id: &AccountId,
        accounts: &Vec<AccountView>,
        instruction_data: &[u8],
        record_minimum_balance: u64,
    ) -> (r: Result<Effects, EscrowError>)
        ensures
            match decode_instruction(instruction_data@) {
                Err(e) => r == Err::<Effects, EscrowError>(e),
                Ok(EscrowInstruction::InitEscrow { amount }) => init_meets(
                    program_id@,
                    accounts@,
                    amount,
                    record_minimum_balance,
                    r,
                ),
                Ok(EscrowInstruction::Exchange { amount }) => exchange_meets(
                    program_id@,
                    accounts@,
                    amount,
                    r,
                ),
                Ok(EscrowInstruction::Cancel) => cancel_meets(program_id@, accounts@, r),
            },
    {
        let instruction = match EscrowInstruction::unpack(instruction_data) {
            Ok(i) => i,
            Err(e) => return Err(e),
        };
        match instruction {
            EscrowInstruction::InitEscrow { amount } => {
                Processor::process_init_escrow(accounts, amount, program_id, record_minimum_balance)
            },
            EscrowInstruction::Exchange { amount } => {
                Processor::process_exchange(accounts, amount, program_id)
            },
            EscrowInstruction::Cancel => Processor::process_cancel(accounts, program_id),
        }
    }
}

/// Init succeeds at most once per record: once an Init has stored its record,
/// a later Init on that storage is refused as already initialized, whatever
/// its other accounts, as long as the checks made before the record is read
/// pass.
pub proof fn lemma_init_at_most_once(
    program_id: Seq<u8>,
    first: Seq<AccountView>,
    amount: u64,
    minimum_balance: u64,
    eff: Effects,
    later_program_id: Seq<u8>,
    later: Seq<AccountView>,
    later_minimum_balance: u64,
)
    requires
        init_meets(program_id, first, amount, minimum_balance, Ok(eff)),
        eff.record_data matches Some(d) && later.len() >= 6 && later[3].data@ == d.1@,
        later[0].is_signer,
        is_token_program(later[2].owner@),
        later[3].lamports >= later_minimum_balance,
    ensures
        init_failure(later_program_id, later, later_minimum_balance) == Some(
            EscrowError::AccountAlreadyInitialized,
        ),
{
    let e = Escrow {
        is_initialized: true,
        initializer_pubkey: first[0].key,
        temp_token_account_pubkey: first[1].key,
        initializer_token_to_receive_account_pubkey: first[2].key,
        expected_amount: amount,
    };
    lemma_pack_unpack(e);
}

/// Cancel succeeds only when the supplied initializer is the one the record
/// names; on an active record naming another initializer it fails with
/// `InvalidAccountData`.
pub proof fn lemma_cancel_requires_initializer(
    program_id: Seq<u8>,
    a: Seq<AccountView>,
    r: Result<Effects, EscrowError>,
)
    requires
        cancel_meets(program_id, a, r),
    ensures
        r is Ok ==> a.len() >= 4 && layout_ok(a[3].data@) && stored_initializer(a[3].data@)
            == a[1].key@,
        a.len() >= 4 && layout_ok(a[3].data@) && a[3].data@[0] == 1 && stored_initializer(
            a[3].data@,
        ) != a[1].key@ ==> r == Err::<Effects, EscrowError>(EscrowError::InvalidAccountData),
{
}

/// Exchange signed by the taker on an active record fails with
/// `InvalidAccountData` when the supplied holding account is not the one the
/// record names.
pub proof fn lemma_exchange_checks_holding(
    program_id: Seq<u8>,
    a: Seq<AccountView>,
    amount: u64,
    r: Result<Effects, EscrowError>,
)
    requires
        exchange_meets(program_id, a, amount, r),
        a.len() >= 5,
        a[0].is_signer,
        layout_ok(a[4].data@),
        a[4].data@[0] == 1,
        stored_holding(a[4].data@) != a[2].key@,
    ensures
        r == Err::<Effects, EscrowError>(EscrowError::InvalidAccountData),
{
}

/// Exchange signed by the taker on an active record whose holding account and
/// initializer match fails with `AmountMismatch` when the supplied amount is
/// not the expected amount.
pub proof fn lemma_exchange_checks_amount(
    program_id: Seq<u8>,
    a: Seq<AccountView>,
    amount: u64,
    r: Result<Effects, EscrowError>,
)
    requires
        exchange_meets(program_id, a, amount, r),
        a.len() >= 5,
        a[0].is_signer,
        layout_ok(a[4].data@),
        a[4].data@[0] == 1,
        stored_holding(a[4].data@) == a[2].key@,
        stored_initializer(a[4].data@) == a[3].key@,
        stored_amount(a[4].data@) != amount,
    ensures
        r == Err::<Effects, EscrowError>(EscrowError::AmountMismatch),
{
}

/// An Exchange is refused whenever closing the holding account and the record
/// would overflow the initializer's balance; an accepted one never does.
pub proof fn lemma_exchange_close_never_overflows(
    program_id: Seq<u8>,
    a: Seq<AccountView>,
    amount: u64,
    r: Result<Effects, EscrowError>,
)
    requires
        exchange_meets(program_id, a, amount, r),
    ensures
        r is Ok ==> a.len() >= 9 && !close_overflows(a[3], a[2], a[4]),
        a.len() >= 5 && close_overflows(a[3], a[2], a[4]) ==> r is Err,
{
}

/// A Cancel is refused whenever closing the holding account and the record
/// would overflow the initializer's balance; an accepted one never does.
pub proof fn lemma_cancel_close_never_overflows(
    program_id: Seq<u8>,
    a: Seq<AccountView>,
    r: Result<Effects, EscrowError>,
)
    requires
        cancel_meets(program_id, a, r),
    ensures
        r is Ok ==> a.len() >= 6 && !close_overflows(a[1], a[0], a[3]),
        a.len() >= 4 && close_overflows(a[1], a[0], a[3]) ==> r is Err,
{
}

/// The fields an Init stores read back unchanged: an Exchange on that record,
/// signed by the taker, naming the same holding, initializer and receive
/// accounts, supplying the expected amount and a valid holding account, is
/// not refused for a mismatched account or amount.
pub proof fn lemma_exchange_matches_initialized_record(
    program_id: Seq<u8>,
    first: Seq<AccountView>,
    expected: u64,
    minimum_balance: u64,
    eff: Effects,
    later_program_id: Seq<u8>,
    a: Seq<AccountView>,
)
    requires
        init_meets(program_id, first, expected, minimum_balance, Ok(eff)),
        eff.record_data matches Some(d) && a.len() >= 9 && a[4].data@ == d.1@,
        a[0].is_signer,
        a[2].key@ == first[1].key@,
        a[3].key@ == first[0].key@,
        a[8].key@ == first[2].key@,
        token_balance_of(a[2].data@) is Ok,
    ensures
        exchange_failure(later_program_id, a, expected) != Some(EscrowError::InvalidAccountData),
        exchange_failure(later_program_id, a, expected) != Some(EscrowError::AmountMismatch),
{
    let e = Escrow {
        is_initialized: true,
        initializer_pubkey: first[0].key,
        temp_token_account_pubkey: first[1].key,
        initializer_token_to_receive_account_pubkey: first[2].key,
        expected_amount: expected,
    };
    lemma_pack_unpack(e);
}

} // verus!
