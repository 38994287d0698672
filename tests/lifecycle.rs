use escrow::{
    find_authority, is_token_service, reclaim_record, token_balance, AccountId, AccountView,
    Effects, Escrow, EscrowError, Invocation, Processor, TokenCall, ESCROW_LEN,
};
use solana_program::pubkey::Pubkey;

const PROGRAM: u8 = 100;
const A: u8 = 1;
const T: u8 = 2;
const A_RECEIVE: u8 = 3;
const R: u8 = 4;
const RENT: u8 = 5;
const B: u8 = 6;
const B_SOURCE: u8 = 7;
const B_RECEIVE: u8 = 8;
const A_MAIN_LAMPORTS: u64 = 1_000;
const T_DEPOSIT: u64 = 2_039_280;
const R_DEPOSIT: u64 = 1_621_680;
const MINIMUM: u64 = 1_621_680;

fn id(b: u8) -> AccountId {
    AccountId::new([b; 32])
}

fn token_program() -> AccountId {
    AccountId::new(spl_token::id().to_bytes())
}

fn program_id() -> AccountId {
    id(PROGRAM)
}

fn authority() -> (AccountId, u8) {
    let (k, bump) =
        Pubkey::find_program_address(&[b"escrow"], &Pubkey::new_from_array([PROGRAM; 32]));
    (AccountId::new(k.to_bytes()), bump)
}

fn account(key: AccountId, is_signer: bool, owner: AccountId, lamports: u64, data: Vec<u8>) -> AccountView {
    AccountView { key, is_signer, owner, lamports, data }
}

fn token_data(amount: u64) -> Vec<u8> {
    let mut d = vec![0u8; 165];
    d[64..72].copy_from_slice(&amount.to_le_bytes());
    d[108] = 1;
    d
}

fn init_data(amount: u64) -> Vec<u8> {
    let mut d = vec![0u8];
    d.extend_from_slice(&amount.to_le_bytes());
    d
}

fn exchange_data(amount: u64) -> Vec<u8> {
    let mut d = vec![1u8];
    d.extend_from_slice(&amount.to_le_bytes());
    d
}

fn init_accounts(record_data: Vec<u8>) -> Vec<AccountView> {
    vec![
        account(id(A), true, id(0), A_MAIN_LAMPORTS, vec![]),
        account(id(T), false, token_program(), T_DEPOSIT, token_data(100)),
        account(id(A_RECEIVE), false, token_program(), T_DEPOSIT, token_data(0)),
        account(id(R), false, program_id(), R_DEPOSIT, record_data),
        account(id(RENT), false, id(0), 1, vec![]),
        account(token_program(), false, id(0), 1, vec![]),
    ]
}

fn active_record() -> Vec<u8> {
    Escrow::new(id(A), id(T), id(A_RECEIVE), 50).pack()
}

fn cancel_accounts(record_data: Vec<u8>) -> Vec<AccountView> {
    vec![
        account(id(T), false, token_program(), T_DEPOSIT, token_data(100)),
        account(id(A), true, id(0), A_MAIN_LAMPORTS, vec![]),
        account(id(A_RECEIVE), false, token_program(), T_DEPOSIT, token_data(0)),
        account(id(R), false, program_id(), R_DEPOSIT, record_data),
        account(token_program(), false, id(0), 1, vec![]),
        account(authority().0, false, id(0), 0, vec![]),
    ]
}

fn exchange_accounts(record_data: Vec<u8>) -> Vec<AccountView> {
    vec![
        account(id(B), true, id(0), 5_000, vec![]),
        account(id(B_SOURCE), false, token_program(), T_DEPOSIT, token_data(500)),
        account(id(T), false, token_program(), T_DEPOSIT, token_data(100)),
        account(id(A), false, id(0), A_MAIN_LAMPORTS, vec![]),
        account(id(R), false, program_id(), R_DEPOSIT, record_data),
        account(token_program(), false, id(0), 1, vec![]),
        account(authority().0, false, id(0), 0, vec![]),
        account(id(B_RECEIVE), false, token_program(), T_DEPOSIT, token_data(0)),
        account(id(A_RECEIVE), false, token_program(), T_DEPOSIT, token_data(0)),
    ]
}

fn run(accounts: &Vec<AccountView>, data: &[u8]) -> Result<Effects, EscrowError> {
    Processor::process(&program_id(), accounts, data, MINIMUM)
}

#[test]
fn init_stores_record_and_hands_holding_to_authority() {
    let accounts = init_accounts(vec![0u8; ESCROW_LEN]);
    let eff = run(&accounts, &init_data(50)).unwrap();
    assert_eq!(eff.record_data, Some((3, active_record())));
    assert_eq!(
        eff.invocations,
        vec![Invocation {
            token_program: token_program(),
            call: TokenCall::SetOwner {
                account: id(T),
                new_owner: authority().0,
                current_owner: id(A),
            },
            signer_bump: None,
        }]
    );
    assert_eq!(eff.close_record, None);
}

#[test]
fn second_init_is_refused() {
    let first = run(&init_accounts(vec![0u8; ESCROW_LEN]), &init_data(50)).unwrap();
    let (_, stored) = first.record_data.unwrap();
    let again = run(&init_accounts(stored), &init_data(70));
    assert_eq!(again.unwrap_err(), EscrowError::AccountAlreadyInitialized);
}

#[test]
fn init_needs_initializer_signature() {
    let mut accounts = init_accounts(vec![0u8; ESCROW_LEN]);
    accounts[0].is_signer = false;
    assert_eq!(run(&accounts, &init_data(50)).unwrap_err(), EscrowError::MissingRequiredSignature);
}

#[test]
fn init_needs_receive_account_of_token_service() {
    let mut accounts = init_accounts(vec![0u8; ESCROW_LEN]);
    accounts[2].owner = id(9);
    assert_eq!(run(&accounts, &init_data(50)).unwrap_err(), EscrowError::IncorrectProgramId);
}

#[test]
fn init_needs_rent_exempt_record() {
    let mut accounts = init_accounts(vec![0u8; ESCROW_LEN]);
    accounts[3].lamports = MINIMUM - 1;
    assert_eq!(run(&accounts, &init_data(50)).unwrap_err(), EscrowError::NotRentExempt);
    accounts[3].lamports = MINIMUM;
    assert!(run(&accounts, &init_data(50)).is_ok());
}

#[test]
fn init_refuses_malformed_record_storage() {
    let accounts = init_accounts(vec![0u8; ESCROW_LEN - 1]);
    assert_eq!(run(&accounts, &init_data(50)).unwrap_err(), EscrowError::InvalidAccountData);
}

#[test]
fn init_needs_token_service() {
    let mut accounts = init_accounts(vec![0u8; ESCROW_LEN]);
    accounts[5].key = id(9);
    assert_eq!(run(&accounts, &init_data(50)).unwrap_err(), EscrowError::IncorrectProgramId);
}

#[test]
fn init_needs_all_accounts() {
    let mut accounts = init_accounts(vec![0u8; ESCROW_LEN]);
    accounts.pop();
    assert_eq!(run(&accounts, &init_data(50)).unwrap_err(), EscrowError::NotEnoughAccountKeys);
}

#[test]
fn bad_instruction_is_refused() {
    let accounts = init_accounts(vec![0u8; ESCROW_LEN]);
    assert_eq!(run(&accounts, &[7u8]).unwrap_err(), EscrowError::InvalidInstruction);
}

#[test]
fn cancel_returns_deposit_to_initializer() {
    let accounts = cancel_accounts(active_record());
    let eff = run(&accounts, &[2u8]).unwrap();
    let (pda, bump) = authority();
    assert_eq!(eff.record_data, None);
    assert_eq!(
        eff.invocations,
        vec![
            Invocation {
                token_program: token_program(),
                call: TokenCall::Transfer {
                    source: id(T),
                    destination: id(A_RECEIVE),
                    authority: pda,
                    amount: 100,
                },
                signer_bump: Some(bump),
            },
            Invocation {
                token_program: token_program(),
                call: TokenCall::CloseAccount { account: id(T), destination: id(A), authority: pda },
                signer_bump: Some(bump),
            },
        ]
    );
    assert_eq!(eff.close_record, Some((3, 1)));
    // The token service credits T's deposit to A's main account; the record's
    // deposit follows.
    let after_close = A_MAIN_LAMPORTS + T_DEPOSIT;
    assert_eq!(
        reclaim_record(after_close, R_DEPOSIT),
        Ok(A_MAIN_LAMPORTS + T_DEPOSIT + R_DEPOSIT)
    );
}

#[test]
fn cancel_by_other_initializer_is_refused() {
    let mut accounts = cancel_accounts(active_record());
    accounts[1].key = id(B);
    assert_eq!(run(&accounts, &[2u8]).unwrap_err(), EscrowError::InvalidAccountData);
}

#[test]
fn cancel_needs_initializer_signature() {
    let mut accounts = cancel_accounts(active_record());
    accounts[1].is_signer = false;
    assert_eq!(run(&accounts, &[2u8]).unwrap_err(), EscrowError::MissingRequiredSignature);
}

#[test]
fn cancel_with_other_holding_is_refused() {
    let mut accounts = cancel_accounts(active_record());
    accounts[0].key = id(9);
    assert_eq!(run(&accounts, &[2u8]).unwrap_err(), EscrowError::InvalidAccountData);
}

#[test]
fn cancel_of_uninitialized_record_is_refused() {
    let accounts = cancel_accounts(vec![0u8; ESCROW_LEN]);
    assert_eq!(run(&accounts, &[2u8]).unwrap_err(), EscrowError::UninitializedAccount);
}

#[test]
fn cancel_refuses_malformed_holding_data() {
    let mut accounts = cancel_accounts(active_record());
    let mut data = token_data(100);
    data[108] = 7;
    accounts[0].data = data;
    assert_eq!(run(&accounts, &[2u8]).unwrap_err(), EscrowError::InvalidAccountData);
}

#[test]
fn exchange_swaps_both_assets() {
    let accounts = exchange_accounts(active_record());
    let eff = run(&accounts, &exchange_data(50)).unwrap();
    let (pda, bump) = authority();
    assert_eq!(eff.record_data, None);
    assert_eq!(
        eff.invocations,
        vec![
            Invocation {
                token_program: token_program(),
                call: TokenCall::Transfer {
                    source: id(B_SOURCE),
                    destination: id(A_RECEIVE),
                    authority: id(B),
                    amount: 50,
                },
                signer_bump: None,
            },
            Invocation {
                token_program: token_program(),
                call: TokenCall::Transfer {
                    source: id(T),
                    destination: id(B_RECEIVE),
                    authority: pda,
                    amount: 100,
                },
                signer_bump: Some(bump),
            },
            Invocation {
                token_program: token_program(),
                call: TokenCall::CloseAccount { account: id(T), destination: id(A), authority: pda },
                signer_bump: Some(bump),
            },
        ]
    );
    assert_eq!(eff.close_record, Some((4, 3)));
}

#[test]
fn exchange_with_other_holding_is_refused() {
    let mut accounts = exchange_accounts(active_record());
    accounts[2].key = id(9);
    assert_eq!(run(&accounts, &exchange_data(50)).unwrap_err(), EscrowError::InvalidAccountData);
}

#[test]
fn exchange_with_other_initializer_is_refused() {
    let mut accounts = exchange_accounts(active_record());
    accounts[3].key = id(9);
    assert_eq!(run(&accounts, &exchange_data(50)).unwrap_err(), EscrowError::InvalidAccountData);
}

#[test]
fn exchange_with_wrong_amount_is_refused() {
    let accounts = exchange_accounts(active_record());
    assert_eq!(run(&accounts, &exchange_data(49)).unwrap_err(), EscrowError::AmountMismatch);
    assert_eq!(run(&accounts, &exchange_data(51)).unwrap_err(), EscrowError::AmountMismatch);
}

#[test]
fn exchange_needs_taker_signature() {
    let mut accounts = exchange_accounts(active_record());
    accounts[0].is_signer = false;
    assert_eq!(
        run(&accounts, &exchange_data(50)).unwrap_err(),
        EscrowError::MissingRequiredSignature
    );
}

#[test]
fn exchange_needs_token_service() {
    let mut accounts = exchange_accounts(active_record());
    accounts[5].key = id(9);
    assert_eq!(run(&accounts, &exchange_data(50)).unwrap_err(), EscrowError::IncorrectProgramId);
}

#[test]
fn reclaim_adds_exactly() {
    assert_eq!(reclaim_record(10, 32), Ok(42));
    assert_eq!(reclaim_record(u64::MAX - 5, 5), Ok(u64::MAX));
}

#[test]
fn reclaim_refuses_overflow() {
    assert_eq!(reclaim_record(u64::MAX - 5, 6), Err(EscrowError::AmountOverflow));
    assert_eq!(reclaim_record(u64::MAX, R_DEPOSIT), Err(EscrowError::AmountOverflow));
}

#[test]
fn token_balance_reads_amount() {
    assert_eq!(token_balance(&token_data(100)), Ok(100));
    assert_eq!(token_balance(&token_data(0)), Ok(0));
}

#[test]
fn token_balance_refuses_bad_data() {
    assert_eq!(token_balance(&[0u8; 165]), Err(EscrowError::UninitializedAccount));
    let mut bad_state = token_data(1);
    bad_state[108] = 7;
    assert_eq!(token_balance(&bad_state), Err(EscrowError::InvalidAccountData));
    assert_eq!(token_balance(&token_data(1)[..164]), Err(EscrowError::InvalidAccountData));
}

#[test]
fn token_service_is_recognized() {
    assert!(is_token_service(&token_program()));
    assert!(!is_token_service(&id(9)));
}

#[test]
fn authority_is_the_program_address() {
    let (pda, bump) = find_authority(&program_id()).unwrap();
    assert_eq!((pda, bump), authority());
    assert!(!pda.same_as(&program_id()));
}

#[test]
fn init_checks_signature_before_account_count() {
    let mut accounts = init_accounts(vec![0u8; ESCROW_LEN]);
    accounts[0].is_signer = false;
    accounts.truncate(2);
    assert_eq!(run(&accounts, &init_data(50)).unwrap_err(), EscrowError::MissingRequiredSignature);
    assert_eq!(run(&vec![], &init_data(50)).unwrap_err(), EscrowError::NotEnoughAccountKeys);
}

#[test]
fn init_checks_receive_owner_before_later_accounts() {
    let mut accounts = init_accounts(vec![0u8; ESCROW_LEN]);
    accounts[2].owner = id(9);
    accounts.truncate(3);
    assert_eq!(run(&accounts, &init_data(50)).unwrap_err(), EscrowError::IncorrectProgramId);
}

#[test]
fn init_checks_rent_before_token_service_is_read() {
    let mut accounts = init_accounts(vec![0u8; ESCROW_LEN]);
    accounts[3].lamports = MINIMUM - 1;
    accounts.truncate(5);
    assert_eq!(run(&accounts, &init_data(50)).unwrap_err(), EscrowError::NotRentExempt);
}

#[test]
fn exchange_checks_signature_first() {
    let mut accounts = exchange_accounts(vec![9u8; 3]);
    accounts[0].is_signer = false;
    assert_eq!(
        run(&accounts, &exchange_data(50)).unwrap_err(),
        EscrowError::MissingRequiredSignature
    );
}

#[test]
fn exchange_checks_holding_with_short_account_list() {
    let mut accounts = exchange_accounts(active_record());
    accounts[2].key = id(9);
    accounts.truncate(5);
    assert_eq!(run(&accounts, &exchange_data(50)).unwrap_err(), EscrowError::InvalidAccountData);
}

#[test]
fn exchange_with_other_receive_account_is_refused() {
    let mut accounts = exchange_accounts(active_record());
    accounts[8].key = id(9);
    assert_eq!(run(&accounts, &exchange_data(50)).unwrap_err(), EscrowError::InvalidAccountData);
}

#[test]
fn exchange_refuses_close_overflow() {
    let mut accounts = exchange_accounts(active_record());
    accounts[3].lamports = u64::MAX - T_DEPOSIT - R_DEPOSIT + 1;
    assert_eq!(run(&accounts, &exchange_data(50)).unwrap_err(), EscrowError::AmountOverflow);
    accounts[3].lamports = u64::MAX - T_DEPOSIT - R_DEPOSIT;
    assert!(run(&accounts, &exchange_data(50)).is_ok());
}

#[test]
fn cancel_refuses_close_overflow() {
    let mut accounts = cancel_accounts(active_record());
    accounts[1].lamports = u64::MAX - T_DEPOSIT;
    assert_eq!(run(&accounts, &[2u8]).unwrap_err(), EscrowError::AmountOverflow);
    accounts[1].lamports = u64::MAX - T_DEPOSIT - R_DEPOSIT;
    assert!(run(&accounts, &[2u8]).is_ok());
}

#[test]
fn cancel_checks_initializer_with_short_account_list() {
    let mut accounts = cancel_accounts(active_record());
    accounts[1].key = id(B);
    accounts.truncate(4);
    assert_eq!(run(&accounts, &[2u8]).unwrap_err(), EscrowError::InvalidAccountData);
}

#[test]
fn uninitialized_holding_account_is_reported() {
    let mut accounts = cancel_accounts(active_record());
    let mut data = token_data(100);
    data[108] = 0;
    accounts[0].data = data;
    assert_eq!(run(&accounts, &[2u8]).unwrap_err(), EscrowError::UninitializedAccount);
}
