//! A two-party token escrow: the decisions of its state machine, verified.
//!
//! The host hands each call a list of accounts and an instruction buffer. The
//! library decodes the instruction, validates the accounts against the stored
//! escrow record, and answers with the effects the host is to carry out: the
//! record bytes to store, the token-service calls to make, and whether the
//! record is to be closed.

mod account;
mod authority;
mod codec;
mod error;
mod instruction;
mod processor;
mod state;

pub use account::{AccountId, AccountView};
pub use authority::{
    authority_seed, authority_seed_bytes, find_authority, is_token_program, is_token_service,
    program_address_of, token_balance, token_balance_of, token_program_bytes,
};
pub use codec::{le_u64_at, lemma_u64_le_round_trip, u64_le};
pub use error::EscrowError;
pub use instruction::{decode_instruction, EscrowInstruction};
pub use processor::{
    cancel_effects, cancel_failure, cancel_meets, exchange_effects, exchange_failure,
    exchange_meets, init_effects, init_failure, init_meets, is_close, is_set_owner, is_transfer,
    close_overflows, lemma_cancel_close_never_overflows, lemma_cancel_requires_initializer,
    lemma_exchange_checks_amount, lemma_exchange_close_never_overflows,
    lemma_exchange_matches_initialized_record,
    lemma_exchange_checks_holding, lemma_init_at_most_once, reclaim_record, stored_amount,
    stored_holding, stored_initializer, stored_receive, Effects, Invocation, Processor, TokenCall,
};
pub use state::{decodes_to, escrow_bytes, layout_ok, lemma_pack_unpack, Escrow, ESCROW_LEN};
