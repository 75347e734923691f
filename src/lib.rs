//! Compliance core of a regulated token: the registry record codec, the
//! derivation of record addresses, the transfer compliance hook and the
//! quota-gated issuance ledger.

mod address;
mod admin;
mod bytes;
mod codec;
mod errors;
mod hook;
mod initialize;
mod ledger;
mod resolution;
mod state;

pub use address::{
    derive_record_address, opt_address_view, program_address, record_seeds, seed_literal, seed_of,
    spec_stablecoin_program_id, stablecoin_program_id, Address, RecordKind,
};
pub use codec::{
    config_head, config_tail, decode_config_spec, decode_entry_spec, decode_minter_spec,
    encode_config_spec, encode_entry_spec, encode_minter_spec, flag_byte,
    lemma_allowlist_round_trip, lemma_blacklist_round_trip, lemma_config_round_trip,
    lemma_minter_round_trip, len_prefixed, record_tag, u32_at, u64_at, CONFIG_MIN_LEN,
    ENTRY_FLAG_OFFSET, ENTRY_LEN, MINTER_LEN, TAG_LEN,
};
pub use state::{
    AllowlistEntry, BlacklistEntry, ConfigView, EntryView, MinterConfig, MinterView, RoleAccount,
    StablecoinConfig,
};
pub use errors::{
    DecodeError, Party, StablecoinError, TransferHookError,
};
pub use hook::{
    account_views, admin_control_address, allow_flag, allowlist_check, allowlist_off,
    allowlist_slots, allowlist_slots_spec, allowlist_verdict, blacklist_set, blacklist_slot,
    evaluate_transfer, execute_amount, execute_tag, fallback, has_execute_tag, handle_execute,
    lemma_absent_records_accept, lemma_allowlist_gating, lemma_blacklist_symmetry,
    lemma_override_supremacy, transfer_verdict, with_data, AccountRef, AccountView, AllowlistSlots,
    AUTHORITY_SLOT, DESTINATION_BLACKLIST_SLOT, MIN_ACCOUNTS, SOURCE_BLACKLIST_SLOT,
};
pub use ledger::{
    handle_mint, mint_outcome, window_elapsed, MINT_WINDOW_SECONDS,
};
pub use admin::{
    allowlist_write_error, blacklist_write_error, check_burn_allowed, check_freeze_allowed,
    check_mint_allowed, check_seize_allowed, handle_add_to_allowlist, handle_add_to_blacklist,
    handle_configure_minter, handle_pause, handle_remove_from_allowlist,
    handle_remove_from_blacklist, handle_transfer_authority, handle_unpause, handle_update_roles,
    may_act, updated_role,
};
pub use resolution::{
    extra_account_metas, extra_accounts_spec, lemma_metas_match_hook, meta, seize_account_list,
    seize_accounts_spec, AccountMetaSpec, ExtraAccount, SeizeAccounts, DESTINATION_INDEX,
    LEADING_ACCOUNTS, OWNER_LEN, OWNER_OFFSET, RECORD_PROGRAM_INDEX, SOURCE_INDEX, TOKEN_INDEX,
};
pub use initialize::{
    handle_initialize, mint_extensions, mint_extensions_spec, truncate_to_bytes, truncated_from,
    truncation_point, InitializePlan, MintExtension, MAX_NAME_LEN, MAX_SYMBOL_LEN, MAX_URI_LEN,
};
