//! The resolution metadata of the transfer path: which extra accounts the
//! caller must append to a transfer, in which order, and how each one's
//! address is found. The hook's fixed positions rest on this order.

use crate::address::{Address, RecordKind};
use crate::hook::{
    allowlist_slots_spec, DESTINATION_BLACKLIST_SLOT, SOURCE_BLACKLIST_SLOT,
};
use vstd::prelude::*;

verus! {

/// Accounts that stand before the extra ones in a transfer's list: source,
/// token, destination, initiating authority and the metadata account.
pub const LEADING_ACCOUNTS: usize = 5;

/// Position, in the full list, of the program that owns the records.
pub const RECORD_PROGRAM_INDEX: u8 = 5;

/// Position of the token in the full list.
pub const TOKEN_INDEX: u8 = 1;

/// Positions of the source and the destination token accounts.
pub const SOURCE_INDEX: u8 = 0;

pub const DESTINATION_INDEX: u8 = 2;

/// Where the owner's address lies in a token account's data, and its length.
pub const OWNER_OFFSET: u8 = 32;

pub const OWNER_LEN: u8 = 32;

/// One extra account of a transfer.
#[derive(Clone, Copy, Debug, PartialEq, Eq, Structural)]
pub enum ExtraAccount {
    /// The program that owns the registry records.
    RecordProgram,
    /// A registry record: the program address, under the record program, of
    /// the kind's seed literal, the token's address and, where `owner_of` is
    /// given, the owner of the token account at that position.
    Record { kind: RecordKind, owner_of: Option<u8> },
}

/// The extra accounts of a transfer, in order: the record program, the
/// source's and the destination's blacklist records and, where the
/// allowlist is enabled, the token configuration and the two allowlist
/// records.
pub open spec fn extra_accounts_spec(enable_allowlist: bool) -> Seq<ExtraAccount> {
    let base = seq![
        ExtraAccount::RecordProgram,
        ExtraAccount::Record { kind: RecordKind::Blacklist, owner_of: Some(SOURCE_INDEX) },
        ExtraAccount::Record { kind: RecordKind::Blacklist, owner_of: Some(DESTINATION_INDEX) },
    ];
    if enable_allowlist {
        base + seq![
            ExtraAccount::Record { kind: RecordKind::Config, owner_of: None },
            ExtraAccount::Record { kind: RecordKind::Allowlist, owner_of: Some(SOURCE_INDEX) },
            ExtraAccount::Record { kind: RecordKind::Allowlist, owner_of: Some(DESTINATION_INDEX) },
        ]
    } else {
        base
    }
}

/// The extra accounts of a transfer, as the token's metadata publishes them.
pub fn extra_account_metas(enable_allowlist: bool) -> (r: Vec<ExtraAccount>)
    ensures
        r@ == extra_accounts_spec(enable_allowlist),
{
    let mut r: Vec<ExtraAccount> = Vec::new();
    r.push(ExtraAccount::RecordProgram);
    r.push(ExtraAccount::Record { kind: RecordKind::Blacklist, owner_of: Some(SOURCE_INDEX) });
    r.push(ExtraAccount::Record { kind: RecordKind::Blacklist, owner_of: Some(DESTINATION_INDEX) });
    if enable_allowlist {
        r.push(ExtraAccount::Record { kind: RecordKind::Config, owner_of: None });
        r.push(ExtraAccount::Record { kind: RecordKind::Allowlist, owner_of: Some(SOURCE_INDEX) });
        r.push(
            ExtraAccount::Record { kind: RecordKind::Allowlist, owner_of: Some(DESTINATION_INDEX) },
        );
    }
    proof {
        assert(r@ =~= extra_accounts_spec(enable_allowlist));
    }
    r
}

/// The published order agrees with the hook: in a full list the source's
/// and the destination's blacklist records stand where the hook reads them,
/// and, with the allowlist enabled, so do the configuration and the two
/// allowlist records.
pub proof fn lemma_metas_match_hook(enable_allowlist: bool)
    ensures
        ({
            let extras = extra_accounts_spec(enable_allowlist);
            let at = |i: int| extras[i - LEADING_ACCOUNTS];
            let len = LEADING_ACCOUNTS + extras.len();
            &&& at(RECORD_PROGRAM_INDEX as int) == ExtraAccount::RecordProgram
            &&& at(SOURCE_BLACKLIST_SLOT as int) == ExtraAccount::Record {
                kind: RecordKind::Blacklist,
                owner_of: Some(SOURCE_INDEX),
            }
            &&& at(DESTINATION_BLACKLIST_SLOT as int) == ExtraAccount::Record {
                kind: RecordKind::Blacklist,
                owner_of: Some(DESTINATION_INDEX),
            }
            &&& !enable_allowlist ==> allowlist_slots_spec(len) is None
            &&& enable_allowlist ==> {
                let slots = allowlist_slots_spec(len)->Some_0;
                &&& allowlist_slots_spec(len) is Some
                &&& at(slots.config as int) == ExtraAccount::Record {
                    kind: RecordKind::Config,
                    owner_of: None,
                }
                &&& at(slots.source as int) == ExtraAccount::Record {
                    kind: RecordKind::Allowlist,
                    owner_of: Some(SOURCE_INDEX),
                }
                &&& at(slots.destination as int) == ExtraAccount::Record {
                    kind: RecordKind::Allowlist,
                    owner_of: Some(DESTINATION_INDEX),
                }
            }
        }),
{
}

/// An account of the seizure transfer: its address and how it is passed.
#[derive(Clone, Copy, Debug, PartialEq)]
pub struct AccountMetaSpec {
    pub key: Address,
    pub is_writable: bool,
    pub is_signer: bool,
}

/// The accounts a seizure hands to the token program.
#[derive(Clone, Copy, Debug)]
pub struct SeizeAccounts {
    pub from_account: Address,
    pub mint: Address,
    pub to_account: Address,
    pub config: Address,
    pub extra_meta_list: Address,
    pub stablecoin_program: Address,
    pub source_blacklist: Address,
    pub dest_blacklist: Address,
    pub config_allowlist: Address,
    pub source_allowlist: Address,
    pub dest_allowlist: Address,
    pub transfer_hook_program: Address,
}

pub open spec fn meta(key: Address, is_writable: bool, is_signer: bool) -> AccountMetaSpec {
    AccountMetaSpec { key, is_writable, is_signer }
}

/// The account list of a seizure: the two token accounts (written), the
/// token, the configuration as the signing authority, the metadata account,
/// the record program and the two blacklist records, then, where the
/// allowlist is enabled, the configuration and the two allowlist records,
/// and last the hook program.
pub open spec fn seize_accounts_spec(a: SeizeAccounts, enable_allowlist: bool) -> Seq<
    AccountMetaSpec,
> {
    let head = seq![
        meta(a.from_account, true, false),
        meta(a.mint, false, false),
        meta(a.to_account, true, false),
        meta(a.config, false, true),
        meta(a.extra_meta_list, false, false),
        meta(a.stablecoin_program, false, false),
        meta(a.source_blacklist, false, false),
        meta(a.dest_blacklist, false, false),
    ];
    let allow = if enable_allowlist {
        seq![
            meta(a.config_allowlist, false, false),
            meta(a.source_allowlist, false, false),
            meta(a.dest_allowlist, false, false),
        ]
    } else {
        Seq::empty()
    };
    head + allow + seq![meta(a.transfer_hook_program, false, false)]
}

/// Assembles the account list of a seizure transfer.
pub fn seize_account_list(a: &SeizeAccounts, enable_allowlist: bool) -> (r: Vec<AccountMetaSpec>)
    ensures
        r@ == seize_accounts_spec(*a, enable_allowlist),
{
    let mut r: Vec<AccountMetaSpec> = Vec::new();
    r.push(AccountMetaSpec { key: a.from_account, is_writable: true, is_signer: false });
    r.push(AccountMetaSpec { key: a.mint, is_writable: false, is_signer: false });
    r.push(AccountMetaSpec { key: a.to_account, is_writable: true, is_signer: false });
    r.push(AccountMetaSpec { key: a.config, is_writable: false, is_signer: true });
    r.push(AccountMetaSpec { key: a.extra_meta_list, is_writable: false, is_signer: false });
    r.push(AccountMetaSpec { key: a.stablecoin_program, is_writable: false, is_signer: false });
    r.push(AccountMetaSpec { key: a.source_blacklist, is_writable: false, is_signer: false });
    r.push(AccountMetaSpec { key: a.dest_blacklist, is_writable: false, is_signer: false });
    if enable_allowlist {
        r.push(AccountMetaSpec { key: a.config_allowlist, is_writable: false, is_signer: false });
        r.push(AccountMetaSpec { key: a.source_allowlist, is_writable: false, is_signer: false });
        r.push(AccountMetaSpec { key: a.dest_allowlist, is_writable: false, is_signer: false });
    }
    r.push(AccountMetaSpec { key: a.transfer_hook_program, is_writable: false, is_signer: false });
    proof {
        assert(r@ =~= seize_accounts_spec(*a, enable_allowlist));
    }
    r
}

} // verus!
