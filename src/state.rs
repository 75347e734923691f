//! The registry records and their mathematical views.

use crate::address::Address;
use vstd::prelude::*;

verus! {

/// A subject's blacklist record: the subject and whether it is blacklisted.
#[derive(Clone, Copy, Debug, PartialEq)]
pub struct BlacklistEntry {
    pub bump: u8,
    pub account: Address,
    pub is_blacklisted: bool,
}

/// A subject's allowlist record: the subject and whether it is allowed.
#[derive(Clone, Copy, Debug, PartialEq)]
pub struct AllowlistEntry {
    pub bump: u8,
    pub wallet: Address,
    pub is_allowed: bool,
}

/// What a blacklist or allowlist record holds.
pub struct EntryView {
    pub bump: u8,
    pub subject: Seq<u8>,
    pub flag: bool,
}

impl View for BlacklistEntry {
    type V = EntryView;

    open spec fn view(&self) -> EntryView {
        EntryView { bump: self.bump, subject: self.account@, flag: self.is_blacklisted }
    }
}

impl View for AllowlistEntry {
    type V = EntryView;

    open spec fn view(&self) -> EntryView {
        EntryView { bump: self.bump, subject: self.wallet@, flag: self.is_allowed }
    }
}

/// The configuration of a governed token. Name, symbol and uri are kept as
/// the UTF-8 bytes that the record stores.
#[derive(Clone, Debug, PartialEq)]
pub struct StablecoinConfig {
    pub bump: u8,
    pub master_authority: Address,
    pub mint: Address,
    pub name: Vec<u8>,
    pub symbol: Vec<u8>,
    pub uri: Vec<u8>,
    pub decimals: u8,
    pub is_paused: bool,
    pub enable_permanent_delegate: bool,
    pub enable_transfer_hook: bool,
    pub default_account_frozen: bool,
    pub enable_confidential_transfers: bool,
    pub enable_allowlist: bool,
}

/// What a token configuration holds.
pub struct ConfigView {
    pub bump: u8,
    pub master_authority: Seq<u8>,
    pub mint: Seq<u8>,
    pub name: Seq<u8>,
    pub symbol: Seq<u8>,
    pub uri: Seq<u8>,
    pub decimals: u8,
    pub is_paused: bool,
    pub enable_permanent_delegate: bool,
    pub enable_transfer_hook: bool,
    pub default_account_frozen: bool,
    pub enable_confidential_transfers: bool,
    pub enable_allowlist: bool,
}

impl View for StablecoinConfig {
    type V = ConfigView;

    open spec fn view(&self) -> ConfigView {
        ConfigView {
            bump: self.bump,
            master_authority: self.master_authority@,
            mint: self.mint@,
            name: self.name@,
            symbol: self.symbol@,
            uri: self.uri@,
            decimals: self.decimals,
            is_paused: self.is_paused,
            enable_permanent_delegate: self.enable_permanent_delegate,
            enable_transfer_hook: self.enable_transfer_hook,
            default_account_frozen: self.default_account_frozen,
            enable_confidential_transfers: self.enable_confidential_transfers,
            enable_allowlist: self.enable_allowlist,
        }
    }
}

/// An issuer's quota record: whether the issuer may mint, what it minted in
/// the current window and in all, its daily quota and when the window began.
#[derive(Clone, Copy, Debug, PartialEq)]
pub struct MinterConfig {
    pub bump: u8,
    pub minter: Address,
    pub is_active: bool,
    pub daily_minted: u64,
    pub total_minted: u64,
    pub daily_mint_quota: u64,
    pub last_mint_timestamp: i64,
}

/// What an issuer's quota record holds.
pub struct MinterView {
    pub bump: u8,
    pub minter: Seq<u8>,
    pub is_active: bool,
    pub daily_minted: u64,
    pub total_minted: u64,
    pub daily_mint_quota: u64,
    pub last_mint_timestamp: i64,
}

impl View for MinterConfig {
    type V = MinterView;

    open spec fn view(&self) -> MinterView {
        MinterView {
            bump: self.bump,
            minter: self.minter@,
            is_active: self.is_active,
            daily_minted: self.daily_minted,
            total_minted: self.total_minted,
            daily_mint_quota: self.daily_mint_quota,
            last_mint_timestamp: self.last_mint_timestamp,
        }
    }
}

/// The four delegated identities of a token.
#[derive(Clone, Copy, Debug, PartialEq)]
pub struct RoleAccount {
    pub bump: u8,
    pub burner: Address,
    pub pauser: Address,
    pub blacklister: Address,
    pub seizer: Address,
}

} // verus!
