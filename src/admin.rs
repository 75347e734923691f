//! Registry administration: the writes that set the records the hook and
//! the ledger read, each behind the authorization its role demands.

use crate::address::Address;
use crate::errors::StablecoinError;
use crate::state::{
    AllowlistEntry, BlacklistEntry, ConfigView, EntryView, MinterConfig, MinterView, RoleAccount,
    StablecoinConfig,
};
use vstd::prelude::*;

verus! {

/// Whether `signer` may act in a role: it holds the role, or it is the
/// token's administrator.
pub open spec fn may_act(role: Address, master: Address, signer: Address) -> bool {
    role@ == signer@ || master@ == signer@
}

fn check_role(role: &Address, master: &Address, signer: &Address) -> (r: Result<
    (),
    StablecoinError,
>)
    ensures
        r is Ok <==> may_act(*role, *master, *signer),
        r is Err ==> r == Err::<(), StablecoinError>(StablecoinError::Unauthorized),
{
    if *role == *signer || *master == *signer {
        Ok(())
    } else {
        Err(StablecoinError::Unauthorized)
    }
}

fn check_admin(config: &StablecoinConfig, signer: &Address) -> (r: Result<(), StablecoinError>)
    ensures
        r is Ok <==> config.master_authority@ == signer@,
        r is Err ==> r == Err::<(), StablecoinError>(StablecoinError::Unauthorized),
{
    if config.master_authority == *signer {
        Ok(())
    } else {
        Err(StablecoinError::Unauthorized)
    }
}

/// Pauses the token, where the signer is its pauser or its administrator.
pub fn handle_pause(config: &mut StablecoinConfig, roles: &RoleAccount, pauser: &Address) -> (r:
    Result<(), StablecoinError>)
    ensures
        r is Ok <==> may_act(roles.pauser, old(config).master_authority, *pauser),
        r is Ok ==> final(config)@ == (ConfigView { is_paused: true, ..old(config)@ }),
        r is Err ==> r == Err::<(), StablecoinError>(StablecoinError::Unauthorized) && *final(config) == *old(config),
{
    check_role(&roles.pauser, &config.master_authority, pauser)?;
    config.is_paused = true;
    Ok(())
}

/// Lifts a pause, where the signer is the pauser or the administrator.
pub fn handle_unpause(config: &mut StablecoinConfig, roles: &RoleAccount, pauser: &Address) -> (r:
    Result<(), StablecoinError>)
    ensures
        r is Ok <==> may_act(roles.pauser, old(config).master_authority, *pauser),
        r is Ok ==> final(config)@ == (ConfigView { is_paused: false, ..old(config)@ }),
        r is Err ==> r == Err::<(), StablecoinError>(StablecoinError::Unauthorized) && *final(config) == *old(config),
{
    check_role(&roles.pauser, &config.master_authority, pauser)?;
    config.is_paused = false;
    Ok(())
}

/// Hands the administrator's authority to `new_authority`, where the signer
/// is the administrator.
pub fn handle_transfer_authority(
    config: &mut StablecoinConfig,
    admin: &Address,
    new_authority: Address,
) -> (r: Result<(), StablecoinError>)
    ensures
        r is Ok <==> old(config).master_authority@ == admin@,
        r is Ok ==> final(config)@ == (ConfigView {
            master_authority: new_authority@,
            ..old(config)@
        }),
        r is Err ==> r == Err::<(), StablecoinError>(StablecoinError::Unauthorized) && *final(config) == *old(config),
{
    check_admin(config, admin)?;
    config.master_authority = new_authority;
    Ok(())
}

/// The role held after an update that may name a new holder.
pub open spec fn updated_role(current: Address, update: Option<Address>) -> Address {
    match update {
        Some(a) => a,
        None => current,
    }
}

/// Replaces each role for which a new holder is given, where the signer is
/// the administrator.
pub fn handle_update_roles(
    config: &StablecoinConfig,
    roles: &mut RoleAccount,
    admin: &Address,
    burner: Option<Address>,
    pauser: Option<Address>,
    blacklister: Option<Address>,
    seizer: Option<Address>,
) -> (r: Result<(), StablecoinError>)
    ensures
        r is Ok <==> config.master_authority@ == admin@,
        r is Ok ==> *final(roles) == (RoleAccount {
            bump: old(roles).bump,
            burner: updated_role(old(roles).burner, burner),
            pauser: updated_role(old(roles).pauser, pauser),
            blacklister: updated_role(old(roles).blacklister, blacklister),
            seizer: updated_role(old(roles).seizer, seizer),
        }),
        r is Err ==> r == Err::<(), StablecoinError>(StablecoinError::Unauthorized) && *final(roles)
            == *old(roles),
{
    check_admin(config, admin)?;
    if let Some(b) = burner {
        roles.burner = b;
    }
    if let Some(p) = pauser {
        roles.pauser = p;
    }
    if let Some(bl) = blacklister {
        roles.blacklister = bl;
    }
    if let Some(s) = seizer {
        roles.seizer = s;
    }
    Ok(())
}

/// Sets an issuer's activity and daily quota, where the signer is the
/// administrator. The window's state and the cumulative total are kept.
pub fn handle_configure_minter(
    config: &StablecoinConfig,
    admin: &Address,
    minter_config: &mut MinterConfig,
    minter: Address,
    bump: u8,
    is_active: bool,
    daily_mint_quota: u64,
) -> (r: Result<(), StablecoinError>)
    ensures
        r is Ok <==> config.master_authority@ == admin@,
        r is Ok ==> final(minter_config)@ == (MinterView {
            bump,
            minter: minter@,
            is_active,
            daily_mint_quota,
            ..old(minter_config)@
        }),
        r is Err ==> r == Err::<(), StablecoinError>(StablecoinError::Unauthorized) && *final(minter_config) == *old(minter_config),
{
    check_admin(config, admin)?;
    minter_config.bump = bump;
    minter_config.minter = minter;
    minter_config.is_active = is_active;
    minter_config.daily_mint_quota = daily_mint_quota;
    Ok(())
}

/// Why a blacklist write is refused, if it is: the signer is neither the
/// blacklister nor the administrator, or the token has no transfer
/// validation.
pub open spec fn blacklist_write_error(
    config: ConfigView,
    roles: RoleAccount,
    signer: Address,
) -> Option<StablecoinError> {
    if !(roles.blacklister@ == signer@ || config.master_authority == signer@) {
        Some(StablecoinError::Unauthorized)
    } else if !config.enable_transfer_hook {
        Some(StablecoinError::ComplianceNotEnabled)
    } else {
        None
    }
}

fn set_blacklist(
    config: &StablecoinConfig,
    roles: &RoleAccount,
    blacklister: &Address,
    entry: &mut BlacklistEntry,
    target: Address,
    bump: u8,
    flag: bool,
) -> (r: Result<(), StablecoinError>)
    ensures
        match blacklist_write_error(config@, *roles, *blacklister) {
            Some(e) => r == Err::<(), StablecoinError>(e) && *final(entry) == *old(entry),
            None => r is Ok && final(entry)@ == (EntryView { bump, subject: target@, flag }),
        },
{
    check_role(&roles.blacklister, &config.master_authority, blacklister)?;
    if !config.enable_transfer_hook {
        return Err(StablecoinError::ComplianceNotEnabled);
    }
    entry.bump = bump;
    entry.account = target;
    entry.is_blacklisted = flag;
    Ok(())
}

/// Marks `target` blacklisted in its record.
pub fn handle_add_to_blacklist(
    config: &StablecoinConfig,
    roles: &RoleAccount,
    blacklister: &Address,
    entry: &mut BlacklistEntry,
    target: Address,
    bump: u8,
) -> (r: Result<(), StablecoinError>)
    ensures
        match blacklist_write_error(config@, *roles, *blacklister) {
            Some(e) => r == Err::<(), StablecoinError>(e) && *final(entry) == *old(entry),
            None => r is Ok && final(entry)@ == (EntryView { bump, subject: target@, flag: true }),
        },
{
    set_blacklist(config, roles, blacklister, entry, target, bump, true)
}

/// Clears `target`'s blacklist mark in its record.
pub fn handle_remove_from_blacklist(
    config: &StablecoinConfig,
    roles: &RoleAccount,
    blacklister: &Address,
    entry: &mut BlacklistEntry,
    target: Address,
    bump: u8,
) -> (r: Result<(), StablecoinError>)
    ensures
        match blacklist_write_error(config@, *roles, *blacklister) {
            Some(e) => r == Err::<(), StablecoinError>(e) && *final(entry) == *old(entry),
            None => r is Ok && final(entry)@ == (EntryView { bump, subject: target@, flag: false }),
        },
{
    set_blacklist(config, roles, blacklister, entry, target, bump, false)
}

/// Why an allowlist write is refused, if it is: the token does not enforce
/// an allowlist, or the signer is not the administrator.
pub open spec fn allowlist_write_error(config: ConfigView, signer: Address) -> Option<
    StablecoinError,
> {
    if !config.enable_allowlist {
        Some(StablecoinError::ComplianceNotEnabled)
    } else if config.master_authority != signer@ {
        Some(StablecoinError::Unauthorized)
    } else {
        None
    }
}

fn set_allowlist(
    config: &StablecoinConfig,
    authority: &Address,
    entry: &mut AllowlistEntry,
    wallet: Address,
    bump: u8,
    flag: bool,
) -> (r: Result<(), StablecoinError>)
    ensures
        match allowlist_write_error(config@, *authority) {
            Some(e) => r == Err::<(), StablecoinError>(e) && *final(entry) == *old(entry),
            None => r is Ok && final(entry)@ == (EntryView { bump, subject: wallet@, flag }),
        },
{
    if !config.enable_allowlist {
        return Err(StablecoinError::ComplianceNotEnabled);
    }
    check_admin(config, authority)?;
    entry.bump = bump;
    entry.wallet = wallet;
    entry.is_allowed = flag;
    Ok(())
}

/// Marks `wallet` allowed in its allowlist record.
pub fn handle_add_to_allowlist(
    config: &StablecoinConfig,
    authority: &Address,
    entry: &mut AllowlistEntry,
    wallet: Address,
    bump: u8,
) -> (r: Result<(), StablecoinError>)
    ensures
        match allowlist_write_error(config@, *authority) {
            Some(e) => r == Err::<(), StablecoinError>(e) && *final(entry) == *old(entry),
            None => r is Ok && final(entry)@ == (EntryView { bump, subject: wallet@, flag: true }),
        },
{
    set_allowlist(config, authority, entry, wallet, bump, true)
}

/// Clears `wallet`'s mark in its allowlist record.
pub fn handle_remove_from_allowlist(
    config: &StablecoinConfig,
    authority: &Address,
    entry: &mut AllowlistEntry,
    wallet: Address,
    bump: u8,
) -> (r: Result<(), StablecoinError>)
    ensures
        match allowlist_write_error(config@, *authority) {
            Some(e) => r == Err::<(), StablecoinError>(e) && *final(entry) == *old(entry),
            None => r is Ok && final(entry)@ == (EntryView { bump, subject: wallet@, flag: false }),
        },
{
    set_allowlist(config, authority, entry, wallet, bump, false)
}

/// Whether a mint may go ahead: the token is not paused.
pub fn check_mint_allowed(config: &StablecoinConfig) -> (r: Result<(), StablecoinError>)
    ensures
        r is Ok <==> !config.is_paused,
        r is Err ==> r == Err::<(), StablecoinError>(StablecoinError::ProgramPaused),
{
    if config.is_paused {
        Err(StablecoinError::ProgramPaused)
    } else {
        Ok(())
    }
}

/// Whether a burn may go ahead: the token is not paused, and the signer is
/// the burner or the administrator.
pub fn check_burn_allowed(config: &StablecoinConfig, roles: &RoleAccount, burner: &Address) -> (r:
    Result<(), StablecoinError>)
    ensures
        !config.is_paused ==> (r is Ok <==> may_act(roles.burner, config.master_authority, *burner)),
        config.is_paused ==> r == Err::<(), StablecoinError>(StablecoinError::ProgramPaused),
        r is Err && !config.is_paused ==> r == Err::<(), StablecoinError>(
            StablecoinError::Unauthorized,
        ),
{
    check_mint_allowed(config)?;
    check_role(&roles.burner, &config.master_authority, burner)
}

/// Whether a freeze or a thaw may go ahead: the signer is the blacklister
/// or the administrator.
pub fn check_freeze_allowed(config: &StablecoinConfig, roles: &RoleAccount, signer: &Address) -> (r:
    Result<(), StablecoinError>)
    ensures
        r is Ok <==> may_act(roles.blacklister, config.master_authority, *signer),
        r is Err ==> r == Err::<(), StablecoinError>(StablecoinError::Unauthorized),
{
    check_role(&roles.blacklister, &config.master_authority, signer)
}

/// Whether a seizure may go ahead: the token has the permanent override
/// enabled, and the signer is the seizer or the administrator.
pub fn check_seize_allowed(config: &StablecoinConfig, roles: &RoleAccount, seizer: &Address) -> (r:
    Result<(), StablecoinError>)
    ensures
        !config.enable_permanent_delegate ==> r == Err::<(), StablecoinError>(
            StablecoinError::ComplianceNotEnabled,
        ),
        config.enable_permanent_delegate ==> (r is Ok <==> may_act(
            roles.seizer,
            config.master_authority,
            *seizer,
        )),
        r is Err && config.enable_permanent_delegate ==> r == Err::<(), StablecoinError>(
            StablecoinError::Unauthorized,
        ),
{
    if !config.enable_permanent_delegate {
        return Err(StablecoinError::ComplianceNotEnabled);
    }
    check_role(&roles.seizer, &config.master_authority, seizer)
}

} // verus!
