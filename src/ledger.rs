//! The quota-gated issuance ledger: per-issuer accounting of minting within
//! a rolling daily window.

use crate::errors::StablecoinError;
use crate::state::{MinterConfig, MinterView};
use vstd::prelude::*;

verus! {

/// Length of a minting window, in seconds.
pub const MINT_WINDOW_SECONDS: i64 = 86400;

/// Whether the window that began at `start` has elapsed at `now`.
pub open spec fn window_elapsed(start: i64, now: i64) -> bool {
    now as int >= start as int + MINT_WINDOW_SECONDS as int
}

/// The issuer's record after a mint of `amount` at `now`, or why the mint
/// is refused. An elapsed window is reset once, to start at `now`.
pub open spec fn mint_outcome(m: MinterView, amount: u64, now: i64) -> Result<
    MinterView,
    StablecoinError,
> {
    let daily: int = if window_elapsed(m.last_mint_timestamp, now) {
        0
    } else {
        m.daily_minted as int
    };
    let start = if window_elapsed(m.last_mint_timestamp, now) {
        now
    } else {
        m.last_mint_timestamp
    };
    if !m.is_active {
        Err(StablecoinError::MinterInactive)
    } else if daily + amount > m.daily_mint_quota {
        Err(StablecoinError::QuotaExceeded)
    } else if m.total_minted + amount > u64::MAX {
        Err(StablecoinError::MathOverflow)
    } else {
        Ok(
            MinterView {
                daily_minted: (daily + amount) as u64,
                total_minted: (m.total_minted + amount) as u64,
                last_mint_timestamp: start,
                ..m
            },
        )
    }
}

/// Records a mint of `amount` by the issuer at time `now`. On success the
/// window's total and the cumulative total grow by `amount`; on any refusal
/// the record is left as it was.
pub fn handle_mint(minter: &mut MinterConfig, amount: u64, now: i64) -> (r: Result<
    (),
    StablecoinError,
>)
    ensures
        match mint_outcome(old(minter)@, amount, now) {
            Ok(v) => r is Ok && final(minter)@ == v,
            Err(e) => r == Err::<(), StablecoinError>(e) && *final(minter) == *old(minter),
        },
        r is Ok ==> final(minter).daily_minted <= final(minter).daily_mint_quota,
        r is Ok ==> final(minter).total_minted == old(minter).total_minted + amount,
        !old(minter).is_active ==> r == Err::<(), StablecoinError>(StablecoinError::MinterInactive),
        old(minter).is_active && (old(minter).total_minted + amount > u64::MAX) && (
        mint_outcome(old(minter)@, amount, now) != Err::<MinterView, StablecoinError>(
            StablecoinError::QuotaExceeded,
        )) ==> r == Err::<(), StablecoinError>(StablecoinError::MathOverflow) && *final(minter)
            == *old(minter),
{
    if !minter.is_active {
        return Err(StablecoinError::MinterInactive);
    }
    let elapsed = minter.last_mint_timestamp <= i64::MAX - MINT_WINDOW_SECONDS && now
        >= minter.last_mint_timestamp + MINT_WINDOW_SECONDS;
    let daily: u64 = if elapsed {
        0
    } else {
        minter.daily_minted
    };
    let start: i64 = if elapsed {
        now
    } else {
        minter.last_mint_timestamp
    };
    if amount > minter.daily_mint_quota || daily > minter.daily_mint_quota - amount {
        return Err(StablecoinError::QuotaExceeded);
    }
    let total = match minter.total_minted.checked_add(amount) {
        Some(t) => t,
        None => {
            return Err(StablecoinError::MathOverflow);
        },
    };
    minter.daily_minted = daily + amount;
    minter.total_minted = total;
    minter.last_mint_timestamp = start;
    Ok(())
}

} // verus!
