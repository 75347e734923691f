use stablecoin::{handle_mint, Address, MinterConfig, StablecoinError, MINT_WINDOW_SECONDS};

fn issuer(quota: u64) -> MinterConfig {
    MinterConfig {
        bump: 1,
        minter: Address { bytes: [4; 32] },
        is_active: true,
        daily_minted: 0,
        total_minted: 0,
        daily_mint_quota: quota,
        last_mint_timestamp: 1_000_000,
    }
}

#[test]
fn second_mint_over_quota_in_same_window_is_refused() {
    let mut m = issuer(1000);
    assert_eq!(handle_mint(&mut m, 600, 1_000_010), Ok(()));
    assert_eq!(m.daily_minted, 600);
    let before = m;
    assert_eq!(handle_mint(&mut m, 500, 1_000_020), Err(StablecoinError::QuotaExceeded));
    assert_eq!(m.daily_minted, 600);
    assert_eq!(m, before);
}

#[test]
fn mint_after_window_elapses_resets_the_window() {
    let mut m = issuer(1000);
    assert_eq!(handle_mint(&mut m, 600, 1_000_010), Ok(()));
    let later = 1_000_000 + MINT_WINDOW_SECONDS;
    assert_eq!(handle_mint(&mut m, 500, later), Ok(()));
    assert_eq!(m.daily_minted, 500);
    assert_eq!(m.total_minted, 1100);
    assert_eq!(m.last_mint_timestamp, later);
}

#[test]
fn window_not_yet_elapsed_one_second_before() {
    let mut m = issuer(1000);
    m.daily_minted = 600;
    assert_eq!(
        handle_mint(&mut m, 500, 1_000_000 + MINT_WINDOW_SECONDS - 1),
        Err(StablecoinError::QuotaExceeded)
    );
    assert_eq!(m.last_mint_timestamp, 1_000_000);
}

#[test]
fn reset_happens_once_however_many_windows_passed() {
    let mut m = issuer(1000);
    m.daily_minted = 999;
    let much_later = 1_000_000 + 10 * MINT_WINDOW_SECONDS + 5;
    assert_eq!(handle_mint(&mut m, 1000, much_later), Ok(()));
    assert_eq!(m.daily_minted, 1000);
    assert_eq!(m.last_mint_timestamp, much_later);
}

#[test]
fn exactly_the_quota_is_allowed() {
    let mut m = issuer(1000);
    assert_eq!(handle_mint(&mut m, 1000, 1_000_001), Ok(()));
    assert_eq!(handle_mint(&mut m, 1, 1_000_002), Err(StablecoinError::QuotaExceeded));
    assert_eq!(m.daily_minted, 1000);
}

#[test]
fn inactive_issuer_is_refused() {
    let mut m = issuer(1000);
    m.is_active = false;
    let before = m;
    assert_eq!(handle_mint(&mut m, 1, 1_000_001), Err(StablecoinError::MinterInactive));
    assert_eq!(m, before);
}

#[test]
fn cumulative_overflow_is_fatal_and_changes_nothing() {
    let mut m = issuer(u64::MAX);
    m.total_minted = u64::MAX - 10;
    let before = m;
    assert_eq!(handle_mint(&mut m, 11, 1_000_001), Err(StablecoinError::MathOverflow));
    assert_eq!(m, before);
    assert_eq!(handle_mint(&mut m, 10, 1_000_001), Ok(()));
    assert_eq!(m.total_minted, u64::MAX);
}

#[test]
fn window_total_near_the_limit_does_not_wrap() {
    let mut m = issuer(u64::MAX);
    m.daily_minted = u64::MAX - 1;
    assert_eq!(handle_mint(&mut m, 2, 1_000_001), Err(StablecoinError::QuotaExceeded));
    let mut far = issuer(5);
    far.last_mint_timestamp = i64::MAX - 10;
    assert_eq!(handle_mint(&mut far, 5, i64::MAX), Ok(()));
    assert_eq!(far.last_mint_timestamp, i64::MAX - 10);
}
