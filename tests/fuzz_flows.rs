use stablecoin::{
    check_mint_allowed, handle_mint, handle_pause, handle_unpause, Address, MinterConfig,
    RoleAccount, StablecoinConfig, StablecoinError,
};

fn addr(b: u8) -> Address {
    Address { bytes: [b; 32] }
}

/// Random flows of pausing, unpausing and minting: the issuer's totals only
/// grow by what was accepted, and the window never exceeds the quota.
#[test]
fn random_flows_keep_ledger_invariants() {
    let roles = RoleAccount { bump: 1, burner: addr(1), pauser: addr(1), blacklister: addr(1), seizer: addr(1) };
    for _ in 0..50 {
        let mut config = StablecoinConfig {
            bump: 1,
            master_authority: addr(9),
            mint: addr(2),
            name: Vec::new(),
            symbol: Vec::new(),
            uri: Vec::new(),
            decimals: 6,
            is_paused: false,
            enable_permanent_delegate: false,
            enable_transfer_hook: false,
            default_account_frozen: false,
            enable_confidential_transfers: false,
            enable_allowlist: false,
        };
        let quota = rand::random::<u64>() % 1_000_000_000 + 1;
        let mut minter = MinterConfig {
            bump: 1,
            minter: addr(3),
            is_active: true,
            daily_minted: 0,
            total_minted: 0,
            daily_mint_quota: quota,
            last_mint_timestamp: 0,
        };
        let mut now: i64 = 0;
        let mut accepted: u64 = 0;
        for _ in 0..2000 {
            match rand::random::<u8>() % 4 {
                0 => {
                    handle_pause(&mut config, &roles, &addr(1)).unwrap();
                }
                1 => {
                    handle_unpause(&mut config, &roles, &addr(1)).unwrap();
                }
                2 => {
                    now += (rand::random::<u32>() % 20_000) as i64;
                }
                _ => {
                    let amount = rand::random::<u64>() % 1_000_000_000;
                    let amount = if amount == 0 { 1 } else { amount };
                    if check_mint_allowed(&config).is_err() {
                        assert!(config.is_paused);
                        continue;
                    }
                    let before = minter;
                    match handle_mint(&mut minter, amount, now) {
                        Ok(()) => {
                            accepted += amount;
                            assert_eq!(minter.total_minted, before.total_minted + amount);
                        }
                        Err(e) => {
                            assert_eq!(e, StablecoinError::QuotaExceeded);
                            assert_eq!(minter, before);
                        }
                    }
                }
            }
            assert!(minter.daily_minted <= minter.daily_mint_quota);
            assert_eq!(minter.total_minted, accepted);
        }
    }
}
