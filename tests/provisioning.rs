use stablecoin::{
    derive_record_address, extra_account_metas, handle_initialize, mint_extensions,
    seize_account_list, stablecoin_program_id, truncate_to_bytes, Address, ExtraAccount,
    MintExtension, RecordKind, SeizeAccounts, StablecoinError,
};

fn addr(b: u8) -> Address {
    Address { bytes: [b; 32] }
}

#[test]
fn truncate_keeps_short_strings() {
    assert_eq!(truncate_to_bytes("RUSD", 16), "RUSD");
    assert_eq!(truncate_to_bytes("", 16), "");
    assert_eq!(truncate_to_bytes("exactly8", 8), "exactly8");
}

#[test]
fn truncate_cuts_at_a_character_boundary() {
    assert_eq!(truncate_to_bytes("abcdefgh", 3), "abc");
    // "é" takes two bytes: a cut inside it backs off to before it.
    assert_eq!(truncate_to_bytes("aé", 2), "a");
    assert_eq!(truncate_to_bytes("aé", 3), "aé");
    assert_eq!(truncate_to_bytes("日本", 4), "日");
    assert_eq!(truncate_to_bytes("日本", 2), "");
    assert_eq!(truncate_to_bytes("abc", 0), "");
}

#[test]
fn extensions_follow_the_flags() {
    assert_eq!(mint_extensions(false, false), vec![]);
    assert_eq!(mint_extensions(true, false), vec![MintExtension::PermanentDelegate]);
    assert_eq!(
        mint_extensions(true, true),
        vec![MintExtension::PermanentDelegate, MintExtension::TransferHook]
    );
    assert_eq!(mint_extensions(false, true), vec![MintExtension::TransferHook]);
}

#[test]
fn initialize_writes_config_and_roles() {
    let long_name = "N".repeat(70);
    let plan = handle_initialize(
        addr(9),
        addr(2),
        255,
        254,
        &long_name,
        "RUSD",
        "https://example.org",
        6,
        true,
        true,
        false,
        true,
        true,
        Some(addr(77)),
        false,
    )
    .unwrap();
    assert_eq!(plan.extensions, vec![MintExtension::PermanentDelegate, MintExtension::TransferHook]);
    assert_eq!(plan.config.name.len(), 64);
    assert_eq!(plan.config.symbol, b"RUSD".to_vec());
    assert_eq!(plan.config.uri, b"https://example.org".to_vec());
    assert_eq!(plan.config.master_authority, addr(9));
    assert_eq!(plan.config.mint, addr(2));
    assert!(!plan.config.is_paused);
    assert!(plan.config.enable_allowlist);
    assert!(plan.config.enable_confidential_transfers);
    assert_eq!(plan.roles.burner, addr(9));
    assert_eq!(plan.roles.seizer, addr(9));
    assert_eq!(plan.roles.bump, 254);
}

#[test]
fn initialize_needs_hook_program_for_new_hooked_mint() {
    let r = handle_initialize(
        addr(9), addr(2), 1, 1, "n", "s", "u", 6, false, true, false, false, false, None, false,
    );
    assert_eq!(r.err(), Some(StablecoinError::ComplianceNotEnabled));
    let r = handle_initialize(
        addr(9), addr(2), 1, 1, "n", "s", "u", 6, false, true, false, false, false, None, true,
    );
    assert!(r.is_ok());
}

#[test]
fn extra_metas_order() {
    let base = extra_account_metas(false);
    assert_eq!(base.len(), 3);
    assert_eq!(base[0], ExtraAccount::RecordProgram);
    assert_eq!(base[1], ExtraAccount::Record { kind: RecordKind::Blacklist, owner_of: Some(0) });
    assert_eq!(base[2], ExtraAccount::Record { kind: RecordKind::Blacklist, owner_of: Some(2) });
    let full = extra_account_metas(true);
    assert_eq!(full.len(), 6);
    assert_eq!(full[3], ExtraAccount::Record { kind: RecordKind::Config, owner_of: None });
    assert_eq!(full[5], ExtraAccount::Record { kind: RecordKind::Allowlist, owner_of: Some(2) });
}

#[test]
fn seize_list_shape() {
    let a = SeizeAccounts {
        from_account: addr(1),
        mint: addr(2),
        to_account: addr(3),
        config: addr(4),
        extra_meta_list: addr(5),
        stablecoin_program: addr(6),
        source_blacklist: addr(7),
        dest_blacklist: addr(8),
        config_allowlist: addr(9),
        source_allowlist: addr(10),
        dest_allowlist: addr(11),
        transfer_hook_program: addr(12),
    };
    let short = seize_account_list(&a, false);
    assert_eq!(short.len(), 9);
    assert_eq!(short[8].key, addr(12));
    assert!(short[0].is_writable && short[2].is_writable && !short[1].is_writable);
    assert!(short[3].is_signer);
    let long = seize_account_list(&a, true);
    assert_eq!(long.len(), 12);
    let keys: Vec<u8> = long.iter().map(|m| m.key.bytes[0]).collect();
    assert_eq!(keys, (1..=12).collect::<Vec<u8>>());
}

#[test]
fn record_addresses_are_deterministic_and_distinct() {
    let token = addr(2);
    let subject = addr(3);
    let a = derive_record_address(RecordKind::Blacklist, &token, Some(subject)).unwrap();
    let b = derive_record_address(RecordKind::Blacklist, &token, Some(subject)).unwrap();
    assert_eq!(a, b);
    let c = derive_record_address(RecordKind::Allowlist, &token, Some(subject)).unwrap();
    let d = derive_record_address(RecordKind::Blacklist, &token, Some(addr(4))).unwrap();
    let e = derive_record_address(RecordKind::Config, &token, None).unwrap();
    assert_ne!(a, c);
    assert_ne!(a, d);
    assert_ne!(a, e);
    assert_ne!(a, token);
    assert_ne!(a, subject);
    assert_ne!(e, token);
    assert_ne!(e, stablecoin_program_id());
}

#[test]
fn address_equality_compares_every_byte() {
    let mut x = addr(5);
    assert_eq!(x, addr(5));
    x.bytes[31] = 6;
    assert_ne!(x, addr(5));
    assert_eq!(x.to_vec().len(), 32);
}
