use stablecoin::{
    derive_record_address, evaluate_transfer, fallback, handle_execute, AccountRef, Address,
    AllowlistEntry, BlacklistEntry, Party, RecordKind, StablecoinConfig, TransferHookError,
};

fn addr(b: u8) -> Address {
    Address { bytes: [b; 32] }
}

fn account(key: Address, data: Vec<u8>) -> AccountRef {
    AccountRef { key, data }
}

fn empty(b: u8) -> AccountRef {
    account(addr(b), Vec::new())
}

fn blacklist(subject: u8, flag: bool) -> Vec<u8> {
    BlacklistEntry { bump: 254, account: addr(subject), is_blacklisted: flag }.encode()
}

fn allowlist(subject: u8, flag: bool) -> Vec<u8> {
    AllowlistEntry { bump: 253, wallet: addr(subject), is_allowed: flag }.encode()
}

fn config(enable_allowlist: bool) -> Vec<u8> {
    StablecoinConfig {
        bump: 255,
        master_authority: addr(9),
        mint: addr(2),
        name: b"Regulated Dollar".to_vec(),
        symbol: b"RUSD".to_vec(),
        uri: b"https://example.org/rusd.json".to_vec(),
        decimals: 6,
        is_paused: false,
        enable_permanent_delegate: true,
        enable_transfer_hook: true,
        default_account_frozen: false,
        enable_confidential_transfers: false,
        enable_allowlist,
    }
    .encode()
}

/// source 1, token 2, destination 3, authority 4, then the rest.
fn base_list(source_bl: Vec<u8>, dest_bl: Vec<u8>) -> Vec<AccountRef> {
    vec![
        empty(1),
        empty(2),
        empty(3),
        empty(4),
        empty(5),
        empty(6),
        account(addr(7), source_bl),
        account(addr(8), dest_bl),
    ]
}

/// A list of ten: the blacklist slots are 6 and 7, and 7 also holds the
/// configuration; the allowlist records are at 8 and 9.
fn list_of_ten(source_bl: Vec<u8>, cfg: Vec<u8>, s_al: Vec<u8>, d_al: Vec<u8>) -> Vec<AccountRef> {
    vec![
        empty(1),
        empty(2),
        empty(3),
        empty(4),
        empty(5),
        empty(6),
        account(addr(7), source_bl),
        account(addr(8), cfg),
        account(addr(10), s_al),
        account(addr(11), d_al),
    ]
}

fn list_of_eleven(
    source_bl: Vec<u8>,
    dest_bl: Vec<u8>,
    cfg: Vec<u8>,
    s_al: Vec<u8>,
    d_al: Vec<u8>,
) -> Vec<AccountRef> {
    let mut l = base_list(source_bl, dest_bl);
    l.push(account(addr(12), cfg));
    l.push(account(addr(13), s_al));
    l.push(account(addr(14), d_al));
    l
}

#[test]
fn too_few_accounts_is_malformed() {
    let mut l = base_list(Vec::new(), Vec::new());
    l.pop();
    assert_eq!(handle_execute(&l, 10), Err(TransferHookError::NotEnoughAccountKeys));
    assert_eq!(evaluate_transfer(&[], None), Err(TransferHookError::NotEnoughAccountKeys));
    assert!(!TransferHookError::NotEnoughAccountKeys.is_policy_rejection());
}

#[test]
fn absent_records_accept() {
    let l = base_list(Vec::new(), Vec::new());
    assert_eq!(handle_execute(&l, 10), Ok(()));
    let l = list_of_ten(Vec::new(), Vec::new(), Vec::new(), Vec::new());
    assert_eq!(handle_execute(&l, 10), Ok(()));
    let l = list_of_eleven(Vec::new(), Vec::new(), config(false), Vec::new(), Vec::new());
    assert_eq!(handle_execute(&l, 10), Ok(()));
}

#[test]
fn blacklisted_source_is_rejected_and_unmarking_restores() {
    let l = base_list(blacklist(1, true), Vec::new());
    let r = handle_execute(&l, 10);
    assert_eq!(r, Err(TransferHookError::Blacklisted(Party::Source)));
    assert!(r.unwrap_err().is_policy_rejection());
    let l = base_list(blacklist(1, false), Vec::new());
    assert_eq!(handle_execute(&l, 10), Ok(()));
}

#[test]
fn blacklisted_destination_is_rejected_and_unmarking_restores() {
    let l = base_list(Vec::new(), blacklist(3, true));
    assert_eq!(handle_execute(&l, 10), Err(TransferHookError::Blacklisted(Party::Destination)));
    let l = base_list(Vec::new(), blacklist(3, false));
    assert_eq!(handle_execute(&l, 10), Ok(()));
}

#[test]
fn both_blacklisted_reports_source_first() {
    let l = base_list(blacklist(1, true), blacklist(3, true));
    assert_eq!(handle_execute(&l, 10), Err(TransferHookError::Blacklisted(Party::Source)));
}

#[test]
fn any_nonzero_flag_byte_counts_as_set() {
    let mut data = blacklist(1, true);
    data[41] = 7;
    let l = base_list(data, Vec::new());
    assert_eq!(handle_execute(&l, 10), Err(TransferHookError::Blacklisted(Party::Source)));
}

#[test]
fn slot_without_a_blacklist_record_does_not_reject() {
    let l = base_list(vec![1, 2, 3], allowlist(3, true));
    assert_eq!(handle_execute(&l, 10), Ok(()));
}

#[test]
fn override_accepts_even_when_both_blacklisted() {
    let mint = addr(2);
    let control = derive_record_address(RecordKind::Config, &mint, None).unwrap();
    let mut l = base_list(blacklist(1, true), blacklist(3, true));
    l[3] = account(control, Vec::new());
    assert_eq!(handle_execute(&l, 10), Ok(()));
    assert_eq!(evaluate_transfer(&l, Some(control)), Ok(()));
    let mut l2 = list_of_eleven(blacklist(1, true), Vec::new(), config(true), Vec::new(), Vec::new());
    l2[3] = account(control, Vec::new());
    assert_eq!(handle_execute(&l2, 10), Ok(()));
}

#[test]
fn authority_other_than_control_gets_no_override() {
    let mut l = base_list(blacklist(1, true), Vec::new());
    l[3] = account(addr(2), Vec::new());
    assert_eq!(handle_execute(&l, 10), Err(TransferHookError::Blacklisted(Party::Source)));
    assert_eq!(
        evaluate_transfer(&l, Some(addr(99))),
        Err(TransferHookError::Blacklisted(Party::Source))
    );
    assert_eq!(evaluate_transfer(&l, Some(addr(2))), Ok(()));
}

#[test]
fn allowlist_gating_in_a_list_of_ten() {
    let t = |s: Vec<u8>, d: Vec<u8>| handle_execute(&list_of_ten(Vec::new(), config(true), s, d), 1);
    assert_eq!(t(allowlist(1, true), allowlist(3, true)), Ok(()));
    assert_eq!(
        t(Vec::new(), allowlist(3, true)),
        Err(TransferHookError::NotOnAllowlist(Party::Source))
    );
    assert_eq!(
        t(allowlist(1, false), allowlist(3, true)),
        Err(TransferHookError::NotOnAllowlist(Party::Source))
    );
    assert_eq!(
        t(allowlist(1, true), Vec::new()),
        Err(TransferHookError::NotOnAllowlist(Party::Destination))
    );
    assert_eq!(
        t(allowlist(1, true), allowlist(3, false)),
        Err(TransferHookError::NotOnAllowlist(Party::Destination))
    );
    assert!(TransferHookError::NotOnAllowlist(Party::Source).is_policy_rejection());
}

#[test]
fn allowlist_disabled_ignores_allowlist_slots() {
    let l = list_of_ten(Vec::new(), config(false), Vec::new(), Vec::new());
    assert_eq!(handle_execute(&l, 1), Ok(()));
    let l = list_of_ten(Vec::new(), config(false), allowlist(1, false), vec![0; 3]);
    assert_eq!(handle_execute(&l, 1), Ok(()));
}

#[test]
fn allowlist_gating_in_a_list_of_eleven() {
    let t = |s: Vec<u8>, d: Vec<u8>| {
        handle_execute(&list_of_eleven(Vec::new(), Vec::new(), config(true), s, d), 1)
    };
    assert_eq!(t(allowlist(1, true), allowlist(3, true)), Ok(()));
    assert_eq!(
        t(allowlist(1, true), allowlist(3, false)),
        Err(TransferHookError::NotOnAllowlist(Party::Destination))
    );
    let l = list_of_eleven(blacklist(1, true), Vec::new(), config(true), Vec::new(), Vec::new());
    assert_eq!(handle_execute(&l, 1), Err(TransferHookError::Blacklisted(Party::Source)));
}

#[test]
fn malformed_required_records_are_hard_failures() {
    let mut short_config = config(true);
    short_config.truncate(50);
    let l = list_of_eleven(Vec::new(), Vec::new(), short_config, Vec::new(), Vec::new());
    assert_eq!(handle_execute(&l, 1), Err(TransferHookError::InvalidAccountData));
    let l = list_of_eleven(Vec::new(), Vec::new(), config(true), vec![1; 20], allowlist(3, true));
    let r = handle_execute(&l, 1);
    assert_eq!(r, Err(TransferHookError::InvalidAccountData));
    assert!(!r.unwrap_err().is_policy_rejection());
    let l = list_of_eleven(Vec::new(), Vec::new(), config(true), blacklist(1, true), allowlist(3, true));
    assert_eq!(handle_execute(&l, 1), Err(TransferHookError::InvalidAccountData));
}

#[test]
fn hook_leaves_its_inputs_unchanged() {
    let l = list_of_eleven(blacklist(1, true), Vec::new(), config(true), Vec::new(), Vec::new());
    let before: Vec<Vec<u8>> = l.iter().map(|a| a.data.clone()).collect();
    let _ = handle_execute(&l, 1);
    let after: Vec<Vec<u8>> = l.iter().map(|a| a.data.clone()).collect();
    assert_eq!(before, after);
}

#[test]
fn fallback_runs_the_hook_on_execute() {
    let mut ix = vec![105u8, 37, 101, 197, 75, 251, 102, 26];
    ix.extend_from_slice(&500u64.to_le_bytes());
    let l = base_list(blacklist(1, true), Vec::new());
    assert_eq!(fallback(&l, &ix), Err(TransferHookError::Blacklisted(Party::Source)));
    let l = base_list(Vec::new(), Vec::new());
    assert_eq!(fallback(&l, &ix), Ok(()));
}

#[test]
fn fallback_refuses_other_instructions() {
    let l = base_list(Vec::new(), Vec::new());
    assert_eq!(fallback(&l, &[]), Err(TransferHookError::InvalidInstructionData));
    assert_eq!(
        fallback(&l, &[105u8, 37, 101, 197, 75, 251, 102, 26, 1, 2]),
        Err(TransferHookError::InvalidInstructionData)
    );
    assert_eq!(fallback(&l, &[0u8; 16]), Err(TransferHookError::InvalidInstructionData));
}

#[test]
fn fallback_refuses_metadata_instructions_with_oversized_lengths() {
    let l = base_list(Vec::new(), Vec::new());
    let initialize = [43u8, 34, 13, 49, 167, 88, 235, 235, 1, 0, 0, 0];
    assert_eq!(fallback(&l, &initialize), Err(TransferHookError::InvalidInstructionData));
    let update = [157u8, 105, 42, 146, 102, 85, 241, 174, 255, 255, 255, 255];
    assert_eq!(fallback(&l, &update), Err(TransferHookError::InvalidInstructionData));
}
