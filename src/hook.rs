//! The transfer compliance hook: the decision taken before a transfer of the
//! governed token is finalized, from the ordered list of accounts that the
//! caller assembled for it.
//!
//! Positions 0 to 3 of the list are the source, the token, the destination
//! and the authority that initiated the transfer. The blacklist records of
//! the source and the destination stand at 6 and 7. Where the allowlist was
//! enabled when the list was assembled, the token configuration and the two
//! allowlist records follow: at 8, 9 and 10 in a list of eleven or more, at
//! 7, 8 and 9 in a list of ten.

use crate::address::{
    derive_record_address, opt_address_view, program_address, record_seeds,
    spec_stablecoin_program_id, Address, RecordKind,
};
use crate::bytes::starts_with_tag;
use crate::codec::{decode_config_spec, decode_entry_spec, encode_entry_spec, record_tag};
use crate::errors::{Party, TransferHookError};
use crate::state::{AllowlistEntry, BlacklistEntry, EntryView, StablecoinConfig};
use spl_transfer_hook_interface::instruction::TransferHookInstruction;
use vstd::bytes::spec_u64_from_le_bytes;
use vstd::prelude::*;

verus! {

/// An account handed to the hook: its address and its data. The data is
/// empty where the record at that address was never created.
#[derive(Clone, Debug)]
pub struct AccountRef {
    pub key: Address,
    pub data: Vec<u8>,
}

/// What an account handed to the hook holds.
pub struct AccountView {
    pub key: Seq<u8>,
    pub data: Seq<u8>,
}

impl View for AccountRef {
    type V = AccountView;

    open spec fn view(&self) -> AccountView {
        AccountView { key: self.key@, data: self.data@ }
    }
}

pub open spec fn account_views(accounts: Seq<AccountRef>) -> Seq<AccountView> {
    accounts.map_values(|a: AccountRef| a@)
}

/// Fewest accounts the calling convention allows.
pub const MIN_ACCOUNTS: usize = 8;

/// Position of the initiating authority.
pub const AUTHORITY_SLOT: usize = 3;

/// Position of the source's blacklist record.
pub const SOURCE_BLACKLIST_SLOT: usize = 6;

/// Position of the destination's blacklist record.
pub const DESTINATION_BLACKLIST_SLOT: usize = 7;

/// Positions of the token configuration and of the two allowlist records.
#[derive(Clone, Copy, Debug, PartialEq, Eq, Structural)]
pub struct AllowlistSlots {
    pub config: usize,
    pub source: usize,
    pub destination: usize,
}

/// Where the allowlist records stand in a list of `len` accounts, or `None`
/// where the list was assembled without them.
pub open spec fn allowlist_slots_spec(len: int) -> Option<AllowlistSlots> {
    if len >= 11 {
        Some(AllowlistSlots { config: 8, source: 9, destination: 10 })
    } else if len == 10 {
        Some(AllowlistSlots { config: 7, source: 8, destination: 9 })
    } else {
        None
    }
}

pub fn allowlist_slots(len: usize) -> (r: Option<AllowlistSlots>)
    ensures
        r == allowlist_slots_spec(len as int),
{
    if len >= 11 {
        Some(AllowlistSlots { config: 8, source: 9, destination: 10 })
    } else if len == 10 {
        Some(AllowlistSlots { config: 7, source: 8, destination: 9 })
    } else {
        None
    }
}

/// Whether a slot holds a blacklist record whose flag is set. An empty slot,
/// or one that holds no blacklist record (too short, or another record's
/// tag), does not: blacklist records are created lazily, so none is ever
/// required. This is also what lets a list of ten be accepted, since its
/// slot 7 holds the token configuration rather than a blacklist record.
pub open spec fn blacklist_set(data: Seq<u8>) -> bool {
    data.len() > 0 && match decode_entry_spec(RecordKind::Blacklist, data) {
        Ok(v) => v.flag,
        Err(_) => false,
    }
}

/// Whether a slot holds an allowlist record whose flag is set.
pub open spec fn allow_flag(data: Seq<u8>) -> bool {
    data.len() > 0 && match decode_entry_spec(RecordKind::Allowlist, data) {
        Ok(v) => v.flag,
        Err(_) => false,
    }
}

/// The allowlist check of one party: an empty slot or a clear flag rejects,
/// a slot that holds no allowlist record is malformed input.
pub open spec fn allowlist_check(data: Seq<u8>, party: Party) -> Result<(), TransferHookError> {
    if data.len() == 0 {
        Err(TransferHookError::NotOnAllowlist(party))
    } else {
        match decode_entry_spec(RecordKind::Allowlist, data) {
            Ok(v) => if v.flag {
                Ok(())
            } else {
                Err(TransferHookError::NotOnAllowlist(party))
            },
            Err(_) => Err(TransferHookError::InvalidAccountData),
        }
    }
}

/// Whether the list's token configuration leaves the allowlist unenforced:
/// the list has no allowlist slots, the configuration slot is empty, or the
/// configuration has the allowlist disabled.
pub open spec fn allowlist_off(accounts: Seq<AccountView>) -> bool {
    match allowlist_slots_spec(accounts.len() as int) {
        None => true,
        Some(slots) => {
            let cd = accounts[slots.config as int].data;
            cd.len() == 0 || match decode_config_spec(cd) {
                Ok(cfg) => !cfg.enable_allowlist,
                Err(_) => false,
            }
        },
    }
}

/// The allowlist step of the hook.
pub open spec fn allowlist_verdict(accounts: Seq<AccountView>) -> Result<(), TransferHookError> {
    match allowlist_slots_spec(accounts.len() as int) {
        None => Ok(()),
        Some(slots) => {
            let cd = accounts[slots.config as int].data;
            if cd.len() == 0 {
                Ok(())
            } else {
                match decode_config_spec(cd) {
                    Err(_) => Err(TransferHookError::InvalidAccountData),
                    Ok(cfg) => if !cfg.enable_allowlist {
                        Ok(())
                    } else {
                        match allowlist_check(accounts[slots.source as int].data, Party::Source) {
                            Err(e) => Err(e),
                            Ok(_) => allowlist_check(
                                accounts[slots.destination as int].data,
                                Party::Destination,
                            ),
                        }
                    },
                }
            }
        },
    }
}

/// The hook's decision on a list of accounts, given the token's
/// administrator-control address (`None` where none can be derived).
pub open spec fn transfer_verdict(accounts: Seq<AccountView>, admin_control: Option<Seq<u8>>) -> Result<
    (),
    TransferHookError,
> {
    if accounts.len() < MIN_ACCOUNTS {
        Err(TransferHookError::NotEnoughAccountKeys)
    } else if admin_control == Some(accounts[AUTHORITY_SLOT as int].key) {
        Ok(())
    } else if blacklist_set(accounts[SOURCE_BLACKLIST_SLOT as int].data) {
        Err(TransferHookError::Blacklisted(Party::Source))
    } else if blacklist_set(accounts[DESTINATION_BLACKLIST_SLOT as int].data) {
        Err(TransferHookError::Blacklisted(Party::Destination))
    } else {
        allowlist_verdict(accounts)
    }
}

/// The administrator-control address of a token: the address of its
/// configuration record.
pub open spec fn admin_control_address(mint: Seq<u8>) -> Option<Seq<u8>> {
    program_address(record_seeds(RecordKind::Config, mint, None), spec_stablecoin_program_id())
}

fn blacklist_slot_set(data: &Vec<u8>) -> (r: bool)
    ensures
        r == blacklist_set(data@),
{
    if data.len() == 0 {
        return false;
    }
    match BlacklistEntry::decode(data.as_slice()) {
        Ok(e) => e.is_blacklisted,
        Err(_) => false,
    }
}

fn check_allowlisted(data: &Vec<u8>, party: Party) -> (r: Result<(), TransferHookError>)
    ensures
        r == allowlist_check(data@, party),
{
    if data.len() == 0 {
        return Err(TransferHookError::NotOnAllowlist(party));
    }
    match AllowlistEntry::decode(data.as_slice()) {
        Ok(e) => if e.is_allowed {
            Ok(())
        } else {
            Err(TransferHookError::NotOnAllowlist(party))
        },
        Err(_) => Err(TransferHookError::InvalidAccountData),
    }
}

/// Decides a transfer from its list of accounts and the token's
/// administrator-control address. Reads the accounts and changes nothing.
pub fn evaluate_transfer(accounts: &[AccountRef], admin_control: Option<Address>) -> (r: Result<
    (),
    TransferHookError,
>)
    ensures
        r == transfer_verdict(account_views(accounts@), opt_address_view(admin_control)),
{
    let ghost views = account_views(accounts@);
    if accounts.len() < MIN_ACCOUNTS {
        return Err(TransferHookError::NotEnoughAccountKeys);
    }
    match admin_control {
        Some(control) => {
            if control == accounts[AUTHORITY_SLOT].key {
                return Ok(());
            }
        },
        None => {},
    }
    if blacklist_slot_set(&accounts[SOURCE_BLACKLIST_SLOT].data) {
        return Err(TransferHookError::Blacklisted(Party::Source));
    }
    if blacklist_slot_set(&accounts[DESTINATION_BLACKLIST_SLOT].data) {
        return Err(TransferHookError::Blacklisted(Party::Destination));
    }
    match allowlist_slots(accounts.len()) {
        None => Ok(()),
        Some(slots) => {
            let config_data = &accounts[slots.config].data;
            if config_data.len() == 0 {
                return Ok(());
            }
            match StablecoinConfig::decode(config_data.as_slice()) {
                Err(_) => Err(TransferHookError::InvalidAccountData),
                Ok(config) => {
                    if !config.enable_allowlist {
                        return Ok(());
                    }
                    match check_allowlisted(&accounts[slots.source].data, Party::Source) {
                        Err(e) => Err(e),
                        Ok(_) => check_allowlisted(
                            &accounts[slots.destination].data,
                            Party::Destination,
                        ),
                    }
                },
            }
        },
    }
}

/// The hook as the transfer path invokes it: derives the token's
/// administrator-control address from the token at position 1 and decides.
pub fn handle_execute(accounts: &[AccountRef], _amount: u64) -> (r: Result<(), TransferHookError>)
    ensures
        accounts@.len() < MIN_ACCOUNTS ==> r == Err::<(), TransferHookError>(
            TransferHookError::NotEnoughAccountKeys,
        ),
        accounts@.len() >= MIN_ACCOUNTS ==> r == transfer_verdict(
            account_views(accounts@),
            admin_control_address(accounts@[1].key@),
        ),
{
    if accounts.len() < MIN_ACCOUNTS {
        return Err(TransferHookError::NotEnoughAccountKeys);
    }
    let control = derive_record_address(RecordKind::Config, &accounts[1].key, None);
    evaluate_transfer(accounts, control)
}

/// The discriminator of the transfer-hook execute instruction: the first
/// eight bytes of the SHA-256 digest of "spl-transfer-hook-interface:execute".
pub open spec fn execute_tag() -> Seq<u8> {
    seq![105u8, 37, 101, 197, 75, 251, 102, 26]
}

/// The amount of an execute instruction, or `None` where the data is not one.
pub open spec fn execute_amount(data: Seq<u8>) -> Option<u64> {
    if data.len() >= 16 && data.subrange(0, 8) == execute_tag() {
        Some(spec_u64_from_le_bytes(data.subrange(8, 16)))
    } else {
        None
    }
}

/// Whether the data starts with the execute discriminator.
pub open spec fn has_execute_tag(data: Seq<u8>) -> bool {
    data.len() >= 8 && data.subrange(0, 8) == execute_tag()
}

fn starts_with_execute_tag(data: &[u8]) -> (r: bool)
    ensures
        r == has_execute_tag(data@),
{
    if data.len() < 8 {
        return false;
    }
    let tag: [u8; 8] = [105u8, 37, 101, 197, 75, 251, 102, 26];
    proof {
        assert(tag@ =~= execute_tag());
    }
    starts_with_tag(data, &tag)
}

/// Relies on `TransferHookInstruction::unpack` (spl-transfer-hook-interface):
/// on data that starts with the execute discriminator it gives
/// `Execute { amount }` where eight more bytes follow, the little-endian
/// amount, and an error otherwise. Data with another discriminator is left
/// out: for the metadata instructions `unpack` reads a length that it does
/// not hold against the data, and may panic.
#[verifier::external_body]
fn unpack_execute(data: &[u8]) -> (r: Option<u64>)
    requires
        has_execute_tag(data@),
    ensures
        r == execute_amount(data@),
{
    match TransferHookInstruction::unpack(data) {
        Ok(TransferHookInstruction::Execute { amount }) => Some(amount),
        Ok(TransferHookInstruction::InitializeExtraAccountMetaList { .. }) => None,
        Ok(TransferHookInstruction::UpdateExtraAccountMetaList { .. }) => None,
        Err(_) => None,
    }
}

/// The hook program's entry for instructions: an execute instruction runs
/// the hook, anything else is refused.
pub fn fallback(accounts: &[AccountRef], ix_data: &[u8]) -> (r: Result<(), TransferHookError>)
    ensures
        execute_amount(ix_data@) is None ==> r == Err::<(), TransferHookError>(
            TransferHookError::InvalidInstructionData,
        ),
        execute_amount(ix_data@) is Some && accounts@.len() < MIN_ACCOUNTS ==> r == Err::<
            (),
            TransferHookError,
        >(TransferHookError::NotEnoughAccountKeys),
        execute_amount(ix_data@) is Some && accounts@.len() >= MIN_ACCOUNTS ==> r
            == transfer_verdict(account_views(accounts@), admin_control_address(accounts@[1].key@)),
{
    if !starts_with_execute_tag(ix_data) {
        return Err(TransferHookError::InvalidInstructionData);
    }
    match unpack_execute(ix_data) {
        Some(amount) => handle_execute(accounts, amount),
        None => Err(TransferHookError::InvalidInstructionData),
    }
}

/// The blacklist slot that the hook reads for a party.
pub open spec fn blacklist_slot(party: Party) -> int {
    match party {
        Party::Source => SOURCE_BLACKLIST_SLOT as int,
        Party::Destination => DESTINATION_BLACKLIST_SLOT as int,
    }
}

/// The list with the account at `i` holding `data` instead.
pub open spec fn with_data(accounts: Seq<AccountView>, i: int, data: Seq<u8>) -> Seq<AccountView> {
    accounts.update(i, AccountView { key: accounts[i].key, data })
}

/// Blacklist symmetry: with the party's blacklist record marked, the
/// transfer is rejected as blacklisted (unless the initiating authority is
/// the administrator-control address); with it unmarked, the outcome is the
/// one of a list in which the record does not exist. The second half leaves
/// out a destination record in a list of ten, whose slot is also the slot of
/// the token configuration.
pub proof fn lemma_blacklist_symmetry(
    accounts: Seq<AccountView>,
    admin_control: Option<Seq<u8>>,
    party: Party,
    entry: BlacklistEntry,
)
    requires
        accounts.len() >= MIN_ACCOUNTS,
        admin_control != Some(accounts[AUTHORITY_SLOT as int].key),
    ensures
        ({
            let i = blacklist_slot(party);
            let marked = with_data(
                accounts,
                i,
                encode_entry_spec(RecordKind::Blacklist, EntryView { flag: true, ..entry@ }),
            );
            transfer_verdict(marked, admin_control) is Err && (transfer_verdict(
                marked,
                admin_control,
            )->Err_0 is Blacklisted)
        }),
        party == Party::Source ==> transfer_verdict(
            with_data(
                accounts,
                blacklist_slot(party),
                encode_entry_spec(RecordKind::Blacklist, EntryView { flag: true, ..entry@ }),
            ),
            admin_control,
        ) == Err::<(), TransferHookError>(TransferHookError::Blacklisted(Party::Source)),
        (party == Party::Source || accounts.len() != 10) ==> transfer_verdict(
            with_data(
                accounts,
                blacklist_slot(party),
                encode_entry_spec(RecordKind::Blacklist, EntryView { flag: false, ..entry@ }),
            ),
            admin_control,
        ) == transfer_verdict(with_data(accounts, blacklist_slot(party), Seq::empty()), admin_control),
{
    let i = blacklist_slot(party);
    let on = encode_entry_spec(RecordKind::Blacklist, EntryView { flag: true, ..entry@ });
    let off = encode_entry_spec(RecordKind::Blacklist, EntryView { flag: false, ..entry@ });
    assert(on.subrange(0, 8) =~= record_tag(RecordKind::Blacklist));
    assert(off.subrange(0, 8) =~= record_tag(RecordKind::Blacklist));
    assert(on[41] == 1u8);
    assert(off[41] == 0u8);
    assert(blacklist_set(on));
    assert(!blacklist_set(off));
    assert(!blacklist_set(Seq::<u8>::empty()));
    let unmarked = with_data(accounts, i, off);
    let absent = with_data(accounts, i, Seq::empty());
    if party == Party::Source || accounts.len() != 10 {
        if decode_config_spec(off) is Ok {
            assert(off.subrange(0, 8) != record_tag(RecordKind::Config)) by {
                assert(off.subrange(0, 8)[0] != record_tag(RecordKind::Config)[0]);
            }
        }
        assert(allowlist_slots_spec(unmarked.len() as int) == allowlist_slots_spec(
            absent.len() as int,
        ));
        match allowlist_slots_spec(accounts.len() as int) {
            None => {},
            Some(slots) => {
                assert(slots.config != i);
                assert(slots.source != i);
                assert(slots.destination != i);
                assert(unmarked[slots.config as int] == absent[slots.config as int]);
                assert(unmarked[slots.source as int] == absent[slots.source as int]);
                assert(unmarked[slots.destination as int] == absent[slots.destination as int]);
            },
        }
        assert(allowlist_verdict(unmarked) == allowlist_verdict(absent));
    }
}

/// Absence equals false: a list whose blacklist slots are empty and whose
/// configuration leaves the allowlist unenforced is accepted.
pub proof fn lemma_absent_records_accept(accounts: Seq<AccountView>, admin_control: Option<Seq<u8>>)
    requires
        accounts.len() >= MIN_ACCOUNTS,
        accounts[SOURCE_BLACKLIST_SLOT as int].data.len() == 0,
        accounts[DESTINATION_BLACKLIST_SLOT as int].data.len() == 0,
        allowlist_off(accounts),
    ensures
        transfer_verdict(accounts, admin_control) == Ok::<(), TransferHookError>(()),
{
}

/// Override supremacy: when the initiating authority is the token's
/// administrator-control address, the transfer is accepted whatever the
/// records hold.
pub proof fn lemma_override_supremacy(accounts: Seq<AccountView>)
    requires
        accounts.len() >= MIN_ACCOUNTS,
        admin_control_address(accounts[1].key) == Some(accounts[AUTHORITY_SLOT as int].key),
    ensures
        transfer_verdict(accounts, admin_control_address(accounts[1].key)) == Ok::<
            (),
            TransferHookError,
        >(()),
{
}

/// Allowlist gating: with the allowlist enforced by the configuration in the
/// list, no override and no blacklisted party, the transfer is accepted
/// exactly when both parties' allowlist records are present and set; a
/// missing or clear record rejects its party, and where each slot is empty or
/// a well-formed allowlist record, every rejection is `NotOnAllowlist`. With the allowlist disabled,
/// the two allowlist slots do not matter.
pub proof fn lemma_allowlist_gating(
    accounts: Seq<AccountView>,
    admin_control: Option<Seq<u8>>,
    source_record: Seq<u8>,
    destination_record: Seq<u8>,
)
    requires
        accounts.len() == 10 || accounts.len() == 11,
        admin_control != Some(accounts[AUTHORITY_SLOT as int].key),
        !blacklist_set(accounts[SOURCE_BLACKLIST_SLOT as int].data),
        !blacklist_set(accounts[DESTINATION_BLACKLIST_SLOT as int].data),
    ensures
        ({
            let slots = allowlist_slots_spec(accounts.len() as int)->Some_0;
            let config = decode_config_spec(accounts[slots.config as int].data);
            let s = accounts[slots.source as int].data;
            let d = accounts[slots.destination as int].data;
            let verdict = transfer_verdict(accounts, admin_control);
            config is Ok && config->Ok_0.enable_allowlist ==> {
                &&& (verdict == Ok::<(), TransferHookError>(()) <==> allow_flag(s) && allow_flag(d))
                &&& (s.len() == 0 || decode_entry_spec(RecordKind::Allowlist, s) is Ok) && (d.len()
                    == 0 || decode_entry_spec(RecordKind::Allowlist, d) is Ok) && !(allow_flag(s)
                    && allow_flag(d)) ==> verdict is Err && verdict->Err_0 is NotOnAllowlist
                &&& (s.len() == 0 || (decode_entry_spec(RecordKind::Allowlist, s) is Ok
                    && !decode_entry_spec(RecordKind::Allowlist, s)->Ok_0.flag)) ==> verdict
                    == Err::<(), TransferHookError>(TransferHookError::NotOnAllowlist(Party::Source))
                &&& allow_flag(s) && (d.len() == 0 || (decode_entry_spec(RecordKind::Allowlist, d) is Ok
                    && !decode_entry_spec(RecordKind::Allowlist, d)->Ok_0.flag)) ==> verdict
                    == Err::<(), TransferHookError>(
                    TransferHookError::NotOnAllowlist(Party::Destination),
                )
            }
        }),
        ({
            let slots = allowlist_slots_spec(accounts.len() as int)->Some_0;
            let config = decode_config_spec(accounts[slots.config as int].data);
            config is Ok && !config->Ok_0.enable_allowlist ==> transfer_verdict(
                with_data(
                    with_data(accounts, slots.source as int, source_record),
                    slots.destination as int,
                    destination_record,
                ),
                admin_control,
            ) == Ok::<(), TransferHookError>(())
        }),
{
    let slots = allowlist_slots_spec(accounts.len() as int)->Some_0;
    let changed = with_data(
        with_data(accounts, slots.source as int, source_record),
        slots.destination as int,
        destination_record,
    );
    assert(changed[slots.config as int] == accounts[slots.config as int]);
    assert(changed[SOURCE_BLACKLIST_SLOT as int] == accounts[SOURCE_BLACKLIST_SLOT as int]);
    assert(changed[DESTINATION_BLACKLIST_SLOT as int] == accounts[DESTINATION_BLACKLIST_SLOT as int]);
    assert(changed[AUTHORITY_SLOT as int] == accounts[AUTHORITY_SLOT as int]);
}

} // verus!
