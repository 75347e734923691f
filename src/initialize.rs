//! Provisioning of a governed token: its configuration and role records,
//! and the extensions its mint is created with.

use crate::address::Address;
use crate::bytes::copy_range;
use crate::errors::StablecoinError;
use crate::state::{RoleAccount, StablecoinConfig};
use vstd::prelude::*;
use vstd::string::StringSliceAdditionalSpecFns;
use vstd::utf8::{
    encode_utf8, encode_utf8_valid_utf8, is_char_boundary, is_char_boundary_start_end_of_seq,
};

verus! {

/// Most bytes kept of a token's name, symbol and uri.
pub const MAX_NAME_LEN: usize = 64;

pub const MAX_SYMBOL_LEN: usize = 16;

pub const MAX_URI_LEN: usize = 256;

/// The length of the longest prefix of `bytes` that ends on a character
/// boundary and has at most `max` bytes.
pub open spec fn truncation_point(bytes: Seq<u8>, max: int, end: int) -> bool {
    &&& 0 <= end <= max
    &&& end <= bytes.len()
    &&& is_char_boundary(bytes, end)
    &&& forall|k: int| end < k <= max ==> !is_char_boundary(bytes, k)
}

/// `s` cut to at most `max_bytes` bytes, at a character boundary: the
/// longest such prefix, or all of `s` where it fits.
pub fn truncate_to_bytes(s: &str, max_bytes: usize) -> (r: String)
    ensures
        s.spec_bytes().len() <= max_bytes ==> r@ == s@,
        exists|end: int|
            truncation_point(s.spec_bytes(), max_bytes as int, end) && encode_utf8(r@) == s.spec_bytes().subrange(
                0,
                end,
            ),
{
    broadcast use encode_utf8_valid_utf8, is_char_boundary_start_end_of_seq;

    let n = s.as_bytes().len();
    if n <= max_bytes {
        let r = s.to_owned();
        proof {
            let b = s.spec_bytes();
            assert(b.subrange(0, b.len() as int) =~= b);
            assert(is_char_boundary(b, b.len() as int));
            assert(vstd::utf8::valid_utf8(b));
            assert forall|k: int| b.len() < k <= max_bytes implies !is_char_boundary(b, k) by {
                reveal_with_fuel(is_char_boundary, 1);
            }
            assert(truncation_point(b, max_bytes as int, b.len() as int));
        }
        return r;
    }
    let mut end: usize = max_bytes;
    while end > 0 && !s.is_char_boundary(end)
        invariant
            end <= max_bytes < s.spec_bytes().len(),
            vstd::utf8::valid_utf8(s.spec_bytes()),
            forall|k: int| end < k <= max_bytes ==> !is_char_boundary(s.spec_bytes(), k),
        decreases end,
    {
        end = end - 1;
    }
    let (head, _) = s.split_at(end);
    let r = head.to_owned();
    proof {
        assert(truncation_point(s.spec_bytes(), max_bytes as int, end as int));
        assert(encode_utf8(r@) == head.spec_bytes());
    }
    r
}

/// The bytes of a string, as a vector.
fn str_bytes(s: &str) -> (r: Vec<u8>)
    ensures
        r@ == s.spec_bytes(),
{
    let b = s.as_bytes();
    copy_range(b, 0, b.len())
}

/// Extensions a governed token's mint may be created with.
#[derive(Clone, Copy, Debug, PartialEq, Eq, Structural)]
pub enum MintExtension {
    PermanentDelegate,
    TransferHook,
}

pub open spec fn mint_extensions_spec(permanent_delegate: bool, transfer_hook: bool) -> Seq<
    MintExtension,
> {
    let a = if permanent_delegate {
        seq![MintExtension::PermanentDelegate]
    } else {
        Seq::empty()
    };
    let b = if transfer_hook {
        seq![MintExtension::TransferHook]
    } else {
        Seq::empty()
    };
    a + b
}

/// The extensions of the mint, in the order they are initialized.
pub fn mint_extensions(permanent_delegate: bool, transfer_hook: bool) -> (r: Vec<MintExtension>)
    ensures
        r@ == mint_extensions_spec(permanent_delegate, transfer_hook),
{
    let mut r: Vec<MintExtension> = Vec::new();
    if permanent_delegate {
        r.push(MintExtension::PermanentDelegate);
    }
    if transfer_hook {
        r.push(MintExtension::TransferHook);
    }
    proof {
        assert(r@ =~= mint_extensions_spec(permanent_delegate, transfer_hook));
    }
    r
}

/// What provisioning writes: the mint's extensions, the configuration and
/// the roles, all held by the administrator at first.
pub struct InitializePlan {
    pub extensions: Vec<MintExtension>,
    pub config: StablecoinConfig,
    pub roles: RoleAccount,
}

/// Whether a string's bytes are the truncation of `s` to `max` bytes.
pub open spec fn truncated_from(bytes: Seq<u8>, s: Seq<u8>, max: int) -> bool {
    exists|end: int| truncation_point(s, max, end) && bytes == s.subrange(0, end)
}

/// Provisions a token. Where the mint is still to be created with the
/// transfer hook enabled, the hook program must be given.
pub fn handle_initialize(
    admin: Address,
    mint: Address,
    config_bump: u8,
    roles_bump: u8,
    name: &str,
    symbol: &str,
    uri: &str,
    decimals: u8,
    enable_permanent_delegate: bool,
    enable_transfer_hook: bool,
    default_account_frozen: bool,
    enable_confidential_transfers: bool,
    enable_allowlist: bool,
    transfer_hook_program_id: Option<Address>,
    mint_exists: bool,
) -> (r: Result<InitializePlan, StablecoinError>)
    ensures
        (!mint_exists && enable_transfer_hook && transfer_hook_program_id is None) ==> r
            is Err && r->Err_0 == StablecoinError::ComplianceNotEnabled,
        (mint_exists || !enable_transfer_hook || transfer_hook_program_id is Some) ==> r is Ok,
        r matches Ok(plan) ==> {
            &&& plan.extensions@ == mint_extensions_spec(
                enable_permanent_delegate,
                enable_transfer_hook,
            )
            &&& plan.config.bump == config_bump
            &&& plan.config.master_authority == admin
            &&& plan.config.mint == mint
            &&& truncated_from(plan.config.name@, name.spec_bytes(), MAX_NAME_LEN as int)
            &&& truncated_from(plan.config.symbol@, symbol.spec_bytes(), MAX_SYMBOL_LEN as int)
            &&& truncated_from(plan.config.uri@, uri.spec_bytes(), MAX_URI_LEN as int)
            &&& plan.config.decimals == decimals
            &&& !plan.config.is_paused
            &&& plan.config.enable_permanent_delegate == enable_permanent_delegate
            &&& plan.config.enable_transfer_hook == enable_transfer_hook
            &&& plan.config.default_account_frozen == default_account_frozen
            &&& plan.config.enable_confidential_transfers == enable_confidential_transfers
            &&& plan.config.enable_allowlist == enable_allowlist
            &&& plan.roles == (RoleAccount {
                bump: roles_bump,
                burner: admin,
                pauser: admin,
                blacklister: admin,
                seizer: admin,
            })
        },
{
    if !mint_exists && enable_transfer_hook && transfer_hook_program_id.is_none() {
        return Err(StablecoinError::ComplianceNotEnabled);
    }
    let name_t = truncate_to_bytes(name, MAX_NAME_LEN);
    let symbol_t = truncate_to_bytes(symbol, MAX_SYMBOL_LEN);
    let uri_t = truncate_to_bytes(uri, MAX_URI_LEN);
    let config = StablecoinConfig {
        bump: config_bump,
        master_authority: admin,
        mint,
        name: str_bytes(name_t.as_str()),
        symbol: str_bytes(symbol_t.as_str()),
        uri: str_bytes(uri_t.as_str()),
        decimals,
        is_paused: false,
        enable_permanent_delegate,
        enable_transfer_hook,
        default_account_frozen,
        enable_confidential_transfers,
        enable_allowlist,
    };
    let roles = RoleAccount {
        bump: roles_bump,
        burner: admin,
        pauser: admin,
        blacklister: admin,
        seizer: admin,
    };
    Ok(
        InitializePlan {
            extensions: mint_extensions(enable_permanent_delegate, enable_transfer_hook),
            config,
            roles,
        },
    )
}

} // verus!
