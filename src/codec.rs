//! The binary layout of the registry records. Each record starts with an
//! eight-byte tag of its kind, then a one-byte bump seed, then its fields in
//! order: addresses as 32 bytes, flags as one byte (zero is false, anything
//! else is true), integers little-endian, byte strings as a little-endian
//! `u32` length followed by the bytes.

use crate::address::{Address, RecordKind};
use crate::bytes::{append_bytes, copy_range, read_address, starts_with_tag};
use crate::errors::DecodeError;
use crate::state::{
    AllowlistEntry, BlacklistEntry, ConfigView, EntryView, MinterConfig, MinterView,
    StablecoinConfig,
};
use vstd::bytes::{
    lemma_auto_spec_u32_to_from_le_bytes, lemma_auto_spec_u64_to_from_le_bytes,
    spec_u32_from_le_bytes, spec_u32_to_le_bytes, spec_u64_from_le_bytes, spec_u64_to_le_bytes,
    u32_from_le_bytes, u32_to_le_bytes, u64_from_le_bytes, u64_to_le_bytes,
};
use vstd::prelude::*;

verus! {

/// Length of the tag that starts every record.
pub const TAG_LEN: usize = 8;

/// Length of a blacklist or allowlist record.
pub const ENTRY_LEN: usize = 42;

/// Offset of the flag in a blacklist or allowlist record: past the tag, the
/// bump and the subject.
pub const ENTRY_FLAG_OFFSET: usize = 41;

/// Length of a token configuration with empty name, symbol and uri.
pub const CONFIG_MIN_LEN: usize = 92;

/// Length of an issuer's quota record.
pub const MINTER_LEN: usize = 74;

/// The tag of each record kind: the first eight bytes of the SHA-256 digest
/// of "account:" followed by the record's type name.
pub open spec fn record_tag(kind: RecordKind) -> Seq<u8> {
    match kind {
        RecordKind::Blacklist => seq![218u8, 179, 231, 40, 141, 25, 168, 189],
        RecordKind::Allowlist => seq![42u8, 59, 88, 1, 124, 138, 92, 236],
        RecordKind::Config => seq![127u8, 25, 244, 213, 1, 192, 101, 6],
        RecordKind::Minter => seq![78u8, 211, 23, 6, 233, 19, 19, 236],
        RecordKind::Roles => seq![142u8, 236, 135, 197, 214, 3, 244, 226],
    }
}

fn tag_bytes(kind: RecordKind) -> (r: [u8; 8])
    ensures
        r@ == record_tag(kind),
{
    let r: [u8; 8] = match kind {
        RecordKind::Blacklist => [218u8, 179, 231, 40, 141, 25, 168, 189],
        RecordKind::Allowlist => [42u8, 59, 88, 1, 124, 138, 92, 236],
        RecordKind::Config => [127u8, 25, 244, 213, 1, 192, 101, 6],
        RecordKind::Minter => [78u8, 211, 23, 6, 233, 19, 19, 236],
        RecordKind::Roles => [142u8, 236, 135, 197, 214, 3, 244, 226],
    };
    proof {
        assert(r@ =~= record_tag(kind));
    }
    r
}

pub open spec fn flag_byte(b: bool) -> u8 {
    if b {
        1
    } else {
        0
    }
}

/// The bytes of a blacklist (or allowlist) record.
pub open spec fn encode_entry_spec(kind: RecordKind, v: EntryView) -> Seq<u8> {
    record_tag(kind) + seq![v.bump] + v.subject + seq![flag_byte(v.flag)]
}

/// What a buffer decodes to as a blacklist (or allowlist) record. Bytes past
/// the record are ignored.
pub open spec fn decode_entry_spec(kind: RecordKind, s: Seq<u8>) -> Result<EntryView, DecodeError> {
    if s.len() < ENTRY_LEN {
        Err(DecodeError::Truncated)
    } else if s.subrange(0, 8) != record_tag(kind) {
        Err(DecodeError::TagMismatch)
    } else {
        Ok(EntryView { bump: s[8], subject: s.subrange(9, 41), flag: s[41] != 0 })
    }
}

fn encode_entry(kind: RecordKind, bump: u8, subject: &Address, flag: bool) -> (r: Vec<u8>)
    ensures
        r@ == encode_entry_spec(kind, EntryView { bump, subject: subject@, flag }),
{
    let mut out: Vec<u8> = Vec::new();
    let tag = tag_bytes(kind);
    append_bytes(&mut out, tag.as_slice());
    out.push(bump);
    append_bytes(&mut out, subject.bytes.as_slice());
    out.push(flag_to_byte(flag));
    proof {
        assert(out@ =~= encode_entry_spec(kind, EntryView { bump, subject: subject@, flag }));
    }
    out
}

fn decode_entry(kind: RecordKind, data: &[u8]) -> (r: Result<(u8, Address, bool), DecodeError>)
    ensures
        match r {
            Ok((bump, subject, flag)) => decode_entry_spec(kind, data@) == Ok::<
                EntryView,
                DecodeError,
            >(EntryView { bump, subject: subject@, flag }),
            Err(e) => decode_entry_spec(kind, data@) == Err::<EntryView, DecodeError>(e),
        },
{
    if data.len() < ENTRY_LEN {
        return Err(DecodeError::Truncated);
    }
    let tag = tag_bytes(kind);
    if !starts_with_tag(data, &tag) {
        return Err(DecodeError::TagMismatch);
    }
    let subject = read_address(data, 9);
    Ok((data[8], subject, data[ENTRY_FLAG_OFFSET] != 0))
}

impl BlacklistEntry {
    /// The record's bytes.
    pub fn encode(&self) -> (r: Vec<u8>)
        ensures
            r@ == encode_entry_spec(RecordKind::Blacklist, self@),
    {
        encode_entry(RecordKind::Blacklist, self.bump, &self.account, self.is_blacklisted)
    }

    /// Reads a blacklist record from the start of `data`.
    pub fn decode(data: &[u8]) -> (r: Result<BlacklistEntry, DecodeError>)
        ensures
            match r {
                Ok(e) => decode_entry_spec(RecordKind::Blacklist, data@) == Ok::<
                    EntryView,
                    DecodeError,
                >(e@),
                Err(x) => decode_entry_spec(RecordKind::Blacklist, data@) == Err::<
                    EntryView,
                    DecodeError,
                >(x),
            },
            data@.len() < ENTRY_LEN ==> r == Err::<BlacklistEntry, DecodeError>(
                DecodeError::Truncated,
            ),
    {
        match decode_entry(RecordKind::Blacklist, data) {
            Ok((bump, account, is_blacklisted)) => Ok(
                BlacklistEntry { bump, account, is_blacklisted },
            ),
            Err(e) => Err(e),
        }
    }
}

impl AllowlistEntry {
    /// The record's bytes.
    pub fn encode(&self) -> (r: Vec<u8>)
        ensures
            r@ == encode_entry_spec(RecordKind::Allowlist, self@),
    {
        encode_entry(RecordKind::Allowlist, self.bump, &self.wallet, self.is_allowed)
    }

    /// Reads an allowlist record from the start of `data`.
    pub fn decode(data: &[u8]) -> (r: Result<AllowlistEntry, DecodeError>)
        ensures
            match r {
                Ok(e) => decode_entry_spec(RecordKind::Allowlist, data@) == Ok::<
                    EntryView,
                    DecodeError,
                >(e@),
                Err(x) => decode_entry_spec(RecordKind::Allowlist, data@) == Err::<
                    EntryView,
                    DecodeError,
                >(x),
            },
            data@.len() < ENTRY_LEN ==> r == Err::<AllowlistEntry, DecodeError>(
                DecodeError::Truncated,
            ),
    {
        match decode_entry(RecordKind::Allowlist, data) {
            Ok((bump, wallet, is_allowed)) => Ok(AllowlistEntry { bump, wallet, is_allowed }),
            Err(e) => Err(e),
        }
    }
}

/// A byte string preceded by its length as a little-endian `u32`.
pub open spec fn len_prefixed(b: Seq<u8>) -> Seq<u8> {
    spec_u32_to_le_bytes(b.len() as u32) + b
}

/// The little-endian `u32` at `at`, as an integer.
pub open spec fn u32_at(s: Seq<u8>, at: int) -> int {
    spec_u32_from_le_bytes(s.subrange(at, at + 4)) as int
}

/// The fixed fields at the start of a token configuration.
pub open spec fn config_head(c: ConfigView) -> Seq<u8> {
    record_tag(RecordKind::Config) + seq![c.bump] + c.master_authority + c.mint
}

/// The bytes of a token configuration.
pub open spec fn encode_config_spec(c: ConfigView) -> Seq<u8> {
    config_head(c) + len_prefixed(c.name) + len_prefixed(c.symbol) + len_prefixed(c.uri)
        + config_tail(c)
}

/// The fixed fields at the end of a token configuration.
pub open spec fn config_tail(c: ConfigView) -> Seq<u8> {
    seq![
        c.decimals,
        flag_byte(c.is_paused),
        flag_byte(c.enable_permanent_delegate),
        flag_byte(c.enable_transfer_hook),
        flag_byte(c.default_account_frozen),
        flag_byte(c.enable_confidential_transfers),
        flag_byte(c.enable_allowlist),
    ]
}

/// What a buffer decodes to as a token configuration. Bytes past the record
/// are ignored.
pub open spec fn decode_config_spec(s: Seq<u8>) -> Result<ConfigView, DecodeError> {
    if s.len() < CONFIG_MIN_LEN {
        Err(DecodeError::Truncated)
    } else if s.subrange(0, 8) != record_tag(RecordKind::Config) {
        Err(DecodeError::TagMismatch)
    } else {
        let p1 = 77 + u32_at(s, 73);
        if p1 + 4 > s.len() {
            Err(DecodeError::Truncated)
        } else {
            let p2 = p1 + 4 + u32_at(s, p1);
            if p2 + 4 > s.len() {
                Err(DecodeError::Truncated)
            } else {
                let p3 = p2 + 4 + u32_at(s, p2);
                if p3 + 7 > s.len() {
                    Err(DecodeError::Truncated)
                } else {
                    Ok(
                        ConfigView {
                            bump: s[8],
                            master_authority: s.subrange(9, 41),
                            mint: s.subrange(41, 73),
                            name: s.subrange(77, p1),
                            symbol: s.subrange(p1 + 4, p2),
                            uri: s.subrange(p2 + 4, p3),
                            decimals: s[p3],
                            is_paused: s[p3 + 1] != 0,
                            enable_permanent_delegate: s[p3 + 2] != 0,
                            enable_transfer_hook: s[p3 + 3] != 0,
                            default_account_frozen: s[p3 + 4] != 0,
                            enable_confidential_transfers: s[p3 + 5] != 0,
                            enable_allowlist: s[p3 + 6] != 0,
                        },
                    )
                }
            }
        }
    }
}

fn append_len_prefixed(out: &mut Vec<u8>, b: &Vec<u8>)
    requires
        b@.len() <= u32::MAX,
    ensures
        final(out)@ == old(out)@ + len_prefixed(b@),
{
    let prefix = u32_to_le_bytes(b.len() as u32);
    append_bytes(out, prefix.as_slice());
    append_bytes(out, b.as_slice());
    proof {
        assert(final(out)@ =~= old(out)@ + len_prefixed(b@));
    }
}

fn flag_to_byte(b: bool) -> (r: u8)
    ensures
        r == flag_byte(b),
{
    if b {
        1
    } else {
        0
    }
}

fn append_config_tail(out: &mut Vec<u8>, c: &StablecoinConfig)
    ensures
        final(out)@ == old(out)@ + config_tail(c@),
{
    out.push(c.decimals);
    out.push(flag_to_byte(c.is_paused));
    out.push(flag_to_byte(c.enable_permanent_delegate));
    out.push(flag_to_byte(c.enable_transfer_hook));
    out.push(flag_to_byte(c.default_account_frozen));
    out.push(flag_to_byte(c.enable_confidential_transfers));
    out.push(flag_to_byte(c.enable_allowlist));
    proof {
        assert(final(out)@ =~= old(out)@ + config_tail(c@));
    }
}

impl StablecoinConfig {
    /// The record's bytes.
    pub fn encode(&self) -> (r: Vec<u8>)
        requires
            self.name@.len() <= u32::MAX,
            self.symbol@.len() <= u32::MAX,
            self.uri@.len() <= u32::MAX,
        ensures
            r@ == encode_config_spec(self@),
    {
        let mut out: Vec<u8> = Vec::new();
        let tag = tag_bytes(RecordKind::Config);
        append_bytes(&mut out, tag.as_slice());
        out.push(self.bump);
        append_bytes(&mut out, self.master_authority.bytes.as_slice());
        append_bytes(&mut out, self.mint.bytes.as_slice());
        let ghost head = out@;
        proof {
            assert(head =~= config_head(self@));
        }
        append_len_prefixed(&mut out, &self.name);
        let ghost s1 = out@;
        append_len_prefixed(&mut out, &self.symbol);
        let ghost s2 = out@;
        append_len_prefixed(&mut out, &self.uri);
        let ghost s3 = out@;
        assert(s3 == head + len_prefixed(self.name@) + len_prefixed(self.symbol@) + len_prefixed(
            self.uri@,
        ));
        append_config_tail(&mut out, self);
        out
    }

    /// Reads a token configuration from the start of `data`.
    pub fn decode(data: &[u8]) -> (r: Result<StablecoinConfig, DecodeError>)
        ensures
            match r {
                Ok(c) => decode_config_spec(data@) == Ok::<ConfigView, DecodeError>(c@),
                Err(x) => decode_config_spec(data@) == Err::<ConfigView, DecodeError>(x),
            },
            data@.len() < CONFIG_MIN_LEN ==> r == Err::<StablecoinConfig, DecodeError>(
                DecodeError::Truncated,
            ),
    {
        let len = data.len();
        if len < CONFIG_MIN_LEN {
            return Err(DecodeError::Truncated);
        }
        let tag = tag_bytes(RecordKind::Config);
        if !starts_with_tag(data, &tag) {
            return Err(DecodeError::TagMismatch);
        }
        let n1 = u32_from_le_bytes(&data[73..77]) as usize;
        if n1 > len - 81 {
            return Err(DecodeError::Truncated);
        }
        let p1 = 77 + n1;
        let n2 = u32_from_le_bytes(&data[p1..p1 + 4]) as usize;
        if len - p1 < 8 || n2 > len - p1 - 8 {
            return Err(DecodeError::Truncated);
        }
        let p2 = p1 + 4 + n2;
        let n3 = u32_from_le_bytes(&data[p2..p2 + 4]) as usize;
        if len - p2 < 11 || n3 > len - p2 - 11 {
            return Err(DecodeError::Truncated);
        }
        let p3 = p2 + 4 + n3;
        let c = StablecoinConfig {
            bump: data[8],
            master_authority: read_address(data, 9),
            mint: read_address(data, 41),
            name: copy_range(data, 77, p1),
            symbol: copy_range(data, p1 + 4, p2),
            uri: copy_range(data, p2 + 4, p3),
            decimals: data[p3],
            is_paused: data[p3 + 1] != 0,
            enable_permanent_delegate: data[p3 + 2] != 0,
            enable_transfer_hook: data[p3 + 3] != 0,
            default_account_frozen: data[p3 + 4] != 0,
            enable_confidential_transfers: data[p3 + 5] != 0,
            enable_allowlist: data[p3 + 6] != 0,
        };
        Ok(c)
    }
}

/// The bytes of an issuer's quota record.
pub open spec fn encode_minter_spec(m: MinterView) -> Seq<u8> {
    record_tag(RecordKind::Minter) + seq![m.bump] + m.minter + seq![flag_byte(m.is_active)]
        + spec_u64_to_le_bytes(m.daily_minted) + spec_u64_to_le_bytes(m.total_minted)
        + spec_u64_to_le_bytes(m.daily_mint_quota) + spec_u64_to_le_bytes(
        #[verifier::truncate] (m.last_mint_timestamp as u64),
    )
}

/// The little-endian `u64` at `at`.
pub open spec fn u64_at(s: Seq<u8>, at: int) -> u64 {
    spec_u64_from_le_bytes(s.subrange(at, at + 8))
}

/// What a buffer decodes to as an issuer's quota record. Bytes past the
/// record are ignored.
pub open spec fn decode_minter_spec(s: Seq<u8>) -> Result<MinterView, DecodeError> {
    if s.len() < MINTER_LEN {
        Err(DecodeError::Truncated)
    } else if s.subrange(0, 8) != record_tag(RecordKind::Minter) {
        Err(DecodeError::TagMismatch)
    } else {
        Ok(
            MinterView {
                bump: s[8],
                minter: s.subrange(9, 41),
                is_active: s[41] != 0,
                daily_minted: u64_at(s, 42),
                total_minted: u64_at(s, 50),
                daily_mint_quota: u64_at(s, 58),
                last_mint_timestamp: #[verifier::truncate] (u64_at(s, 66) as i64),
            },
        )
    }
}

impl MinterConfig {
    /// The record's bytes.
    pub fn encode(&self) -> (r: Vec<u8>)
        ensures
            r@ == encode_minter_spec(self@),
    {
        let mut out: Vec<u8> = Vec::new();
        let tag = tag_bytes(RecordKind::Minter);
        append_bytes(&mut out, tag.as_slice());
        out.push(self.bump);
        append_bytes(&mut out, self.minter.bytes.as_slice());
        out.push(flag_to_byte(self.is_active));
        let daily = u64_to_le_bytes(self.daily_minted);
        append_bytes(&mut out, daily.as_slice());
        let total = u64_to_le_bytes(self.total_minted);
        append_bytes(&mut out, total.as_slice());
        let quota = u64_to_le_bytes(self.daily_mint_quota);
        append_bytes(&mut out, quota.as_slice());
        let stamp = u64_to_le_bytes(self.last_mint_timestamp as u64);
        append_bytes(&mut out, stamp.as_slice());
        proof {
            assert(out@ =~= encode_minter_spec(self@));
        }
        out
    }

    /// Reads an issuer's quota record from the start of `data`.
    pub fn decode(data: &[u8]) -> (r: Result<MinterConfig, DecodeError>)
        ensures
            match r {
                Ok(m) => decode_minter_spec(data@) == Ok::<MinterView, DecodeError>(m@),
                Err(x) => decode_minter_spec(data@) == Err::<MinterView, DecodeError>(x),
            },
            data@.len() < MINTER_LEN ==> r == Err::<MinterConfig, DecodeError>(
                DecodeError::Truncated,
            ),
    {
        if data.len() < MINTER_LEN {
            return Err(DecodeError::Truncated);
        }
        let tag = tag_bytes(RecordKind::Minter);
        if !starts_with_tag(data, &tag) {
            return Err(DecodeError::TagMismatch);
        }
        let m = MinterConfig {
            bump: data[8],
            minter: read_address(data, 9),
            is_active: data[41] != 0,
            daily_minted: u64_from_le_bytes(&data[42..50]),
            total_minted: u64_from_le_bytes(&data[50..58]),
            daily_mint_quota: u64_from_le_bytes(&data[58..66]),
            last_mint_timestamp: u64_from_le_bytes(&data[66..74]) as i64,
        };
        Ok(m)
    }
}

/// Decoding a blacklist record's bytes gives the record back.
pub proof fn lemma_blacklist_round_trip(e: BlacklistEntry)
    ensures
        decode_entry_spec(RecordKind::Blacklist, encode_entry_spec(RecordKind::Blacklist, e@))
            == Ok::<EntryView, DecodeError>(e@),
{
    lemma_entry_round_trip(RecordKind::Blacklist, e@);
}

/// Decoding an allowlist record's bytes gives the record back.
pub proof fn lemma_allowlist_round_trip(e: AllowlistEntry)
    ensures
        decode_entry_spec(RecordKind::Allowlist, encode_entry_spec(RecordKind::Allowlist, e@))
            == Ok::<EntryView, DecodeError>(e@),
{
    lemma_entry_round_trip(RecordKind::Allowlist, e@);
}

proof fn lemma_entry_round_trip(kind: RecordKind, v: EntryView)
    requires
        v.subject.len() == 32,
    ensures
        decode_entry_spec(kind, encode_entry_spec(kind, v)) == Ok::<EntryView, DecodeError>(v),
{
    let s = encode_entry_spec(kind, v);
    assert(s.subrange(0, 8) =~= record_tag(kind));
    assert(s.subrange(9, 41) =~= v.subject);
}

/// Decoding a token configuration's bytes gives the configuration back.
pub proof fn lemma_config_round_trip(c: StablecoinConfig)
    requires
        c.name@.len() <= u32::MAX,
        c.symbol@.len() <= u32::MAX,
        c.uri@.len() <= u32::MAX,
    ensures
        decode_config_spec(encode_config_spec(c@)) == Ok::<ConfigView, DecodeError>(c@),
{
    lemma_auto_spec_u32_to_from_le_bytes();
    let v = c@;
    let s = encode_config_spec(v);
    let n1: int = v.name.len() as int;
    let n2: int = v.symbol.len() as int;
    let n3: int = v.uri.len() as int;
    let p1 = 77 + n1;
    let p2 = p1 + 4 + n2;
    let p3 = p2 + 4 + n3;
    assert(s.len() == p3 + 7);
    assert(s.subrange(0, 8) =~= record_tag(RecordKind::Config));
    assert(s.subrange(73, 77) =~= spec_u32_to_le_bytes(n1 as u32));
    assert(s.subrange(p1, p1 + 4) =~= spec_u32_to_le_bytes(n2 as u32));
    assert(s.subrange(p2, p2 + 4) =~= spec_u32_to_le_bytes(n3 as u32));
    assert(u32_at(s, 73) == n1);
    assert(u32_at(s, p1) == n2);
    assert(u32_at(s, p2) == n3);
    assert(s.subrange(9, 41) =~= v.master_authority);
    assert(s.subrange(41, 73) =~= v.mint);
    assert(s.subrange(77, p1) =~= v.name);
    assert(s.subrange(p1 + 4, p2) =~= v.symbol);
    assert(s.subrange(p2 + 4, p3) =~= v.uri);
}

/// Decoding an issuer's quota record's bytes gives the record back.
pub proof fn lemma_minter_round_trip(m: MinterConfig)
    ensures
        decode_minter_spec(encode_minter_spec(m@)) == Ok::<MinterView, DecodeError>(m@),
{
    lemma_auto_spec_u64_to_from_le_bytes();
    let v = m@;
    let s = encode_minter_spec(v);
    assert(s.subrange(0, 8) =~= record_tag(RecordKind::Minter));
    assert(s.subrange(9, 41) =~= v.minter);
    assert(s.subrange(42, 50) =~= spec_u64_to_le_bytes(v.daily_minted));
    assert(s.subrange(50, 58) =~= spec_u64_to_le_bytes(v.total_minted));
    assert(s.subrange(58, 66) =~= spec_u64_to_le_bytes(v.daily_mint_quota));
    let t = v.last_mint_timestamp;
    assert(s.subrange(66, 74) =~= spec_u64_to_le_bytes(#[verifier::truncate] (t as u64)));
    assert((#[verifier::truncate] ((#[verifier::truncate] (t as u64)) as i64)) == t) by (bit_vector);
}

} // verus!
