//! Addresses and the derivation of a registry record's address from a seed
//! literal, the governed token and, for per-subject records, the subject.

use vstd::prelude::*;

verus! {

/// A 32-byte account address.
#[derive(Clone, Copy, Debug)]
pub struct Address {
    pub bytes: [u8; 32],
}

impl View for Address {
    type V = Seq<u8>;

    open spec fn view(&self) -> Seq<u8> {
        self.bytes@
    }
}

impl Address {
    /// The address's bytes, in order, as a vector.
    pub fn to_vec(&self) -> (r: Vec<u8>)
        ensures
            r@ == self@,
    {
        let mut r: Vec<u8> = Vec::new();
        let mut i: usize = 0;
        while i < 32
            invariant
                0 <= i <= 32,
                r@ == self.bytes@.subrange(0, i as int),
            decreases 32 - i,
        {
            r.push(self.bytes[i]);
            i = i + 1;
        }
        proof {
            assert(r@ =~= self@);
        }
        r
    }
}

impl PartialEq for Address {
    fn eq(&self, other: &Address) -> (r: bool) {
        let mut i: usize = 0;
        while i < 32
            invariant
                0 <= i <= 32,
                forall|j: int| 0 <= j < i ==> self.bytes@[j] == other.bytes@[j],
            decreases 32 - i,
        {
            if self.bytes[i] != other.bytes[i] {
                return false;
            }
            i = i + 1;
        }
        proof {
            assert(self.bytes@ =~= other.bytes@);
        }
        true
    }
}

impl vstd::std_specs::cmp::PartialEqSpecImpl for Address {
    open spec fn obeys_eq_spec() -> bool {
        true
    }

    open spec fn eq_spec(&self, other: &Address) -> bool {
        self@ == other@
    }
}

/// The program that owns every registry record.
pub open spec fn spec_stablecoin_program_id() -> Seq<u8> {
    seq![
        44u8, 97, 202, 74, 192, 128, 212, 138, 38, 213, 43, 223, 123, 117, 220, 71,
        39, 132, 52, 67, 216, 232, 93, 187, 55, 175, 55, 57, 162, 114, 112, 194,
    ]
}

pub fn stablecoin_program_id() -> (r: Address)
    ensures
        r@ == spec_stablecoin_program_id(),
{
    let r = Address {
        bytes: [
            44, 97, 202, 74, 192, 128, 212, 138, 38, 213, 43, 223, 123, 117, 220, 71,
            39, 132, 52, 67, 216, 232, 93, 187, 55, 175, 55, 57, 162, 114, 112, 194,
        ],
    };
    proof {
        assert(r.bytes@ =~= spec_stablecoin_program_id());
    }
    r
}

/// The address that the program-address search finds for `seeds` under
/// `program`, or `None` where it finds none.
pub uninterp spec fn program_address(seeds: Seq<Seq<u8>>, program: Seq<u8>) -> Option<Seq<u8>>;

/// Relies on `Pubkey::try_find_program_address` (solana-pubkey, as re-exported by
/// anchor-lang): it returns the program address found for the seeds and the
/// program, or `None`, and depends on those two arguments alone.
#[verifier::external_body]
fn find_program_address(seeds: &Vec<Vec<u8>>, program: &Address) -> (r: Option<Address>)
    ensures
        match r {
            Some(a) => program_address(seeds.deep_view(), program@) == Some(a@),
            None => program_address(seeds.deep_view(), program@) is None,
        },
{
    let parts: Vec<&[u8]> = seeds.iter().map(|s| s.as_slice()).collect();
    let program_key = anchor_lang::prelude::Pubkey::new_from_array(program.bytes);
    anchor_lang::prelude::Pubkey::try_find_program_address(&parts, &program_key).map(
        |(key, _bump)| Address { bytes: key.to_bytes() },
    )
}

/// The kinds of registry record, each with its own seed literal.
#[derive(Clone, Copy, Debug, PartialEq, Eq, Structural)]
pub enum RecordKind {
    Blacklist,
    Allowlist,
    Config,
    Minter,
    Roles,
}

/// The seed literal of each kind: "blacklist", "allowlist", "config",
/// "minter" and "roles".
pub open spec fn seed_of(kind: RecordKind) -> Seq<u8> {
    match kind {
        RecordKind::Blacklist => seq![98u8, 108, 97, 99, 107, 108, 105, 115, 116],
        RecordKind::Allowlist => seq![97u8, 108, 108, 111, 119, 108, 105, 115, 116],
        RecordKind::Config => seq![99u8, 111, 110, 102, 105, 103],
        RecordKind::Minter => seq![109u8, 105, 110, 116, 101, 114],
        RecordKind::Roles => seq![114u8, 111, 108, 101, 115],
    }
}

/// The seed literal of a record kind, as bytes.
pub fn seed_literal(kind: RecordKind) -> (r: Vec<u8>)
    ensures
        r@ == seed_of(kind),
{
    let r = match kind {
        RecordKind::Blacklist => vec![98u8, 108, 97, 99, 107, 108, 105, 115, 116],
        RecordKind::Allowlist => vec![97u8, 108, 108, 111, 119, 108, 105, 115, 116],
        RecordKind::Config => vec![99u8, 111, 110, 102, 105, 103],
        RecordKind::Minter => vec![109u8, 105, 110, 116, 101, 114],
        RecordKind::Roles => vec![114u8, 111, 108, 101, 115],
    };
    proof {
        assert(r@ =~= seed_of(kind));
    }
    r
}

/// The seeds of a record: its kind's literal, the token, and the subject
/// where the record is kept per subject.
pub open spec fn record_seeds(kind: RecordKind, token: Seq<u8>, subject: Option<Seq<u8>>) -> Seq<
    Seq<u8>,
> {
    match subject {
        Some(s) => seq![seed_of(kind), token, s],
        None => seq![seed_of(kind), token],
    }
}

/// The subject's bytes, where there is a subject.
pub open spec fn opt_address_view(subject: Option<Address>) -> Option<Seq<u8>> {
    match subject {
        Some(s) => Some(s@),
        None => None,
    }
}

/// Derives where a registry record lives: the program address of the
/// record's seeds under the owning program. The same inputs always give the
/// same address.
pub fn derive_record_address(kind: RecordKind, token: &Address, subject: Option<Address>) -> (r:
    Option<Address>)
    ensures
        match r {
            Some(a) => program_address(
                record_seeds(kind, token@, opt_address_view(subject)),
                spec_stablecoin_program_id(),
            ) == Some(a@),
            None => program_address(
                record_seeds(kind, token@, opt_address_view(subject)),
                spec_stablecoin_program_id(),
            ) is None,
        },
{
    let mut seeds: Vec<Vec<u8>> = Vec::new();
    seeds.push(seed_literal(kind));
    seeds.push(token.to_vec());
    match subject {
        Some(s) => seeds.push(s.to_vec()),
        None => {},
    }
    proof {
        assert forall|i: int| 0 <= i < seeds@.len() implies seeds@[i].deep_view() =~= seeds@[i]@ by {}
        assert(seeds.deep_view() =~= record_seeds(kind, token@, opt_address_view(subject)));
    }
    find_program_address(&seeds, &stablecoin_program_id())
}

} // verus!
