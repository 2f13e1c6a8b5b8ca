//! The two persisted records: the deployment's configuration and the state of
//! one curve.

use vstd::prelude::*;
use vstd::string::{StrSliceExecFns, StringSliceAdditionalSpecFns};
use crate::pda::{address_view, program_address, try_find_program_address};
use crate::pubkey::Pubkey;

verus! {

/// A fee percentage, carried as the bit pattern of a 64-bit binary
/// floating-point number.  The lifecycle operations copy it and never read it.
#[derive(Clone, Copy, Debug, PartialEq, Eq, Structural)]
pub struct FeePercent {
    pub bits: u64,
}

/// The configuration of a deployment: one record, written only by
/// `configure` and by a completed migration.
#[derive(Clone, Copy, Debug, PartialEq, Eq)]
pub struct Config {
    /// Who may replace this record and run the admin-only operations.  It is
    /// the default identity until the record is first written.
    pub authority: Pubkey,
    /// Who receives protocol fees.
    pub fee_recipient: Pubkey,
    pub curve_limit: u64,
    pub initial_virtual_token_reserves: u64,
    pub initial_virtual_sol_reserves: u64,
    pub initial_real_token_reserves: u64,
    pub total_token_supply: u64,
    pub buy_fee_percent: FeePercent,
    pub sell_fee_percent: FeePercent,
    pub migration_fee_percent: FeePercent,
    /// Closes migration and, where the deployment asks for it, release.
    pub paused: bool,
    /// Set by a completed migration; no migration runs once it is set.
    pub is_completed: bool,
    /// Closes launches.
    pub pause_launch: bool,
    /// Closes swaps.
    pub pause_swap: bool,
    /// The only venue program a migration may name; default means any.
    pub expected_raydium_program: Pubkey,
    /// The only alternative venue program a migration may name; default means
    /// any.
    pub expected_meteora_program: Pubkey,
}

/// The state of one token's curve.
#[derive(Clone, Copy, Debug, PartialEq, Eq)]
pub struct BondingCurve {
    pub virtual_token_reserves: u64,
    pub virtual_sol_reserves: u64,
    pub real_token_reserves: u64,
    pub real_sol_reserves: u64,
    pub token_total_supply: u64,
    /// Set once the curve has reached its reserve limit.
    pub is_completed: bool,
    /// Set, once and for good, by the migration of this curve.
    pub migration_completed: bool,
}

impl Config {
    /// The tag from which the address of the configuration record derives.
    pub const SEED_PREFIX: &'static str = "global-config";

    /// The seeds of the configuration record's address: the tag alone.
    pub open spec fn address_seeds() -> Seq<Seq<u8>> {
        seq![Config::SEED_PREFIX.spec_bytes()]
    }

    /// Derives the address of the configuration record of the program
    /// `program_id`, with its bump seed.
    pub fn find_address(program_id: &Pubkey) -> (found: Option<(Pubkey, u8)>)
        ensures
            address_view(found) == program_address(Config::address_seeds(), program_id@),
    {
        let mut seeds: Vec<Vec<u8>> = Vec::new();
        seeds.push(Config::SEED_PREFIX.as_bytes_vec());
        proof {
            lemma_seed_views(seeds);
        }
        assert(seeds.deep_view() =~= Config::address_seeds());
        try_find_program_address(&seeds, program_id)
    }
}

impl BondingCurve {
    /// The tag from which the address of a curve derives.
    pub const SEED_PREFIX: &'static str = "bonding-curve";

    /// The seeds of the address of the curve of `mint`: the tag, then the
    /// mint's identity.
    pub open spec fn address_seeds(mint: Pubkey) -> Seq<Seq<u8>> {
        seq![BondingCurve::SEED_PREFIX.spec_bytes(), mint@]
    }

    /// The seeds with which the program signs for the curve of `mint`: the
    /// seeds of its address, then the bump seed.
    pub open spec fn signer_seeds(mint: Pubkey, bump: u8) -> Seq<Seq<u8>> {
        seq![BondingCurve::SEED_PREFIX.spec_bytes(), mint@, seq![bump]]
    }

    /// Derives the address of the curve of `mint` under the program
    /// `program_id`, with its bump seed.  The address is the curve's signing
    /// authority: the program signs for it with `get_signer`.
    pub fn find_address(mint: &Pubkey, program_id: &Pubkey) -> (found: Option<(Pubkey, u8)>)
        ensures
            address_view(found) == program_address(
                BondingCurve::address_seeds(*mint),
                program_id@,
            ),
    {
        let mut seeds: Vec<Vec<u8>> = Vec::new();
        seeds.push(BondingCurve::SEED_PREFIX.as_bytes_vec());
        seeds.push(bytes_of(mint));
        proof {
            lemma_seed_views(seeds);
        }
        assert(seeds.deep_view() =~= BondingCurve::address_seeds(*mint));
        try_find_program_address(&seeds, program_id)
    }

    /// Builds the seeds with which the program signs for the curve of `mint`.
    pub fn get_signer(mint: &Pubkey, bump: &u8) -> (seeds: Vec<Vec<u8>>)
        ensures
            seeds.deep_view() == BondingCurve::signer_seeds(*mint, *bump),
    {
        let mut last: Vec<u8> = Vec::new();
        last.push(*bump);
        let mut seeds: Vec<Vec<u8>> = Vec::new();
        seeds.push(BondingCurve::SEED_PREFIX.as_bytes_vec());
        seeds.push(bytes_of(mint));
        seeds.push(last);
        proof {
            lemma_seed_views(seeds);
        }
        assert(seeds.deep_view() =~= BondingCurve::signer_seeds(*mint, *bump));
        seeds
    }
}

/// The seeds that sign for a curve are the seeds of its address, then the bump
/// seed.
pub proof fn lemma_signer_seeds_extend_address_seeds(mint: Pubkey, bump: u8)
    ensures
        BondingCurve::signer_seeds(mint, bump) == BondingCurve::address_seeds(mint).push(
            seq![bump],
        ),
        BondingCurve::signer_seeds(mint, bump).len() == 3,
        BondingCurve::signer_seeds(mint, bump)[1].len() == 32,
{
    assert(BondingCurve::signer_seeds(mint, bump) =~= BondingCurve::address_seeds(mint).push(
        seq![bump],
    ));
}

/// Seen as sequences of bytes, a list of seeds is the list of its seeds' bytes.
proof fn lemma_seed_views(seeds: Vec<Vec<u8>>)
    ensures
        seeds.deep_view().len() == seeds@.len(),
        forall|i: int| 0 <= i < seeds@.len() ==> #[trigger] seeds.deep_view()[i] == seeds@[i]@,
{
    assert forall|i: int| 0 <= i < seeds@.len() implies #[trigger] seeds.deep_view()[i]
        == seeds@[i]@ by {
        assert(seeds@[i].deep_view() =~= seeds@[i]@);
    }
}

/// The bytes of an identity, as a vector.
fn bytes_of(key: &Pubkey) -> (bytes: Vec<u8>)
    ensures
        bytes@ == key@,
{
    let mut bytes: Vec<u8> = Vec::new();
    let mut i: usize = 0;
    while i < 32
        invariant
            i <= 32,
            bytes@.len() == i,
            forall|j: int| 0 <= j < i ==> bytes@[j] == key.bytes[j],
        decreases 32 - i,
    {
        bytes.push(key.bytes[i]);
        i += 1;
    }
    assert(bytes@ =~= key@);
    bytes
}

} // verus!
