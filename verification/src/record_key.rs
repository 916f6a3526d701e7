use crate::address::Address;
use crate::encoding::lemma_le_digits_len;
use crate::encoding::lemma_u64_le_bytes_injective;
use crate::encoding::u64_le_bytes;
use crate::encoding::u64_to_le_bytes;
use anchor_lang::prelude::Pubkey;
use vstd::prelude::*;
use vstd::slice::slice_to_vec;

verus! {

/// First seed of the pool record: the ASCII bytes of `pool`.
pub const POOL_SEED: [u8; 4] = [112, 111, 111, 108];

/// First seed of a position record: the ASCII bytes of `user_position`.
pub const USER_POSITION_SEED: [u8; 13] = [117, 115, 101, 114, 95, 112, 111, 115, 105, 116, 105, 111, 110];

/// First seed of a sale record: the ASCII bytes of `sale`.
pub const SALE_SEED: [u8; 4] = [115, 97, 108, 101];

/// First seed of a claim record: the ASCII bytes of `user_claim`.
pub const USER_CLAIM_SEED: [u8; 10] = [117, 115, 101, 114, 95, 99, 108, 97, 105, 109];

/// What names a record: its kind, and the identity or sequence number that
/// tells it apart from other records of that kind.
#[derive(Clone, Copy, Debug, PartialEq, Eq)]
pub enum RecordKey {
    /// The one pool.
    Pool,
    /// The position of `owner`.
    UserPosition { owner: Address },
    /// The sale recorded when the pool's period was `id`.
    Sale { id: u64 },
    /// The claim of `owner` on sale `sale_id`.
    UserClaim { owner: Address, sale_id: u64 },
}

/// The program-derived address and bump seed that
/// `Pubkey::try_find_program_address` computes for `seeds` under
/// `program_id` (32 bytes), or `None` where it finds none.
pub uninterp spec fn program_address(seeds: Seq<Seq<u8>>, program_id: Seq<u8>) -> Option<(Seq<u8>, u8)>;

/// Calls `Pubkey::try_find_program_address`, which hashes the seeds, one
/// candidate bump seed, the program id and a fixed marker, and returns the
/// first hash that is not a point of the ed25519 curve together with the bump
/// seed that produced it. The search is a function of its arguments alone.
/// It returns `None`, and does not panic, when there are 16 or more seeds,
/// a seed is longer than 32 bytes, or no bump seed works.
///
/// Nothing is proved of this function: the contract only gives its result a
/// name.
#[verifier::external_body]
fn try_find_program_address(seeds: &Vec<Vec<u8>>, program_id: &[u8; 32]) -> (r: Option<([u8; 32], u8)>)
    ensures
        match r {
            Some((address, bump)) => program_address(seeds.deep_view(), program_id@) == Some((address@, bump)),
            None => program_address(seeds.deep_view(), program_id@) is None,
        },
{
    let parts: Vec<&[u8]> = seeds.iter().map(|seed| seed.as_slice()).collect();
    let id = Pubkey::new_from_array(*program_id);
    Pubkey::try_find_program_address(&parts, &id).map(|(address, bump)| (address.to_bytes(), bump))
}

impl RecordKey {
    /// The seeds of a record: a tag for the kind, then the owner's 32 bytes
    /// and the little-endian sequence number, as far as the kind has them.
    pub open spec fn spec_seeds(self) -> Seq<Seq<u8>> {
        match self {
            RecordKey::Pool => seq![POOL_SEED@],
            RecordKey::UserPosition { owner } => seq![USER_POSITION_SEED@, owner.bytes@],
            RecordKey::Sale { id } => seq![SALE_SEED@, u64_le_bytes(id)],
            RecordKey::UserClaim { owner, sale_id } => seq![
                USER_CLAIM_SEED@,
                owner.bytes@,
                u64_le_bytes(sale_id),
            ],
        }
    }

    /// The seeds laid end to end, which is what the address is hashed from.
    pub open spec fn seed_bytes(self) -> Seq<u8> {
        match self {
            RecordKey::Pool => POOL_SEED@,
            RecordKey::UserPosition { owner } => USER_POSITION_SEED@ + owner.bytes@,
            RecordKey::Sale { id } => SALE_SEED@ + u64_le_bytes(id),
            RecordKey::UserClaim { owner, sale_id } => USER_CLAIM_SEED@ + owner.bytes@
                + u64_le_bytes(sale_id),
        }
    }

    /// Builds the seeds of this record.
    pub fn seeds(&self) -> (r: Vec<Vec<u8>>)
        ensures
            r.deep_view() == self.spec_seeds(),
    {
        let mut r: Vec<Vec<u8>> = Vec::new();
        match self {
            RecordKey::Pool => {
                r.push(slice_to_vec(POOL_SEED.as_slice()));
            },
            RecordKey::UserPosition { owner } => {
                r.push(slice_to_vec(USER_POSITION_SEED.as_slice()));
                r.push(owner.to_vec());
            },
            RecordKey::Sale { id } => {
                r.push(slice_to_vec(SALE_SEED.as_slice()));
                r.push(u64_to_le_bytes(*id));
            },
            RecordKey::UserClaim { owner, sale_id } => {
                r.push(slice_to_vec(USER_CLAIM_SEED.as_slice()));
                r.push(owner.to_vec());
                r.push(u64_to_le_bytes(*sale_id));
            },
        }
        assert(r.deep_view() =~~= self.spec_seeds());
        r
    }

    /// Derives the address of this record under `program_id`, with the bump
    /// seed that goes with it.
    pub fn find_address(&self, program_id: &Address) -> (r: Option<(Address, u8)>)
        ensures
            match r {
                Some((address, bump)) => program_address(self.spec_seeds(), program_id.bytes@) == Some((address.bytes@, bump)),
                None => program_address(self.spec_seeds(), program_id.bytes@) is None,
            },
    {
        let seeds = self.seeds();
        match try_find_program_address(&seeds, &program_id.bytes) {
            Some((bytes, bump)) => Some((Address { bytes }, bump)),
            None => None,
        }
    }
}

/// The bytes an address is hashed from are the seeds in order.
pub proof fn lemma_seed_bytes_flatten(key: RecordKey)
    ensures
        key.seed_bytes() == key.spec_seeds().flatten(),
{
    reveal_with_fuel(Seq::flatten, 4);
    assert(key.seed_bytes() =~= key.spec_seeds().flatten());
}

/// Seeds are collision-free, within a kind and across kinds: two records
/// whose seeds give the same bytes are the same record.
pub proof fn lemma_seed_bytes_injective(a: RecordKey, b: RecordKey)
    requires
        a.seed_bytes() == b.seed_bytes(),
    ensures
        a == b,
{
    let sa = a.seed_bytes();
    let sb = b.seed_bytes();
    match a {
        RecordKey::Pool => {},
        RecordKey::UserPosition { owner } => {},
        RecordKey::Sale { id } => {
            lemma_le_digits_len(id as nat, 8);
        },
        RecordKey::UserClaim { owner, sale_id } => {
            lemma_le_digits_len(sale_id as nat, 8);
        },
    }
    match b {
        RecordKey::Pool => {},
        RecordKey::UserPosition { owner } => {},
        RecordKey::Sale { id } => {
            lemma_le_digits_len(id as nat, 8);
        },
        RecordKey::UserClaim { owner, sale_id } => {
            lemma_le_digits_len(sale_id as nat, 8);
        },
    }
    assert(sa.len() == sb.len());
    match (a, b) {
        (RecordKey::Pool, RecordKey::Pool) => {},
        (RecordKey::UserPosition { owner: oa }, RecordKey::UserPosition { owner: ob }) => {
            assert(oa.bytes@ =~= sa.subrange(13, 45));
            assert(ob.bytes@ =~= sb.subrange(13, 45));
            assert(oa.bytes =~= ob.bytes);
        },
        (RecordKey::Sale { id: ia }, RecordKey::Sale { id: ib }) => {
            assert(u64_le_bytes(ia) =~= sa.subrange(4, 12));
            assert(u64_le_bytes(ib) =~= sb.subrange(4, 12));
            lemma_u64_le_bytes_injective(ia, ib);
        },
        (
            RecordKey::UserClaim { owner: oa, sale_id: ia },
            RecordKey::UserClaim { owner: ob, sale_id: ib },
        ) => {
            assert(oa.bytes@ =~= sa.subrange(10, 42));
            assert(ob.bytes@ =~= sb.subrange(10, 42));
            assert(oa.bytes =~= ob.bytes);
            assert(u64_le_bytes(ia) =~= sa.subrange(42, 50));
            assert(u64_le_bytes(ib) =~= sb.subrange(42, 50));
            lemma_u64_le_bytes_injective(ia, ib);
        },
        _ => {},
    }
}

/// Two records with the same seeds are the same record.
pub proof fn lemma_seeds_injective(a: RecordKey, b: RecordKey)
    requires
        a.spec_seeds() == b.spec_seeds(),
    ensures
        a == b,
{
    lemma_seed_bytes_flatten(a);
    lemma_seed_bytes_flatten(b);
    lemma_seed_bytes_injective(a, b);
}

} // verus!
