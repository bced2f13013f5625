use vstd::prelude::*;
use crate::model::AssetId;
use crate::model::ContractId;
use crate::model::PoolId;
use crate::outside::sha256;
use crate::outside::sha256_of;

verus! {

/// The big-endian 8-byte encoding of a 64-bit value.
pub open spec fn u64_be_bytes(x: u64) -> Seq<u8> {
    Seq::new(8, |i: int| (x >> (((7 - i) * 8) as u64)) as u8)
}

/// Encodes a 64-bit value as 8 big-endian bytes.
pub fn u64_to_be_bytes(x: u64) -> (r: Vec<u8>)
    ensures
        r@ == u64_be_bytes(x),
{
    let mut r: Vec<u8> = Vec::new();
    let mut i: usize = 0;
    while i < 8
        invariant
            i <= 8,
            r@ == u64_be_bytes(x).take(i as int),
        decreases 8 - i,
    {
        let shift: u64 = ((7 - i) * 8) as u64;
        r.push((x >> shift) as u8);
        i = i + 1;
        proof {
            assert(r@ =~= u64_be_bytes(x).take(i as int));
        }
    }
    proof {
        assert(u64_be_bytes(x).take(8) =~= u64_be_bytes(x));
    }
    r
}

/// The unsigned value of a big-endian byte string.
pub open spec fn be_value(s: Seq<u8>) -> int
    decreases s.len(),
{
    if s.len() == 0 {
        0
    } else {
        be_value(s.drop_last()) * 256 + s.last()
    }
}

pub open spec fn pow256(n: nat) -> int
    decreases n,
{
    if n == 0 {
        1
    } else {
        256 * pow256((n - 1) as nat)
    }
}

/// A big-endian byte string of length `n` encodes a value below `256^n`.
pub proof fn lemma_be_value_bound(s: Seq<u8>)
    ensures
        0 <= be_value(s) < pow256(s.len()),
    decreases s.len(),
{
    if s.len() > 0 {
        lemma_be_value_bound(s.drop_last());
    }
}

/// Reads the first `n` bytes of `s` as a big-endian value.
fn be_u64(s: &Vec<u8>, n: usize) -> (r: u64)
    requires
        n <= 8,
        n <= s@.len(),
    ensures
        r as int == be_value(s@.take(n as int)),
{
    let mut acc: u64 = 0;
    let mut i: usize = 0;
    proof {
        assert(s@.take(0) =~= Seq::<u8>::empty());
    }
    while i < n
        invariant
            i <= n,
            n <= 8,
            n <= s@.len(),
            acc as int == be_value(s@.take(i as int)),
        decreases n - i,
    {
        proof {
            lemma_be_value_bound(s@.take(i as int));
            reveal_with_fuel(pow256, 9);
        }
        acc = acc * 256 + (s[i] as u64);
        i = i + 1;
        proof {
            assert(s@.take(i as int).drop_last() =~= s@.take(i as int - 1));
            assert(s@.take(i as int).last() == s@[i as int - 1]);
        }
    }
    acc
}

/// The encoding of a pool identity that seeds its LP token's
/// sub-identifier: both asset identifiers big-endian, then the pool-kind
/// flag as one byte.
pub open spec fn pool_encoding(pool: PoolId) -> Seq<u8> {
    u64_be_bytes(pool.asset_0.bits) + u64_be_bytes(pool.asset_1.bits) + seq![
        if pool.stable {
            1u8
        } else {
            0u8
        },
    ]
}

/// The LP-token asset identifier of a pool: the asset registry derives it
/// by hashing the minting contract's identifier together with the pool's
/// hashed encoding; this model reads the digest's leading bytes as the
/// identifier.
pub open spec fn lp_asset_id_spec(contract: ContractId, pool: PoolId) -> AssetId {
    AssetId {
        bits: be_value(
            sha256_of(u64_be_bytes(contract.bits) + sha256_of(pool_encoding(pool))).take(8),
        ) as u64,
    }
}

/// Derives the LP-token asset identifier of a pool minted by `contract`.
pub fn get_lp_asset_id(contract: ContractId, pool_id: &PoolId) -> (r: AssetId)
    ensures
        r == lp_asset_id_spec(contract, *pool_id),
{
    let mut enc = u64_to_be_bytes(pool_id.asset_0.bits);
    let mut second = u64_to_be_bytes(pool_id.asset_1.bits);
    enc.append(&mut second);
    enc.push(if pool_id.stable {
        1
    } else {
        0
    });
    proof {
        assert(enc@ =~= pool_encoding(*pool_id));
    }
    let sub_id = sha256(&enc);
    let mut seed = u64_to_be_bytes(contract.bits);
    let mut sub_tail = sub_id;
    seed.append(&mut sub_tail);
    proof {
        assert(seed@ =~= u64_be_bytes(contract.bits) + sha256_of(pool_encoding(*pool_id)));
    }
    let digest = sha256(&seed);
    let bits = be_u64(&digest, 8);
    proof {
        lemma_be_value_bound(digest@.take(8));
        reveal_with_fuel(pow256, 9);
        assert(be_value(digest@.take(8)) as u64 == bits);
    }
    AssetId { bits }
}

} // verus!
