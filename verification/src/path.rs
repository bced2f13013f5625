use vstd::prelude::*;
use crate::model::AssetId;
use crate::model::PoolId;

verus! {

/// The counter-asset of `out` in pool `p`: the pool asset that is not the
/// hop's output. Where `out` is in neither slot the first asset is taken;
/// path connectivity is not validated here — the underlying swap operation
/// enforces it during simulation.
pub open spec fn counter_asset(p: PoolId, out: AssetId) -> AssetId {
    if p.asset_0 == out {
        p.asset_1
    } else {
        p.asset_0
    }
}

/// The asset actually spent by a swap-exact-output whose hop path is
/// `pools` and whose terminal output asset is `asset_out`: the path is
/// walked backwards, taking each hop's counter-asset in turn.
pub open spec fn asset_id_in_spec(asset_out: AssetId, pools: Seq<PoolId>) -> AssetId
    decreases pools.len(),
{
    if pools.len() == 0 {
        asset_out
    } else {
        asset_id_in_spec(counter_asset(pools.last(), asset_out), pools.drop_last())
    }
}

/// Resolves which asset a swap-exact-output over `pools` draws from the
/// caller, given the path's terminal output asset.
pub fn get_asset_id_in(asset_out: AssetId, pools: &Vec<PoolId>) -> (r: AssetId)
    ensures
        r == asset_id_in_spec(asset_out, pools@),
{
    let mut cur = asset_out;
    let mut i: usize = pools.len();
    proof {
        assert(pools@.take(pools@.len() as int) =~= pools@);
    }
    while i > 0
        invariant
            i <= pools@.len(),
            asset_id_in_spec(cur, pools@.take(i as int)) == asset_id_in_spec(asset_out, pools@),
        decreases i,
    {
        let p = pools[i - 1];
        proof {
            assert(pools@.take(i as int).last() == pools@[i as int - 1]);
            assert(pools@.take(i as int).drop_last() =~= pools@.take(i as int - 1));
        }
        cur = if p.asset_0 == cur {
            p.asset_1
        } else {
            p.asset_0
        };
        i = i - 1;
    }
    proof {
        assert(pools@.take(0) =~= Seq::<PoolId>::empty());
    }
    cur
}

} // verus!
