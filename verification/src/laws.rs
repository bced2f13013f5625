use vstd::prelude::*;
use crate::amm::AmmV;
use crate::amm::PreviewRequestV;
use crate::amm::add_liquidity_request_spec;
use crate::amm::remove_liquidity_request_spec;
use crate::amm::swap_exact_input_request_spec;
use crate::amm::swap_exact_output_request_spec;
use crate::model::AssetId;
use crate::model::Coin;
use crate::model::Execution;
use crate::model::PoolId;
use crate::model::PoolMetadata;
use crate::model::TxPolicies;
use crate::model::canonical_pool_id;
use crate::model::Asset;
use crate::path::asset_id_in_spec;
use crate::path::counter_asset;
use crate::template::inputs_for_spends;
use crate::template::select_coins;

verus! {

/// Pool metadata echoes the queried identity, so its two constituent asset
/// identifiers are the canonically ordered pair of the assets the identity
/// was built from — the same pool maps to the same identity regardless of
/// the order the assets were supplied in.
pub proof fn lemma_pool_metadata_canonical(a: AssetId, b: AssetId, stable: bool, m: PoolMetadata)
    requires
        m.pool_id == canonical_pool_id(a, b, stable),
    ensures
        m.pool_id.wf(),
        (m.pool_id.asset_0 == a && m.pool_id.asset_1 == b) || (m.pool_id.asset_0 == b
            && m.pool_id.asset_1 == a),
        m.pool_id == canonical_pool_id(b, a, stable),
        m.pool_id.stable == stable,
{
}

/// Resolving the spend asset of a two-hop swap-exact-output path whose hops
/// connect the assets `a — b — c` and whose terminal output asset is `c`
/// yields `a`, in whichever order each hop's identity holds its pair.
pub proof fn lemma_two_hop_resolution(
    a: AssetId,
    b: AssetId,
    c: AssetId,
    first_hop: PoolId,
    second_hop: PoolId,
)
    requires
        (first_hop.asset_0 == a && first_hop.asset_1 == b) || (first_hop.asset_0 == b
            && first_hop.asset_1 == a),
        (second_hop.asset_0 == b && second_hop.asset_1 == c) || (second_hop.asset_0 == c
            && second_hop.asset_1 == b),
        a != b,
        b != c,
    ensures
        asset_id_in_spec(c, seq![first_hop, second_hop]) == a,
{
    let path = seq![first_hop, second_hop];
    assert(path.last() == second_hop);
    assert(path.drop_last() =~= seq![first_hop]);
    assert(counter_asset(second_hop, c) == b);
    assert(asset_id_in_spec(c, path) == asset_id_in_spec(b, seq![first_hop]));
    assert(seq![first_hop].last() == first_hop);
    assert(seq![first_hop].drop_last() =~= Seq::<PoolId>::empty());
    assert(counter_asset(first_hop, b) == a);
    assert(asset_id_in_spec(b, seq![first_hop]) == asset_id_in_spec(a, Seq::<PoolId>::empty()));
    assert(asset_id_in_spec(a, Seq::<PoolId>::empty()) == a);
}

/// The execution fidelity each preview selects: add-liquidity,
/// remove-liquidity and swap-exact-input previews run state-read-only;
/// swap-exact-output runs realistic.
pub proof fn lemma_execution_fidelity(
    s: AmmV,
    pool_id: PoolId,
    amount_0: u64,
    amount_1: u64,
    amount_0_min: u64,
    amount_1_min: u64,
    liquidity: u64,
    amount: u64,
    asset: AssetId,
    bound: u64,
    pools: Seq<PoolId>,
    deadline: u32,
    tx_policies: Option<TxPolicies>,
    coins: Seq<Coin>,
)
    ensures
        add_liquidity_request_spec(
            s,
            pool_id,
            amount_0,
            amount_1,
            amount_0_min,
            amount_1_min,
            deadline,
            tx_policies,
            coins,
        ).mode == Execution::StateReadOnly,
        remove_liquidity_request_spec(
            s,
            pool_id,
            liquidity,
            amount_0_min,
            amount_1_min,
            deadline,
            tx_policies,
            coins,
        ).mode == Execution::StateReadOnly,
        swap_exact_input_request_spec(
            s,
            amount,
            asset,
            bound,
            pools,
            deadline,
            tx_policies,
            coins,
        ).mode == Execution::StateReadOnly,
        swap_exact_output_request_spec(
            s,
            amount,
            asset,
            bound,
            pools,
            deadline,
            tx_policies,
            coins,
        ).mode == Execution::Realistic,
{
}

/// Previewing mutates nothing: a preview request is a pure function of the
/// facade's state and the caller's parameters, so two previews of the same
/// operation with identical parameters against the same facade resolve to
/// identical requests. Stated here for add-liquidity; each preview's own
/// contract pins its request the same way.
pub proof fn lemma_add_liquidity_preview_idempotent(
    r1: PreviewRequestV,
    r2: PreviewRequestV,
    s: AmmV,
    pool_id: PoolId,
    amount_0_desired: u64,
    amount_1_desired: u64,
    amount_0_min: u64,
    amount_1_min: u64,
    deadline: u32,
    tx_policies: Option<TxPolicies>,
    coins: Seq<Coin>,
)
    requires
        r1 == add_liquidity_request_spec(
            s,
            pool_id,
            amount_0_desired,
            amount_1_desired,
            amount_0_min,
            amount_1_min,
            deadline,
            tx_policies,
            coins,
        ),
        r2 == add_liquidity_request_spec(
            s,
            pool_id,
            amount_0_desired,
            amount_1_desired,
            amount_0_min,
            amount_1_min,
            deadline,
            tx_policies,
            coins,
        ),
    ensures
        r1 == r2,
{
}

/// Previewing mutates nothing, stated for remove-liquidity.
pub proof fn lemma_remove_liquidity_preview_idempotent(
    r1: PreviewRequestV,
    r2: PreviewRequestV,
    s: AmmV,
    pool_id: PoolId,
    liquidity: u64,
    amount_0_min: u64,
    amount_1_min: u64,
    deadline: u32,
    tx_policies: Option<TxPolicies>,
    coins: Seq<Coin>,
)
    requires
        r1 == remove_liquidity_request_spec(
            s,
            pool_id,
            liquidity,
            amount_0_min,
            amount_1_min,
            deadline,
            tx_policies,
            coins,
        ),
        r2 == remove_liquidity_request_spec(
            s,
            pool_id,
            liquidity,
            amount_0_min,
            amount_1_min,
            deadline,
            tx_policies,
            coins,
        ),
    ensures
        r1 == r2,
{
}

/// Previewing mutates nothing, stated for swap-exact-input.
pub proof fn lemma_swap_exact_input_preview_idempotent(
    r1: PreviewRequestV,
    r2: PreviewRequestV,
    s: AmmV,
    amount_in: u64,
    asset_in: AssetId,
    amount_out_min: u64,
    pools: Seq<PoolId>,
    deadline: u32,
    tx_policies: Option<TxPolicies>,
    coins: Seq<Coin>,
)
    requires
        r1 == swap_exact_input_request_spec(
            s,
            amount_in,
            asset_in,
            amount_out_min,
            pools,
            deadline,
            tx_policies,
            coins,
        ),
        r2 == swap_exact_input_request_spec(
            s,
            amount_in,
            asset_in,
            amount_out_min,
            pools,
            deadline,
            tx_policies,
            coins,
        ),
    ensures
        r1 == r2,
{
}

/// Previewing mutates nothing, stated for the realistic fidelity: two
/// swap-exact-output previews with identical parameters against the same
/// facade resolve to identical requests.
pub proof fn lemma_swap_exact_output_preview_idempotent(
    r1: PreviewRequestV,
    r2: PreviewRequestV,
    s: AmmV,
    amount_out: u64,
    asset_out: AssetId,
    amount_in_max: u64,
    pools: Seq<PoolId>,
    deadline: u32,
    tx_policies: Option<TxPolicies>,
    coins: Seq<Coin>,
)
    requires
        r1 == swap_exact_output_request_spec(
            s,
            amount_out,
            asset_out,
            amount_in_max,
            pools,
            deadline,
            tx_policies,
            coins,
        ),
        r2 == swap_exact_output_request_spec(
            s,
            amount_out,
            asset_out,
            amount_in_max,
            pools,
            deadline,
            tx_policies,
            coins,
        ),
    ensures
        r1 == r2,
{
}

/// A single-spend operation's resolved input set is exactly its spend's
/// selection, so `lemma_selection_covers` and `lemma_selection_asset` apply
/// to the remove-liquidity and swap preview templates directly.
pub proof fn lemma_single_spend_inputs(spend: Asset, coins: Seq<Coin>)
    ensures
        inputs_for_spends(seq![spend], coins) == select_coins(
            coins,
            spend.id,
            spend.amount as int,
        ),
{
    let spends = seq![spend];
    assert(spends.skip(1) =~= Seq::<Asset>::empty());
    assert(select_coins(coins, spend.id, spend.amount as int) + inputs_for_spends(
        spends.skip(1),
        coins,
    ) =~= select_coins(coins, spend.id, spend.amount as int));
}

/// The identity's balance of `asset` among `coins`.
pub open spec fn coin_sum(coins: Seq<Coin>, asset: AssetId) -> int
    decreases coins.len(),
{
    if coins.len() == 0 {
        0
    } else {
        (if coins[0].asset == asset {
            coins[0].amount as int
        } else {
            0
        }) + coin_sum(coins.skip(1), asset)
    }
}

/// The total amount carried by a list of coins.
pub open spec fn coin_total(coins: Seq<Coin>) -> int
    decreases coins.len(),
{
    if coins.len() == 0 {
        0
    } else {
        coins[0].amount + coin_total(coins.skip(1))
    }
}

/// Every coin the selection takes is a coin of the requested asset.
pub proof fn lemma_selection_asset(coins: Seq<Coin>, asset: AssetId, amount: int)
    ensures
        forall|i: int|
            0 <= i < select_coins(coins, asset, amount).len() ==> select_coins(
                coins,
                asset,
                amount,
            )[i].asset == asset,
    decreases coins.len(),
{
    if amount <= 0 || coins.len() == 0 {
    } else if coins[0].asset == asset {
        lemma_selection_asset(coins.skip(1), asset, amount - coins[0].amount);
        let rest = select_coins(coins.skip(1), asset, amount - coins[0].amount);
        let whole = seq![coins[0]] + rest;
        assert(select_coins(coins, asset, amount) == whole);
        assert forall|i: int| 0 <= i < whole.len() implies whole[i].asset == asset by {
            if i > 0 {
                assert(whole[i] == rest[i - 1]);
            }
        }
    } else {
        lemma_selection_asset(coins.skip(1), asset, amount);
        assert(select_coins(coins, asset, amount) == select_coins(coins.skip(1), asset, amount));
    }
}

/// Where the identity's balance of the asset covers the requirement, the
/// selected inputs cover it too: a preview's input set is only short when
/// the simulation identity's balance is.
pub proof fn lemma_selection_covers(coins: Seq<Coin>, asset: AssetId, amount: int)
    requires
        coin_sum(coins, asset) >= amount,
    ensures
        coin_total(select_coins(coins, asset, amount)) >= amount,
    decreases coins.len(),
{
    if amount <= 0 || coins.len() == 0 {
    } else if coins[0].asset == asset {
        lemma_selection_covers(coins.skip(1), asset, amount - coins[0].amount);
        let rest = select_coins(coins.skip(1), asset, amount - coins[0].amount);
        let whole = seq![coins[0]] + rest;
        assert(whole[0] == coins[0]);
        assert(whole.skip(1) =~= rest);
        assert(coin_total(whole) == coins[0].amount + coin_total(rest));
    } else {
        lemma_selection_covers(coins.skip(1), asset, amount);
    }
}

} // verus!
