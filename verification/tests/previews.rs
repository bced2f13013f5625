use mira_v1::amm::ReadonlyMiraAmm;
use mira_v1::amm::ScriptCall;
use mira_v1::executor::ScriptOutput;
use mira_v1::executor::extract_add_liquidity;
use mira_v1::executor::extract_remove_liquidity;
use mira_v1::executor::extract_swap;
use mira_v1::lp::get_lp_asset_id;
use mira_v1::model::Asset;
use mira_v1::model::AssetId;
use mira_v1::model::Coin;
use mira_v1::model::ContractId;
use mira_v1::model::Execution;
use mira_v1::model::Output;
use mira_v1::model::PoolId;
use mira_v1::model::TxPolicies;
use mira_v1::path::get_asset_id_in;
use mira_v1::template::build_transaction_template;

fn connect_ok() -> ReadonlyMiraAmm {
    let mut key = vec![b'0'; 63];
    key.push(b'1');
    ReadonlyMiraAmm::connect(&key, None, ContractId { bits: 7 }).unwrap()
}

fn asset_x() -> AssetId {
    AssetId { bits: 100 }
}

fn asset_y() -> AssetId {
    AssetId { bits: 200 }
}

fn asset_z() -> AssetId {
    AssetId { bits: 300 }
}

#[test]
fn two_hop_path_resolves_the_first_hop_counter_asset() {
    // Hops (X, Y) then (Y, Z) with terminal output Z: the caller spends X.
    let pools = vec![PoolId::new(asset_x(), asset_y(), false), PoolId::new(asset_y(), asset_z(), false)];
    assert_eq!(get_asset_id_in(asset_z(), &pools), asset_x());
}

#[test]
fn single_hop_path_resolves_the_counter_asset() {
    let pools = vec![PoolId::new(asset_x(), asset_y(), false)];
    assert_eq!(get_asset_id_in(asset_y(), &pools), asset_x());
    assert_eq!(get_asset_id_in(asset_x(), &pools), asset_y());
}

#[test]
fn empty_path_resolves_to_the_output_asset() {
    let pools: Vec<PoolId> = vec![];
    assert_eq!(get_asset_id_in(asset_x(), &pools), asset_x());
}

#[test]
fn template_selects_matching_coins_until_covered() {
    let address = connect_ok().simulation_address;
    let spends = vec![Asset { id: asset_x(), amount: 100 }];
    let coins = vec![
        Coin { asset: asset_x(), amount: 60 },
        Coin { asset: asset_y(), amount: 50 },
        Coin { asset: asset_x(), amount: 70 },
        Coin { asset: asset_x(), amount: 5 },
    ];
    let t = build_transaction_template(&address, &spends, &coins, TxPolicies::default());
    // The third matching coin is not needed: 60 + 70 already covers 100.
    assert_eq!(
        t.inputs,
        vec![Coin { asset: asset_x(), amount: 60 }, Coin { asset: asset_x(), amount: 70 }]
    );
    assert_eq!(t.variable_outputs, 1);
    assert_eq!(t.outputs.len(), 1);
    let Output::Change { to, asset, amount } = &t.outputs[0];
    assert_eq!(to, &address);
    assert_eq!(*asset, AssetId { bits: 0 });
    assert_eq!(*amount, 0);
}

#[test]
fn template_takes_every_matching_coin_when_balance_is_short() {
    // The shortfall is left for the execution layer to reject: no error here.
    let address = connect_ok().simulation_address;
    let spends = vec![Asset { id: asset_x(), amount: 100 }];
    let coins = vec![Coin { asset: asset_x(), amount: 30 }, Coin { asset: asset_y(), amount: 500 }];
    let t = build_transaction_template(&address, &spends, &coins, TxPolicies::default());
    assert_eq!(t.inputs, vec![Coin { asset: asset_x(), amount: 30 }]);
}

#[test]
fn add_liquidity_preview_assembles_the_full_request() {
    let amm = connect_ok();
    let pool = PoolId::new(asset_x(), asset_y(), false);
    let coins = vec![
        Coin { asset: asset_x(), amount: 500 },
        Coin { asset: asset_y(), amount: 500 },
    ];
    let r = amm.preview_add_liquidity(pool, 100, 200, 1, 1, 12345, None, &coins);
    assert_eq!(r.contract, ContractId { bits: 7 });
    assert_eq!(r.mode, Execution::StateReadOnly);
    assert_eq!(
        r.call,
        ScriptCall::AddLiquidity {
            pool_id: pool,
            amount_0_desired: 100,
            amount_1_desired: 200,
            amount_0_min: 1,
            amount_1_min: 1,
            recipient: amm.simulation_address.clone(),
            deadline: 12345,
        }
    );
    // One input per pooled asset, drawn from the simulation identity.
    assert_eq!(
        r.template.inputs,
        vec![Coin { asset: asset_x(), amount: 500 }, Coin { asset: asset_y(), amount: 500 }]
    );
    assert_eq!(r.template.tx_policies, TxPolicies::default());
    assert_eq!(r.template.variable_outputs, 1);
    assert_eq!(r.template.outputs.len(), 1);
}

#[test]
fn preview_honors_the_policy_override() {
    let amm = connect_ok();
    let pool = PoolId::new(asset_x(), asset_y(), false);
    let coins = vec![];
    let mut policies = TxPolicies::default();
    policies.max_fee = Some(55);
    let r = amm.preview_add_liquidity(pool, 1, 1, 0, 0, 0, Some(policies), &coins);
    assert_eq!(r.template.tx_policies.max_fee, Some(55));
}

#[test]
fn add_liquidity_preview_on_an_empty_pool_mints_liquidity() {
    // Scenario: desired amounts (100, 200) on an empty pool. The pricing
    // curve is the deployed contract's concern; the test plays it with a
    // geometric-mean mint and the preview surfaces a positive LP amount.
    let amm = connect_ok();
    let pool = PoolId::new(asset_x(), asset_y(), false);
    let coins = vec![
        Coin { asset: asset_x(), amount: 500 },
        Coin { asset: asset_y(), amount: 500 },
    ];
    let r = amm.preview_add_liquidity(pool, 100, 200, 0, 0, 100, None, &coins);
    let (amount_0, amount_1) = match r.call {
        ScriptCall::AddLiquidity { amount_0_desired, amount_1_desired, .. } => {
            (amount_0_desired, amount_1_desired)
        },
        _ => panic!("wrong operation"),
    };
    // Toy executor: floor(sqrt(100 * 200)) on an empty pool.
    let mut minted = 0u64;
    while (minted + 1) * (minted + 1) <= amount_0 * amount_1 {
        minted += 1;
    }
    let lp = get_lp_asset_id(amm.id(), &pool);
    let out = extract_add_liquidity(ScriptOutput::AddLiquidity(Asset { id: lp, amount: minted }))
        .unwrap();
    assert_eq!(out.id, lp);
    assert_eq!(out.amount, 141);
    assert!(out.amount > 0);
}

#[test]
fn remove_liquidity_preview_spends_the_lp_token() {
    let amm = connect_ok();
    let pool = PoolId::new(asset_x(), asset_y(), false);
    let lp = get_lp_asset_id(amm.id(), &pool);
    let coins = vec![Coin { asset: lp, amount: 1000 }];
    let r = amm.preview_remove_liquidity(pool, 400, 1, 1, 77, None, &coins);
    assert_eq!(r.mode, Execution::StateReadOnly);
    assert_eq!(r.template.inputs, vec![Coin { asset: lp, amount: 1000 }]);
    match r.call {
        ScriptCall::RemoveLiquidity { pool_id, liquidity, amount_0_min, amount_1_min, deadline, .. } => {
            assert_eq!(pool_id, pool);
            assert_eq!(liquidity, 400);
            assert_eq!(amount_0_min, 1);
            assert_eq!(amount_1_min, 1);
            assert_eq!(deadline, 77);
        },
        _ => panic!("wrong operation"),
    }
    let (a0, a1) = extract_remove_liquidity(ScriptOutput::RemoveLiquidity((120, 240))).unwrap();
    assert_eq!((a0, a1), (120, 240));
}

#[test]
fn lp_asset_id_matches_the_registry_digest() {
    // The LP-token identifier must follow the asset registry's convention:
    // sha256 over the minting contract's identifier and the hashed pool
    // encoding. Recomputed here with the ledger's own hasher.
    let contract = ContractId { bits: 7 };
    let pool = PoolId::new(asset_x(), asset_y(), true);
    let mut enc: Vec<u8> = Vec::new();
    enc.extend_from_slice(&pool.asset_0.bits.to_be_bytes());
    enc.extend_from_slice(&pool.asset_1.bits.to_be_bytes());
    enc.push(1);
    let sub_id = fuels::crypto::Hasher::hash(&enc);
    let mut seed: Vec<u8> = Vec::new();
    seed.extend_from_slice(&contract.bits.to_be_bytes());
    seed.extend_from_slice(sub_id.as_slice());
    let digest = fuels::crypto::Hasher::hash(&seed);
    let mut first8 = [0u8; 8];
    first8.copy_from_slice(&digest.as_slice()[0..8]);
    let expected = AssetId { bits: u64::from_be_bytes(first8) };
    assert_eq!(get_lp_asset_id(contract, &pool), expected);
}

#[test]
fn swap_exact_input_preview_traces_the_hops() {
    // Scenario: pool (X, Y, volatile) with reserves 1000/2000; swapping
    // exactly 100 X with amount_out_min = 1 over the one-hop path.
    let amm = connect_ok();
    let pool = PoolId::new(asset_x(), asset_y(), false);
    let coins = vec![Coin { asset: asset_x(), amount: 1000 }];
    let r = amm.preview_swap_exact_input(100, asset_x(), 1, vec![pool], 99, None, &coins);
    assert_eq!(r.mode, Execution::StateReadOnly);
    assert_eq!(r.contract, ContractId { bits: 7 });
    // The identity's whole matching coin is drawn; change returns the rest.
    assert_eq!(r.template.inputs, vec![Coin { asset: asset_x(), amount: 1000 }]);
    let (amount_in, asset_in) = match &r.call {
        ScriptCall::SwapExactInput { amount_in, asset_in, amount_out_min, pools, deadline, .. } => {
            assert_eq!(*amount_out_min, 1);
            assert_eq!(pools, &vec![pool]);
            assert_eq!(*deadline, 99);
            (*amount_in, *asset_in)
        },
        _ => panic!("wrong operation"),
    };
    // Toy executor: constant-product curve over reserves 1000/2000.
    let reserve_in = 1000u64;
    let reserve_out = 2000u64;
    let amount_out = (amount_in * reserve_out) / (reserve_in + amount_in);
    let trace = extract_swap(ScriptOutput::Swap(vec![
        (amount_in, asset_in),
        (amount_out, asset_y()),
    ]))
    .unwrap();
    assert_eq!(trace.len(), 2);
    assert_eq!(trace[0], (100, asset_x()));
    assert_eq!(trace[1].1, asset_y());
    assert!(trace[1].0 > 0);
    assert!(trace[1].0 < 2000);
}

#[test]
fn swap_exact_output_preview_runs_realistic_and_draws_the_resolved_asset() {
    let amm = connect_ok();
    let pools = vec![PoolId::new(asset_x(), asset_y(), false), PoolId::new(asset_y(), asset_z(), false)];
    let coins = vec![Coin { asset: asset_x(), amount: 10_000 }];
    let r = amm.swap_exact_output(500, asset_z(), 900, pools.clone(), 44, None, &coins);
    assert_eq!(r.mode, Execution::Realistic);
    // The input asset is resolved by walking the path backwards from Z; the
    // identity's whole matching coin is drawn.
    assert_eq!(r.template.inputs, vec![Coin { asset: asset_x(), amount: 10_000 }]);
    match &r.call {
        ScriptCall::SwapExactOutput { amount_out, asset_out, amount_in_max, pools: p, .. } => {
            assert_eq!(*amount_out, 500);
            assert_eq!(*asset_out, asset_z());
            assert_eq!(*amount_in_max, 900);
            assert_eq!(p, &pools);
        },
        _ => panic!("wrong operation"),
    }
}

#[test]
fn execution_fidelity_per_operation() {
    let amm = connect_ok();
    let pool = PoolId::new(asset_x(), asset_y(), false);
    let coins = vec![];
    assert_eq!(
        amm.preview_add_liquidity(pool, 1, 1, 0, 0, 0, None, &coins).mode,
        Execution::StateReadOnly
    );
    assert_eq!(
        amm.preview_remove_liquidity(pool, 1, 0, 0, 0, None, &coins).mode,
        Execution::StateReadOnly
    );
    assert_eq!(
        amm.preview_swap_exact_input(1, asset_x(), 0, vec![pool], 0, None, &coins).mode,
        Execution::StateReadOnly
    );
    assert_eq!(
        amm.swap_exact_output(1, asset_y(), 1, vec![pool], 0, None, &coins).mode,
        Execution::Realistic
    );
}

#[test]
fn previews_are_idempotent() {
    // Two sequential previews with identical parameters against unchanged
    // state resolve to identical requests: previewing mutates nothing.
    let amm = connect_ok();
    let pool = PoolId::new(asset_x(), asset_y(), false);
    let coins = vec![Coin { asset: asset_x(), amount: 1000 }];
    let r1 = amm.preview_swap_exact_input(100, asset_x(), 1, vec![pool], 99, None, &coins);
    let r2 = amm.preview_swap_exact_input(100, asset_x(), 1, vec![pool], 99, None, &coins);
    assert_eq!(r1, r2);
    let a1 = amm.preview_add_liquidity(pool, 100, 200, 1, 1, 5, None, &coins);
    let a2 = amm.preview_add_liquidity(pool, 100, 200, 1, 1, 5, None, &coins);
    assert_eq!(a1, a2);
}

#[test]
fn extraction_rejects_a_mismatched_shape() {
    assert_eq!(extract_swap(ScriptOutput::RemoveLiquidity((1, 2))), None);
    assert_eq!(
        extract_add_liquidity(ScriptOutput::Swap(vec![(1, asset_x())])),
        None
    );
    assert_eq!(
        extract_remove_liquidity(ScriptOutput::AddLiquidity(Asset { id: asset_x(), amount: 1 })),
        None
    );
}
