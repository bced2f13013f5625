use mira_v1::amm::ContractMethod;
use mira_v1::amm::ReadonlyMiraAmm;
use mira_v1::amm::fees_result;
use mira_v1::amm::lp_asset_info_result;
use mira_v1::amm::owner_result;
use mira_v1::hexutil::decode_hex;
use mira_v1::model::AmmFees;
use mira_v1::model::Asset;
use mira_v1::model::AssetId;
use mira_v1::model::ContractId;
use mira_v1::model::Execution;
use mira_v1::model::Identity;
use mira_v1::model::MiraError;
use mira_v1::model::PoolId;
use mira_v1::model::PoolMetadata;
use mira_v1::model::State;
use mira_v1::model::TxPolicies;
use mira_v1::model::sufficient_tx_policies;

fn valid_key_hex() -> Vec<u8> {
    let mut k = vec![b'0'; 63];
    k.push(b'1');
    k
}

fn default_contract() -> ContractId {
    ContractId { bits: 7 }
}

fn connect_ok() -> ReadonlyMiraAmm {
    ReadonlyMiraAmm::connect(&valid_key_hex(), None, default_contract()).unwrap()
}

#[test]
fn connect_binds_default_contract() {
    let amm = connect_ok();
    assert_eq!(amm.contract_id, default_contract());
    assert_eq!(amm.id(), default_contract());
    assert_eq!(amm.add_liquidity_script.bound_contract, default_contract());
    assert_eq!(amm.remove_liquidity_script.bound_contract, default_contract());
    assert_eq!(amm.swap_exact_input_script.bound_contract, default_contract());
    assert_eq!(amm.swap_exact_output_script.bound_contract, default_contract());
    assert_eq!(amm.simulation_address.bytes.len(), 32);
}

#[test]
fn connect_binds_override_contract() {
    let amm =
        ReadonlyMiraAmm::connect(&valid_key_hex(), Some(ContractId { bits: 9 }), default_contract())
            .unwrap();
    assert_eq!(amm.id(), ContractId { bits: 9 });
    assert_eq!(amm.add_liquidity_script.bound_contract, ContractId { bits: 9 });
}

#[test]
fn connect_derives_the_real_key_address() {
    // The simulation address must be the hash of the secp256k1 public key of
    // the fixed key, as the ledger's own cryptography derives it.
    let amm = connect_ok();
    let mut raw = [0u8; 32];
    raw[31] = 1;
    let sk = fuels::crypto::SecretKey::try_from(raw.as_slice()).unwrap();
    let expected: Vec<u8> = (*sk.public_key().hash()).to_vec();
    assert_eq!(amm.simulation_address.bytes, expected);
}

#[test]
fn connect_is_deterministic() {
    let a = connect_ok();
    let b = connect_ok();
    assert_eq!(a.simulation_address, b.simulation_address);
    assert_eq!(a, b);
}

#[test]
fn connect_rejects_wrong_length() {
    let short = vec![b'0'; 10];
    assert_eq!(
        ReadonlyMiraAmm::connect(&short, None, default_contract()),
        Err(MiraError::InvalidKey)
    );
}

#[test]
fn connect_rejects_non_hex() {
    let mut bad = vec![b'0'; 63];
    bad.push(b'g');
    assert_eq!(
        ReadonlyMiraAmm::connect(&bad, None, default_contract()),
        Err(MiraError::InvalidKey)
    );
}

#[test]
fn connect_rejects_zero_scalar() {
    // 64 valid hex digits, but zero is no secp256k1 secret key.
    let zero = vec![b'0'; 64];
    assert_eq!(
        ReadonlyMiraAmm::connect(&zero, None, default_contract()),
        Err(MiraError::InvalidKey)
    );
}

#[test]
fn decode_hex_decodes_bytes() {
    let s = b"00ff10Ab".to_vec();
    assert_eq!(decode_hex(&s), Some(vec![0u8, 255u8, 16u8, 171u8]));
}

#[test]
fn decode_hex_rejects_odd_length() {
    let s = b"abc".to_vec();
    assert_eq!(decode_hex(&s), None);
}

#[test]
fn decode_hex_rejects_bad_digit() {
    let s = b"a?".to_vec();
    assert_eq!(decode_hex(&s), None);
}

#[test]
fn queries_run_read_only_under_the_fee_ceiling() {
    let amm = connect_ok();
    let pool = PoolId::new(AssetId { bits: 1 }, AssetId { bits: 2 }, false);
    let q = amm.pool_metadata(pool);
    assert_eq!(q.method, ContractMethod::PoolMetadata(pool));
    assert_eq!(q.mode, Execution::StateReadOnly);
    assert_eq!(q.tx_policies.max_fee, Some(1_000_000_000));
    assert_eq!(q.tx_policies.tip, None);
    assert_eq!(amm.fees().method, ContractMethod::Fees);
    assert_eq!(amm.hook().method, ContractMethod::Hook);
    assert_eq!(amm.total_assets().method, ContractMethod::TotalAssets);
    assert_eq!(amm.owner().method, ContractMethod::Owner);
    assert_eq!(amm.fees().mode, Execution::StateReadOnly);
    assert_eq!(amm.owner().tx_policies, sufficient_tx_policies());
}

#[test]
fn lp_asset_info_issues_the_four_sub_queries() {
    let amm = connect_ok();
    let asset = AssetId { bits: 42 };
    let qs = amm.lp_asset_info(asset);
    assert_eq!(qs.len(), 4);
    assert_eq!(qs[0].method, ContractMethod::Name(asset));
    assert_eq!(qs[1].method, ContractMethod::Symbol(asset));
    assert_eq!(qs[2].method, ContractMethod::Decimals(asset));
    assert_eq!(qs[3].method, ContractMethod::TotalSupply(asset));
    for q in qs {
        assert_eq!(q.mode, Execution::StateReadOnly);
        assert_eq!(q.tx_policies.max_fee, Some(1_000_000_000));
    }
}

#[test]
fn owner_result_collapses_tri_state() {
    let who = Identity::Address(11);
    assert_eq!(owner_result(State::Uninitialized), None);
    assert_eq!(owner_result(State::Revoked), None);
    assert_eq!(owner_result(State::Initialized(who)), Some(who));
}

#[test]
fn lp_asset_info_result_is_all_or_nothing() {
    let asset = AssetId { bits: 5 };
    let full = lp_asset_info_result(
        asset,
        Some("Pool Token".to_string()),
        Some("PT".to_string()),
        Some(9),
        Some(1000),
    );
    let info = full.unwrap();
    assert_eq!(info.asset_id, asset);
    assert_eq!(info.name, "Pool Token");
    assert_eq!(info.symbol, "PT");
    assert_eq!(info.decimals, 9);
    assert_eq!(info.total_supply, 1000);
    let name = || Some("Pool Token".to_string());
    let symbol = || Some("PT".to_string());
    assert_eq!(lp_asset_info_result(asset, None, symbol(), Some(9), Some(1000)), None);
    assert_eq!(lp_asset_info_result(asset, name(), None, Some(9), Some(1000)), None);
    assert_eq!(lp_asset_info_result(asset, name(), symbol(), None, Some(1000)), None);
    assert_eq!(lp_asset_info_result(asset, name(), symbol(), Some(9), None), None);
}

#[test]
fn fees_result_maps_the_four_rates() {
    let fees = fees_result((30, 5, 10, 2));
    assert_eq!(
        fees,
        AmmFees {
            lp_fee_volatile: 30,
            lp_fee_stable: 5,
            protocol_fee_volatile: 10,
            protocol_fee_stable: 2,
        }
    );
}

#[test]
fn pool_identity_is_canonical_either_way() {
    let x = AssetId { bits: 20 };
    let y = AssetId { bits: 10 };
    let p = PoolId::new(x, y, true);
    let q = PoolId::new(y, x, true);
    assert_eq!(p, q);
    assert!(p.asset_0.bits <= p.asset_1.bits);
    assert_eq!(p.asset_0, y);
    assert_eq!(p.asset_1, x);
    assert!(p.stable);
}

#[test]
fn pool_metadata_echo_matches_canonical_ordering() {
    // A node answer that echoes the queried identity carries the two asset
    // identifiers in the canonical order of the supplied pool identity.
    let x = AssetId { bits: 3 };
    let y = AssetId { bits: 1 };
    let queried = PoolId::new(x, y, false);
    let answer = PoolMetadata {
        pool_id: queried,
        reserve_0: 1000,
        reserve_1: 2000,
        liquidity: Asset { id: AssetId { bits: 77 }, amount: 500 },
        decimals_0: 9,
        decimals_1: 9,
    };
    assert!(answer.pool_id.asset_0.bits <= answer.pool_id.asset_1.bits);
    assert_eq!(answer.pool_id, PoolId::new(y, x, false));
}

#[test]
fn default_policies_leave_everything_to_the_node() {
    let d = TxPolicies::default();
    assert_eq!(d.tip, None);
    assert_eq!(d.witness_limit, None);
    assert_eq!(d.maturity, None);
    assert_eq!(d.max_fee, None);
    assert_eq!(d.script_gas_limit, None);
}
