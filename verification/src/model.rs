use vstd::prelude::*;

verus! {

/// An asset identifier on the ledger. The ledger's fixed total order over
/// asset identifiers is the numeric order on `bits`; pool identities are
/// kept canonical under that order.
#[derive(Clone, Copy, PartialEq, Eq, Structural, Debug)]
pub struct AssetId {
    pub bits: u64,
}

/// The identifier of a deployed contract.
#[derive(Clone, Copy, PartialEq, Eq, Structural, Debug)]
pub struct ContractId {
    pub bits: u64,
}

/// An account identity: either an externally owned address or a contract.
#[derive(Clone, Copy, PartialEq, Eq, Structural, Debug)]
pub enum Identity {
    Address(u64),
    Contract(u64),
}

/// The 32-byte address derived from the simulation identity's public key.
#[derive(Clone, PartialEq, Eq, Debug)]
pub struct Address {
    pub bytes: Vec<u8>,
}

impl View for Address {
    type V = Seq<u8>;

    open spec fn view(&self) -> Seq<u8> {
        self.bytes@
    }
}

impl Address {
    pub open spec fn wf(self) -> bool {
        self.bytes@.len() == 32
    }

    /// A field-for-field copy of the address.
    pub fn duplicate(&self) -> (r: Address)
        ensures
            r@ == self@,
    {
        let mut bytes: Vec<u8> = Vec::new();
        let mut i: usize = 0;
        while i < self.bytes.len()
            invariant
                i <= self.bytes.len(),
                bytes@ == self.bytes@.take(i as int),
            decreases self.bytes.len() - i,
        {
            bytes.push(self.bytes[i]);
            i = i + 1;
            proof {
                assert(bytes@ =~= self.bytes@.take(i as int));
            }
        }
        proof {
            assert(bytes@ =~= self.bytes@);
        }
        Address { bytes }
    }
}

/// A pool identity: an ordered pair of asset identifiers plus the pool-kind
/// flag (`true` for a stable curve, `false` for a volatile one). The pair is
/// canonical when `asset_0` does not exceed `asset_1` in the asset order.
#[derive(Clone, Copy, PartialEq, Eq, Structural, Debug)]
pub struct PoolId {
    pub asset_0: AssetId,
    pub asset_1: AssetId,
    pub stable: bool,
}

/// The canonical pool identity for a pair of assets: the same pool maps to
/// the same identity regardless of the order the assets are supplied in.
pub open spec fn canonical_pool_id(a: AssetId, b: AssetId, stable: bool) -> PoolId {
    if a.bits <= b.bits {
        PoolId { asset_0: a, asset_1: b, stable }
    } else {
        PoolId { asset_0: b, asset_1: a, stable }
    }
}

impl PoolId {
    pub open spec fn wf(self) -> bool {
        self.asset_0.bits <= self.asset_1.bits
    }

    /// Builds the canonical identity of the pool holding `a` and `b`.
    pub fn new(a: AssetId, b: AssetId, stable: bool) -> (r: PoolId)
        ensures
            r == canonical_pool_id(a, b, stable),
            r.wf(),
    {
        if a.bits <= b.bits {
            PoolId { asset_0: a, asset_1: b, stable }
        } else {
            PoolId { asset_0: b, asset_1: a, stable }
        }
    }
}

/// An asset identifier together with an amount: a desired or minimum bound
/// supplied by the caller, an operation's spend, or a simulated outcome.
#[derive(Clone, Copy, PartialEq, Eq, Structural, Debug)]
pub struct Asset {
    pub id: AssetId,
    pub amount: u64,
}

/// An unspent coin held by the simulation identity, as reported by the
/// ledger node's balance query.
#[derive(Clone, Copy, PartialEq, Eq, Structural, Debug)]
pub struct Coin {
    pub asset: AssetId,
    pub amount: u64,
}

/// The four fee-rate fields of the AMM's fee schedule.
#[derive(Clone, Copy, PartialEq, Eq, Structural, Debug)]
pub struct AmmFees {
    pub lp_fee_volatile: u64,
    pub lp_fee_stable: u64,
    pub protocol_fee_volatile: u64,
    pub protocol_fee_stable: u64,
}

/// The descriptor of a liquidity-provider token; only constructed when all
/// four of its on-chain lookups succeed.
#[derive(Clone, PartialEq, Eq, Debug)]
pub struct LpAssetInfo {
    pub asset_id: AssetId,
    pub name: String,
    pub symbol: String,
    pub decimals: u8,
    pub total_supply: u64,
}

/// The contract's tri-state ownership value.
#[derive(Clone, Copy, PartialEq, Eq, Structural, Debug)]
pub enum State {
    Uninitialized,
    Initialized(Identity),
    Revoked,
}

/// An on-chain state snapshot for a pool, returned unmodified by the
/// pool-metadata query.
#[derive(Clone, Copy, PartialEq, Eq, Structural, Debug)]
pub struct PoolMetadata {
    pub pool_id: PoolId,
    pub reserve_0: u64,
    pub reserve_1: u64,
    pub liquidity: Asset,
    pub decimals_0: u8,
    pub decimals_1: u8,
}

/// The policy parameters attached to a simulated transaction. Every field
/// left `None` is filled with the node's default.
#[derive(Clone, Copy, PartialEq, Eq, Debug)]
pub struct TxPolicies {
    pub tip: Option<u64>,
    pub witness_limit: Option<u64>,
    pub maturity: Option<u64>,
    pub max_fee: Option<u64>,
    pub script_gas_limit: Option<u64>,
}

pub open spec fn default_tx_policies() -> TxPolicies {
    TxPolicies { tip: None, witness_limit: None, maturity: None, max_fee: None, script_gas_limit: None }
}

impl Default for TxPolicies {
    /// Policies with every field left to the node's default.
    fn default() -> (r: TxPolicies)
        ensures
            r == default_tx_policies(),
    {
        TxPolicies { tip: None, witness_limit: None, maturity: None, max_fee: None, script_gas_limit: None }
    }
}

/// The generous-but-bounded fee ceiling attached to every read-only query:
/// no real fee is paid, so the ceiling only needs to satisfy execution cost
/// estimation.
pub open spec fn sufficient_tx_policies_spec() -> TxPolicies {
    TxPolicies {
        tip: None,
        witness_limit: None,
        maturity: None,
        max_fee: Some(1_000_000_000u64),
        script_gas_limit: None,
    }
}

/// Builds the fee policy used by every read-only query.
pub fn sufficient_tx_policies() -> (r: TxPolicies)
    ensures
        r == sufficient_tx_policies_spec(),
{
    TxPolicies {
        tip: None,
        witness_limit: None,
        maturity: None,
        max_fee: Some(1_000_000_000u64),
        script_gas_limit: None,
    }
}

/// The fee policy a preview runs under: the caller's override, or the
/// default policies when none is given.
pub open spec fn policies_or_default(t: Option<TxPolicies>) -> TxPolicies {
    match t {
        Some(p) => p,
        None => default_tx_policies(),
    }
}

/// The two non-committing execution fidelities of the simulation executor.
#[derive(Clone, Copy, PartialEq, Eq, Structural, Debug)]
pub enum Execution {
    /// Cheaper: reads current state without exercising settlement logic.
    StateReadOnly,
    /// Exercises the real execution path; needed where the operation's
    /// on-chain logic must walk and charge each hop.
    Realistic,
}

/// One transaction output of a preview template: the single synthetic
/// change output returned to the simulation identity.
#[derive(Clone, PartialEq, Eq, Debug)]
pub enum Output {
    Change { to: Address, asset: AssetId, amount: u64 },
}

/// The view of an `Output`.
#[verifier::ext_equal]
pub enum OutputV {
    Change { to: Seq<u8>, asset: AssetId, amount: u64 },
}

impl View for Output {
    type V = OutputV;

    open spec fn view(&self) -> OutputV {
        match self {
            Output::Change { to, asset, amount } => (OutputV::Change {
                to: to@,
                asset: *asset,
                amount: *amount,
            }),
        }
    }
}

/// The errors this core can raise itself. Transport and execution failures
/// of collaborators are propagated by the caller, never translated here.
#[derive(Clone, Copy, PartialEq, Eq, Structural, Debug)]
pub enum MiraError {
    /// The fixed simulation key could not be parsed or is not a valid
    /// secp256k1 scalar.
    InvalidKey,
}

} // verus!
