use vstd::prelude::*;
use crate::hexutil::all_hex_digits;
use crate::hexutil::decode_hex;
use crate::hexutil::hex_decoded;
use crate::lp::get_lp_asset_id;
use crate::lp::lp_asset_id_spec;
use crate::model::Address;
use crate::model::AmmFees;
use crate::model::Asset;
use crate::model::AssetId;
use crate::model::Coin;
use crate::model::ContractId;
use crate::model::Execution;
use crate::model::Identity;
use crate::model::LpAssetInfo;
use crate::model::MiraError;
use crate::model::PoolId;
use crate::model::State;
use crate::model::TxPolicies;
use crate::model::policies_or_default;
use crate::model::sufficient_tx_policies;
use crate::model::sufficient_tx_policies_spec;
use crate::outside::is_valid_secret_key;
use crate::outside::public_key_hash;
use crate::outside::public_key_of;
use crate::outside::secret_key_from_bytes;
use crate::path::asset_id_in_spec;
use crate::path::get_asset_id_in;
use crate::template::TemplateV;
use crate::template::TransactionTemplate;
use crate::template::build_transaction_template;
use crate::template::template_spec;

verus! {

/// One non-mutating query method of the deployed AMM contract, with its
/// arguments.
#[derive(Clone, Copy, PartialEq, Eq, Structural, Debug)]
pub enum ContractMethod {
    PoolMetadata(PoolId),
    Fees,
    Hook,
    TotalAssets,
    Name(AssetId),
    Symbol(AssetId),
    Decimals(AssetId),
    TotalSupply(AssetId),
    Owner,
}

/// A fully resolved read-only contract call: which method, under which fee
/// ceiling, in which execution fidelity. The caller issues it against the
/// node and the contract's declared value comes back unmodified.
#[derive(Clone, Copy, PartialEq, Eq, Debug)]
pub struct QueryRequest {
    pub method: ContractMethod,
    pub tx_policies: TxPolicies,
    pub mode: Execution,
}

/// The read-only query issuing `method`: every such call runs state-read-only
/// under the generous-but-bounded fee ceiling.
pub open spec fn query_spec(method: ContractMethod) -> QueryRequest {
    QueryRequest {
        method,
        tx_policies: sufficient_tx_policies_spec(),
        mode: Execution::StateReadOnly,
    }
}

/// The declared parameters of one pre-compiled operation template.
#[derive(Clone, PartialEq, Eq, Debug)]
pub enum ScriptCall {
    AddLiquidity {
        pool_id: PoolId,
        amount_0_desired: u64,
        amount_1_desired: u64,
        amount_0_min: u64,
        amount_1_min: u64,
        recipient: Address,
        deadline: u32,
    },
    RemoveLiquidity {
        pool_id: PoolId,
        liquidity: u64,
        amount_0_min: u64,
        amount_1_min: u64,
        recipient: Address,
        deadline: u32,
    },
    SwapExactInput {
        amount_in: u64,
        asset_in: AssetId,
        amount_out_min: u64,
        pools: Vec<PoolId>,
        recipient: Address,
        deadline: u32,
    },
    SwapExactOutput {
        amount_out: u64,
        asset_out: AssetId,
        amount_in_max: u64,
        pools: Vec<PoolId>,
        recipient: Address,
        deadline: u32,
    },
}

/// The view of a `ScriptCall`.
#[verifier::ext_equal]
pub enum ScriptCallV {
    AddLiquidity {
        pool_id: PoolId,
        amount_0_desired: u64,
        amount_1_desired: u64,
        amount_0_min: u64,
        amount_1_min: u64,
        recipient: Seq<u8>,
        deadline: u32,
    },
    RemoveLiquidity {
        pool_id: PoolId,
        liquidity: u64,
        amount_0_min: u64,
        amount_1_min: u64,
        recipient: Seq<u8>,
        deadline: u32,
    },
    SwapExactInput {
        amount_in: u64,
        asset_in: AssetId,
        amount_out_min: u64,
        pools: Seq<PoolId>,
        recipient: Seq<u8>,
        deadline: u32,
    },
    SwapExactOutput {
        amount_out: u64,
        asset_out: AssetId,
        amount_in_max: u64,
        pools: Seq<PoolId>,
        recipient: Seq<u8>,
        deadline: u32,
    },
}

impl View for ScriptCall {
    type V = ScriptCallV;

    open spec fn view(&self) -> ScriptCallV {
        match self {
            ScriptCall::AddLiquidity {
                pool_id,
                amount_0_desired,
                amount_1_desired,
                amount_0_min,
                amount_1_min,
                recipient,
                deadline,
            } => (ScriptCallV::AddLiquidity {
                pool_id: *pool_id,
                amount_0_desired: *amount_0_desired,
                amount_1_desired: *amount_1_desired,
                amount_0_min: *amount_0_min,
                amount_1_min: *amount_1_min,
                recipient: recipient@,
                deadline: *deadline,
            }),
            ScriptCall::RemoveLiquidity {
                pool_id,
                liquidity,
                amount_0_min,
                amount_1_min,
                recipient,
                deadline,
            } => (ScriptCallV::RemoveLiquidity {
                pool_id: *pool_id,
                liquidity: *liquidity,
                amount_0_min: *amount_0_min,
                amount_1_min: *amount_1_min,
                recipient: recipient@,
                deadline: *deadline,
            }),
            ScriptCall::SwapExactInput {
                amount_in,
                asset_in,
                amount_out_min,
                pools,
                recipient,
                deadline,
            } => (ScriptCallV::SwapExactInput {
                amount_in: *amount_in,
                asset_in: *asset_in,
                amount_out_min: *amount_out_min,
                pools: pools@,
                recipient: recipient@,
                deadline: *deadline,
            }),
            ScriptCall::SwapExactOutput {
                amount_out,
                asset_out,
                amount_in_max,
                pools,
                recipient,
                deadline,
            } => (ScriptCallV::SwapExactOutput {
                amount_out: *amount_out,
                asset_out: *asset_out,
                amount_in_max: *amount_in_max,
                pools: pools@,
                recipient: recipient@,
                deadline: *deadline,
            }),
        }
    }
}

/// An assembled preview: the operation template's parameters, the
/// transaction template it runs inside, the contract it is bound to, and
/// the execution fidelity. The caller executes it non-committing and the
/// operation's declared value comes back unmodified.
#[derive(Clone, PartialEq, Eq, Debug)]
pub struct PreviewRequest {
    pub contract: ContractId,
    pub call: ScriptCall,
    pub template: TransactionTemplate,
    pub mode: Execution,
}

/// The view of a `PreviewRequest`.
#[verifier::ext_equal]
pub struct PreviewRequestV {
    pub contract: ContractId,
    pub call: ScriptCallV,
    pub template: TemplateV,
    pub mode: Execution,
}

impl View for PreviewRequest {
    type V = PreviewRequestV;

    open spec fn view(&self) -> PreviewRequestV {
        PreviewRequestV {
            contract: self.contract,
            call: self.call@,
            template: self.template@,
            mode: self.mode,
        }
    }
}

/// A pre-compiled operation template bound to the AMM contract through its
/// configuration slot.
#[derive(Clone, Copy, PartialEq, Eq, Structural, Debug)]
pub struct ScriptHandle {
    pub bound_contract: ContractId,
}

/// The read-only simulation facade: the simulation identity's derived
/// address, the bound AMM contract, and the four operation templates bound
/// to that contract.
#[derive(Clone, PartialEq, Eq, Debug)]
pub struct ReadonlyMiraAmm {
    pub contract_id: ContractId,
    pub simulation_address: Address,
    pub add_liquidity_script: ScriptHandle,
    pub remove_liquidity_script: ScriptHandle,
    pub swap_exact_input_script: ScriptHandle,
    pub swap_exact_output_script: ScriptHandle,
}

/// The view of the facade.
#[verifier::ext_equal]
pub struct AmmV {
    pub contract_id: ContractId,
    pub simulation_address: Seq<u8>,
    pub add_liquidity_contract: ContractId,
    pub remove_liquidity_contract: ContractId,
    pub swap_exact_input_contract: ContractId,
    pub swap_exact_output_contract: ContractId,
}

impl View for ReadonlyMiraAmm {
    type V = AmmV;

    open spec fn view(&self) -> AmmV {
        AmmV {
            contract_id: self.contract_id,
            simulation_address: self.simulation_address@,
            add_liquidity_contract: self.add_liquidity_script.bound_contract,
            remove_liquidity_contract: self.remove_liquidity_script.bound_contract,
            swap_exact_input_contract: self.swap_exact_input_script.bound_contract,
            swap_exact_output_contract: self.swap_exact_output_script.bound_contract,
        }
    }
}

impl AmmV {
    /// Every operation template is bound to the facade's contract, and the
    /// simulation address is a 32-byte hash.
    pub open spec fn wf(self) -> bool {
        &&& self.add_liquidity_contract == self.contract_id
        &&& self.remove_liquidity_contract == self.contract_id
        &&& self.swap_exact_input_contract == self.contract_id
        &&& self.swap_exact_output_contract == self.contract_id
        &&& self.simulation_address.len() == 32
    }
}

/// The spends of an add-liquidity preview: the desired amount of each
/// pooled asset.
pub open spec fn add_liquidity_spends(
    pool_id: PoolId,
    amount_0_desired: u64,
    amount_1_desired: u64,
) -> Seq<Asset> {
    seq![
        Asset { id: pool_id.asset_0, amount: amount_0_desired },
        Asset { id: pool_id.asset_1, amount: amount_1_desired },
    ]
}

/// The spend of a remove-liquidity preview: the pool's LP token.
pub open spec fn remove_liquidity_spends(
    contract: ContractId,
    pool_id: PoolId,
    liquidity: u64,
) -> Seq<Asset> {
    seq![Asset { id: lp_asset_id_spec(contract, pool_id), amount: liquidity }]
}

/// The spend of a swap-exact-input preview: the input asset.
pub open spec fn swap_exact_input_spends(asset_in: AssetId, amount_in: u64) -> Seq<Asset> {
    seq![Asset { id: asset_in, amount: amount_in }]
}

/// The spend of a swap-exact-output preview: the resolved input asset of
/// the hop path, drawn up to the caller's input bound.
pub open spec fn swap_exact_output_spends(
    asset_out: AssetId,
    amount_in_max: u64,
    pools: Seq<PoolId>,
) -> Seq<Asset> {
    seq![Asset { id: asset_id_in_spec(asset_out, pools), amount: amount_in_max }]
}

/// The fully resolved add-liquidity preview.
pub open spec fn add_liquidity_request_spec(
    s: AmmV,
    pool_id: PoolId,
    amount_0_desired: u64,
    amount_1_desired: u64,
    amount_0_min: u64,
    amount_1_min: u64,
    deadline: u32,
    tx_policies: Option<TxPolicies>,
    coins: Seq<Coin>,
) -> PreviewRequestV {
    PreviewRequestV {
        contract: s.contract_id,
        call: ScriptCallV::AddLiquidity {
            pool_id,
            amount_0_desired,
            amount_1_desired,
            amount_0_min,
            amount_1_min,
            recipient: s.simulation_address,
            deadline,
        },
        template: template_spec(
            s.simulation_address,
            add_liquidity_spends(pool_id, amount_0_desired, amount_1_desired),
            coins,
            policies_or_default(tx_policies),
        ),
        mode: Execution::StateReadOnly,
    }
}

/// The fully resolved remove-liquidity preview.
pub open spec fn remove_liquidity_request_spec(
    s: AmmV,
    pool_id: PoolId,
    liquidity: u64,
    amount_0_min: u64,
    amount_1_min: u64,
    deadline: u32,
    tx_policies: Option<TxPolicies>,
    coins: Seq<Coin>,
) -> PreviewRequestV {
    PreviewRequestV {
        contract: s.contract_id,
        call: ScriptCallV::RemoveLiquidity {
            pool_id,
            liquidity,
            amount_0_min,
            amount_1_min,
            recipient: s.simulation_address,
            deadline,
        },
        template: template_spec(
            s.simulation_address,
            remove_liquidity_spends(s.contract_id, pool_id, liquidity),
            coins,
            policies_or_default(tx_policies),
        ),
        mode: Execution::StateReadOnly,
    }
}

/// The fully resolved swap-exact-input preview.
pub open spec fn swap_exact_input_request_spec(
    s: AmmV,
    amount_in: u64,
    asset_in: AssetId,
    amount_out_min: u64,
    pools: Seq<PoolId>,
    deadline: u32,
    tx_policies: Option<TxPolicies>,
    coins: Seq<Coin>,
) -> PreviewRequestV {
    PreviewRequestV {
        contract: s.contract_id,
        call: ScriptCallV::SwapExactInput {
            amount_in,
            asset_in,
            amount_out_min,
            pools,
            recipient: s.simulation_address,
            deadline,
        },
        template: template_spec(
            s.simulation_address,
            swap_exact_input_spends(asset_in, amount_in),
            coins,
            policies_or_default(tx_policies),
        ),
        mode: Execution::StateReadOnly,
    }
}

/// The fully resolved swap-exact-output preview; this one runs in the
/// realistic fidelity, since the reverse calculation must walk and charge
/// each hop of the real execution path.
pub open spec fn swap_exact_output_request_spec(
    s: AmmV,
    amount_out: u64,
    asset_out: AssetId,
    amount_in_max: u64,
    pools: Seq<PoolId>,
    deadline: u32,
    tx_policies: Option<TxPolicies>,
    coins: Seq<Coin>,
) -> PreviewRequestV {
    PreviewRequestV {
        contract: s.contract_id,
        call: ScriptCallV::SwapExactOutput {
            amount_out,
            asset_out,
            amount_in_max,
            pools,
            recipient: s.simulation_address,
            deadline,
        },
        template: template_spec(
            s.simulation_address,
            swap_exact_output_spends(asset_out, amount_in_max, pools),
            coins,
            policies_or_default(tx_policies),
        ),
        mode: Execution::Realistic,
    }
}

impl ReadonlyMiraAmm {
    pub open spec fn wf(self) -> bool {
        self@.wf()
    }

    /// Binds the simulation facade: derives the simulation identity from
    /// the fixed, well-known key (64 hexadecimal digits), binds the target
    /// AMM contract (the caller's override, or the well-known default), and
    /// binds the four operation templates to that contract's address.
    ///
    /// The key is publicly known and non-custodial: it must never be
    /// treated as holding real value, and an insufficient balance at its
    /// address is an accepted failure mode of previews, not a fault.
    pub fn connect(
        key_hex: &Vec<u8>,
        contract_id: Option<ContractId>,
        default_contract_id: ContractId,
    ) -> (r: Result<ReadonlyMiraAmm, MiraError>)
        ensures
            r.is_ok() == (key_hex@.len() == 64 && all_hex_digits(key_hex@)
                && is_valid_secret_key(hex_decoded(key_hex@))),
            r matches Ok(amm) ==> amm.wf() && amm.contract_id == (match contract_id {
                Some(c) => c,
                None => default_contract_id,
            }),
            r matches Err(e) ==> e == MiraError::InvalidKey,
    {
        if key_hex.len() != 64 {
            return Err(MiraError::InvalidKey);
        }
        let decoded = match decode_hex(key_hex) {
            Some(d) => d,
            None => {
                return Err(MiraError::InvalidKey);
            },
        };
        let key = match secret_key_from_bytes(&decoded) {
            Some(k) => k,
            None => {
                return Err(MiraError::InvalidKey);
            },
        };
        let public_key = public_key_of(&key);
        let address_bytes = public_key_hash(&public_key);
        let cid = match contract_id {
            Some(c) => c,
            None => default_contract_id,
        };
        let handle = ScriptHandle { bound_contract: cid };
        Ok(
            ReadonlyMiraAmm {
                contract_id: cid,
                simulation_address: Address { bytes: address_bytes },
                add_liquidity_script: handle,
                remove_liquidity_script: handle,
                swap_exact_input_script: handle,
                swap_exact_output_script: handle,
            },
        )
    }

    /// The identifier of the bound AMM contract.
    pub fn id(&self) -> (r: ContractId)
        ensures
            r == self.contract_id,
    {
        self.contract_id
    }

    /// The query for a pool's state snapshot; the node's answer (the
    /// metadata, or nothing for an unknown pool) comes back unmodified.
    pub fn pool_metadata(&self, pool_id: PoolId) -> (r: QueryRequest)
        requires
            pool_id.wf(),
        ensures
            r == query_spec(ContractMethod::PoolMetadata(pool_id)),
    {
        QueryRequest {
            method: ContractMethod::PoolMetadata(pool_id),
            tx_policies: sufficient_tx_policies(),
            mode: Execution::StateReadOnly,
        }
    }

    /// The query for the AMM's fee schedule; `fees_result` normalizes the
    /// contract's answer.
    pub fn fees(&self) -> (r: QueryRequest)
        ensures
            r == query_spec(ContractMethod::Fees),
    {
        QueryRequest {
            method: ContractMethod::Fees,
            tx_policies: sufficient_tx_policies(),
            mode: Execution::StateReadOnly,
        }
    }

    /// The query for the configured hook contract; the node's answer (a
    /// contract identifier, or nothing) comes back unmodified.
    pub fn hook(&self) -> (r: QueryRequest)
        ensures
            r == query_spec(ContractMethod::Hook),
    {
        QueryRequest {
            method: ContractMethod::Hook,
            tx_policies: sufficient_tx_policies(),
            mode: Execution::StateReadOnly,
        }
    }

    /// The query for the total count of registered assets.
    pub fn total_assets(&self) -> (r: QueryRequest)
        ensures
            r == query_spec(ContractMethod::TotalAssets),
    {
        QueryRequest {
            method: ContractMethod::TotalAssets,
            tx_policies: sufficient_tx_policies(),
            mode: Execution::StateReadOnly,
        }
    }

    /// The four sub-queries behind an LP-asset descriptor: name, symbol,
    /// decimals and total supply; `lp_asset_info_result` assembles their
    /// answers all-or-nothing.
    pub fn lp_asset_info(&self, asset_id: AssetId) -> (r: Vec<QueryRequest>)
        ensures
            r@ == seq![
                query_spec(ContractMethod::Name(asset_id)),
                query_spec(ContractMethod::Symbol(asset_id)),
                query_spec(ContractMethod::Decimals(asset_id)),
                query_spec(ContractMethod::TotalSupply(asset_id)),
            ],
    {
        let mut r: Vec<QueryRequest> = Vec::new();
        r.push(QueryRequest {
            method: ContractMethod::Name(asset_id),
            tx_policies: sufficient_tx_policies(),
            mode: Execution::StateReadOnly,
        });
        r.push(QueryRequest {
            method: ContractMethod::Symbol(asset_id),
            tx_policies: sufficient_tx_policies(),
            mode: Execution::StateReadOnly,
        });
        r.push(QueryRequest {
            method: ContractMethod::Decimals(asset_id),
            tx_policies: sufficient_tx_policies(),
            mode: Execution::StateReadOnly,
        });
        r.push(QueryRequest {
            method: ContractMethod::TotalSupply(asset_id),
            tx_policies: sufficient_tx_policies(),
            mode: Execution::StateReadOnly,
        });
        proof {
            assert(r@ =~= seq![
                query_spec(ContractMethod::Name(asset_id)),
                query_spec(ContractMethod::Symbol(asset_id)),
                query_spec(ContractMethod::Decimals(asset_id)),
                query_spec(ContractMethod::TotalSupply(asset_id)),
            ]);
        }
        r
    }

    /// The query for the contract's ownership state; `owner_result`
    /// collapses the tri-state answer.
    pub fn owner(&self) -> (r: QueryRequest)
        ensures
            r == query_spec(ContractMethod::Owner),
    {
        QueryRequest {
            method: ContractMethod::Owner,
            tx_policies: sufficient_tx_policies(),
            mode: Execution::StateReadOnly,
        }
    }

    /// Assembles the add-liquidity preview: inputs drawing the two desired
    /// amounts from the pooled assets, one synthetic change output, and the
    /// state-read-only fidelity.
    pub fn preview_add_liquidity(
        &self,
        pool_id: PoolId,
        amount_0_desired: u64,
        amount_1_desired: u64,
        amount_0_min: u64,
        amount_1_min: u64,
        deadline: u32,
        tx_policies: Option<TxPolicies>,
        coins: &Vec<Coin>,
    ) -> (r: PreviewRequest)
        requires
            self.wf(),
            pool_id.wf(),
        ensures
            r@ == add_liquidity_request_spec(
                self@,
                pool_id,
                amount_0_desired,
                amount_1_desired,
                amount_0_min,
                amount_1_min,
                deadline,
                tx_policies,
                coins@,
            ),
    {
        let mut spends: Vec<Asset> = Vec::new();
        spends.push(Asset { id: pool_id.asset_0, amount: amount_0_desired });
        spends.push(Asset { id: pool_id.asset_1, amount: amount_1_desired });
        proof {
            assert(spends@ =~= add_liquidity_spends(pool_id, amount_0_desired, amount_1_desired));
        }
        let policies = match tx_policies {
            Some(p) => p,
            None => TxPolicies::default(),
        };
        let template = build_transaction_template(&self.simulation_address, &spends, coins, policies);
        let recipient = self.simulation_address.duplicate();
        let r = PreviewRequest {
            contract: self.add_liquidity_script.bound_contract,
            call: ScriptCall::AddLiquidity {
                pool_id,
                amount_0_desired,
                amount_1_desired,
                amount_0_min,
                amount_1_min,
                recipient,
                deadline,
            },
            template,
            mode: Execution::StateReadOnly,
        };
        proof {
            assert(r@ =~= add_liquidity_request_spec(
                self@,
                pool_id,
                amount_0_desired,
                amount_1_desired,
                amount_0_min,
                amount_1_min,
                deadline,
                tx_policies,
                coins@,
            ));
        }
        r
    }

    /// Assembles the remove-liquidity preview: one input drawing the pool's
    /// LP token, one synthetic change output, and the state-read-only
    /// fidelity.
    pub fn preview_remove_liquidity(
        &self,
        pool_id: PoolId,
        liquidity: u64,
        amount_0_min: u64,
        amount_1_min: u64,
        deadline: u32,
        tx_policies: Option<TxPolicies>,
        coins: &Vec<Coin>,
    ) -> (r: PreviewRequest)
        requires
            self.wf(),
            pool_id.wf(),
        ensures
            r@ == remove_liquidity_request_spec(
                self@,
                pool_id,
                liquidity,
                amount_0_min,
                amount_1_min,
                deadline,
                tx_policies,
                coins@,
            ),
    {
        let lp_asset_id = get_lp_asset_id(self.id(), &pool_id);
        let mut spends: Vec<Asset> = Vec::new();
        spends.push(Asset { id: lp_asset_id, amount: liquidity });
        proof {
            assert(spends@ =~= remove_liquidity_spends(self@.contract_id, pool_id, liquidity));
        }
        let policies = match tx_policies {
            Some(p) => p,
            None => TxPolicies::default(),
        };
        let template = build_transaction_template(&self.simulation_address, &spends, coins, policies);
        let recipient = self.simulation_address.duplicate();
        let r = PreviewRequest {
            contract: self.remove_liquidity_script.bound_contract,
            call: ScriptCall::RemoveLiquidity {
                pool_id,
                liquidity,
                amount_0_min,
                amount_1_min,
                recipient,
                deadline,
            },
            template,
            mode: Execution::StateReadOnly,
        };
        proof {
            assert(r@ =~= remove_liquidity_request_spec(
                self@,
                pool_id,
                liquidity,
                amount_0_min,
                amount_1_min,
                deadline,
                tx_policies,
                coins@,
            ));
        }
        r
    }

    /// Assembles the swap-exact-input preview: one input drawing the input
    /// asset, one synthetic change output, and the state-read-only
    /// fidelity.
    pub fn preview_swap_exact_input(
        &self,
        amount_in: u64,
        asset_in: AssetId,
        amount_out_min: u64,
        pools: Vec<PoolId>,
        deadline: u32,
        tx_policies: Option<TxPolicies>,
        coins: &Vec<Coin>,
    ) -> (r: PreviewRequest)
        requires
            self.wf(),
        ensures
            r@ == swap_exact_input_request_spec(
                self@,
                amount_in,
                asset_in,
                amount_out_min,
                pools@,
                deadline,
                tx_policies,
                coins@,
            ),
    {
        let ghost pools_view = pools@;
        let mut spends: Vec<Asset> = Vec::new();
        spends.push(Asset { id: asset_in, amount: amount_in });
        proof {
            assert(spends@ =~= swap_exact_input_spends(asset_in, amount_in));
        }
        let policies = match tx_policies {
            Some(p) => p,
            None => TxPolicies::default(),
        };
        let template = build_transaction_template(&self.simulation_address, &spends, coins, policies);
        let recipient = self.simulation_address.duplicate();
        let r = PreviewRequest {
            contract: self.swap_exact_input_script.bound_contract,
            call: ScriptCall::SwapExactInput {
                amount_in,
                asset_in,
                amount_out_min,
                pools,
                recipient,
                deadline,
            },
            template,
            mode: Execution::StateReadOnly,
        };
        proof {
            assert(r@ =~= swap_exact_input_request_spec(
                self@,
                amount_in,
                asset_in,
                amount_out_min,
                pools_view,
                deadline,
                tx_policies,
                coins@,
            ));
        }
        r
    }

    /// Assembles the swap-exact-output preview. The caller supplies the
    /// output asset and the hop path; the input asset to draw balance from
    /// is resolved by walking the path backwards. This operation runs in
    /// the realistic fidelity: its on-chain logic must walk and charge each
    /// hop to determine the required input precisely.
    pub fn swap_exact_output(
        &self,
        amount_out: u64,
        asset_out: AssetId,
        amount_in_max: u64,
        pools: Vec<PoolId>,
        deadline: u32,
        tx_policies: Option<TxPolicies>,
        coins: &Vec<Coin>,
    ) -> (r: PreviewRequest)
        requires
            self.wf(),
        ensures
            r@ == swap_exact_output_request_spec(
                self@,
                amount_out,
                asset_out,
                amount_in_max,
                pools@,
                deadline,
                tx_policies,
                coins@,
            ),
    {
        let ghost pools_view = pools@;
        let asset_in = get_asset_id_in(asset_out, &pools);
        let mut spends: Vec<Asset> = Vec::new();
        spends.push(Asset { id: asset_in, amount: amount_in_max });
        proof {
            assert(spends@ =~= swap_exact_output_spends(asset_out, amount_in_max, pools@));
        }
        let policies = match tx_policies {
            Some(p) => p,
            None => TxPolicies::default(),
        };
        let template = build_transaction_template(&self.simulation_address, &spends, coins, policies);
        let recipient = self.simulation_address.duplicate();
        let r = PreviewRequest {
            contract: self.swap_exact_output_script.bound_contract,
            call: ScriptCall::SwapExactOutput {
                amount_out,
                asset_out,
                amount_in_max,
                pools,
                recipient,
                deadline,
            },
            template,
            mode: Execution::Realistic,
        };
        proof {
            assert(r@ =~= swap_exact_output_request_spec(
                self@,
                amount_out,
                asset_out,
                amount_in_max,
                pools_view,
                deadline,
                tx_policies,
                coins@,
            ));
        }
        r
    }
}

/// Normalizes the fee-schedule answer: the contract's four fee rates in
/// declaration order — LP fee (volatile), LP fee (stable), protocol fee
/// (volatile), protocol fee (stable).
pub fn fees_result(raw: (u64, u64, u64, u64)) -> (r: AmmFees)
    ensures
        r == (AmmFees {
            lp_fee_volatile: raw.0,
            lp_fee_stable: raw.1,
            protocol_fee_volatile: raw.2,
            protocol_fee_stable: raw.3,
        }),
{
    AmmFees {
        lp_fee_volatile: raw.0,
        lp_fee_stable: raw.1,
        protocol_fee_volatile: raw.2,
        protocol_fee_stable: raw.3,
    }
}

/// Collapses the tri-state ownership answer into an optional owner: both
/// the uninitialized and the revoked state present as no owner.
pub fn owner_result(state: State) -> (r: Option<Identity>)
    ensures
        r == (match state {
            State::Uninitialized => None::<Identity>,
            State::Initialized(owner) => Some(owner),
            State::Revoked => None::<Identity>,
        }),
{
    match state {
        State::Uninitialized => None,
        State::Initialized(owner) => Some(owner),
        State::Revoked => None,
    }
}

/// Assembles an LP-asset descriptor from its four sub-query answers: the
/// descriptor exists exactly when all four answers do; any single absence
/// means "not a recognized LP token", never a partial record.
pub fn lp_asset_info_result(
    asset_id: AssetId,
    name: Option<String>,
    symbol: Option<String>,
    decimals: Option<u8>,
    total_supply: Option<u64>,
) -> (r: Option<LpAssetInfo>)
    ensures
        r.is_some() == (name.is_some() && symbol.is_some() && decimals.is_some()
            && total_supply.is_some()),
        r matches Some(info) ==> info.asset_id == asset_id && name == Some(info.name) && symbol
            == Some(info.symbol) && decimals == Some(info.decimals) && total_supply == Some(
            info.total_supply,
        ),
{
    match (name, symbol, decimals, total_supply) {
        (Some(name), Some(symbol), Some(decimals), Some(total_supply)) => Some(
            LpAssetInfo { asset_id, name, symbol, decimals, total_supply },
        ),
        _ => None,
    }
}

} // verus!
