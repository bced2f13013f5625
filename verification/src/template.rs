use vstd::prelude::*;
use crate::model::Address;
use crate::model::Asset;
use crate::model::AssetId;
use crate::model::Coin;
use crate::model::Output;
use crate::model::OutputV;
use crate::model::TxPolicies;

verus! {

/// The coins drawn (in order) from `coins` to cover `amount` of `asset`:
/// matching coins are taken until the requirement is met. Where the balance
/// runs short every matching coin is taken; the shortfall then surfaces as
/// an execution-layer error during simulation, never as an error of this
/// core.
pub open spec fn select_coins(coins: Seq<Coin>, asset: AssetId, amount: int) -> Seq<Coin>
    decreases coins.len(),
{
    if amount <= 0 || coins.len() == 0 {
        Seq::empty()
    } else if coins[0].asset == asset {
        seq![coins[0]] + select_coins(coins.skip(1), asset, amount - coins[0].amount)
    } else {
        select_coins(coins.skip(1), asset, amount)
    }
}

/// The resolved input set for an ordered list of spends: the concatenation
/// of each spend's selected coins.
pub open spec fn inputs_for_spends(spends: Seq<Asset>, coins: Seq<Coin>) -> Seq<Coin>
    decreases spends.len(),
{
    if spends.len() == 0 {
        Seq::empty()
    } else {
        select_coins(coins, spends[0].id, spends[0].amount as int) + inputs_for_spends(
            spends.skip(1),
            coins,
        )
    }
}

/// Selects the coins that cover one required spend.
pub fn select_coins_exec(coins: &Vec<Coin>, asset: AssetId, amount: u64) -> (r: Vec<Coin>)
    ensures
        r@ == select_coins(coins@, asset, amount as int),
{
    let mut out: Vec<Coin> = Vec::new();
    let mut remaining: u64 = amount;
    let mut i: usize = 0;
    proof {
        assert(coins@.skip(0) =~= coins@);
        assert(out@ + select_coins(coins@, asset, amount as int) =~= select_coins(
            coins@,
            asset,
            amount as int,
        ));
    }
    while i < coins.len() && remaining > 0
        invariant
            i <= coins@.len(),
            out@ + select_coins(coins@.skip(i as int), asset, remaining as int) == select_coins(
                coins@,
                asset,
                amount as int,
            ),
        decreases coins@.len() - i,
    {
        let c = coins[i];
        proof {
            assert(coins@.skip(i as int)[0] == coins@[i as int]);
            assert(coins@.skip(i as int).skip(1) =~= coins@.skip(i as int + 1));
        }
        if c.asset == asset {
            let ghost pre_remaining = remaining as int;
            out.push(c);
            if c.amount >= remaining {
                remaining = 0;
            } else {
                remaining = remaining - c.amount;
            }
            proof {
                assert(select_coins(coins@.skip(i as int + 1), asset, remaining as int)
                    =~= select_coins(coins@.skip(i as int + 1), asset, pre_remaining - c.amount));
                assert(out@ + select_coins(coins@.skip(i as int + 1), asset, remaining as int)
                    =~= select_coins(coins@, asset, amount as int));
            }
        } else {
            proof {
                assert(out@ + select_coins(coins@.skip(i as int + 1), asset, remaining as int)
                    =~= select_coins(coins@, asset, amount as int));
            }
        }
        i = i + 1;
    }
    proof {
        if remaining == 0 {
            assert(out@ + select_coins(coins@.skip(i as int), asset, 0) =~= out@);
        } else {
            assert(coins@.skip(i as int) =~= Seq::<Coin>::empty());
            assert(out@ + select_coins(coins@.skip(i as int), asset, remaining as int) =~= out@);
        }
    }
    out
}

/// Resolves the full input set for an operation's spends.
pub fn build_inputs(spends: &Vec<Asset>, coins: &Vec<Coin>) -> (r: Vec<Coin>)
    ensures
        r@ == inputs_for_spends(spends@, coins@),
{
    let mut out: Vec<Coin> = Vec::new();
    let mut j: usize = 0;
    proof {
        assert(spends@.skip(0) =~= spends@);
        assert(out@ + inputs_for_spends(spends@, coins@) =~= inputs_for_spends(spends@, coins@));
    }
    while j < spends.len()
        invariant
            j <= spends@.len(),
            out@ + inputs_for_spends(spends@.skip(j as int), coins@) == inputs_for_spends(
                spends@,
                coins@,
            ),
        decreases spends@.len() - j,
    {
        let s = spends[j];
        let mut sel = select_coins_exec(coins, s.id, s.amount);
        proof {
            assert(spends@.skip(j as int)[0] == spends@[j as int]);
            assert(spends@.skip(j as int).skip(1) =~= spends@.skip(j as int + 1));
        }
        out.append(&mut sel);
        j = j + 1;
        proof {
            assert(out@ + inputs_for_spends(spends@.skip(j as int), coins@) =~= inputs_for_spends(
                spends@,
                coins@,
            ));
        }
    }
    proof {
        assert(spends@.skip(j as int) =~= Seq::<Asset>::empty());
        assert(out@ + inputs_for_spends(spends@.skip(j as int), coins@) =~= out@);
    }
    out
}

/// The ephemeral, operation-scoped bundle the simulation executor consumes
/// exactly once: resolved inputs, a single synthetic change output, the fee
/// policy, and the variable-output count.
#[derive(Clone, PartialEq, Eq, Debug)]
pub struct TransactionTemplate {
    pub inputs: Vec<Coin>,
    pub outputs: Vec<Output>,
    pub tx_policies: TxPolicies,
    pub variable_outputs: u64,
}

/// The view of a `TransactionTemplate`.
#[verifier::ext_equal]
pub struct TemplateV {
    pub inputs: Seq<Coin>,
    pub outputs: Seq<OutputV>,
    pub tx_policies: TxPolicies,
    pub variable_outputs: u64,
}

impl View for TransactionTemplate {
    type V = TemplateV;

    open spec fn view(&self) -> TemplateV {
        TemplateV {
            inputs: self.inputs@,
            outputs: self.outputs@.map_values(|o: Output| o@),
            tx_policies: self.tx_policies,
            variable_outputs: self.variable_outputs,
        }
    }
}

/// The template an operation with the given spends is simulated with: the
/// spends' resolved inputs and exactly one synthetic change output for the
/// ledger's base asset, returned to the simulation identity.
pub open spec fn template_spec(
    address: Seq<u8>,
    spends: Seq<Asset>,
    coins: Seq<Coin>,
    policies: TxPolicies,
) -> TemplateV {
    TemplateV {
        inputs: inputs_for_spends(spends, coins),
        outputs: seq![OutputV::Change { to: address, asset: AssetId { bits: 0 }, amount: 0u64 }],
        tx_policies: policies,
        variable_outputs: 1,
    }
}

/// Assembles the transaction template for an operation's declared spends.
pub fn build_transaction_template(
    address: &Address,
    spends: &Vec<Asset>,
    coins: &Vec<Coin>,
    policies: TxPolicies,
) -> (r: TransactionTemplate)
    ensures
        r@ == template_spec(address@, spends@, coins@, policies),
{
    let inputs = build_inputs(spends, coins);
    let mut outputs: Vec<Output> = Vec::new();
    outputs.push(Output::Change { to: address.duplicate(), asset: AssetId { bits: 0 }, amount: 0 });
    let r = TransactionTemplate { inputs, outputs, tx_policies: policies, variable_outputs: 1 };
    proof {
        assert(r@.outputs =~= seq![
            OutputV::Change { to: address@, asset: AssetId { bits: 0 }, amount: 0u64 },
        ]);
        assert(r@ =~= template_spec(address@, spends@, coins@, policies));
    }
    r
}

} // verus!
