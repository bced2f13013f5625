use vstd::prelude::*;
use crate::model::Asset;
use crate::model::AssetId;

verus! {

/// The declared return value of an executed operation template, as the
/// simulation executor hands it back: one minted LP amount for
/// add-liquidity, a pair of withdrawn amounts for remove-liquidity, and an
/// ordered trace of (amount, asset) pairs through each hop for the two
/// swaps.
#[derive(Debug)]
pub enum ScriptOutput {
    AddLiquidity(Asset),
    RemoveLiquidity((u64, u64)),
    Swap(Vec<(u64, AssetId)>),
}

/// Extracts an add-liquidity preview's declared value: the minted LP-token
/// asset and amount. Any other shape is no add-liquidity result.
pub fn extract_add_liquidity(output: ScriptOutput) -> (r: Option<Asset>)
    ensures
        r == (match output {
            ScriptOutput::AddLiquidity(a) => Some(a),
            _ => None::<Asset>,
        }),
{
    match output {
        ScriptOutput::AddLiquidity(a) => Some(a),
        _ => None,
    }
}

/// Extracts a remove-liquidity preview's declared value: one withdrawn
/// amount per pooled asset.
pub fn extract_remove_liquidity(output: ScriptOutput) -> (r: Option<(u64, u64)>)
    ensures
        r == (match output {
            ScriptOutput::RemoveLiquidity(p) => Some(p),
            _ => None::<(u64, u64)>,
        }),
{
    match output {
        ScriptOutput::RemoveLiquidity(p) => Some(p),
        _ => None,
    }
}

/// Extracts a swap preview's declared value: the ordered sequence of
/// (amount, asset) pairs tracing amounts through each hop.
pub fn extract_swap(output: ScriptOutput) -> (r: Option<Vec<(u64, AssetId)>>)
    ensures
        r == (match output {
            ScriptOutput::Swap(t) => Some(t),
            _ => None::<Vec<(u64, AssetId)>>,
        }),
{
    match output {
        ScriptOutput::Swap(t) => Some(t),
        _ => None,
    }
}

} // verus!
