//! The unified asset value type and its two factory functions.

use vstd::prelude::*;

verus! {

/// A single native coin attached to an inbound contract call: a denomination
/// together with a base-unit amount.
#[derive(Debug, Clone)]
pub struct Fund {
    pub denom: String,
    pub amount: u128,
}

/// Identifies which kind of fungible value an [`Asset`] carries.
#[derive(Debug, Clone)]
pub enum AssetInfo {
    /// A coin native to the chain, identified by its denomination.
    NativeToken { denom: String },
    /// A CW20 token managed by another contract, identified by that
    /// contract's address.
    Token { contract_addr: String },
}

/// A fungible value: a kind tag together with a base-unit integer amount.
/// The amount carries no implicit decimal scaling.
#[derive(Debug, Clone)]
pub struct Asset {
    pub info: AssetInfo,
    pub amount: u128,
}

/// The one error this layer raises: the fund list attached to an inbound
/// call did not hold exactly one coin. Carries the count that was received.
#[derive(Debug, Clone, PartialEq, Eq, Structural)]
pub enum ZapperError {
    InvalidFundsCount(usize),
}

/// What [`new_cw20`] promises: `a` is a contract-token asset carrying
/// `contract_addr` and `amount` unchanged.
pub open spec fn is_cw20_asset(contract_addr: Seq<char>, amount: u128, a: Asset) -> bool {
    &&& a.info matches AssetInfo::Token { contract_addr: c } && c@ == contract_addr
    &&& a.amount == amount
}

/// What a successful [`new_native_from_funds`] promises: `a` is a
/// native-token asset carrying `denom` and `amount` unchanged.
pub open spec fn is_native_asset(denom: Seq<char>, amount: u128, a: Asset) -> bool {
    &&& a.info matches AssetInfo::NativeToken { denom: d } && d@ == denom
    &&& a.amount == amount
}

/// The full contract of [`new_native_from_funds`]: exactly one attached coin
/// yields a native asset with that coin's denomination and amount; any other
/// count is rejected with the count received.
pub open spec fn from_funds_spec(funds: Seq<Fund>, r: Result<Asset, ZapperError>) -> bool {
    if funds.len() == 1 {
        r matches Ok(a) && is_native_asset(funds[0].denom@, funds[0].amount, a)
    } else {
        r == Result::<Asset, ZapperError>::Err(ZapperError::InvalidFundsCount(funds.len() as usize))
    }
}

/// Create a new `Asset` instance of a CW20 token. Total: every address and
/// amount is accepted unchanged; address format is the caller's concern.
pub fn new_cw20(contract_addr: String, amount: u128) -> (a: Asset)
    ensures
        is_cw20_asset(contract_addr@, amount, a),
{
    Asset { info: AssetInfo::Token { contract_addr }, amount }
}

/// Create a new `Asset` instance of a native token based on funds received.
/// The inbound call must attach exactly one coin; zero or several coins are
/// caller error and are rejected, never merged or defaulted.
pub fn new_native_from_funds(funds: &[Fund]) -> (r: Result<Asset, ZapperError>)
    ensures
        from_funds_spec(funds@, r),
        r is Ok <==> funds@.len() == 1,
{
    if funds.len() != 1 {
        return Err(ZapperError::InvalidFundsCount(funds.len()));
    }
    let fund = &funds[0];
    Ok(Asset { info: AssetInfo::NativeToken { denom: fund.denom.clone() }, amount: fund.amount })
}

/// Constructing a contract-token asset has no hidden state: any two results
/// that meet `new_cw20`'s contract for the same inputs agree on the kind tag,
/// the address and the amount.
pub proof fn lemma_new_cw20_deterministic(contract_addr: Seq<char>, amount: u128, a1: Asset, a2: Asset)
    requires
        is_cw20_asset(contract_addr, amount, a1),
        is_cw20_asset(contract_addr, amount, a2),
    ensures
        a1.info is Token && a2.info is Token,
        a1.info->contract_addr@ == a2.info->contract_addr@,
        a1.amount == a2.amount,
{
}

/// Reading the funds has no hidden state: any two results that meet
/// `new_native_from_funds`'s contract for the same fund list agree — both
/// succeed with the same denomination and amount, or both fail with the
/// same error.
pub proof fn lemma_from_funds_deterministic(
    funds: Seq<Fund>,
    r1: Result<Asset, ZapperError>,
    r2: Result<Asset, ZapperError>,
)
    requires
        from_funds_spec(funds, r1),
        from_funds_spec(funds, r2),
    ensures
        r1 is Ok <==> r2 is Ok,
        r1 matches Ok(a1) ==> r2 matches Ok(a2) && a1.info is NativeToken && a2.info is NativeToken
            && a1.info->denom@ == a2.info->denom@ && a1.amount == a2.amount,
        r1 matches Err(e1) ==> r2 matches Err(e2) && e1 == e2,
{
}

} // verus!
