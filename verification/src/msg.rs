//! Message types: inbound commands and queries, query responses, and the
//! outbound instructions a successful transition hands back to the host for
//! dispatch.
use crate::decimal::Decimal;
use crate::state::Health;
use vstd::prelude::*;

verus! {

/// Initial configuration of the contract.
#[derive(Clone, Debug, PartialEq)]
pub struct InstantiateMsg {
    pub liquidation_health: Decimal,
    pub mintable_health: Decimal,
    pub collateral_token_denom: String,
    pub cw20_dira_contract_address: Option<String>,
}

/// The executable endpoints of the contract.
#[derive(Clone, Debug, PartialEq)]
pub enum ExecuteMsg {
    LockCollateral {},
    UnlockCollateral { collateral_amount_to_unlock: Decimal },
    MintDira { dira_to_mint: Decimal },
    BurnDira { dira_to_burn: Decimal },
    LiquidateStablecoins { wallet_address_to_liquidate: String },
    SetCollateralPriceInDirham { collateral_price_in_dirham: Decimal },
    SetLiquidationHealth { liquidation_health: Decimal },
    SetMintableHealth { mintable_health: Decimal },
    SetCW20DiraContractAddress { cw20_dira_contract_address: String },
}

/// The read-only endpoints of the contract.
#[derive(Clone, Debug, PartialEq)]
pub enum QueryMsg {
    /// The total collateral locked by a specific wallet address.
    QueryLockedCollateral { wallet_address_to_query: String },
    /// The total stablecoin minted by a specific wallet address.
    QueryMintedDira { wallet_address_to_query: String },
    /// The current health of a stablecoin minter.
    QueryStablecoinHealth { stablecoin_minter_address_to_query: String },
    /// The price of the collateral in dirham.
    QueryCollateralPrice {},
    /// The liquidation health threshold.
    QueryLiquidationHealth {},
    /// The mintable health threshold.
    QueryMintableHealth {},
    /// The list of admin addresses.
    QueryAdminAddresses {},
    /// The collateral token denom allowed.
    QueryCollateralTokenDenom {},
    /// The token contract address of the stablecoin.
    QueryCW20DiraContractAddress {},
}

/// Response for querying locked collateral.
#[derive(Clone, Copy, Debug, PartialEq, Eq, Structural)]
pub struct CollateralResponse {
    pub collateral_locked: Decimal,
}

/// Response for querying minted stablecoin.
#[derive(Clone, Copy, Debug, PartialEq, Eq, Structural)]
pub struct MintedDiraResponse {
    pub dira_minted: Decimal,
}

/// Response for querying stablecoin health.
#[derive(Clone, Copy, Debug, PartialEq, Eq, Structural)]
pub struct StablecoinHealthResponse {
    pub health: Health,
}

/// Response for querying the collateral price.
#[derive(Clone, Copy, Debug, PartialEq, Eq, Structural)]
pub struct CollateralPriceResponse {
    pub collateral_price: Decimal,
}

/// Response for querying the liquidation health threshold.
#[derive(Clone, Copy, Debug, PartialEq, Eq, Structural)]
pub struct LiquidationHealthResponse {
    pub liquidation_health: Decimal,
}

/// Response for querying the mintable health threshold.
#[derive(Clone, Copy, Debug, PartialEq, Eq, Structural)]
pub struct MintableHealthResponse {
    pub mintable_health: Decimal,
}

/// Response for querying the list of admin addresses.
#[derive(Clone, Debug, PartialEq)]
pub struct AdminAddressesResponse {
    pub admin_addresses: Vec<String>,
}

/// Response for querying the collateral token denom.
#[derive(Clone, Debug, PartialEq)]
pub struct CollateralTokenDenomResponse {
    pub collateral_token_denom: String,
}

/// Response for querying the stablecoin token contract address.
#[derive(Clone, Debug, PartialEq)]
pub struct CW20DiraContractAddressResponse {
    pub cw20_dira_contract_address: Option<String>,
}

/// The answer to a query, one variant per `QueryMsg` endpoint.
#[derive(Clone, Debug, PartialEq)]
pub enum QueryAnswer {
    LockedCollateral(CollateralResponse),
    MintedDira(MintedDiraResponse),
    StablecoinHealth(StablecoinHealthResponse),
    CollateralPrice(CollateralPriceResponse),
    LiquidationHealth(LiquidationHealthResponse),
    MintableHealth(MintableHealthResponse),
    AdminAddresses(AdminAddressesResponse),
    CollateralTokenDenom(CollateralTokenDenomResponse),
    CW20DiraContractAddress(CW20DiraContractAddressResponse),
}

/// An instruction to an external collaborator, emitted by a successful
/// transition and dispatched by the host only after the new state is
/// committed. Amounts are integer minor units (millionths).
#[derive(Clone, Debug, PartialEq)]
pub enum OutboundInstruction {
    /// Ask the token contract to mint stablecoin to a recipient.
    MintTokens { token_contract: String, recipient: String, amount: u128 },
    /// Ask the token contract to burn stablecoin from an owner's balance,
    /// using an allowance granted beforehand.
    BurnTokensFrom { token_contract: String, owner: String, amount: u128 },
    /// Transfer native coins held by the contract to an address.
    SendNative { to_address: String, denom: String, amount: u128 },
}

/// The record of a successful liquidation: the pre-liquidation balances of
/// the liquidated wallet, who initiated it, and the reward paid out, which
/// is always zero — reward mechanics are deliberately not defined.
#[derive(Clone, Debug, PartialEq)]
pub struct LiquidationReceipt {
    pub liquidated_wallet: String,
    pub liquidated_collateral: Decimal,
    pub liquidated_dira: Decimal,
    pub initiator: String,
    pub liquidator_reward_paid: Decimal,
}

} // verus!
