//! The error taxonomy of the contract.
//!
//! Every failed transition returns one of these values to the caller and
//! leaves the ledger untouched; where a bound was violated the error carries
//! the computed ceiling so a client can choose a valid retry amount.
use crate::decimal::Decimal;
use vstd::prelude::*;

verus! {

#[derive(Clone, Debug, PartialEq)]
pub enum ContractError {
    /// The sender is not an admin authorized to perform this action.
    UnauthorizedUser {},
    /// No coin of the collateral denomination with a positive amount was
    /// attached to the call.
    InsufficientFundsSent {},
    /// Minting beyond the collateral-backed ceiling, or minting without a
    /// collateral position.
    InsufficientCollateral {},
    /// Liquidation health and mintable health must both be positive at
    /// instantiation.
    HealthCannotBeZero {},
    /// The unlock request exceeds what the position's debt allows; carries
    /// the current ceiling (zero when the position is under-margined).
    UnlockAmountTooHigh { max_unlockable: Decimal },
    /// No collateral denomination was provided at instantiation.
    MissingCollateralTokenDenom {},
    /// Mintable health may never be set below the liquidation health.
    MintableHealthLowerThanLiquidationHealth {},
    /// An operation needed the collateral price before an admin set it.
    CollateralPriceNotSet {},
    /// Burning more stablecoin than the sender has minted.
    ReturningMoreDiraThanMinted {},
    /// The wallet address to liquidate is not syntactically valid.
    InvalidWalletAddress {},
    /// The proposed token contract address does not answer as a token
    /// contract.
    InvalidCW20ContractAddress {},
    /// Mint or burn was attempted before a token contract was configured.
    CW20DiraContractAddressNotSet {},
    /// The target's health is at or above the liquidation threshold; carries
    /// the target address.
    TooHealthyToLiquidate { wallet_address: String },
    /// The protocol fee switch is disabled.
    FeeSwitchDisabled {},
    /// No admin addresses are set in the contract.
    NoAdminAddressesSet {},
}

} // verus!
