//! Ledger state: per-wallet positions, global parameters, and the fee tiers.
//!
//! The host environment persists one `GlobalParams` record and one `Position`
//! per wallet address, loads them before each call and writes them back
//! atomically on success. The types here carry that state through the pure
//! state-transition functions of `crate::contract`.
use crate::decimal::{mul_floor, Decimal, SCALE};
use vstd::prelude::*;

verus! {

/// One wallet's collateral and debt. An absent ledger entry reads as a
/// position with both fields zero.
#[derive(Clone, Copy, Debug, PartialEq, Eq, Structural)]
pub struct Position {
    /// Collateral currently held on behalf of the wallet.
    pub locked_collateral: Decimal,
    /// Outstanding stablecoin units attributed to the wallet.
    pub minted_dira: Decimal,
}

impl Position {
    /// The empty position: no collateral, no debt.
    pub fn empty() -> (r: Position)
        ensures
            r.locked_collateral@ == 0,
            r.minted_dira@ == 0,
    {
        Position { locked_collateral: Decimal { atto: 0 }, minted_dira: Decimal { atto: 0 } }
    }
}

/// The single global parameter record.
#[derive(Clone, Debug, PartialEq)]
pub struct GlobalParams {
    /// Addresses authorized to change privileged parameters; non-empty after
    /// instantiation and never modified afterwards.
    pub admin_addresses: Vec<String>,
    /// Health ratio strictly below which a position may be liquidated.
    pub liquidation_health: Decimal,
    /// Health ratio a position must keep or exceed right after a mint.
    pub mintable_health: Decimal,
    /// The native denomination accepted as collateral; never empty.
    pub collateral_token_denom: String,
    /// Price of one collateral unit in stablecoin units; unset until an
    /// admin provides it.
    pub collateral_price: Option<Decimal>,
    /// Address of the external token contract that mints and burns the
    /// stablecoin; required before mint and burn succeed.
    pub cw20_dira_contract_address: Option<String>,
}

impl GlobalParams {
    /// Well-formedness: holds after instantiation and is preserved by every
    /// parameter change — the admin set is never empty and the collateral
    /// denomination is never blank.
    pub open spec fn wf(&self) -> bool {
        &&& self.admin_addresses.len() > 0
        &&& self.collateral_token_denom@.len() > 0
    }
}

/// A native coin attached to a call: a denomination and an integer amount of
/// minor units.
#[derive(Clone, Debug, PartialEq)]
pub struct Coin {
    pub denom: String,
    pub amount: u128,
}

/// A position's health: collateral value divided by debt, or unbounded for a
/// debt-free position, which therefore exceeds every threshold.
#[derive(Clone, Copy, Debug, PartialEq, Eq, Structural)]
pub enum Health {
    Unbounded,
    Ratio(Decimal),
}

impl Health {
    /// Whether this health reaches the threshold `t`.
    pub fn is_at_least(&self, t: &Decimal) -> (r: bool)
        ensures
            r == match *self {
                Health::Unbounded => true,
                Health::Ratio(h) => h@ >= t@,
            },
    {
        match self {
            Health::Unbounded => true,
            Health::Ratio(h) => h.ge(t),
        }
    }
}

/// Fee tier of a transacted amount; larger amounts pay a lower rate.
#[derive(Clone, Copy, Debug, PartialEq, Eq, Structural)]
pub enum FeeTier {
    Low,
    Medium,
    High,
}

/// Switch and tier for the protocol fee.
#[derive(Clone, Copy, Debug, PartialEq, Eq, Structural)]
pub struct FeeConfig {
    pub enabled: bool,
    pub tier: FeeTier,
}

/// Amounts strictly below 999 whole units pay the low-tier rate.
pub const TIER_MEDIUM_FLOOR: u128 = 999 * SCALE;

/// Amounts of 10,000 whole units and above pay the high-tier rate.
pub const TIER_HIGH_FLOOR: u128 = 10_000 * SCALE;

/// Low-tier fee rate: 0.3%.
pub const RATE_LOW: u128 = 3_000_000_000_000_000;

/// Medium-tier fee rate: 0.15%.
pub const RATE_MEDIUM: u128 = 1_500_000_000_000_000;

/// High-tier fee rate: 0.05%.
pub const RATE_HIGH: u128 = 500_000_000_000_000;

/// Tier of an amount given in atto-units.
pub open spec fn spec_tier(amount: int) -> FeeTier {
    if amount < TIER_MEDIUM_FLOOR {
        FeeTier::Low
    } else if amount < TIER_HIGH_FLOOR {
        FeeTier::Medium
    } else {
        FeeTier::High
    }
}

/// Fee rate of a tier, in atto-units.
pub open spec fn spec_rate(tier: FeeTier) -> int {
    match tier {
        FeeTier::Low => RATE_LOW as int,
        FeeTier::Medium => RATE_MEDIUM as int,
        FeeTier::High => RATE_HIGH as int,
    }
}

/// Protocol fee of an amount given in atto-units: the amount times the rate
/// of its tier, rounded down.
pub open spec fn spec_fee(amount: int) -> int {
    mul_floor(amount, spec_rate(spec_tier(amount)))
}

impl FeeTier {
    /// Classifies an amount: below 999 the low tier, below 10,000 the medium
    /// tier, otherwise the high tier.
    pub fn from_amount(amount: Decimal) -> (r: FeeTier)
        ensures
            r == spec_tier(amount@),
    {
        if amount.atto < TIER_MEDIUM_FLOOR {
            FeeTier::Low
        } else if amount.atto < TIER_HIGH_FLOOR {
            FeeTier::Medium
        } else {
            FeeTier::High
        }
    }

    /// Fee rate of this tier.
    pub fn rate(&self) -> (r: Decimal)
        ensures
            r@ == spec_rate(*self),
    {
        match self {
            FeeTier::Low => Decimal { atto: RATE_LOW },
            FeeTier::Medium => Decimal { atto: RATE_MEDIUM },
            FeeTier::High => Decimal { atto: RATE_HIGH },
        }
    }
}

/// Protocol fee for a transacted amount, applied identically to mint and
/// burn flows. Always strictly below a positive amount.
pub fn fee_for(amount: Decimal) -> (r: Decimal)
    ensures
        r@ == spec_fee(amount@),
        amount@ > 0 ==> r@ < amount@,
        amount@ == 0 ==> r@ == 0,
{
    let tier = FeeTier::from_amount(amount);
    let rate = tier.rate();
    proof {
        if amount@ > 0 {
            crate::decimal::lemma_mul_floor_below(amount@, rate@);
        }
    }
    let fee = amount.checked_mul(rate);
    fee.unwrap()
}

/// Within one tier the fee never decreases as the amount grows.
pub proof fn lemma_fee_monotone_in_tier(a: int, b: int)
    requires
        0 <= a <= b,
        spec_tier(a) == spec_tier(b),
    ensures
        spec_fee(a) <= spec_fee(b),
{
    crate::decimal::lemma_mul_floor_monotone(a, b, spec_rate(spec_tier(a)));
}

/// The fee rate never increases as the amount grows: crossing the 999 or
/// 10,000 boundary moves to a cheaper tier.
pub proof fn lemma_rate_non_increasing(a: int, b: int)
    requires
        0 <= a <= b,
    ensures
        spec_rate(spec_tier(b)) <= spec_rate(spec_tier(a)),
{
}

} // verus!
