//! The position manager: every state transition of the contract as a pure,
//! verified function.
//!
//! Each operation takes the loaded ledger state (the global parameter record
//! and the affected wallet's position), validates the request, and either
//! returns the error identifying the violated precondition or the new state
//! together with the outbound instructions the host must dispatch. The host
//! commits state and dispatches instructions only on success, so a failed
//! call has no effect.
use crate::decimal::{div_floor, mul_floor, Decimal, MINOR_UNIT};
use crate::error::ContractError;
use crate::msg::{
    AdminAddressesResponse, CW20DiraContractAddressResponse, CollateralPriceResponse,
    CollateralResponse, CollateralTokenDenomResponse, LiquidationHealthResponse,
    LiquidationReceipt, MintableHealthResponse, MintedDiraResponse, OutboundInstruction,
    QueryAnswer, QueryMsg, StablecoinHealthResponse,
};
use crate::state::{spec_fee, GlobalParams, Health, Position};
use vstd::arithmetic::div_mod::{lemma_div_of0, lemma_fundamental_div_mod};
use vstd::arithmetic::mul::{lemma_mul_by_zero_is_zero, lemma_mul_is_commutative};
use vstd::prelude::*;

verus! {

/// Value of the locked collateral in stablecoin units, rounded down.
pub open spec fn spec_collateral_value(locked: int, price: int) -> int {
    mul_floor(price, locked)
}

/// Health ratio of a position with positive debt: collateral value divided
/// by debt, rounded down.
pub open spec fn spec_health_ratio(minted: int, locked: int, price: int) -> int {
    div_floor(spec_collateral_value(locked, price), minted)
}

/// Whether a position's health reaches the threshold `t`; a debt-free
/// position reaches every threshold.
pub open spec fn spec_health_at_least(minted: int, locked: int, price: int, t: int) -> bool {
    minted == 0 || spec_health_ratio(minted, locked, price) >= t
}

/// Ceiling on a wallet's total debt: collateral value divided by the
/// mintable-health threshold, rounded down.
pub open spec fn spec_max_mintable(locked: int, price: int, mintable_health: int) -> int {
    div_floor(spec_collateral_value(locked, price), mintable_health)
}

/// Ceiling on an unlock request: the collateral not needed to keep the
/// current debt at the mintable-health threshold. Negative when the position
/// is already under-margined, in which case no amount may be unlocked.
pub open spec fn spec_max_unlockable(locked: int, price: int, minted: int, mintable_health: int) -> int {
    locked - div_floor(mul_floor(minted, mintable_health), price)
}

/// Whether `addr` is one of the admin addresses.
pub open spec fn spec_is_admin(admins: Seq<String>, addr: Seq<char>) -> bool {
    exists|i: int| 0 <= i < admins.len() && admins[i]@ == addr
}

/// Computes a position's health from its debt, its collateral and the
/// collateral price. A debt-free position has unbounded health whatever its
/// collateral; otherwise the health is the rounded-down ratio of collateral
/// value to debt.
pub fn helper_calculate_stablecoin_health(
    minted_dira: Decimal,
    locked_collateral: Decimal,
    collateral_price_in_dirham: Decimal,
) -> (r: Health)
    requires
        spec_collateral_value(locked_collateral@, collateral_price_in_dirham@) <= u128::MAX,
        minted_dira@ > 0 ==> spec_health_ratio(
            minted_dira@,
            locked_collateral@,
            collateral_price_in_dirham@,
        ) <= u128::MAX,
    ensures
        minted_dira@ == 0 ==> r == Health::Unbounded,
        minted_dira@ > 0 ==> r == Health::Ratio(
            Decimal {
                atto: spec_health_ratio(
                    minted_dira@,
                    locked_collateral@,
                    collateral_price_in_dirham@,
                ) as u128,
            },
        ),
{
    let locked_collateral_value_in_dirham = collateral_price_in_dirham.checked_mul(
        locked_collateral,
    ).unwrap();
    if minted_dira.is_zero() {
        Health::Unbounded
    } else {
        Health::Ratio(locked_collateral_value_in_dirham.checked_div(minted_dira).unwrap())
    }
}

/// Computes how much stablecoin a wallet's collateral can back in total,
/// given the current price and the mintable-health threshold.
pub fn helper_calculate_max_mintable_dira(
    locked_collateral: Decimal,
    collateral_price_in_dirham: Decimal,
    mintable_health: Decimal,
) -> (r: Decimal)
    requires
        spec_collateral_value(locked_collateral@, collateral_price_in_dirham@) <= u128::MAX,
        mintable_health@ > 0,
        spec_max_mintable(locked_collateral@, collateral_price_in_dirham@, mintable_health@)
            <= u128::MAX,
    ensures
        r@ == spec_max_mintable(
            locked_collateral@,
            collateral_price_in_dirham@,
            mintable_health@,
        ),
{
    let value = collateral_price_in_dirham.checked_mul(locked_collateral).unwrap();
    value.checked_div(mintable_health).unwrap()
}

/// Computes how much collateral the wallet may withdraw while keeping its
/// debt at or above the mintable-health threshold; `None` when the position
/// is under-margined and nothing may be withdrawn.
pub fn helper_calculate_max_unlockable_collateral(
    locked_collateral: Decimal,
    collateral_price_in_dirham: Decimal,
    minted_dira: Decimal,
    mintable_health: Decimal,
) -> (r: Option<Decimal>)
    requires
        collateral_price_in_dirham@ > 0,
        mul_floor(minted_dira@, mintable_health@) <= u128::MAX,
        div_floor(mul_floor(minted_dira@, mintable_health@), collateral_price_in_dirham@)
            <= u128::MAX,
    ensures
        ({
            let max_unlockable = spec_max_unlockable(
                locked_collateral@,
                collateral_price_in_dirham@,
                minted_dira@,
                mintable_health@,
            );
            &&& max_unlockable >= 0 ==> r == Some(Decimal { atto: max_unlockable as u128 })
            &&& max_unlockable < 0 ==> r is None
        }),
{
    let required_collateral_for_minted_dira = minted_dira.checked_mul(mintable_health)
        .unwrap()
        .checked_div(collateral_price_in_dirham)
        .unwrap();
    if required_collateral_for_minted_dira.le(&locked_collateral) {
        Some(locked_collateral.sub(required_collateral_for_minted_dira))
    } else {
        None
    }
}

/// Membership test against the admin address set.
pub fn is_admin(params: &GlobalParams, address: &String) -> (r: bool)
    ensures
        r == spec_is_admin(params.admin_addresses@, address@),
{
    let n = params.admin_addresses.len();
    let mut i: usize = 0;
    while i < n
        invariant
            0 <= i <= n,
            n == params.admin_addresses.len(),
            forall|j: int| 0 <= j < i ==> params.admin_addresses@[j]@ != address@,
        decreases n - i,
    {
        if params.admin_addresses[i].eq(address) {
            return true;
        }
        i += 1;
    }
    false
}

/// Gate for the privileged parameter changes: fails with `UnauthorizedUser`
/// unless the sender is an admin.
pub fn require_admin(params: &GlobalParams, address: &String) -> (r: Result<(), ContractError>)
    ensures
        spec_is_admin(params.admin_addresses@, address@) ==> r is Ok,
        !spec_is_admin(params.admin_addresses@, address@) ==> r == Err::<
            (),
            ContractError,
        >(ContractError::UnauthorizedUser {}),
{
    if is_admin(params, address) {
        Ok(())
    } else {
        Err(ContractError::UnauthorizedUser {})
    }
}

/// No coin strictly before index `i` of `funds` has the denomination
/// `denom`: coin `i`, if it matches, is the first match.
pub open spec fn spec_no_match_before(funds: Seq<crate::state::Coin>, denom: Seq<char>, i: int) -> bool {
    forall|j: int| 0 <= j < i ==> funds[j].denom@ != denom
}

/// Locks the collateral attached to the call.
///
/// The first attached coin of the configured collateral denomination is
/// taken; its amount, given in integer minor units, is converted to the
/// fixed-point collateral unit and added to the sender's locked collateral.
/// Fails with `InsufficientFundsSent` when no coin of that denomination with
/// a positive amount leads the attached funds. No fee is charged and no
/// instruction is emitted: the coins were already transferred to the
/// contract as part of the same call.
pub fn execute_lock_collateral(
    params: &GlobalParams,
    position: &Position,
    funds: &Vec<crate::state::Coin>,
) -> (r: Result<Position, ContractError>)
    requires
        forall|i: int|
            0 <= i < funds@.len() && funds@[i].denom@ == params.collateral_token_denom@
                && spec_no_match_before(funds@, params.collateral_token_denom@, i) ==> funds@[i].amount
                * MINOR_UNIT + position.locked_collateral@ <= u128::MAX,
    ensures
        match r {
            Ok(p2) => exists|i: int|
                #![auto]
                0 <= i < funds@.len() && funds@[i].denom@ == params.collateral_token_denom@
                    && spec_no_match_before(funds@, params.collateral_token_denom@, i)
                    && funds@[i].amount > 0 && p2.locked_collateral@ == position.locked_collateral@
                    + funds@[i].amount * MINOR_UNIT && p2.minted_dira == position.minted_dira,
            Err(e) => e == ContractError::InsufficientFundsSent {} && forall|i: int|
                #![auto]
                0 <= i < funds@.len() && funds@[i].denom@ == params.collateral_token_denom@
                    && spec_no_match_before(funds@, params.collateral_token_denom@, i)
                    ==> funds@[i].amount == 0,
        },
{
    let ghost denom = params.collateral_token_denom@;
    let n = funds.len();
    let mut i: usize = 0;
    while i < n
        invariant
            0 <= i <= n,
            n == funds@.len(),
            spec_no_match_before(funds@, denom, i as int),
            denom == params.collateral_token_denom@,
            forall|k: int|
                0 <= k < funds@.len() && funds@[k].denom@ == denom && spec_no_match_before(
                    funds@,
                    denom,
                    k,
                ) ==> funds@[k].amount * MINOR_UNIT + position.locked_collateral@ <= u128::MAX,
        decreases n - i,
    {
        if funds[i].denom.eq(&params.collateral_token_denom) {
            let sent_amount = funds[i].amount;
            if sent_amount == 0 {
                assert(forall|k: int|
                    0 <= k < funds@.len() && funds@[k].denom@ == denom && spec_no_match_before(
                        funds@,
                        denom,
                        k,
                    ) ==> k == i);
                return Err(ContractError::InsufficientFundsSent {});
            }
            let sent = Decimal::from_minor_units(sent_amount);
            let new_locked = position.locked_collateral.checked_add(sent).unwrap();
            return Ok(Position { locked_collateral: new_locked, minted_dira: position.minted_dira });
        }
        i += 1;
    }
    Err(ContractError::InsufficientFundsSent {})
}

/// Unlocks collateral and instructs the host to pay it back out.
///
/// Fails with `CollateralPriceNotSet` while no price is configured, and with
/// `UnlockAmountTooHigh` when the request exceeds the unlockable ceiling;
/// for an under-margined position the ceiling is negative, every request is
/// rejected, and the error reports a ceiling of zero. On success the amount
/// leaves the sender's locked collateral and a native-transfer instruction
/// over the equivalent minor units is emitted.
pub fn execute_unlock_collateral(
    params: &GlobalParams,
    position: &Position,
    sender: &String,
    collateral_amount: Decimal,
) -> (r: Result<(Position, Vec<OutboundInstruction>), ContractError>)
    requires
        params.collateral_price matches Some(p) ==> p@ > 0 && mul_floor(
            position.minted_dira@,
            params.mintable_health@,
        ) <= u128::MAX && div_floor(
            mul_floor(position.minted_dira@, params.mintable_health@),
            p@,
        ) <= u128::MAX,
    ensures
        params.collateral_price is None ==> r == Err::<
            (Position, Vec<OutboundInstruction>),
            ContractError,
        >(ContractError::CollateralPriceNotSet {}),
        params.collateral_price matches Some(p) ==> ({
            let max_unlockable = spec_max_unlockable(
                position.locked_collateral@,
                p@,
                position.minted_dira@,
                params.mintable_health@,
            );
            &&& collateral_amount@ > max_unlockable ==> (r matches Err(e) && e matches
                ContractError::UnlockAmountTooHigh { max_unlockable: reported } && reported@ == (
                if max_unlockable >= 0 {
                    max_unlockable
                } else {
                    0
                }))
            &&& collateral_amount@ <= max_unlockable ==> (r matches Ok(out)
                && out.0.locked_collateral@ == position.locked_collateral@ - collateral_amount@
                && out.0.minted_dira == position.minted_dira && out.1@.len() == 1 && (out.1@[0]
                matches OutboundInstruction::SendNative { to_address, denom, amount }
                && to_address@ == sender@ && denom@ == params.collateral_token_denom@ && amount
                == collateral_amount@ / (MINOR_UNIT as int)))
        }),
{
    let collateral_price_in_dirham = match &params.collateral_price {
        Some(p) => *p,
        None => { return Err(ContractError::CollateralPriceNotSet {}) },
    };
    let max_unlockable_collateral = helper_calculate_max_unlockable_collateral(
        position.locked_collateral,
        collateral_price_in_dirham,
        position.minted_dira,
        params.mintable_health,
    );
    let max_unlockable_collateral = match max_unlockable_collateral {
        Some(m) => m,
        None => {
            return Err(ContractError::UnlockAmountTooHigh { max_unlockable: Decimal::zero() });
        },
    };
    if collateral_amount.gt(&max_unlockable_collateral) {
        return Err(
            ContractError::UnlockAmountTooHigh { max_unlockable: max_unlockable_collateral },
        );
    }
    let new_position = Position {
        locked_collateral: position.locked_collateral.sub(collateral_amount),
        minted_dira: position.minted_dira,
    };
    let instruction = OutboundInstruction::SendNative {
        to_address: sender.clone(),
        denom: params.collateral_token_denom.clone(),
        amount: collateral_amount.to_minor_units(),
    };
    let mut instructions: Vec<OutboundInstruction> = Vec::new();
    instructions.push(instruction);
    Ok((new_position, instructions))
}

/// Mints stablecoin against the sender's locked collateral.
///
/// A wallet without a collateral entry cannot mint (`position` is `None`
/// then). The request fails with `CollateralPriceNotSet` while no price is
/// configured, with `InsufficientCollateral` when the new total debt would
/// exceed what the collateral can back at the mintable-health threshold, and
/// with `CW20DiraContractAddressNotSet` while no token contract is
/// configured. On success the full amount is added to the sender's debt, the
/// protocol fee is withheld, and a mint instruction over the remainder, in
/// minor units, goes to the token contract. Right after any successful mint
/// the position's health is at or above the mintable-health threshold.
pub fn execute_mint_dira(
    params: &GlobalParams,
    position: Option<&Position>,
    sender: &String,
    dira_to_mint: Decimal,
) -> (r: Result<(Position, Vec<OutboundInstruction>), ContractError>)
    requires
        position matches Some(pos) && params.collateral_price matches Some(p) ==> ({
            &&& spec_collateral_value(pos.locked_collateral@, p@) <= u128::MAX
            &&& params.mintable_health@ > 0
            &&& spec_max_mintable(pos.locked_collateral@, p@, params.mintable_health@)
                <= u128::MAX
        }),
    ensures
        position is None ==> r == Err::<(Position, Vec<OutboundInstruction>), ContractError>(
            ContractError::InsufficientCollateral {},
        ),
        position matches Some(pos) && params.collateral_price is None ==> r == Err::<
            (Position, Vec<OutboundInstruction>),
            ContractError,
        >(ContractError::CollateralPriceNotSet {}),
        position matches Some(pos) && params.collateral_price matches Some(p) ==> ({
            let max_mintable = spec_max_mintable(
                pos.locked_collateral@,
                p@,
                params.mintable_health@,
            );
            let new_total = dira_to_mint@ + pos.minted_dira@;
            &&& new_total > max_mintable ==> r == Err::<
                (Position, Vec<OutboundInstruction>),
                ContractError,
            >(ContractError::InsufficientCollateral {})
            &&& new_total <= max_mintable && params.cw20_dira_contract_address is None ==> r
                == Err::<(Position, Vec<OutboundInstruction>), ContractError>(
                ContractError::CW20DiraContractAddressNotSet {},
            )
            &&& new_total <= max_mintable ==> (params.cw20_dira_contract_address matches Some(
                c) ==> (r matches Ok(out) && out.0.minted_dira@ == new_total
                && out.0.locked_collateral == pos.locked_collateral && out.1@.len() == 1 && (
                out.1@[0] matches OutboundInstruction::MintTokens {
                    token_contract,
                    recipient,
                    amount,
                } && token_contract@ == c@ && recipient@ == sender@ && amount == (dira_to_mint@
                    - spec_fee(dira_to_mint@)) / (MINOR_UNIT as int)) && spec_health_at_least(
                out.0.minted_dira@,
                pos.locked_collateral@,
                p@,
                params.mintable_health@,
            )))
        }),
{
    let pos = match position {
        Some(pos) => pos,
        None => { return Err(ContractError::InsufficientCollateral {}) },
    };
    let collateral_price_in_dirham = match &params.collateral_price {
        Some(p) => *p,
        None => { return Err(ContractError::CollateralPriceNotSet {}) },
    };
    let max_mintable_dira = helper_calculate_max_mintable_dira(
        pos.locked_collateral,
        collateral_price_in_dirham,
        params.mintable_health,
    );
    let new_total_minted = match dira_to_mint.checked_add(pos.minted_dira) {
        Some(t) => t,
        None => { return Err(ContractError::InsufficientCollateral {}) },
    };
    if new_total_minted.gt(&max_mintable_dira) {
        return Err(ContractError::InsufficientCollateral {});
    }
    let cw20_dira_contract_address = match &params.cw20_dira_contract_address {
        Some(c) => c.clone(),
        None => { return Err(ContractError::CW20DiraContractAddressNotSet {}) },
    };
    let fee = crate::state::fee_for(dira_to_mint);
    let minted_to_user = dira_to_mint.sub(fee);
    proof {
        if new_total_minted@ > 0 {
            crate::decimal::lemma_div_floor_inverts(
                spec_collateral_value(pos.locked_collateral@, collateral_price_in_dirham@),
                params.mintable_health@,
                new_total_minted@,
            );
        }
    }
    let instruction = OutboundInstruction::MintTokens {
        token_contract: cw20_dira_contract_address,
        recipient: sender.clone(),
        amount: minted_to_user.to_minor_units(),
    };
    let mut instructions: Vec<OutboundInstruction> = Vec::new();
    instructions.push(instruction);
    Ok(
        (
            Position { locked_collateral: pos.locked_collateral, minted_dira: new_total_minted },
            instructions,
        ),
    )
}

/// Burns stablecoin to reduce the sender's debt.
///
/// Fails with `ReturningMoreDiraThanMinted` when the request exceeds the
/// sender's outstanding debt, and with `CW20DiraContractAddressNotSet` while
/// no token contract is configured. On success the debt shrinks by the full
/// amount and a burn-from instruction over that amount, in minor units, goes
/// to the token contract; the sender must have granted the contract an
/// allowance beforehand, which the token contract itself enforces. The
/// protocol fee schedule of `fee_for` applies to the burn flow as well; it
/// does not change the burned amount.
pub fn execute_burn_dira(
    params: &GlobalParams,
    position: &Position,
    sender: &String,
    dira_to_return: Decimal,
) -> (r: Result<(Position, Vec<OutboundInstruction>), ContractError>)
    ensures
        dira_to_return@ > position.minted_dira@ ==> r == Err::<
            (Position, Vec<OutboundInstruction>),
            ContractError,
        >(ContractError::ReturningMoreDiraThanMinted {}),
        dira_to_return@ <= position.minted_dira@ && params.cw20_dira_contract_address is None
            ==> r == Err::<(Position, Vec<OutboundInstruction>), ContractError>(
            ContractError::CW20DiraContractAddressNotSet {},
        ),
        dira_to_return@ <= position.minted_dira@ ==> (params.cw20_dira_contract_address
            matches Some(c) ==> (r matches Ok(out) && out.0.minted_dira@ == position.minted_dira@
            - dira_to_return@ && out.0.locked_collateral == position.locked_collateral
            && out.1@.len() == 1 && (out.1@[0] matches OutboundInstruction::BurnTokensFrom {
            token_contract,
            owner,
            amount,
        } && token_contract@ == c@ && owner@ == sender@ && amount == dira_to_return@ / (
        MINOR_UNIT as int)))),
{
    if dira_to_return.gt(&position.minted_dira) {
        return Err(ContractError::ReturningMoreDiraThanMinted {});
    }
    let cw20_dira_contract_address = match &params.cw20_dira_contract_address {
        Some(c) => c.clone(),
        None => { return Err(ContractError::CW20DiraContractAddressNotSet {}) },
    };
    let instruction = OutboundInstruction::BurnTokensFrom {
        token_contract: cw20_dira_contract_address,
        owner: sender.clone(),
        amount: dira_to_return.to_minor_units(),
    };
    let mut instructions: Vec<OutboundInstruction> = Vec::new();
    instructions.push(instruction);
    Ok(
        (
            Position {
                locked_collateral: position.locked_collateral,
                minted_dira: position.minted_dira.sub(dira_to_return),
            },
            instructions,
        ),
    )
}

/// Force-closes an undercollateralized position. Anyone may call this
/// against any wallet.
///
/// Fails with `InvalidWalletAddress` when the host could not validate the
/// target address, with `CollateralPriceNotSet` while no price is
/// configured, and with `TooHealthyToLiquidate` when the target's health is
/// at or above the liquidation threshold — in particular a debt-free
/// position, whose health is unbounded, is never liquidatable. On success
/// both balances of the target are reset to zero and the receipt carries the
/// pre-liquidation values; no reward is paid and the seized collateral stays
/// with the contract.
pub fn execute_liquidate_stablecoin_minter(
    params: &GlobalParams,
    position: &Position,
    initiator: &String,
    wallet_address_to_liquidate: &String,
    wallet_address_is_valid: bool,
) -> (r: Result<(Position, LiquidationReceipt), ContractError>)
    requires
        wallet_address_is_valid ==> (params.collateral_price matches Some(p) ==> ({
            &&& spec_collateral_value(position.locked_collateral@, p@) <= u128::MAX
            &&& position.minted_dira@ > 0 ==> spec_health_ratio(
                position.minted_dira@,
                position.locked_collateral@,
                p@,
            ) <= u128::MAX
        })),
    ensures
        !wallet_address_is_valid ==> r == Err::<(Position, LiquidationReceipt), ContractError>(
            ContractError::InvalidWalletAddress {},
        ),
        wallet_address_is_valid && params.collateral_price is None ==> r == Err::<
            (Position, LiquidationReceipt),
            ContractError,
        >(ContractError::CollateralPriceNotSet {}),
        wallet_address_is_valid ==> (params.collateral_price matches Some(p) ==> (
        spec_health_at_least(
            position.minted_dira@,
            position.locked_collateral@,
            p@,
            params.liquidation_health@,
        ) ==> (r matches Err(e) && e matches ContractError::TooHealthyToLiquidate {
            wallet_address,
        } && wallet_address@ == wallet_address_to_liquidate@))),
        wallet_address_is_valid ==> (params.collateral_price matches Some(p) ==> (
        !spec_health_at_least(
            position.minted_dira@,
            position.locked_collateral@,
            p@,
            params.liquidation_health@,
        ) ==> (r matches Ok(out) && out.0.locked_collateral@ == 0 && out.0.minted_dira@ == 0
            && out.1.liquidated_wallet@ == wallet_address_to_liquidate@
            && out.1.liquidated_collateral == position.locked_collateral && out.1.liquidated_dira
            == position.minted_dira && out.1.initiator@ == initiator@
            && out.1.liquidator_reward_paid@ == 0))),
        position.minted_dira@ == 0 ==> r is Err,
{
    if !wallet_address_is_valid {
        return Err(ContractError::InvalidWalletAddress {});
    }
    let collateral_price_in_dirham = match &params.collateral_price {
        Some(p) => *p,
        None => { return Err(ContractError::CollateralPriceNotSet {}) },
    };
    let user_health = helper_calculate_stablecoin_health(
        position.minted_dira,
        position.locked_collateral,
        collateral_price_in_dirham,
    );
    if user_health.is_at_least(&params.liquidation_health) {
        return Err(
            ContractError::TooHealthyToLiquidate {
                wallet_address: wallet_address_to_liquidate.clone(),
            },
        );
    }
    let receipt = LiquidationReceipt {
        liquidated_wallet: wallet_address_to_liquidate.clone(),
        liquidated_collateral: position.locked_collateral,
        liquidated_dira: position.minted_dira,
        initiator: initiator.clone(),
        liquidator_reward_paid: Decimal::zero(),
    };
    Ok((Position::empty(), receipt))
}

/// Creates the initial global parameter record.
///
/// Both health thresholds must be positive, the collateral denomination must
/// be non-empty, and the mintable health may not start below the liquidation
/// health. A token contract address is accepted only when the host's probe
/// (`token_contract_is_cw20`) confirmed it answers as a token contract. The
/// sender becomes the single admin, and the collateral price starts unset.
pub fn instantiate(
    sender: String,
    msg: crate::msg::InstantiateMsg,
    token_contract_is_cw20: bool,
) -> (r: Result<GlobalParams, ContractError>)
    ensures
        msg.liquidation_health@ == 0 || msg.mintable_health@ == 0 ==> r == Err::<
            GlobalParams,
            ContractError,
        >(ContractError::HealthCannotBeZero {}),
        msg.liquidation_health@ > 0 && msg.mintable_health@ > 0
            && msg.collateral_token_denom@.len() == 0 ==> r == Err::<GlobalParams, ContractError>(
            ContractError::MissingCollateralTokenDenom {},
        ),
        msg.liquidation_health@ > 0 && msg.mintable_health@ > 0
            && msg.collateral_token_denom@.len() > 0 && msg.mintable_health@
            < msg.liquidation_health@ ==> r == Err::<GlobalParams, ContractError>(
            ContractError::MintableHealthLowerThanLiquidationHealth {},
        ),
        msg.liquidation_health@ > 0 && msg.mintable_health@ > 0
            && msg.collateral_token_denom@.len() > 0 && msg.mintable_health@
            >= msg.liquidation_health@ && msg.cw20_dira_contract_address is Some
            && !token_contract_is_cw20 ==> r == Err::<GlobalParams, ContractError>(
            ContractError::InvalidCW20ContractAddress {},
        ),
        r matches Ok(p) ==> {
            &&& msg.liquidation_health@ > 0
            &&& msg.mintable_health@ > 0
            &&& msg.collateral_token_denom@.len() > 0
            &&& msg.mintable_health@ >= msg.liquidation_health@
            &&& p.admin_addresses@.len() == 1
            &&& p.admin_addresses@[0]@ == sender@
            &&& p.liquidation_health == msg.liquidation_health
            &&& p.mintable_health == msg.mintable_health
            &&& p.collateral_token_denom@ == msg.collateral_token_denom@
            &&& p.collateral_price is None
            &&& match msg.cw20_dira_contract_address {
                Some(addr) => token_contract_is_cw20 && (p.cw20_dira_contract_address matches Some(
                    stored,
                ) && stored@ == addr@),
                None => p.cw20_dira_contract_address is None,
            }
            &&& p.wf()
        },
        r is Ok <==> (msg.liquidation_health@ > 0 && msg.mintable_health@ > 0
            && msg.collateral_token_denom@.len() > 0 && msg.mintable_health@
            >= msg.liquidation_health@ && (msg.cw20_dira_contract_address is Some
            ==> token_contract_is_cw20)),
{
    if msg.liquidation_health.is_zero() || msg.mintable_health.is_zero() {
        return Err(ContractError::HealthCannotBeZero {});
    }
    if msg.collateral_token_denom.as_str().is_empty() {
        return Err(ContractError::MissingCollateralTokenDenom {});
    }
    if msg.mintable_health.lt(&msg.liquidation_health) {
        return Err(ContractError::MintableHealthLowerThanLiquidationHealth {});
    }
    let cw20_dira_contract_address = match msg.cw20_dira_contract_address {
        Some(addr) => {
            if token_contract_is_cw20 {
                Some(addr)
            } else {
                return Err(ContractError::InvalidCW20ContractAddress {});
            }
        },
        None => None,
    };
    let mut admin_addresses: Vec<String> = Vec::new();
    admin_addresses.push(sender);
    Ok(
        GlobalParams {
            admin_addresses,
            liquidation_health: msg.liquidation_health,
            mintable_health: msg.mintable_health,
            collateral_token_denom: msg.collateral_token_denom,
            collateral_price: None,
            cw20_dira_contract_address,
        },
    )
}

/// Sets the collateral price. Only an admin may call this; any non-negative
/// price is accepted, including zero.
pub fn execute_set_collateral_price_in_dirham(
    params: &mut GlobalParams,
    sender: &String,
    collateral_price_in_dirham: Decimal,
) -> (r: Result<(), ContractError>)
    ensures
        !spec_is_admin(old(params).admin_addresses@, sender@) ==> r == Err::<(), ContractError>(
            ContractError::UnauthorizedUser {},
        ) && *final(params) == *old(params),
        spec_is_admin(old(params).admin_addresses@, sender@) ==> r is Ok && *final(params)
            == (GlobalParams {
            collateral_price: Some(collateral_price_in_dirham),
            ..*old(params)
        }),
        old(params).wf() ==> final(params).wf(),
{
    if !is_admin(params, sender) {
        return Err(ContractError::UnauthorizedUser {});
    }
    params.collateral_price = Some(collateral_price_in_dirham);
    Ok(())
}

/// Sets the liquidation-health threshold. Only an admin may call this.
///
/// The new value is not re-checked against the current mintable health, so
/// this path alone can leave the mintable health below the liquidation
/// health; the cross-check runs only at instantiation and when the mintable
/// health itself is changed.
pub fn execute_set_liquidation_health(
    params: &mut GlobalParams,
    sender: &String,
    liquidation_health: Decimal,
) -> (r: Result<(), ContractError>)
    ensures
        !spec_is_admin(old(params).admin_addresses@, sender@) ==> r == Err::<(), ContractError>(
            ContractError::UnauthorizedUser {},
        ) && *final(params) == *old(params),
        spec_is_admin(old(params).admin_addresses@, sender@) ==> r is Ok && *final(params)
            == (GlobalParams { liquidation_health, ..*old(params) }),
        old(params).wf() ==> final(params).wf(),
{
    if !is_admin(params, sender) {
        return Err(ContractError::UnauthorizedUser {});
    }
    params.liquidation_health = liquidation_health;
    Ok(())
}

/// Sets the mintable-health threshold. Only an admin may call this, and the
/// new value may not lie below the current liquidation health.
pub fn execute_set_mintable_health(
    params: &mut GlobalParams,
    sender: &String,
    mintable_health: Decimal,
) -> (r: Result<(), ContractError>)
    ensures
        !spec_is_admin(old(params).admin_addresses@, sender@) ==> r == Err::<(), ContractError>(
            ContractError::UnauthorizedUser {},
        ) && *final(params) == *old(params),
        spec_is_admin(old(params).admin_addresses@, sender@) && mintable_health@ < old(
            params,
        ).liquidation_health@ ==> r == Err::<(), ContractError>(
            ContractError::MintableHealthLowerThanLiquidationHealth {},
        ) && *final(params) == *old(params),
        spec_is_admin(old(params).admin_addresses@, sender@) && mintable_health@ >= old(
            params,
        ).liquidation_health@ ==> r is Ok && *final(params) == (GlobalParams {
            mintable_health,
            ..*old(params)
        }),
        old(params).wf() ==> final(params).wf(),
{
    if !is_admin(params, sender) {
        return Err(ContractError::UnauthorizedUser {});
    }
    if mintable_health.lt(&params.liquidation_health) {
        return Err(ContractError::MintableHealthLowerThanLiquidationHealth {});
    }
    params.mintable_health = mintable_health;
    Ok(())
}

/// Configures the address of the external token contract. Only an admin may
/// call this, and only an address that the host's probe confirmed to answer
/// as a token contract is accepted.
pub fn execute_set_cw20_dira_contact_address(
    params: &mut GlobalParams,
    sender: &String,
    cw20_dira_contract_address: String,
    contract_is_cw20_token: bool,
) -> (r: Result<(), ContractError>)
    ensures
        !spec_is_admin(old(params).admin_addresses@, sender@) ==> r == Err::<(), ContractError>(
            ContractError::UnauthorizedUser {},
        ) && *final(params) == *old(params),
        spec_is_admin(old(params).admin_addresses@, sender@) && !contract_is_cw20_token ==> r
            == Err::<(), ContractError>(ContractError::InvalidCW20ContractAddress {})
            && *final(params) == *old(params),
        spec_is_admin(old(params).admin_addresses@, sender@) && contract_is_cw20_token ==> r
            is Ok && *final(params) == (GlobalParams {
            cw20_dira_contract_address: Some(cw20_dira_contract_address),
            ..*old(params)
        }),
        old(params).wf() ==> final(params).wf(),
{
    if !is_admin(params, sender) {
        return Err(ContractError::UnauthorizedUser {});
    }
    if !contract_is_cw20_token {
        return Err(ContractError::InvalidCW20ContractAddress {});
    }
    params.cw20_dira_contract_address = Some(cw20_dira_contract_address);
    Ok(())
}

/// The current collateral price; fails while no price is configured.
pub fn query_collateral_price(params: &GlobalParams) -> (r: Result<
    CollateralPriceResponse,
    ContractError,
>)
    ensures
        params.collateral_price matches Some(p) ==> r == Ok::<
            CollateralPriceResponse,
            ContractError,
        >(CollateralPriceResponse { collateral_price: p }),
        params.collateral_price is None ==> r == Err::<CollateralPriceResponse, ContractError>(
            ContractError::CollateralPriceNotSet {},
        ),
{
    match &params.collateral_price {
        Some(p) => Ok(CollateralPriceResponse { collateral_price: *p }),
        None => Err(ContractError::CollateralPriceNotSet {}),
    }
}

/// The collateral a wallet has locked; zero for a wallet without an entry.
pub fn query_locked_collateral(position: &Position) -> (r: CollateralResponse)
    ensures
        r.collateral_locked == position.locked_collateral,
{
    CollateralResponse { collateral_locked: position.locked_collateral }
}

/// The health of a wallet's position at the current price; fails while no
/// price is configured.
pub fn query_stablecoin_health(params: &GlobalParams, position: &Position) -> (r: Result<
    StablecoinHealthResponse,
    ContractError,
>)
    requires
        params.collateral_price matches Some(p) ==> spec_collateral_value(
            position.locked_collateral@,
            p@,
        ) <= u128::MAX && (position.minted_dira@ > 0 ==> spec_health_ratio(
            position.minted_dira@,
            position.locked_collateral@,
            p@,
        ) <= u128::MAX),
    ensures
        params.collateral_price is None ==> r == Err::<StablecoinHealthResponse, ContractError>(
            ContractError::CollateralPriceNotSet {},
        ),
        params.collateral_price matches Some(p) ==> (r matches Ok(resp) && (
        position.minted_dira@ == 0 ==> resp.health == Health::Unbounded) && (position.minted_dira@
            > 0 ==> resp.health == Health::Ratio(
            Decimal {
                atto: spec_health_ratio(position.minted_dira@, position.locked_collateral@, p@)
                    as u128,
            },
        ))),
{
    let collateral_price_in_dirham = match &params.collateral_price {
        Some(p) => *p,
        None => { return Err(ContractError::CollateralPriceNotSet {}) },
    };
    let health = helper_calculate_stablecoin_health(
        position.minted_dira,
        position.locked_collateral,
        collateral_price_in_dirham,
    );
    Ok(StablecoinHealthResponse { health })
}

/// Copies the admin address list for a query response.
fn clone_addresses(addresses: &Vec<String>) -> (r: Vec<String>)
    ensures
        r@.len() == addresses@.len(),
        forall|i: int| 0 <= i < addresses@.len() ==> r@[i]@ == addresses@[i]@,
{
    let mut r: Vec<String> = Vec::new();
    let n = addresses.len();
    let mut i: usize = 0;
    while i < n
        invariant
            0 <= i <= n,
            n == addresses@.len(),
            r@.len() == i,
            forall|j: int| 0 <= j < i ==> r@[j]@ == addresses@[j]@,
        decreases n - i,
    {
        r.push(addresses[i].clone());
        i += 1;
    }
    r
}

/// Answers a read-only query against the loaded state. For the per-wallet
/// queries the host passes the queried wallet's position; an absent ledger
/// entry reads as the empty position. Only the price and health queries can
/// fail, and only while no collateral price is configured.
pub fn query(params: &GlobalParams, position: &Position, msg: &QueryMsg) -> (r: Result<
    QueryAnswer,
    ContractError,
>)
    requires
        msg matches QueryMsg::QueryStablecoinHealth { .. } ==> (params.collateral_price matches
            Some(p) ==> spec_collateral_value(position.locked_collateral@, p@) <= u128::MAX && (
        position.minted_dira@ > 0 ==> spec_health_ratio(
            position.minted_dira@,
            position.locked_collateral@,
            p@,
        ) <= u128::MAX)),
    ensures
        match *msg {
            QueryMsg::QueryLockedCollateral { .. } => r == Ok::<QueryAnswer, ContractError>(
                QueryAnswer::LockedCollateral(
                    CollateralResponse { collateral_locked: position.locked_collateral },
                ),
            ),
            QueryMsg::QueryMintedDira { .. } => r == Ok::<QueryAnswer, ContractError>(
                QueryAnswer::MintedDira(MintedDiraResponse { dira_minted: position.minted_dira }),
            ),
            QueryMsg::QueryStablecoinHealth { .. } => {
                &&& params.collateral_price is None ==> r == Err::<QueryAnswer, ContractError>(
                    ContractError::CollateralPriceNotSet {},
                )
                &&& params.collateral_price matches Some(p) ==> (r matches Ok(
                    QueryAnswer::StablecoinHealth(resp),
                ) && (position.minted_dira@ == 0 ==> resp.health == Health::Unbounded) && (
                position.minted_dira@ > 0 ==> resp.health == Health::Ratio(
                    Decimal {
                        atto: spec_health_ratio(
                            position.minted_dira@,
                            position.locked_collateral@,
                            p@,
                        ) as u128,
                    },
                )))
            },
            QueryMsg::QueryCollateralPrice {  } => {
                &&& params.collateral_price is None ==> r == Err::<QueryAnswer, ContractError>(
                    ContractError::CollateralPriceNotSet {},
                )
                &&& params.collateral_price matches Some(p) ==> r == Ok::<
                    QueryAnswer,
                    ContractError,
                >(QueryAnswer::CollateralPrice(CollateralPriceResponse { collateral_price: p }))
            },
            QueryMsg::QueryLiquidationHealth {  } => r == Ok::<QueryAnswer, ContractError>(
                QueryAnswer::LiquidationHealth(
                    LiquidationHealthResponse { liquidation_health: params.liquidation_health },
                ),
            ),
            QueryMsg::QueryMintableHealth {  } => r == Ok::<QueryAnswer, ContractError>(
                QueryAnswer::MintableHealth(
                    MintableHealthResponse { mintable_health: params.mintable_health },
                ),
            ),
            QueryMsg::QueryAdminAddresses {  } => r matches Ok(
                QueryAnswer::AdminAddresses(resp),
            ) && resp.admin_addresses@.len() == params.admin_addresses@.len() && (forall|i: int|
                0 <= i < params.admin_addresses@.len() ==> resp.admin_addresses@[i]@
                    == params.admin_addresses@[i]@),
            QueryMsg::QueryCollateralTokenDenom {  } => r matches Ok(
                QueryAnswer::CollateralTokenDenom(resp),
            ) && resp.collateral_token_denom@ == params.collateral_token_denom@,
            QueryMsg::QueryCW20DiraContractAddress {  } => r matches Ok(
                QueryAnswer::CW20DiraContractAddress(resp),
            ) && match params.cw20_dira_contract_address {
                Some(a) => resp.cw20_dira_contract_address matches Some(stored) && stored@ == a@,
                None => resp.cw20_dira_contract_address is None,
            },
        },
{
    match msg {
        QueryMsg::QueryLockedCollateral { .. } => Ok(
            QueryAnswer::LockedCollateral(query_locked_collateral(position)),
        ),
        QueryMsg::QueryMintedDira { .. } => Ok(
            QueryAnswer::MintedDira(MintedDiraResponse { dira_minted: position.minted_dira }),
        ),
        QueryMsg::QueryStablecoinHealth { .. } => {
            match query_stablecoin_health(params, position) {
                Ok(resp) => Ok(QueryAnswer::StablecoinHealth(resp)),
                Err(e) => Err(e),
            }
        },
        QueryMsg::QueryCollateralPrice {  } => {
            match query_collateral_price(params) {
                Ok(resp) => Ok(QueryAnswer::CollateralPrice(resp)),
                Err(e) => Err(e),
            }
        },
        QueryMsg::QueryLiquidationHealth {  } => Ok(
            QueryAnswer::LiquidationHealth(
                LiquidationHealthResponse { liquidation_health: params.liquidation_health },
            ),
        ),
        QueryMsg::QueryMintableHealth {  } => Ok(
            QueryAnswer::MintableHealth(
                MintableHealthResponse { mintable_health: params.mintable_health },
            ),
        ),
        QueryMsg::QueryAdminAddresses {  } => Ok(
            QueryAnswer::AdminAddresses(
                AdminAddressesResponse { admin_addresses: clone_addresses(&params.admin_addresses) },
            ),
        ),
        QueryMsg::QueryCollateralTokenDenom {  } => Ok(
            QueryAnswer::CollateralTokenDenom(
                CollateralTokenDenomResponse {
                    collateral_token_denom: params.collateral_token_denom.clone(),
                },
            ),
        ),
        QueryMsg::QueryCW20DiraContractAddress {  } => {
            let cw20_dira_contract_address = match &params.cw20_dira_contract_address {
                Some(a) => Some(a.clone()),
                None => None,
            };
            Ok(
                QueryAnswer::CW20DiraContractAddress(
                    CW20DiraContractAddressResponse { cw20_dira_contract_address },
                ),
            )
        },
    }
}

/// Unlocking and immediately re-locking the same amount on a debt-free
/// position restores the locked collateral exactly.
///
/// For a debt-free position the unlock ceiling is the whole locked amount,
/// so `execute_unlock_collateral` accepts any `amount <= locked` and leaves
/// `locked - amount` behind, paying out `amount / MINOR_UNIT` minor units.
/// Re-locking those coins, `execute_lock_collateral` adds their value in
/// atto-units back. The round trip is exact whenever `amount` is a whole
/// number of minor units — the only granularity the coin payout can carry.
pub proof fn lemma_unlock_lock_round_trip(locked: int, price: int, mintable_health: int, amount: int)
    requires
        0 <= locked,
        0 < price,
        0 <= mintable_health,
        0 <= amount <= locked,
        amount % (MINOR_UNIT as int) == 0,
    ensures
        spec_max_unlockable(locked, price, 0, mintable_health) == locked,
        (locked - amount) + (amount / (MINOR_UNIT as int)) * (MINOR_UNIT as int) == locked,
{
    let s = crate::decimal::SCALE as int;
    let m = MINOR_UNIT as int;
    // A debt of zero needs no collateral: mul_floor(0, h) == 0 and
    // div_floor(0, price) == 0.
    assert(mul_floor(0, mintable_health) == 0) by {
        lemma_mul_by_zero_is_zero(mintable_health);
        lemma_div_of0(s);
    }
    assert(div_floor(0, price) == 0) by {
        lemma_div_of0(price);
    }
    // A multiple of the minor unit survives the conversion to minor units
    // and back.
    lemma_fundamental_div_mod(amount, m);
    assert((amount / m) * m == amount) by {
        lemma_mul_is_commutative(m, amount / m);
    }
}

} // verus!
