use stable_dira::contract::{
    execute_burn_dira, execute_lock_collateral, execute_liquidate_stablecoin_minter,
    execute_mint_dira, execute_set_collateral_price_in_dirham, execute_set_liquidation_health,
    execute_set_mintable_health, execute_unlock_collateral, instantiate, query,
};
use stable_dira::decimal::Decimal;
use stable_dira::error::ContractError;
use stable_dira::msg::{InstantiateMsg, OutboundInstruction, QueryAnswer, QueryMsg};
use stable_dira::state::{Coin, GlobalParams, Health, Position};

fn admin() -> String {
    "cosmwasm1qypqxpq9qcrsszgszyfpx9q4zct3sxfqx5vwjh".to_string()
}

fn non_admin() -> String {
    "cosmwasm1qypqxpq9qcrsszgszyfpx9q4zct3sy3q8mmchv".to_string()
}

fn cw20_contract_addr() -> String {
    "contract0".to_string()
}

fn coins(amount: u128, denom: &str) -> Vec<Coin> {
    vec![Coin {
        denom: denom.to_string(),
        amount,
    }]
}

/// Instantiates the contract as the integration environment does: the admin
/// instantiates with liquidation health 1.10, mintable health 1.30,
/// collateral denom "uatom" and a validated token contract address.
fn setup_params() -> GlobalParams {
    instantiate(
        admin(),
        InstantiateMsg {
            liquidation_health: Decimal::percent(110),
            mintable_health: Decimal::percent(130),
            collateral_token_denom: "uatom".to_string(),
            cw20_dira_contract_address: Some(cw20_contract_addr()),
        },
        true,
    )
    .unwrap()
}

#[test]
fn test_setup_instance() {
    let params = setup_params();
    assert!(!params.cw20_dira_contract_address.clone().unwrap().is_empty());
    assert!(!params.collateral_token_denom.is_empty());
    assert_eq!(params.admin_addresses, vec![admin()]);
}

#[test]
fn test_admin_functions() {
    let mut params = setup_params();

    // Setting the collateral price to 33.09: admin succeeds, non-admin fails.
    let res = execute_set_collateral_price_in_dirham(&mut params, &admin(), Decimal::percent(3309));
    assert!(res.is_ok());
    assert_eq!(params.collateral_price, Some(Decimal::percent(3309)));

    let res =
        execute_set_collateral_price_in_dirham(&mut params, &non_admin(), Decimal::percent(3309));
    assert!(res.is_err());

    // Setting the mintable health to 1.95: admin succeeds, non-admin fails.
    let res = execute_set_mintable_health(&mut params, &admin(), Decimal::percent(195));
    assert!(res.is_ok());
    assert_eq!(params.mintable_health, Decimal::percent(195));

    let res = execute_set_mintable_health(&mut params, &non_admin(), Decimal::percent(195));
    assert!(res.is_err());

    // Setting the liquidation health to 0.85: admin succeeds, non-admin fails.
    let res = execute_set_liquidation_health(&mut params, &admin(), Decimal::percent(85));
    assert!(res.is_ok());
    assert_eq!(params.liquidation_health, Decimal::percent(85));

    let res = execute_set_liquidation_health(&mut params, &non_admin(), Decimal::percent(85));
    assert!(res.is_err());
}

#[test]
fn test_lock_unlock_collateral() {
    let mut params = setup_params();
    execute_set_collateral_price_in_dirham(&mut params, &admin(), Decimal::percent(3309)).unwrap();

    // Lock 1204 minor units of uatom.
    let position = Position::empty();
    let res = execute_lock_collateral(&params, &position, &coins(1204, "uatom"));
    assert!(res.is_ok());
    let position = res.unwrap();
    assert_eq!(position.locked_collateral, Decimal::from_minor_units(1204));

    // Unlock the same 1204 minor units.
    let res = execute_unlock_collateral(
        &params,
        &position,
        &admin(),
        Decimal::from_minor_units(1204),
    );
    assert!(res.is_ok());
    let (position, instructions) = res.unwrap();
    assert_eq!(position.locked_collateral, Decimal::zero());
    assert_eq!(
        instructions,
        vec![OutboundInstruction::SendNative {
            to_address: admin(),
            denom: "uatom".to_string(),
            amount: 1204,
        }]
    );

    // Attempting to unlock more than is locked fails.
    let res = execute_unlock_collateral(
        &params,
        &position,
        &admin(),
        Decimal::from_minor_units(1500),
    );
    assert!(res.is_err());
}

#[test]
fn test_mint_burn_dira() {
    let mut params = setup_params();
    execute_set_collateral_price_in_dirham(&mut params, &admin(), Decimal::percent(3309)).unwrap();

    // Admin locks 10,000 minor units, non-admin locks 5,000.
    let admin_position =
        execute_lock_collateral(&params, &Position::empty(), &coins(10_000, "uatom")).unwrap();
    let non_admin_position =
        execute_lock_collateral(&params, &Position::empty(), &coins(5_000, "uatom")).unwrap();

    // Admin mints 1,000 minor units of stablecoin; the 0.3% fee of 3 minor
    // units is withheld, so the mint instruction covers 997.
    let res = execute_mint_dira(
        &params,
        Some(&admin_position),
        &admin(),
        Decimal::from_minor_units(1_000),
    );
    assert!(res.is_ok());
    let (admin_position, instructions) = res.unwrap();
    assert_eq!(admin_position.minted_dira, Decimal::from_minor_units(1_000));
    assert_eq!(
        instructions,
        vec![OutboundInstruction::MintTokens {
            token_contract: cw20_contract_addr(),
            recipient: admin(),
            amount: 997,
        }]
    );

    // Admin burns 500 minor units; the burn instruction covers the full
    // requested amount and the debt shrinks by it.
    let res = execute_burn_dira(
        &params,
        &admin_position,
        &admin(),
        Decimal::from_minor_units(500),
    );
    assert!(res.is_ok());
    let (admin_position, instructions) = res.unwrap();
    assert_eq!(admin_position.minted_dira, Decimal::from_minor_units(500));
    assert_eq!(
        instructions,
        vec![OutboundInstruction::BurnTokensFrom {
            token_contract: cw20_contract_addr(),
            owner: admin(),
            amount: 500,
        }]
    );

    // Non-admin mints 500 minor units; the fee of 1.5 minor units rounds the
    // minted amount down to 498.
    let res = execute_mint_dira(
        &params,
        Some(&non_admin_position),
        &non_admin(),
        Decimal::from_minor_units(500),
    );
    assert!(res.is_ok());
    let (non_admin_position, instructions) = res.unwrap();
    assert_eq!(
        non_admin_position.minted_dira,
        Decimal::from_minor_units(500)
    );
    assert_eq!(
        instructions,
        vec![OutboundInstruction::MintTokens {
            token_contract: cw20_contract_addr(),
            recipient: non_admin(),
            amount: 498,
        }]
    );

    // Non-admin burns 250 minor units.
    let res = execute_burn_dira(
        &params,
        &non_admin_position,
        &non_admin(),
        Decimal::from_minor_units(250),
    );
    assert!(res.is_ok());
    let (non_admin_position, instructions) = res.unwrap();
    assert_eq!(
        non_admin_position.minted_dira,
        Decimal::from_minor_units(250)
    );
    assert_eq!(
        instructions,
        vec![OutboundInstruction::BurnTokensFrom {
            token_contract: cw20_contract_addr(),
            owner: non_admin(),
            amount: 250,
        }]
    );
}

#[test]
fn test_liquidate_collateral() {
    let mut params = setup_params();

    // Set the collateral price to 33.09.
    execute_set_collateral_price_in_dirham(&mut params, &admin(), Decimal::percent(3309)).unwrap();

    // Both wallets lock 1,000,000 minor units (1.0 collateral unit).
    let admin_position =
        execute_lock_collateral(&params, &Position::empty(), &coins(1_000_000, "uatom")).unwrap();
    let user_position =
        execute_lock_collateral(&params, &Position::empty(), &coins(1_000_000, "uatom")).unwrap();

    // Both wallets mint 10.0 stablecoin (1,000,000 / 100,000).
    let (admin_position, _) = execute_mint_dira(
        &params,
        Some(&admin_position),
        &admin(),
        Decimal::percent(1_000),
    )
    .unwrap();
    let (user_position, _) = execute_mint_dira(
        &params,
        Some(&user_position),
        &non_admin(),
        Decimal::percent(1_000),
    )
    .unwrap();

    // The collateral price drops to 10.00: health falls to 1.0, below the
    // liquidation threshold of 1.10, and the user liquidates the admin.
    execute_set_collateral_price_in_dirham(&mut params, &admin(), Decimal::percent(1_000)).unwrap();
    let res =
        execute_liquidate_stablecoin_minter(&params, &admin_position, &non_admin(), &admin(), true);
    assert!(res.is_ok());
    let (admin_position, receipt) = res.unwrap();
    assert_eq!(admin_position.locked_collateral, Decimal::zero());
    assert_eq!(admin_position.minted_dira, Decimal::zero());
    assert_eq!(receipt.liquidated_wallet, admin());
    assert_eq!(receipt.liquidated_collateral, Decimal::from_minor_units(1_000_000));
    assert_eq!(receipt.liquidated_dira, Decimal::percent(1_000));
    assert_eq!(receipt.initiator, non_admin());
    assert_eq!(receipt.liquidator_reward_paid, Decimal::zero());

    // The price drops further to 5.00 and the admin liquidates the user.
    execute_set_collateral_price_in_dirham(&mut params, &admin(), Decimal::percent(500)).unwrap();
    let res = execute_liquidate_stablecoin_minter(
        &params,
        &user_position,
        &admin(),
        &non_admin(),
        true,
    );
    assert!(res.is_ok());

    // The admin's position was already liquidated: a second attempt fails.
    let res =
        execute_liquidate_stablecoin_minter(&params, &admin_position, &non_admin(), &admin(), true);
    assert!(res.is_err());

    // A wallet with no minted stablecoin cannot be liquidated.
    let res = execute_liquidate_stablecoin_minter(
        &params,
        &Position::empty(),
        &admin(),
        &"cosmos1no_minterxxxxxxxxxxxxxx".to_string(),
        true,
    );
    assert!(res.is_err());

    // Neither can a wallet with no ledger entry at all.
    let res = execute_liquidate_stablecoin_minter(
        &params,
        &Position::empty(),
        &admin(),
        &"cosmos1nonexistentxxxxxxxxxxx".to_string(),
        true,
    );
    assert!(res.is_err());
}

#[test]
fn test_query_functions() {
    let mut params = setup_params();

    // Set the collateral price to 25.00.
    execute_set_collateral_price_in_dirham(&mut params, &admin(), Decimal::percent(2500)).unwrap();

    // Both wallets lock 100,000,000,000 minor units and mint 50.0 (5000/100).
    let admin_position = execute_lock_collateral(
        &params,
        &Position::empty(),
        &coins(100_000_000_000u128, "uatom"),
    )
    .unwrap();
    let user_position = execute_lock_collateral(
        &params,
        &Position::empty(),
        &coins(100_000_000_000u128, "uatom"),
    )
    .unwrap();
    let (admin_position, _) = execute_mint_dira(
        &params,
        Some(&admin_position),
        &admin(),
        Decimal::percent(5_000),
    )
    .unwrap();
    let (user_position, _) = execute_mint_dira(
        &params,
        Some(&user_position),
        &non_admin(),
        Decimal::percent(5_000),
    )
    .unwrap();

    // Query the admin's locked collateral: 100,000,000,000 / 1,000,000 whole
    // units.
    let res = query(
        &params,
        &admin_position,
        &QueryMsg::QueryLockedCollateral {
            wallet_address_to_query: admin(),
        },
    )
    .unwrap();
    match res {
        QueryAnswer::LockedCollateral(resp) => assert_eq!(
            resp.collateral_locked,
            Decimal::from_minor_units(100_000_000_000u128)
        ),
        _ => panic!("unexpected query answer"),
    }

    // Query the user's minted stablecoin.
    let res = query(
        &params,
        &user_position,
        &QueryMsg::QueryMintedDira {
            wallet_address_to_query: non_admin(),
        },
    )
    .unwrap();
    match res {
        QueryAnswer::MintedDira(resp) => {
            assert_eq!(resp.dira_minted, Decimal::percent(5_000))
        }
        _ => panic!("unexpected query answer"),
    }

    // Query the user's health: 100,000 collateral at 25.00 against 50 debt
    // gives 50,000.
    let res = query(
        &params,
        &user_position,
        &QueryMsg::QueryStablecoinHealth {
            stablecoin_minter_address_to_query: non_admin(),
        },
    )
    .unwrap();
    match res {
        QueryAnswer::StablecoinHealth(resp) => {
            assert_eq!(resp.health, Health::Ratio(Decimal::percent(5_000_000)))
        }
        _ => panic!("unexpected query answer"),
    }

    // Query the collateral price.
    let res = query(&params, &Position::empty(), &QueryMsg::QueryCollateralPrice {}).unwrap();
    match res {
        QueryAnswer::CollateralPrice(resp) => {
            assert_eq!(resp.collateral_price, Decimal::percent(2500))
        }
        _ => panic!("unexpected query answer"),
    }

    // Query the liquidation health threshold.
    let res = query(&params, &Position::empty(), &QueryMsg::QueryLiquidationHealth {}).unwrap();
    match res {
        QueryAnswer::LiquidationHealth(resp) => {
            assert_eq!(resp.liquidation_health, Decimal::percent(110))
        }
        _ => panic!("unexpected query answer"),
    }

    // Query the mintable health threshold.
    let res = query(&params, &Position::empty(), &QueryMsg::QueryMintableHealth {}).unwrap();
    match res {
        QueryAnswer::MintableHealth(resp) => {
            assert_eq!(resp.mintable_health, Decimal::percent(130))
        }
        _ => panic!("unexpected query answer"),
    }

    // Query the admin addresses.
    let res = query(&params, &Position::empty(), &QueryMsg::QueryAdminAddresses {}).unwrap();
    match res {
        QueryAnswer::AdminAddresses(resp) => assert_eq!(resp.admin_addresses, vec![admin()]),
        _ => panic!("unexpected query answer"),
    }

    // Query the collateral token denom.
    let res = query(
        &params,
        &Position::empty(),
        &QueryMsg::QueryCollateralTokenDenom {},
    )
    .unwrap();
    match res {
        QueryAnswer::CollateralTokenDenom(resp) => {
            assert_eq!(resp.collateral_token_denom, "uatom")
        }
        _ => panic!("unexpected query answer"),
    }

    // Query the token contract address.
    let res = query(
        &params,
        &Position::empty(),
        &QueryMsg::QueryCW20DiraContractAddress {},
    )
    .unwrap();
    match res {
        QueryAnswer::CW20DiraContractAddress(resp) => {
            assert_eq!(resp.cw20_dira_contract_address, Some(cw20_contract_addr()))
        }
        _ => panic!("unexpected query answer"),
    }
}

#[test]
fn liquidation_requires_valid_address() {
    let mut params = setup_params();
    execute_set_collateral_price_in_dirham(&mut params, &admin(), Decimal::percent(3309)).unwrap();
    let res = execute_liquidate_stablecoin_minter(
        &params,
        &Position::empty(),
        &admin(),
        &"not an address".to_string(),
        false,
    );
    assert_eq!(res, Err(ContractError::InvalidWalletAddress {}));
}
