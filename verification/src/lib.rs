//! Accounting engine for a collateral-backed stablecoin.
//!
//! Users lock a native collateral asset, mint stablecoin against it up to a
//! health-ratio limit, burn stablecoin to reduce their debt, and positions
//! whose health falls below the liquidation threshold can be force-closed by
//! anyone. Every state transition is a pure function from the loaded ledger
//! state to a new state plus a list of outbound instructions; the host that
//! persists state and dispatches instructions lives outside this crate.
pub mod contract;
pub mod decimal;
pub mod error;
pub mod msg;
pub mod state;
