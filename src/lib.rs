//! Recalibration of a stableswap pool's scaling factors from an exchange rate.
//!
//! The library holds the decisions of the contract: how a fixed-point rate
//! becomes a pair of scaling factors, how the configuration is created and
//! updated, and what a recalibration asks of the target pool. Storage,
//! ownership checks and queries are left to the host around it.
pub mod contract;
pub mod error;
pub mod factors;
pub mod msg;
pub mod text;

pub use contract::{config_update_request, instantiate_config, ConfigUpdate, update_config, update_scaling_factor, ScalingFactorUpdate};
pub use error::ContractError;
pub use factors::get_factors;
pub use msg::{Config, ExecuteMsg, InstantiateMsg, MigrateMsg, QueryMsg};
