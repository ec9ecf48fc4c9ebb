//! The decisions of the contract's entry points.
use crate::error::ContractError;
use crate::factors::{factors_fit, get_factors, truncated, MAX_DECIMALS};
use crate::msg::{Config, ExecuteMsg, InstantiateMsg};
use crate::text::{comma_joined, comma_joined_text};
use cosmwasm_std::{Addr, StdError};
use vstd::prelude::*;

verus! {

/// What a recalibration asks of the target pool: new scaling factors for
/// `pool_id`, sent by `sender`, with their text for the call's attributes.
#[derive(Debug, PartialEq, Eq)]
pub struct ScalingFactorUpdate {
    pub pool_id: u64,
    pub sender: String,
    pub scaling_factors: Vec<u64>,
    /// The factors' decimal texts joined by commas.
    pub factors: String,
}

/// The configuration a contract is created with, given what validation made
/// of the requested hub address. The precision is checked first.
pub open spec fn instantiated_config(
    msg: InstantiateMsg,
    hub: Result<Addr, StdError>,
) -> Result<Config, ContractError> {
    if msg.decimals > MAX_DECIMALS {
        Err(ContractError::DecimalsMustBeLessThan18)
    } else {
        match hub {
            Ok(hub) => Ok(
                Config {
                    pool_id: msg.pool_id,
                    hub,
                    scale_first: msg.scale_first,
                    decimals: Some(msg.decimals),
                },
            ),
            Err(e) => Err(ContractError::Std(e)),
        }
    }
}

/// Builds the initial configuration from `msg`, where `hub` is the outcome of
/// validating `msg.hub`. A precision above seventeen digits is refused.
pub fn instantiate_config(msg: InstantiateMsg, hub: Result<Addr, StdError>) -> (r: Result<
    Config,
    ContractError,
>)
    ensures
        r == instantiated_config(msg, hub),
        r matches Ok(config) ==> config.is_valid(),
{
    if msg.decimals > MAX_DECIMALS {
        return Err(ContractError::DecimalsMustBeLessThan18);
    }
    match hub {
        Ok(hub) => Ok(
            Config {
                pool_id: msg.pool_id,
                hub,
                scale_first: msg.scale_first,
                decimals: Some(msg.decimals),
            },
        ),
        Err(e) => Err(ContractError::Std(e)),
    }
}

/// The fields a configuration update asks to change; `None` keeps a field.
#[derive(Debug, PartialEq, Eq)]
pub struct ConfigUpdate {
    pub pool_id: Option<u64>,
    pub hub: Option<String>,
    pub scale_first: Option<bool>,
    pub decimals: Option<u32>,
}

/// Takes the requested fields out of an `UpdateConfig` action; any other action
/// is not handled by a configuration update and fails with `NotSupported`.
pub fn config_update_request(msg: ExecuteMsg) -> (r: Result<ConfigUpdate, ContractError>)
    ensures
        match msg {
            ExecuteMsg::UpdateConfig { pool_id, hub, scale_first, decimals } => r == Ok::<
                ConfigUpdate,
                ContractError,
            >(ConfigUpdate { pool_id, hub, scale_first, decimals }),
            _ => r == Err::<ConfigUpdate, ContractError>(ContractError::NotSupported),
        },
{
    match msg {
        ExecuteMsg::UpdateConfig { pool_id, hub, scale_first, decimals } => Ok(
            ConfigUpdate { pool_id, hub, scale_first, decimals },
        ),
        _ => Err(ContractError::NotSupported),
    }
}

/// `config` with each supplied field overwritten. `hub` is the outcome of
/// validating the requested address; its failure comes before a refused precision.
pub open spec fn updated_config(
    config: Config,
    pool_id: Option<u64>,
    hub: Option<Result<Addr, StdError>>,
    scale_first: Option<bool>,
    decimals: Option<u32>,
) -> Result<Config, ContractError> {
    match hub {
        Some(Err(e)) => Err(ContractError::Std(e)),
        _ => match decimals {
            Some(d) if d > MAX_DECIMALS => Err(ContractError::DecimalsMustBeLessThan18),
            _ => Ok(
                Config {
                    pool_id: match pool_id {
                        Some(p) => p,
                        None => config.pool_id,
                    },
                    hub: match hub {
                        Some(Ok(h)) => h,
                        _ => config.hub,
                    },
                    scale_first: match scale_first {
                        Some(s) => s,
                        None => config.scale_first,
                    },
                    decimals: match decimals {
                        Some(d) => Some(d),
                        None => config.decimals,
                    },
                },
            ),
        },
    }
}

/// Applies a partial update to the stored configuration: each field that is
/// `Some` replaces the stored one, the others stay.
pub fn update_config(
    config: Config,
    pool_id: Option<u64>,
    hub: Option<Result<Addr, StdError>>,
    scale_first: Option<bool>,
    decimals: Option<u32>,
) -> (r: Result<Config, ContractError>)
    ensures
        r == updated_config(config, pool_id, hub, scale_first, decimals),
        config.is_valid() ==> (r matches Ok(c) ==> c.is_valid()),
{
    let mut config = config;
    if let Some(pool) = pool_id {
        config.pool_id = pool;
    }
    if let Some(scale_first) = scale_first {
        config.scale_first = scale_first;
    }
    if let Some(hub) = hub {
        match hub {
            Ok(hub) => config.hub = hub,
            Err(e) => return Err(ContractError::Std(e)),
        }
    }
    if let Some(decimals) = decimals {
        if decimals > MAX_DECIMALS {
            return Err(ContractError::DecimalsMustBeLessThan18);
        }
        config.decimals = Some(decimals);
    }
    Ok(config)
}

/// An update that supplies no field leaves the configuration as it was.
pub proof fn lemma_empty_update_keeps_config(config: Config)
    ensures
        updated_config(config, None, None, None, None) == Ok::<Config, ContractError>(config),
{
}

/// An update that supplies every field, with an accepted precision, replaces
/// the whole configuration.
pub proof fn lemma_full_update_replaces_config(
    config: Config,
    pool_id: u64,
    hub: Addr,
    scale_first: bool,
    decimals: u32,
)
    requires
        decimals <= MAX_DECIMALS,
    ensures
        updated_config(config, Some(pool_id), Some(Ok(hub)), Some(scale_first), Some(decimals))
            == Ok::<Config, ContractError>(
            Config { pool_id, hub, scale_first, decimals: Some(decimals) },
        ),
{
}

/// The rate's component that gives the first factor: the numerator where
/// `scale_first` is set, else the denominator.
pub open spec fn first_component(scale_first: bool, numerator: u128, denominator: u128) -> u128 {
    if scale_first {
        numerator
    } else {
        denominator
    }
}

/// The rate's other component.
pub open spec fn second_component(scale_first: bool, numerator: u128, denominator: u128) -> u128 {
    if scale_first {
        denominator
    } else {
        numerator
    }
}

/// Derives the scaling factors for the configured pool from the exchange rate
/// `numerator / denominator` (both with eighteen fractional digits), in the
/// order that `config.scale_first` selects. Fails, as `get_factors` does,
/// exactly when a factor exceeds `u64::MAX`.
pub fn update_scaling_factor(
    config: &Config,
    sender: String,
    numerator: u128,
    denominator: u128,
) -> (r: Result<ScalingFactorUpdate, ContractError>)
    requires
        config.is_valid(),
    ensures
        r is Ok <==> factors_fit(
            first_component(config.scale_first, numerator, denominator),
            second_component(config.scale_first, numerator, denominator),
            config.decimals,
        ),
        r matches Err(e) ==> e is TryFromInt,
        r matches Ok(u) ==> {
            &&& u.pool_id == config.pool_id
            &&& u.sender@ == sender@
            &&& u.scaling_factors@.len() == 2
            &&& u.scaling_factors@[0] == truncated(
                first_component(config.scale_first, numerator, denominator),
                config.decimals,
            )
            &&& u.scaling_factors@[1] == truncated(
                second_component(config.scale_first, numerator, denominator),
                config.decimals,
            )
            &&& u.factors@ == comma_joined(u.scaling_factors@)
        },
{
    let scaling_factors = if config.scale_first {
        get_factors(numerator, denominator, config.decimals)?
    } else {
        get_factors(denominator, numerator, config.decimals)?
    };
    let factors = comma_joined_text(&scaling_factors);
    Ok(ScalingFactorUpdate { pool_id: config.pool_id, sender, scaling_factors, factors })
}

} // verus!
