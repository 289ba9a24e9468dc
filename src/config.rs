//! Decisions on the values that configure the bot at startup. A required
//! value that is absent or malformed stops startup with an error.

use vstd::prelude::*;
use crate::text::{id_value, is_id, parse_id};

verus! {

/// Why the configuration was refused.
#[derive(Clone, Copy, Debug, PartialEq, Eq, Structural)]
pub enum ConfigError {
    /// A required value is absent.
    Missing,
    /// An identifier is not a decimal number that fits in 64 bits.
    NotAnId,
    /// An identifier is zero, which no platform object has.
    ZeroId,
}

/// Where commands are registered at startup.
#[derive(Clone, Copy, Debug, PartialEq, Eq, Structural)]
pub enum RegistrationScope {
    /// In this one guild only, for testing.
    Guild(u64),
    /// Nowhere at startup; the register command does it globally.
    Global,
}

/// A required value.
pub fn required(value: Option<String>) -> (r: Result<String, ConfigError>)
    ensures
        value is None <==> r == Err::<String, _>(ConfigError::Missing),
        value matches Some(v) ==> (r matches Ok(t) && t@ == v@),
{
    match value {
        None => Err(ConfigError::Missing),
        Some(v) => Ok(v),
    }
}

/// A required identifier, such as the channel that quiet times are shared
/// in.
pub fn required_id(value: Option<String>) -> (r: Result<u64, ConfigError>)
    ensures
        value is None <==> r == Err::<u64, _>(ConfigError::Missing),
        value matches Some(v) ==> (!is_id(v@) <==> r == Err::<u64, _>(ConfigError::NotAnId)),
        value matches Some(v) ==> (is_id(v@) && id_value(v@) == 0 <==> r == Err::<u64, _>(
            ConfigError::ZeroId,
        )),
        value matches Some(v) ==> (is_id(v@) && id_value(v@) != 0 ==> r == Ok::<u64, ConfigError>(
            id_value(v@) as u64,
        )),
{
    match value {
        None => Err(ConfigError::Missing),
        Some(v) => match parse_id(v.as_str()) {
            Some(0) => Err(ConfigError::ZeroId),
            Some(id) => Ok(id),
            None => Err(ConfigError::NotAnId),
        },
    }
}

/// The registration scope from the optional test guild identifier: that guild
/// where one is given, global registration where none is.
pub fn registration_scope(guild_id: Option<String>) -> (r: Result<RegistrationScope, ConfigError>)
    ensures
        guild_id is None ==> r == Ok::<RegistrationScope, ConfigError>(RegistrationScope::Global),
        guild_id matches Some(v) ==> (!is_id(v@) <==> r == Err::<RegistrationScope, _>(
            ConfigError::NotAnId,
        )),
        guild_id matches Some(v) ==> (is_id(v@) && id_value(v@) == 0 <==> r == Err::<
            RegistrationScope,
            _,
        >(ConfigError::ZeroId)),
        guild_id matches Some(v) ==> (is_id(v@) && id_value(v@) != 0 ==> r == Ok::<
            RegistrationScope,
            ConfigError,
        >(RegistrationScope::Guild(id_value(v@) as u64))),
{
    match guild_id {
        None => Ok(RegistrationScope::Global),
        Some(v) => match parse_id(v.as_str()) {
            Some(0) => Err(ConfigError::ZeroId),
            Some(id) => Ok(RegistrationScope::Guild(id)),
            None => Err(ConfigError::NotAnId),
        },
    }
}

} // verus!
