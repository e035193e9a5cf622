//! The user that the bridge handed out, which the program keeps on disk.

use vstd::prelude::*;

use crate::address::IpAddress;
use crate::errors::ConfigError;

verus! {

/// Directory of the configuration, relative to the home directory.
pub const CONFIG_DIR: &'static str = ".config/rue";

/// Name of the configuration file inside that directory.
pub const CONFIG_NAME: &'static str = "rue.conf";

/// A user registered on a bridge: the name (token) used in API calls and
/// the bridge that issued it.
#[derive(Debug, Clone)]
pub struct User {
    pub username: String,
    pub bridge_address: IpAddress,
}

impl User {
    /// The home directory under which the configuration lives, or the error
    /// reported when there is none.
    pub fn config_home<T>(home: Option<T>) -> (res: Result<T, ConfigError>)
        ensures
            home matches Some(h) ==> res == Ok::<T, ConfigError>(h),
            home is None ==> (res matches Err(ConfigError::HomeDirectoryNotFound(m)) && m@
                == "No $HOME directory found for config"@),
    {
        match home {
            Some(h) => Ok(h),
            None => Err(
                ConfigError::HomeDirectoryNotFound(
                    String::from_str("No $HOME directory found for config"),
                ),
            ),
        }
    }
}

} // verus!
