//! Errors of the configuration store and of the bridge protocol.

use vstd::prelude::*;

verus! {

/// What can go wrong while storing or loading the saved user.
#[derive(Debug)]
pub enum ConfigError {
    CreateFileError(String),
    FileReadError(String),
    HomeDirectoryNotFound(String),
    Serialize(String),
    CreateDirectoryError(String),
}

/// What can go wrong while talking to a bridge.
#[derive(Debug)]
pub enum BridgeError {
    ButtonNotPressed,
    NoBridgesFound,
    RequestError(String),
    ResponseError(String),
    SaveUser(String),
    InternalError(String),
}

/// The text shown for a configuration error (the detail it carries is not part of it).
pub open spec fn config_error_text(e: ConfigError) -> Seq<char> {
    match e {
        ConfigError::CreateFileError(_) => "Error creating config file"@,
        ConfigError::FileReadError(_) => "Error reading config file"@,
        ConfigError::HomeDirectoryNotFound(_) => "Home directory not found"@,
        ConfigError::Serialize(_) => "Error serializing config file"@,
        ConfigError::CreateDirectoryError(_) => "Error creating config directory"@,
    }
}

/// The text shown for a bridge error (the detail it carries is not part of it).
pub open spec fn bridge_error_text(e: BridgeError) -> Seq<char> {
    match e {
        BridgeError::ButtonNotPressed => "Bridge button not pressed"@,
        BridgeError::NoBridgesFound => "No bridges found"@,
        BridgeError::RequestError(_) => "Error sending request"@,
        BridgeError::ResponseError(_) => "Error occured in response"@,
        BridgeError::SaveUser(_) => "Save user error"@,
        BridgeError::InternalError(_) => "Internal error"@,
    }
}

impl ConfigError {
    /// The error's text, as the program displays it.
    pub fn message(&self) -> (text: String)
        ensures
            text@ == config_error_text(*self),
    {
        match self {
            ConfigError::CreateFileError(_) => String::from_str("Error creating config file"),
            ConfigError::FileReadError(_) => String::from_str("Error reading config file"),
            ConfigError::HomeDirectoryNotFound(_) => String::from_str("Home directory not found"),
            ConfigError::Serialize(_) => String::from_str("Error serializing config file"),
            ConfigError::CreateDirectoryError(_) => String::from_str(
                "Error creating config directory",
            ),
        }
    }
}

impl BridgeError {
    /// The error's text, as the program displays it.
    pub fn message(&self) -> (text: String)
        ensures
            text@ == bridge_error_text(*self),
    {
        match self {
            BridgeError::ButtonNotPressed => String::from_str("Bridge button not pressed"),
            BridgeError::NoBridgesFound => String::from_str("No bridges found"),
            BridgeError::RequestError(_) => String::from_str("Error sending request"),
            BridgeError::ResponseError(_) => String::from_str("Error occured in response"),
            BridgeError::SaveUser(_) => String::from_str("Save user error"),
            BridgeError::InternalError(_) => String::from_str("Internal error"),
        }
    }
}

} // verus!
