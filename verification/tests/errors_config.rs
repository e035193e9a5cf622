use rue::config::{User, CONFIG_DIR, CONFIG_NAME};
use rue::errors::{BridgeError, ConfigError};

#[test]
fn bridge_error_messages() {
    assert_eq!(BridgeError::ButtonNotPressed.message(), "Bridge button not pressed");
    assert_eq!(BridgeError::NoBridgesFound.message(), "No bridges found");
    assert_eq!(BridgeError::RequestError("x".into()).message(), "Error sending request");
    assert_eq!(BridgeError::ResponseError("x".into()).message(), "Error occured in response");
    assert_eq!(BridgeError::SaveUser("x".into()).message(), "Save user error");
    assert_eq!(BridgeError::InternalError("x".into()).message(), "Internal error");
}

#[test]
fn config_error_messages() {
    assert_eq!(ConfigError::CreateFileError("x".into()).message(), "Error creating config file");
    assert_eq!(ConfigError::FileReadError("x".into()).message(), "Error reading config file");
    assert_eq!(ConfigError::HomeDirectoryNotFound("x".into()).message(), "Home directory not found");
    assert_eq!(ConfigError::Serialize("x".into()).message(), "Error serializing config file");
    assert_eq!(ConfigError::CreateDirectoryError("x".into()).message(), "Error creating config directory");
}

#[test]
fn missing_home_is_reported() {
    match User::config_home::<String>(None) {
        Err(ConfigError::HomeDirectoryNotFound(m)) => assert_eq!(m, "No $HOME directory found for config"),
        other => panic!("unexpected {:?}", other),
    }
    assert_eq!(User::config_home(Some("/home/u".to_string())).unwrap(), "/home/u");
}

#[test]
fn config_location_names() {
    assert_eq!(CONFIG_DIR, ".config/rue");
    assert_eq!(CONFIG_NAME, "rue.conf");
}
