//! Configuration defaults, the debug-level derivation, and error texts.

use yubikey_provision::{get_gpg_command, resolve_config, Config, WorkerError};

#[test]
fn built_in_defaults() {
    let c = Config::default();
    assert_eq!(c.grpc_ca, None);
    assert_eq!(c.worker_id, "YubiBridge");
    assert_eq!(c.log_level, "INFO");
    assert_eq!(c.url, "http://127.0.0.1:50055");
    assert_eq!(c.smartcard_retries, 1);
    assert_eq!(c.smartcard_retry_interval, 15);
    assert_eq!(c.gpg_debug_level, "none");
    assert_eq!(c.token, "TOKEN");
    assert!(!c.skip_gpg_permissions);
}

#[test]
fn debug_logging_turns_on_advanced_tool_debugging() {
    let mut c = Config::default();
    c.log_level = "debug".to_string();
    let r = resolve_config(c);
    assert_eq!(r.gpg_debug_level, "advanced");
    assert_eq!(r.log_level, "debug");
    assert_eq!(r.worker_id, "YubiBridge");
}

#[test]
fn explicit_tool_debug_level_is_kept() {
    let mut c = Config::default();
    c.log_level = "debug".to_string();
    c.gpg_debug_level = "basic".to_string();
    let r = resolve_config(c);
    assert_eq!(r.gpg_debug_level, "basic");
}

#[test]
fn ordinary_logging_keeps_the_tool_quiet() {
    let c = Config::default();
    let r = resolve_config(c);
    assert_eq!(r.gpg_debug_level, "none");
}

#[test]
fn command_choice_prefers_the_primary_name() {
    assert_eq!(get_gpg_command(true, true), Some("gpg"));
    assert_eq!(get_gpg_command(true, false), Some("gpg"));
    assert_eq!(get_gpg_command(false, true), Some("gpg2"));
    assert_eq!(get_gpg_command(false, false), None);
}

#[test]
fn error_messages() {
    assert_eq!(WorkerError::Gpg.message(), "GPG command failed");
    assert_eq!(
        WorkerError::GPGSessionEnd.message(),
        "Failed to clean up gpg session"
    );
    assert_eq!(WorkerError::YubikeyManager.message(), "ykman command failed");
    assert_eq!(WorkerError::NoKeysFound.message(), "No YubiKeys found");
    assert_eq!(
        WorkerError::MultipleKeysPresent.message(),
        "Multiple yubikeys found"
    );
    assert_eq!(WorkerError::IO.message(), "IO error occurred");
    assert_eq!(
        WorkerError::UTF8Conversion.message(),
        "UTF8 conversion failed"
    );
    assert_eq!(
        WorkerError::SerialNotFound.message(),
        "Cannot find key serial number"
    );
    assert_eq!(
        WorkerError::InvalidConfigFile("bad toml".to_string()).message(),
        "Invalid config file. Error: bad toml"
    );
    assert_eq!(
        WorkerError::TonicError("unreachable".to_string()).message(),
        "Tonic Error: unreachable"
    );
    assert_eq!(
        WorkerError::TonicStatusError("unauthenticated".to_string()).message(),
        "Tonic request failed with status code of unauthenticated"
    );
}
