//! Service configuration.
//!
//! Loading (command line, environment, optional file) happens outside the
//! library; the library holds the configuration's shape, its built-in
//! defaults, and the one derivation rule applied after loading.

use vstd::prelude::*;
use vstd::string::StringExecFns;

use crate::text::str_eq;

verus! {

/// Configuration of the service, loaded once at startup and immutable
/// thereafter.
#[derive(Debug, Clone, PartialEq, Eq)]
pub struct Config {
    /// Path of the trust anchor certificate for the job-source connection.
    pub grpc_ca: Option<String>,
    /// Worker identifier announced to the job source.
    pub worker_id: String,
    /// Logging level of the service.
    pub log_level: String,
    /// Address of the job source.
    pub url: String,
    /// Number of retries when no token is detected.
    pub smartcard_retries: u64,
    /// Seconds between token checks.
    pub smartcard_retry_interval: u64,
    /// Debug level forwarded to the key-management tool.
    pub gpg_debug_level: String,
    /// Authentication token attached to each job-source call.
    pub token: String,
    /// Skip restricting the temporary home directory's permissions.
    pub skip_gpg_permissions: bool,
}

/// Mathematical image of a [`Config`].
pub struct ConfigModel {
    pub grpc_ca: Option<Seq<char>>,
    pub worker_id: Seq<char>,
    pub log_level: Seq<char>,
    pub url: Seq<char>,
    pub smartcard_retries: u64,
    pub smartcard_retry_interval: u64,
    pub gpg_debug_level: Seq<char>,
    pub token: Seq<char>,
    pub skip_gpg_permissions: bool,
}

impl View for Config {
    type V = ConfigModel;

    open spec fn view(&self) -> ConfigModel {
        ConfigModel {
            grpc_ca: match self.grpc_ca {
                Some(s) => Some(s@),
                None => None,
            },
            worker_id: self.worker_id@,
            log_level: self.log_level@,
            url: self.url@,
            smartcard_retries: self.smartcard_retries,
            smartcard_retry_interval: self.smartcard_retry_interval,
            gpg_debug_level: self.gpg_debug_level@,
            token: self.token@,
            skip_gpg_permissions: self.skip_gpg_permissions,
        }
    }
}

/// The built-in configuration.
pub open spec fn default_config() -> ConfigModel {
    ConfigModel {
        grpc_ca: None,
        worker_id: "YubiBridge"@,
        log_level: "INFO"@,
        url: "http://127.0.0.1:50055"@,
        smartcard_retries: 1,
        smartcard_retry_interval: 15,
        gpg_debug_level: "none"@,
        token: "TOKEN"@,
        skip_gpg_permissions: false,
    }
}

impl Default for Config {
    /// The built-in configuration, used where loading supplies no value.
    fn default() -> (c: Config)
        ensures
            c@ == default_config(),
    {
        Config {
            grpc_ca: None,
            worker_id: String::from_str("YubiBridge"),
            log_level: String::from_str("INFO"),
            url: String::from_str("http://127.0.0.1:50055"),
            smartcard_retries: 1,
            smartcard_retry_interval: 15,
            gpg_debug_level: String::from_str("none"),
            token: String::from_str("TOKEN"),
            skip_gpg_permissions: false,
        }
    }
}

/// The debug level the key-management tool is run with: when the service logs
/// at debug level and no explicit tool debug level was configured, the tool's
/// advanced debugging is switched on; any explicit choice is kept.
pub open spec fn resolved_gpg_debug_level(
    log_level: Seq<char>,
    gpg_debug_level: Seq<char>,
) -> Seq<char> {
    if log_level == "debug"@ && gpg_debug_level == "none"@ {
        "advanced"@
    } else {
        gpg_debug_level
    }
}

/// Applies the debug-level derivation to a loaded configuration; every other
/// field is kept as loaded.
pub fn resolve_config(config: Config) -> (r: Config)
    ensures
        r@ == (ConfigModel {
            gpg_debug_level: resolved_gpg_debug_level(config@.log_level, config@.gpg_debug_level),
            ..config@
        }),
{
    if str_eq(config.log_level.as_str(), "debug") && str_eq(
        config.gpg_debug_level.as_str(),
        "none",
    ) {
        Config { gpg_debug_level: String::from_str("advanced"), ..config }
    } else {
        config
    }
}

} // verus!
