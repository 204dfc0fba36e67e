//! Error kinds of the provisioning service.

use vstd::prelude::*;
use vstd::string::StringExecFns;

verus! {

/// Everything that can go wrong during a provisioning run or at startup.
///
/// `NoKeysFound` is the one retryable condition: the token is simply not
/// plugged in yet.  All other kinds abort the current run.
#[derive(Debug, PartialEq, Eq)]
pub enum WorkerError {
    /// The configuration file could not be read or parsed.
    InvalidConfigFile(String),
    /// The transport to the job source failed.
    TonicError(String),
    /// A job-source request was answered with an error status.
    TonicStatusError(String),
    /// A key-management command failed.
    Gpg,
    /// The key-management session could not be torn down: the agent process
    /// or the temporary home directory may have leaked.
    GPGSessionEnd,
    /// A token-management command failed.
    YubikeyManager,
    /// No token is attached.
    NoKeysFound,
    /// More than one token is attached; the target is ambiguous.
    MultipleKeysPresent,
    /// An input/output operation failed.
    IO,
    /// Captured output was not valid UTF-8.
    UTF8Conversion,
    /// The token listing held no serial number field.
    SerialNotFound,
}

impl WorkerError {
    /// What `message` returns.
    pub open spec fn message_spec(&self) -> Seq<char> {
        match self {
            WorkerError::InvalidConfigFile(s) => "Invalid config file. Error: "@ + s@,
            WorkerError::TonicError(s) => "Tonic Error: "@ + s@,
            WorkerError::TonicStatusError(s) => "Tonic request failed with status code of "@ + s@,
            WorkerError::Gpg => "GPG command failed"@,
            WorkerError::GPGSessionEnd => "Failed to clean up gpg session"@,
            WorkerError::YubikeyManager => "ykman command failed"@,
            WorkerError::NoKeysFound => "No YubiKeys found"@,
            WorkerError::MultipleKeysPresent => "Multiple yubikeys found"@,
            WorkerError::IO => "IO error occurred"@,
            WorkerError::UTF8Conversion => "UTF8 conversion failed"@,
            WorkerError::SerialNotFound => "Cannot find key serial number"@,
        }
    }

    /// Human-readable description of the error, as reported upstream.
    pub fn message(&self) -> (r: String)
        ensures
            r@ == self.message_spec(),
    {
        match self {
            WorkerError::InvalidConfigFile(s) => {
                let mut m = String::from_str("Invalid config file. Error: ");
                m.append(s.as_str());
                m
            },
            WorkerError::TonicError(s) => {
                let mut m = String::from_str("Tonic Error: ");
                m.append(s.as_str());
                m
            },
            WorkerError::TonicStatusError(s) => {
                let mut m = String::from_str("Tonic request failed with status code of ");
                m.append(s.as_str());
                m
            },
            WorkerError::Gpg => String::from_str("GPG command failed"),
            WorkerError::GPGSessionEnd => String::from_str("Failed to clean up gpg session"),
            WorkerError::YubikeyManager => String::from_str("ykman command failed"),
            WorkerError::NoKeysFound => String::from_str("No YubiKeys found"),
            WorkerError::MultipleKeysPresent => String::from_str("Multiple yubikeys found"),
            WorkerError::IO => String::from_str("IO error occurred"),
            WorkerError::UTF8Conversion => String::from_str("UTF8 conversion failed"),
            WorkerError::SerialNotFound => String::from_str("Cannot find key serial number"),
        }
    }
}

} // verus!
