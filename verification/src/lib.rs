//! Provisioning of hardware security tokens with PGP key material.
//!
//! The library holds the logic of the provisioning service: the scripted
//! dialogues fed to the key-management tool, the parsing of the token-listing
//! output, and the state machine that drives one provisioning run from token
//! detection to session teardown.  All process spawning, file-system work and
//! network traffic live outside the library, which only decides what to run
//! next and what each outcome means.

pub mod config;
pub mod detect;
pub mod error;
pub mod fingerprint;
pub mod gpg;
pub mod pipeline;
pub mod text;

pub use config::resolve_config;
pub use config::Config;
pub use detect::check_card;
pub use detect::detect_spec;
pub use error::WorkerError;
pub use fingerprint::get_fingerprint;
pub use gpg::card_info_args;
pub use gpg::full_name;
pub use gpg::get_gpg_command;
pub use gpg::key_to_card_args;
pub use gpg::agent_daemon_args;
pub use gpg::export_public_args;
pub use gpg::export_ssh_args;
pub use gpg::factory_reset_args;
pub use gpg::gen_key_command_args;
pub use gpg::key_to_card_command_args;
pub use gpg::kill_agent_args;
pub use gpg::list_keys_args;
pub use gpg::ADMIN_PIN;
pub use gpg::GPGCONF_COMMAND;
pub use gpg::GPG_AGENT_COMMAND;
pub use gpg::GPG_HOME_DIR_NAME;
pub use gpg::GPG_HOME_MODE;
pub use gpg::YKMAN_COMMAND;
pub use pipeline::Action;
pub use pipeline::Event;
pub use pipeline::Job;
pub use pipeline::JobOutcome;
pub use pipeline::Phase;
pub use pipeline::Pipeline;
pub use pipeline::ProvisioningInfo;
