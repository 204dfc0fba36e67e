//! The two scripted dialogues and the argument lists, checked byte for byte.

use yubikey_provision::{
    agent_daemon_args, card_info_args, export_public_args, export_ssh_args, factory_reset_args,
    full_name, gen_key_command_args, key_to_card_args, key_to_card_command_args, kill_agent_args,
    list_keys_args, ADMIN_PIN, GPGCONF_COMMAND, GPG_AGENT_COMMAND, GPG_HOME_DIR_NAME,
    GPG_HOME_MODE, YKMAN_COMMAND,
};

#[test]
fn admin_pin_is_factory_default() {
    assert_eq!(ADMIN_PIN, "12345678");
}

#[test]
fn command_names() {
    assert_eq!(YKMAN_COMMAND, "ykman");
    assert_eq!(GPGCONF_COMMAND, "gpgconf");
    assert_eq!(GPG_AGENT_COMMAND, "gpg-agent");
    assert_eq!(GPG_HOME_DIR_NAME, "yubikey-provision");
    assert_eq!(GPG_HOME_MODE, 0o700);
}

#[test]
fn key_to_card_script_is_exactly_pin_then_three_transfers_then_save() {
    let script = key_to_card_args();
    assert_eq!(
        script,
        "12345678\nkey 1\nkeytocard\n1\nkeytocard\n2\nkeytocard\n3\nsave"
    );
}

#[test]
fn key_to_card_script_does_not_depend_on_any_job() {
    // The builder takes no job input at all; two calls agree byte for byte.
    assert_eq!(key_to_card_args(), key_to_card_args());
    // The part after the PIN is the fixed positional sequence.
    let script = key_to_card_args();
    let tail = &script[ADMIN_PIN.len()..];
    assert_eq!(tail, "\nkey 1\nkeytocard\n1\nkeytocard\n2\nkeytocard\n3\nsave");
}

#[test]
fn generation_script_embeds_identity_and_fixed_parameters() {
    let script = card_info_args("Ada Lovelace", "ada@example.com");
    let expected = "\n    %no-protection\n    Key-Type: RSA\n    Key-Length: 4096\n    Name-Real: Ada Lovelace\n    Name-Email: ada@example.com\n    Expire-Date: 0\n    Subkey-Type: RSA\n    Subkey-Length: 4096\n    Subkey-Usage: sign, encrypt, auth\n    %commit\n    ";
    assert_eq!(script, expected);
}

#[test]
fn generation_script_embeds_other_identity_verbatim() {
    let script = card_info_args("Grace Hopper", "grace@example.org");
    assert!(script.contains("Name-Real: Grace Hopper\n"));
    assert!(script.contains("Name-Email: grace@example.org\n"));
    assert!(script.contains("Key-Length: 4096"));
    assert!(script.contains("Subkey-Usage: sign, encrypt, auth"));
}

#[test]
fn full_name_joins_with_single_space() {
    assert_eq!(full_name("Ada", "Lovelace"), "Ada Lovelace");
    assert_eq!(full_name("", ""), " ");
}

#[test]
fn listing_and_reset_arguments() {
    assert_eq!(list_keys_args(), vec!["list".to_string()]);
    assert_eq!(
        factory_reset_args(),
        vec!["openpgp".to_string(), "reset".to_string(), "-f".to_string()]
    );
}

#[test]
fn agent_arguments() {
    assert_eq!(
        kill_agent_args(),
        vec!["--kill".to_string(), "gpg-agent".to_string()]
    );
    assert_eq!(
        agent_daemon_args("/tmp/yubikey-provision"),
        vec![
            "--homedir".to_string(),
            "/tmp/yubikey-provision".to_string(),
            "--daemon".to_string()
        ]
    );
}

#[test]
fn gen_key_command_arguments() {
    assert_eq!(
        gen_key_command_args("none", "/tmp/yubikey-provision"),
        vec![
            "--debug-level".to_string(),
            "none".to_string(),
            "--homedir".to_string(),
            "/tmp/yubikey-provision".to_string(),
            "--batch".to_string(),
            "--command-fd".to_string(),
            "0".to_string(),
            "--full-gen-key".to_string(),
        ]
    );
}

#[test]
fn key_to_card_command_arguments() {
    assert_eq!(
        key_to_card_command_args("advanced", "/tmp/yubikey-provision", "ada@example.com"),
        vec![
            "--debug-level".to_string(),
            "advanced".to_string(),
            "--homedir".to_string(),
            "/tmp/yubikey-provision".to_string(),
            "--command-fd=0".to_string(),
            "--status-fd=1".to_string(),
            "--passphrase-fd=0".to_string(),
            "--batch".to_string(),
            "--yes".to_string(),
            "--pinentry-mode=loopback".to_string(),
            "--edit-key".to_string(),
            "--no-tty".to_string(),
            "ada@example.com".to_string(),
        ]
    );
}

#[test]
fn export_arguments() {
    assert_eq!(
        export_public_args("/tmp/yubikey-provision", "ada@example.com"),
        vec![
            "--homedir".to_string(),
            "/tmp/yubikey-provision".to_string(),
            "--armor".to_string(),
            "--export".to_string(),
            "ada@example.com".to_string(),
        ]
    );
    assert_eq!(
        export_ssh_args("/tmp/yubikey-provision", "ada@example.com"),
        vec![
            "--homedir".to_string(),
            "/tmp/yubikey-provision".to_string(),
            "--export-ssh-key".to_string(),
            "ada@example.com".to_string(),
        ]
    );
}
