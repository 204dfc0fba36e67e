//! The fixed dialogues and invocations of the key-management tools.
//!
//! The two interactive dialogues of a provisioning run are data, not code:
//! pure functions build the whole script fed to the external tool's standard
//! input, so the protocol can be inspected and tested without spawning
//! anything.  The argument lists of every external invocation are built here
//! as well.

use vstd::prelude::*;
use vstd::string::StringExecFns;

verus! {

/// Administrative PIN of a token in factory state.
pub const ADMIN_PIN: &'static str = "12345678";

/// Leading fragment of the key-generation script, up to the subject's name.
/// It fixes the key parameters: RSA, 4096 bits, no expiration.
pub open spec fn gen_script_head() -> Seq<char> {
    "\n    %no-protection\n    Key-Type: RSA\n    Key-Length: 4096\n    Name-Real: "@
}

/// Middle fragment of the key-generation script, between name and email.
pub open spec fn gen_script_mid() -> Seq<char> {
    "\n    Name-Email: "@
}

/// Trailing fragment of the key-generation script: the subkey parameters
/// (RSA, 4096 bits, sign/encrypt/auth usage) and the commit directive.
pub open spec fn gen_script_tail() -> Seq<char> {
    "\n    Expire-Date: 0\n    Subkey-Type: RSA\n    Subkey-Length: 4096\n    Subkey-Usage: sign, encrypt, auth\n    %commit\n    "@
}

/// The batch key-generation script for a given subject identity: fixed key
/// parameters around the name and email, embedded verbatim.
pub open spec fn card_info_script(name: Seq<char>, email: Seq<char>) -> Seq<char> {
    gen_script_head() + name + gen_script_mid() + email + gen_script_tail()
}

/// Builds the key-generation script for the given subject identity.
pub fn card_info_args(name: &str, email: &str) -> (r: String)
    ensures
        r@ == card_info_script(name@, email@),
{
    let mut s = String::from_str(
        "\n    %no-protection\n    Key-Type: RSA\n    Key-Length: 4096\n    Name-Real: ",
    );
    s.append(name);
    s.append("\n    Name-Email: ");
    s.append(email);
    s.append(
        "\n    Expire-Date: 0\n    Subkey-Type: RSA\n    Subkey-Length: 4096\n    Subkey-Usage: sign, encrypt, auth\n    %commit\n    ",
    );
    s
}

/// The generation script embeds the subject's name and email verbatim,
/// between fixed fragments that are the same for every job.
pub proof fn lemma_card_info_script_embeds_identity(name: Seq<char>, email: Seq<char>)
    ensures
        card_info_script(name, email).len() == gen_script_head().len() + name.len()
            + gen_script_mid().len() + email.len() + gen_script_tail().len(),
        card_info_script(name, email).subrange(0, gen_script_head().len() as int)
            == gen_script_head(),
        card_info_script(name, email).subrange(
            gen_script_head().len() as int,
            (gen_script_head().len() + name.len()) as int,
        ) == name,
        card_info_script(name, email).subrange(
            (gen_script_head().len() + name.len()) as int,
            (gen_script_head().len() + name.len() + gen_script_mid().len()) as int,
        ) == gen_script_mid(),
        card_info_script(name, email).subrange(
            (gen_script_head().len() + name.len() + gen_script_mid().len()) as int,
            (gen_script_head().len() + name.len() + gen_script_mid().len() + email.len()) as int,
        ) == email,
        card_info_script(name, email).subrange(
            (gen_script_head().len() + name.len() + gen_script_mid().len() + email.len()) as int,
            card_info_script(name, email).len() as int,
        ) == gen_script_tail(),
{
    let s = card_info_script(name, email);
    assert(s.subrange(0, gen_script_head().len() as int) =~= gen_script_head());
    assert(s.subrange(
        gen_script_head().len() as int,
        (gen_script_head().len() + name.len()) as int,
    ) =~= name);
    assert(s.subrange(
        (gen_script_head().len() + name.len()) as int,
        (gen_script_head().len() + name.len() + gen_script_mid().len()) as int,
    ) =~= gen_script_mid());
    assert(s.subrange(
        (gen_script_head().len() + name.len() + gen_script_mid().len()) as int,
        (gen_script_head().len() + name.len() + gen_script_mid().len() + email.len()) as int,
    ) =~= email);
    assert(s.subrange(
        (gen_script_head().len() + name.len() + gen_script_mid().len() + email.len()) as int,
        s.len() as int,
    ) =~= gen_script_tail());
}

/// The fixed part of the key-to-token transfer script after the PIN: select
/// the subkey block, transfer to the three slots in order, then save.  The
/// three positional transfers stay in lock-step with the subkey usages that
/// the generation script requests.
pub open spec fn key_to_card_tail() -> Seq<char> {
    "\nkey 1\nkeytocard\n1\nkeytocard\n2\nkeytocard\n3\nsave"@
}

/// The key-to-token transfer script for a given administrative PIN.
pub open spec fn key_to_card_script(pin: Seq<char>) -> Seq<char> {
    pin + key_to_card_tail()
}

/// Builds the key-to-token transfer script.  It does not depend on the job.
pub fn key_to_card_args() -> (r: String)
    ensures
        r@ == key_to_card_script(ADMIN_PIN@),
{
    let mut s = String::from_str(ADMIN_PIN);
    s.append("\nkey 1\nkeytocard\n1\nkeytocard\n2\nkeytocard\n3\nsave");
    s
}

/// The transfer script is positional and fixed: whatever the PIN, the script
/// is the PIN followed by the same selection, transfer and save sequence.
pub proof fn lemma_key_to_card_script_fixed(pin1: Seq<char>, pin2: Seq<char>)
    ensures
        key_to_card_script(pin1).take(pin1.len() as int) == pin1,
        key_to_card_script(pin1).skip(pin1.len() as int) == key_to_card_script(pin2).skip(
            pin2.len() as int,
        ),
{
    assert(key_to_card_script(pin1).take(pin1.len() as int) =~= pin1);
    assert(key_to_card_script(pin1).skip(pin1.len() as int) =~= key_to_card_tail());
    assert(key_to_card_script(pin2).skip(pin2.len() as int) =~= key_to_card_tail());
}

/// The subject identity under which the key is generated: first and last
/// name, space-joined.
pub open spec fn full_name_spec(first: Seq<char>, last: Seq<char>) -> Seq<char> {
    first + " "@ + last
}

/// Joins first and last name with a single space.
pub fn full_name(first_name: &str, last_name: &str) -> (r: String)
    ensures
        r@ == full_name_spec(first_name@, last_name@),
{
    let mut s = String::from_str(first_name);
    s.append(" ");
    s.append(last_name);
    s
}

/// Picks the key-management command to use: the primary name when it is
/// installed, the fallback name otherwise, and nothing when neither is found.
pub fn get_gpg_command(gpg_available: bool, gpg2_available: bool) -> (r: Option<&'static str>)
    ensures
        gpg_available ==> (r matches Some(c) && c@ == "gpg"@),
        !gpg_available && gpg2_available ==> (r matches Some(c) && c@ == "gpg2"@),
        !gpg_available && !gpg2_available ==> r is None,
{
    if gpg_available {
        Some("gpg")
    } else if gpg2_available {
        Some("gpg2")
    } else {
        None
    }
}

// What follows are the command names and the argument lists of every
// external invocation the pipeline asks for, as data.

/// Name of the token-management command.
pub const YKMAN_COMMAND: &'static str = "ykman";

/// Name of the key-management configuration command that kills the agent.
pub const GPGCONF_COMMAND: &'static str = "gpgconf";

/// Name of the background agent command.
pub const GPG_AGENT_COMMAND: &'static str = "gpg-agent";

/// Name of the service's temporary key-management home directory, placed
/// under the system's temporary directory and reused across runs.
pub const GPG_HOME_DIR_NAME: &'static str = "yubikey-provision";

/// Owner-only access mode for the temporary home directory.
pub const GPG_HOME_MODE: u32 = 0o700;

/// Arguments of the token listing invocation.
pub open spec fn list_keys_args_spec() -> Seq<Seq<char>> {
    seq!["list"@]
}

/// Builds the token listing arguments.
pub fn list_keys_args() -> (r: Vec<String>)
    ensures
        r.deep_view() == list_keys_args_spec(),
{
    let mut v: Vec<String> = Vec::new();
    v.push(String::from_str("list"));
    proof {
        assert(v.deep_view() =~= list_keys_args_spec());
    }
    v
}

/// Arguments of the token factory-reset invocation.
pub open spec fn factory_reset_args_spec() -> Seq<Seq<char>> {
    seq!["openpgp"@, "reset"@, "-f"@]
}

/// Builds the token factory-reset arguments.
pub fn factory_reset_args() -> (r: Vec<String>)
    ensures
        r.deep_view() == factory_reset_args_spec(),
{
    let mut v: Vec<String> = Vec::new();
    v.push(String::from_str("openpgp"));
    v.push(String::from_str("reset"));
    v.push(String::from_str("-f"));
    proof {
        assert(v.deep_view() =~= factory_reset_args_spec());
    }
    v
}

/// Arguments of the agent-kill invocation.
pub open spec fn kill_agent_args_spec() -> Seq<Seq<char>> {
    seq!["--kill"@, "gpg-agent"@]
}

/// Builds the agent-kill arguments.
pub fn kill_agent_args() -> (r: Vec<String>)
    ensures
        r.deep_view() == kill_agent_args_spec(),
{
    let mut v: Vec<String> = Vec::new();
    v.push(String::from_str("--kill"));
    v.push(String::from_str("gpg-agent"));
    proof {
        assert(v.deep_view() =~= kill_agent_args_spec());
    }
    v
}

/// Arguments that start the background agent bound to the session's home.
pub open spec fn agent_daemon_args_spec(home: Seq<char>) -> Seq<Seq<char>> {
    seq!["--homedir"@, home, "--daemon"@]
}

/// Builds the agent-daemon arguments.
pub fn agent_daemon_args(gpg_home: &str) -> (r: Vec<String>)
    ensures
        r.deep_view() == agent_daemon_args_spec(gpg_home@),
{
    let mut v: Vec<String> = Vec::new();
    v.push(String::from_str("--homedir"));
    v.push(String::from_str(gpg_home));
    v.push(String::from_str("--daemon"));
    proof {
        assert(v.deep_view() =~= agent_daemon_args_spec(gpg_home@));
    }
    v
}

/// Arguments of the batch key-generation invocation, whose standard input is
/// then fed the generation script.
pub open spec fn gen_key_command_spec(debug_level: Seq<char>, home: Seq<char>) -> Seq<Seq<char>> {
    seq![
        "--debug-level"@,
        debug_level,
        "--homedir"@,
        home,
        "--batch"@,
        "--command-fd"@,
        "0"@,
        "--full-gen-key"@,
    ]
}

/// Builds the key-generation command arguments.
pub fn gen_key_command_args(gpg_debug_level: &str, gpg_home: &str) -> (r: Vec<String>)
    ensures
        r.deep_view() == gen_key_command_spec(gpg_debug_level@, gpg_home@),
{
    let mut v: Vec<String> = Vec::new();
    v.push(String::from_str("--debug-level"));
    v.push(String::from_str(gpg_debug_level));
    v.push(String::from_str("--homedir"));
    v.push(String::from_str(gpg_home));
    v.push(String::from_str("--batch"));
    v.push(String::from_str("--command-fd"));
    v.push(String::from_str("0"));
    v.push(String::from_str("--full-gen-key"));
    proof {
        assert(v.deep_view() =~= gen_key_command_spec(gpg_debug_level@, gpg_home@));
    }
    v
}

/// Arguments of the key-editing invocation that transfers the subkeys to the
/// token, whose standard input is then fed the transfer script.
pub open spec fn key_to_card_command_spec(
    debug_level: Seq<char>,
    home: Seq<char>,
    email: Seq<char>,
) -> Seq<Seq<char>> {
    seq![
        "--debug-level"@,
        debug_level,
        "--homedir"@,
        home,
        "--command-fd=0"@,
        "--status-fd=1"@,
        "--passphrase-fd=0"@,
        "--batch"@,
        "--yes"@,
        "--pinentry-mode=loopback"@,
        "--edit-key"@,
        "--no-tty"@,
        email,
    ]
}

/// Builds the key-to-token command arguments.
pub fn key_to_card_command_args(gpg_debug_level: &str, gpg_home: &str, email: &str) -> (r: Vec<
    String,
>)
    ensures
        r.deep_view() == key_to_card_command_spec(gpg_debug_level@, gpg_home@, email@),
{
    let mut v: Vec<String> = Vec::new();
    v.push(String::from_str("--debug-level"));
    v.push(String::from_str(gpg_debug_level));
    v.push(String::from_str("--homedir"));
    v.push(String::from_str(gpg_home));
    v.push(String::from_str("--command-fd=0"));
    v.push(String::from_str("--status-fd=1"));
    v.push(String::from_str("--passphrase-fd=0"));
    v.push(String::from_str("--batch"));
    v.push(String::from_str("--yes"));
    v.push(String::from_str("--pinentry-mode=loopback"));
    v.push(String::from_str("--edit-key"));
    v.push(String::from_str("--no-tty"));
    v.push(String::from_str(email));
    proof {
        assert(v.deep_view() =~= key_to_card_command_spec(gpg_debug_level@, gpg_home@, email@));
    }
    v
}

/// Arguments of the armored public-key export invocation.
pub open spec fn export_public_args_spec(home: Seq<char>, email: Seq<char>) -> Seq<Seq<char>> {
    seq!["--homedir"@, home, "--armor"@, "--export"@, email]
}

/// Builds the armored public-key export arguments.
pub fn export_public_args(gpg_home: &str, email: &str) -> (r: Vec<String>)
    ensures
        r.deep_view() == export_public_args_spec(gpg_home@, email@),
{
    let mut v: Vec<String> = Vec::new();
    v.push(String::from_str("--homedir"));
    v.push(String::from_str(gpg_home));
    v.push(String::from_str("--armor"));
    v.push(String::from_str("--export"));
    v.push(String::from_str(email));
    proof {
        assert(v.deep_view() =~= export_public_args_spec(gpg_home@, email@));
    }
    v
}

/// Arguments of the SSH public-key export invocation.
pub open spec fn export_ssh_args_spec(home: Seq<char>, email: Seq<char>) -> Seq<Seq<char>> {
    seq!["--homedir"@, home, "--export-ssh-key"@, email]
}

/// Builds the SSH public-key export arguments.
pub fn export_ssh_args(gpg_home: &str, email: &str) -> (r: Vec<String>)
    ensures
        r.deep_view() == export_ssh_args_spec(gpg_home@, email@),
{
    let mut v: Vec<String> = Vec::new();
    v.push(String::from_str("--homedir"));
    v.push(String::from_str(gpg_home));
    v.push(String::from_str("--export-ssh-key"));
    v.push(String::from_str(email));
    proof {
        assert(v.deep_view() =~= export_ssh_args_spec(gpg_home@, email@));
    }
    v
}

} // verus!
