//! End-to-end runs of the provisioning state machine.

use yubikey_provision::{
    Action, Event, Job, JobOutcome, Phase, Pipeline, ProvisioningInfo, WorkerError,
};

fn ada_job() -> Job {
    Job {
        job_id: "J1".to_string(),
        first_name: "Ada".to_string(),
        last_name: "Lovelace".to_string(),
        email: "ada@example.com".to_string(),
    }
}

const LISTING_ONE: &str = "YubiKey 5 NFC (5.4.3) [OTP+FIDO+CCID] Serial: 13338635\r\n";
const LISTING_TWO: &str = "YubiKey 5 NFC Serial: 111\r\nYubiKey 5C Serial: 222\r\n";

#[test]
fn scenario_token_present_on_first_check_reaches_done() {
    let mut p = Pipeline::new(ada_job(), 1, false);

    assert_eq!(p.next_action(), Action::RunCheckCard);
    p.step(Event::Listing(LISTING_ONE.to_string()));
    assert_eq!(p.phase(), Phase::KillAgent);

    assert_eq!(p.next_action(), Action::RunKillAgent);
    p.step(Event::StepOk);
    assert_eq!(p.next_action(), Action::RunSetPermissions);
    p.step(Event::StepOk);
    assert_eq!(p.next_action(), Action::RunRecreateDir);
    p.step(Event::StepOk);
    assert_eq!(p.next_action(), Action::RunSpawnAgent);
    p.step(Event::StepOk);

    assert_eq!(p.next_action(), Action::RunFactoryReset);
    p.step(Event::StepOk);
    assert_eq!(p.next_action(), Action::RunGenerateKey);
    p.step(Event::StepOk);
    assert_eq!(p.next_action(), Action::RunExportPublic);
    p.step(Event::Captured("-----BEGIN PGP PUBLIC KEY BLOCK-----".to_string()));
    assert_eq!(p.next_action(), Action::RunExportSsh);
    p.step(Event::Captured("ssh-rsa AAAA ada@example.com".to_string()));
    assert_eq!(p.next_action(), Action::RunTransferToCard);
    p.step(Event::StepOk);
    assert_eq!(p.next_action(), Action::RunCloseSession);
    p.step(Event::StepOk);

    assert_eq!(p.phase(), Phase::Done);
    assert_eq!(p.next_action(), Action::Finish);
    assert!(p.is_finished());
    let outcome = p.into_outcome();
    let expected = ProvisioningInfo {
        pgp: "-----BEGIN PGP PUBLIC KEY BLOCK-----".to_string(),
        ssh: "ssh-rsa AAAA ada@example.com".to_string(),
        serial: "13338635".to_string(),
    };
    match outcome {
        JobOutcome::Success(info) => {
            assert_eq!(info, expected);
            assert!(!info.pgp.is_empty());
            assert!(!info.ssh.is_empty());
        }
        JobOutcome::Failure(e, t) => panic!("run failed: {:?} {:?}", e, t),
    }
}

#[test]
fn scenario_token_absent_for_all_retries_fails_without_a_session() {
    let max_retries = 3u64;
    let mut p = Pipeline::new(ada_job(), max_retries, false);

    for i in 1..=max_retries {
        assert_eq!(p.next_action(), Action::RunCheckCard);
        p.step(Event::Listing(String::new()));
        assert_eq!(p.phase(), Phase::AwaitToken);
        assert_eq!(p.attempts(), i);
    }
    // The retry budget is spent; the next absent listing fails the run.
    assert_eq!(p.next_action(), Action::RunCheckCard);
    p.step(Event::Listing(String::new()));
    assert_eq!(p.phase(), Phase::Failed);
    assert_eq!(p.attempts(), max_retries);

    let outcome = p.into_outcome();
    assert_eq!(outcome, JobOutcome::Failure(WorkerError::NoKeysFound, None));
}

#[test]
fn scenario_token_appearing_within_budget_proceeds() {
    let mut p = Pipeline::new(ada_job(), 3, true);
    p.step(Event::Listing(String::new()));
    p.step(Event::Listing(String::new()));
    assert_eq!(p.attempts(), 2);
    p.step(Event::Listing(LISTING_ONE.to_string()));
    assert_eq!(p.phase(), Phase::KillAgent);
    assert_eq!(p.attempts(), 2);
}

#[test]
fn scenario_two_tokens_fail_at_once_with_no_retry_consumed() {
    let mut p = Pipeline::new(ada_job(), 5, false);
    p.step(Event::Listing(LISTING_TWO.to_string()));
    assert_eq!(p.phase(), Phase::Failed);
    assert_eq!(p.attempts(), 0);
    assert_eq!(
        p.into_outcome(),
        JobOutcome::Failure(WorkerError::MultipleKeysPresent, None)
    );
}

#[test]
fn scenario_generate_key_failure_still_closes_the_session() {
    let mut p = Pipeline::new(ada_job(), 1, true);
    p.step(Event::Listing(LISTING_ONE.to_string()));
    p.step(Event::StepOk); // agent killed
    p.step(Event::StepOk); // home recreated (permissions skipped)
    p.step(Event::StepOk); // agent spawned
    p.step(Event::StepOk); // factory reset
    assert_eq!(p.next_action(), Action::RunGenerateKey);
    p.step(Event::StepFailed); // generation exited non-zero

    // The run does not end here: teardown still runs.
    assert_eq!(p.phase(), Phase::SessionClose);
    assert_eq!(p.next_action(), Action::RunCloseSession);
    p.step(Event::StepOk);
    assert_eq!(p.phase(), Phase::Failed);
    assert_eq!(
        p.into_outcome(),
        JobOutcome::Failure(WorkerError::Gpg, None)
    );
}

#[test]
fn scenario_teardown_failure_is_secondary_never_masking() {
    let mut p = Pipeline::new(ada_job(), 1, true);
    p.step(Event::Listing(LISTING_ONE.to_string()));
    p.step(Event::StepOk);
    p.step(Event::StepOk);
    p.step(Event::StepOk);
    p.step(Event::StepOk);
    p.step(Event::StepFailed); // generation failed: the primary error
    p.step(Event::StepFailed); // and teardown failed after it

    let outcome = p.into_outcome();
    assert_eq!(
        outcome,
        JobOutcome::Failure(
            WorkerError::Gpg,
            Some(WorkerError::GPGSessionEnd)
        )
    );
    assert_eq!(
        outcome.error_text(),
        "GPG command failed; Failed to clean up gpg session"
    );
}

#[test]
fn scenario_teardown_failure_alone_is_the_primary_error() {
    let mut p = Pipeline::new(ada_job(), 1, true);
    p.step(Event::Listing(LISTING_ONE.to_string()));
    p.step(Event::StepOk);
    p.step(Event::StepOk);
    p.step(Event::StepOk);
    p.step(Event::StepOk); // factory reset
    p.step(Event::StepOk); // key generated
    p.step(Event::Captured("pgp".to_string()));
    p.step(Event::Captured("ssh".to_string()));
    p.step(Event::StepOk); // transferred
    p.step(Event::StepFailed); // teardown failed
    assert_eq!(
        p.into_outcome(),
        JobOutcome::Failure(WorkerError::GPGSessionEnd, Some(WorkerError::GPGSessionEnd))
    );
}

#[test]
fn scenario_undecodable_export_reports_the_conversion_and_closes() {
    let mut p = Pipeline::new(ada_job(), 1, true);
    p.step(Event::Listing(LISTING_ONE.to_string()));
    p.step(Event::StepOk);
    p.step(Event::StepOk);
    p.step(Event::StepOk);
    p.step(Event::StepOk); // factory reset
    p.step(Event::StepOk); // key generated
    assert_eq!(p.next_action(), Action::RunExportPublic);
    p.step(Event::TextInvalid); // export output was not valid text
    assert_eq!(p.phase(), Phase::SessionClose);
    p.step(Event::StepOk);
    assert_eq!(
        p.into_outcome(),
        JobOutcome::Failure(WorkerError::UTF8Conversion, None)
    );
}

#[test]
fn scenario_factory_reset_failure_reports_the_token_tool() {
    let mut p = Pipeline::new(ada_job(), 1, true);
    p.step(Event::Listing(LISTING_ONE.to_string()));
    p.step(Event::StepOk);
    p.step(Event::StepOk);
    p.step(Event::StepOk);
    assert_eq!(p.next_action(), Action::RunFactoryReset);
    p.step(Event::StepFailed);
    assert_eq!(p.phase(), Phase::SessionClose);
    p.step(Event::StepOk);
    assert_eq!(
        p.into_outcome(),
        JobOutcome::Failure(WorkerError::YubikeyManager, None)
    );
}

#[test]
fn scenario_session_open_failure_ends_the_run_directly() {
    // Nothing is live yet when killing the stale agent fails.
    let mut p = Pipeline::new(ada_job(), 1, false);
    p.step(Event::Listing(LISTING_ONE.to_string()));
    assert_eq!(p.next_action(), Action::RunKillAgent);
    p.step(Event::StepFailed);
    assert_eq!(p.phase(), Phase::Failed);
    assert_eq!(p.into_outcome(), JobOutcome::Failure(WorkerError::Gpg, None));
}

#[test]
fn scenario_home_directory_failure_is_an_io_error() {
    // The session is not live yet, so the run ends directly.
    let mut p = Pipeline::new(ada_job(), 1, true);
    p.step(Event::Listing(LISTING_ONE.to_string()));
    p.step(Event::StepOk); // agent killed
    assert_eq!(p.next_action(), Action::RunRecreateDir);
    p.step(Event::IoFailed);
    assert_eq!(p.phase(), Phase::Failed);
    assert_eq!(p.into_outcome(), JobOutcome::Failure(WorkerError::IO, None));
}

#[test]
fn scenario_permission_failure_is_tolerated() {
    let mut p = Pipeline::new(ada_job(), 1, false);
    p.step(Event::Listing(LISTING_ONE.to_string()));
    p.step(Event::StepOk);
    assert_eq!(p.next_action(), Action::RunSetPermissions);
    p.step(Event::IoFailed); // tolerated: default permissions still work
    assert_eq!(p.next_action(), Action::RunRecreateDir);
    assert_eq!(p.phase(), Phase::RecreateDir);
}

#[test]
fn scenario_skipping_permissions_goes_straight_to_the_home_directory() {
    let mut p = Pipeline::new(ada_job(), 1, true);
    p.step(Event::Listing(LISTING_ONE.to_string()));
    p.step(Event::StepOk);
    assert_eq!(p.phase(), Phase::RecreateDir);
}

#[test]
fn scenario_listing_tool_failure_is_fatal() {
    let mut p = Pipeline::new(ada_job(), 9, false);
    p.step(Event::StepFailed);
    assert_eq!(
        p.into_outcome(),
        JobOutcome::Failure(WorkerError::YubikeyManager, None)
    );
}

#[test]
fn generation_script_comes_from_the_job_identity() {
    let p = Pipeline::new(ada_job(), 1, false);
    let script = p.generation_script();
    assert!(script.contains("Name-Real: Ada Lovelace\n"));
    assert!(script.contains("Name-Email: ada@example.com\n"));
    assert_eq!(p.email(), "ada@example.com");
}
