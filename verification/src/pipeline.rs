//! The provisioning pipeline: one run from token detection to session
//! teardown, as a state machine.
//!
//! The pipeline decides; a driver performs.  `next_action` names the external
//! step that must run next (a process to spawn, a directory to recreate), the
//! driver performs it and answers with an [`Event`], and [`Pipeline::step`]
//! moves the machine forward.  Every transition is fixed by the specification
//! function [`step_spec`], so what the machine does on every outcome of every
//! step is stated, not implied.
//!
//! The run walks the phases in order, never skipping and never re-entering an
//! earlier phase: waiting for a token (with bounded retries on an absent
//! token), opening the isolated key-management session, factory-resetting the
//! token, generating the key, capturing the two public artifacts, moving the
//! subkeys to the token, and tearing the session down.  Once the session is
//! live, every failure is routed through the teardown phase before the run
//! ends, and a teardown failure is recorded beside the primary error, never in
//! its place.

use vstd::prelude::*;

use crate::detect::check_card;
use crate::detect::detect_spec;
use crate::detect::nonempty_line_count;
use crate::error::WorkerError;
use crate::gpg::card_info_args;
use crate::gpg::card_info_script;
use crate::gpg::full_name;
use crate::gpg::full_name_spec;

verus! {

/// One provisioning job, as received from the job source.
#[derive(Debug, PartialEq, Eq)]
pub struct Job {
    pub job_id: String,
    pub first_name: String,
    pub last_name: String,
    pub email: String,
}

/// Mathematical image of a [`Job`].
pub struct JobModel {
    pub job_id: Seq<char>,
    pub first_name: Seq<char>,
    pub last_name: Seq<char>,
    pub email: Seq<char>,
}

impl View for Job {
    type V = JobModel;

    open spec fn view(&self) -> JobModel {
        JobModel {
            job_id: self.job_id@,
            first_name: self.first_name@,
            last_name: self.last_name@,
            email: self.email@,
        }
    }
}

/// The public artifacts of a successful provisioning run.  Never partially
/// populated: the run either produces all three or fails.
#[derive(Debug, PartialEq, Eq)]
pub struct ProvisioningInfo {
    pub pgp: String,
    pub ssh: String,
    pub serial: String,
}

/// The phases of one provisioning run, in the order they are entered.
#[derive(Clone, Copy, Debug, PartialEq, Eq, Structural)]
pub enum Phase {
    /// Waiting for exactly one token to be attached.
    AwaitToken,
    /// Session opening: stopping any stale background agent.
    KillAgent,
    /// Session opening: restricting the temporary home to its owner.
    SetPermissions,
    /// Session opening: removing and recreating the temporary home.
    RecreateDir,
    /// Session opening: starting the dedicated background agent.
    SpawnAgent,
    /// Restoring the token's key application to factory state.
    FactoryReset,
    /// Running the key-generation dialogue.
    GenerateKey,
    /// Capturing the armored public key.
    ExportPublic,
    /// Capturing the SSH-format public key.
    ExportSsh,
    /// Running the key-to-token transfer dialogue.
    TransferToCard,
    /// Tearing the session down: agent and temporary home.
    SessionClose,
    /// The run succeeded.
    Done,
    /// The run failed.
    Failed,
}

/// What the driver must perform next.
#[derive(Clone, Copy, Debug, PartialEq, Eq, Structural)]
pub enum Action {
    /// Run the token listing command and capture its output.
    RunCheckCard,
    /// Kill any running background agent of the key-management tool.
    RunKillAgent,
    /// Restrict the temporary home directory to owner-only access.
    RunSetPermissions,
    /// Remove any previous temporary home directory and recreate it empty.
    RunRecreateDir,
    /// Start the background agent bound to the temporary home.
    RunSpawnAgent,
    /// Run the token's factory-reset command.
    RunFactoryReset,
    /// Run the key-generation dialogue, feeding it the generation script.
    RunGenerateKey,
    /// Capture the armored public-key export.
    RunExportPublic,
    /// Capture the SSH public-key export.
    RunExportSsh,
    /// Run the key-to-token transfer dialogue, feeding it the transfer script.
    RunTransferToCard,
    /// Kill the session agent and remove the temporary home.
    RunCloseSession,
    /// The run is over; report the outcome.
    Finish,
}

/// What happened when the driver performed the pending action.
#[derive(Debug)]
pub enum Event {
    /// The token listing ran successfully; its captured output, decoded.
    Listing(String),
    /// The step completed successfully.
    StepOk,
    /// The external command ran and exited with a failure status.
    StepFailed,
    /// The step could not run at all: a spawn failure or another
    /// input/output error.
    IoFailed,
    /// An export step ran successfully; its captured output, decoded.
    Captured(String),
    /// An export step ran successfully but its output was not valid text.
    TextInvalid,
}

/// Mathematical image of an [`Event`].
pub enum EventModel {
    Listing(Seq<char>),
    StepOk,
    StepFailed,
    IoFailed,
    Captured(Seq<char>),
    TextInvalid,
}

impl View for Event {
    type V = EventModel;

    open spec fn view(&self) -> EventModel {
        match self {
            Event::Listing(s) => EventModel::Listing(s@),
            Event::StepOk => EventModel::StepOk,
            Event::StepFailed => EventModel::StepFailed,
            Event::IoFailed => EventModel::IoFailed,
            Event::Captured(s) => EventModel::Captured(s@),
            Event::TextInvalid => EventModel::TextInvalid,
        }
    }
}

/// Mathematical state of one provisioning run.
pub struct PipelineModel {
    pub phase: Phase,
    pub job: JobModel,
    pub max_retries: u64,
    pub skip_permissions: bool,
    pub attempts: u64,
    pub serial: Option<Seq<char>>,
    pub pgp: Option<Seq<char>>,
    pub ssh: Option<Seq<char>>,
    pub pending_error: Option<WorkerError>,
    pub teardown_error: Option<WorkerError>,
    pub session_open: bool,
}

/// The state a run starts in.
pub open spec fn init_model(job: JobModel, max_retries: u64, skip_permissions: bool) -> PipelineModel {
    PipelineModel {
        phase: Phase::AwaitToken,
        job: job,
        max_retries: max_retries,
        skip_permissions: skip_permissions,
        attempts: 0,
        serial: None,
        pgp: None,
        ssh: None,
        pending_error: None,
        teardown_error: None,
        session_open: false,
    }
}

/// A run in this phase is over.
pub open spec fn terminal(phase: Phase) -> bool {
    phase is Done || phase is Failed
}

/// Phases during which the session (agent process and temporary home) is live.
pub open spec fn session_phase(phase: Phase) -> bool {
    ||| phase is FactoryReset
    ||| phase is GenerateKey
    ||| phase is ExportPublic
    ||| phase is ExportSsh
    ||| phase is TransferToCard
    ||| phase is SessionClose
}

/// The events that may answer the pending action of a given phase.
pub open spec fn event_fits(phase: Phase, ev: EventModel) -> bool {
    match phase {
        Phase::AwaitToken => ev is Listing || ev is StepFailed || ev is IoFailed,
        Phase::ExportPublic | Phase::ExportSsh => ev is Captured || ev is StepFailed
            || ev is IoFailed || ev is TextInvalid,
        Phase::Done | Phase::Failed => false,
        _ => ev is StepOk || ev is StepFailed || ev is IoFailed,
    }
}

/// The action pending in a given phase.
pub open spec fn action_spec(phase: Phase) -> Action {
    match phase {
        Phase::AwaitToken => Action::RunCheckCard,
        Phase::KillAgent => Action::RunKillAgent,
        Phase::SetPermissions => Action::RunSetPermissions,
        Phase::RecreateDir => Action::RunRecreateDir,
        Phase::SpawnAgent => Action::RunSpawnAgent,
        Phase::FactoryReset => Action::RunFactoryReset,
        Phase::GenerateKey => Action::RunGenerateKey,
        Phase::ExportPublic => Action::RunExportPublic,
        Phase::ExportSsh => Action::RunExportSsh,
        Phase::TransferToCard => Action::RunTransferToCard,
        Phase::SessionClose => Action::RunCloseSession,
        Phase::Done | Phase::Failed => Action::Finish,
    }
}

/// A failure before the session exists: the run ends at once.
pub open spec fn fail_now(s: PipelineModel, e: WorkerError) -> PipelineModel {
    PipelineModel { phase: Phase::Failed, pending_error: Some(e), ..s }
}

/// A failure inside the session: teardown runs first, the error is kept as
/// the primary one.
pub open spec fn fail_after_close(s: PipelineModel, e: WorkerError) -> PipelineModel {
    PipelineModel { phase: Phase::SessionClose, pending_error: Some(e), ..s }
}

/// The transition relation of the pipeline: the state after an event answers
/// the pending action of the current phase.
pub open spec fn step_spec(s: PipelineModel, ev: EventModel) -> PipelineModel {
    match s.phase {
        Phase::AwaitToken => match ev {
            EventModel::Listing(out) => match detect_spec(out) {
                Ok(serial) => PipelineModel {
                    phase: Phase::KillAgent,
                    serial: Some(serial),
                    ..s
                },
                Err(e) => if e == WorkerError::NoKeysFound {
                    if s.attempts >= s.max_retries {
                        fail_now(s, WorkerError::NoKeysFound)
                    } else {
                        PipelineModel { attempts: (s.attempts + 1) as u64, ..s }
                    }
                } else {
                    fail_now(s, e)
                },
            },
            _ => fail_now(s, WorkerError::YubikeyManager),
        },
        Phase::KillAgent => match ev {
            EventModel::StepOk => PipelineModel {
                phase: if s.skip_permissions {
                    Phase::RecreateDir
                } else {
                    Phase::SetPermissions
                },
                ..s
            },
            EventModel::StepFailed => fail_now(s, WorkerError::Gpg),
            _ => fail_now(s, WorkerError::IO),
        },
        // A failure to restrict permissions is tolerated: default permissions
        // still let provisioning work.
        Phase::SetPermissions => PipelineModel { phase: Phase::RecreateDir, ..s },
        Phase::RecreateDir => match ev {
            EventModel::StepOk => PipelineModel { phase: Phase::SpawnAgent, ..s },
            _ => fail_now(s, WorkerError::IO),
        },
        Phase::SpawnAgent => match ev {
            EventModel::StepOk => PipelineModel {
                phase: Phase::FactoryReset,
                session_open: true,
                ..s
            },
            _ => fail_now(s, WorkerError::IO),
        },
        Phase::FactoryReset => match ev {
            EventModel::StepOk => PipelineModel { phase: Phase::GenerateKey, ..s },
            EventModel::StepFailed => fail_after_close(s, WorkerError::YubikeyManager),
            _ => fail_after_close(s, WorkerError::IO),
        },
        Phase::GenerateKey => match ev {
            EventModel::StepOk => PipelineModel { phase: Phase::ExportPublic, ..s },
            EventModel::StepFailed => fail_after_close(s, WorkerError::Gpg),
            _ => fail_after_close(s, WorkerError::IO),
        },
        Phase::ExportPublic => match ev {
            EventModel::Captured(out) => PipelineModel {
                phase: Phase::ExportSsh,
                pgp: Some(out),
                ..s
            },
            EventModel::StepFailed => fail_after_close(s, WorkerError::Gpg),
            EventModel::TextInvalid => fail_after_close(s, WorkerError::UTF8Conversion),
            _ => fail_after_close(s, WorkerError::IO),
        },
        Phase::ExportSsh => match ev {
            EventModel::Captured(out) => PipelineModel {
                phase: Phase::TransferToCard,
                ssh: Some(out),
                ..s
            },
            EventModel::StepFailed => fail_after_close(s, WorkerError::Gpg),
            EventModel::TextInvalid => fail_after_close(s, WorkerError::UTF8Conversion),
            _ => fail_after_close(s, WorkerError::IO),
        },
        Phase::TransferToCard => match ev {
            EventModel::StepOk => PipelineModel { phase: Phase::SessionClose, ..s },
            EventModel::StepFailed => fail_after_close(s, WorkerError::Gpg),
            _ => fail_after_close(s, WorkerError::IO),
        },
        Phase::SessionClose => match ev {
            EventModel::StepOk => PipelineModel {
                phase: if s.pending_error is Some {
                    Phase::Failed
                } else {
                    Phase::Done
                },
                session_open: false,
                ..s
            },
            _ => PipelineModel {
                phase: Phase::Failed,
                pending_error: if s.pending_error is Some {
                    s.pending_error
                } else {
                    Some(WorkerError::GPGSessionEnd)
                },
                teardown_error: Some(WorkerError::GPGSessionEnd),
                ..s
            },
        },
        Phase::Done | Phase::Failed => s,
    }
}

/// The invariant of every reachable pipeline state.
pub open spec fn inv(s: PipelineModel) -> bool {
    &&& s.attempts <= s.max_retries
    &&& (s.phase is AwaitToken ==> s.serial is None && s.pending_error is None)
    &&& (!(s.phase is AwaitToken) && !(s.phase is Failed) ==> s.serial is Some)
    &&& (s.phase is ExportSsh || s.phase is TransferToCard ==> s.pgp is Some)
    &&& (s.phase is TransferToCard ==> s.ssh is Some)
    &&& (s.phase is SessionClose && s.pending_error is None ==> s.pgp is Some && s.ssh is Some)
    &&& (s.phase is Done ==> s.serial is Some && s.pgp is Some && s.ssh is Some
        && s.pending_error is None && s.teardown_error is None)
    &&& (s.phase is Failed ==> s.pending_error is Some)
    &&& (!terminal(s.phase) ==> s.teardown_error is None)
    &&& (!terminal(s.phase) ==> s.session_open == session_phase(s.phase))
    &&& (terminal(s.phase) && s.session_open ==> s.teardown_error is Some)
}

/// The outcome reported upstream for one job.
#[derive(Debug, PartialEq, Eq)]
pub enum JobOutcome {
    /// The run succeeded; its public artifacts.
    Success(ProvisioningInfo),
    /// The run failed: the primary error, and the teardown error that
    /// followed it, if teardown failed too.
    Failure(WorkerError, Option<WorkerError>),
}

impl JobOutcome {
    /// What `error_text` returns.
    pub open spec fn error_text_spec(&self) -> Seq<char> {
        match self {
            JobOutcome::Success(_) => Seq::empty(),
            JobOutcome::Failure(e, t) => match t {
                None => e.message_spec(),
                Some(teardown) => e.message_spec() + "; "@ + teardown.message_spec(),
            },
        }
    }

    /// The error text reported upstream: empty on success, the primary
    /// error's message otherwise, with the teardown failure appended after it
    /// when teardown failed too — secondary, never in the primary's place.
    pub fn error_text(&self) -> (r: String)
        ensures
            r@ == self.error_text_spec(),
    {
        match self {
            JobOutcome::Success(_) => String::new(),
            JobOutcome::Failure(e, t) => {
                let mut m = e.message();
                match t {
                    None => m,
                    Some(teardown) => {
                        m.append("; ");
                        let tm = teardown.message();
                        m.append(tm.as_str());
                        m
                    },
                }
            },
        }
    }
}

/// One provisioning run: from token detection to session teardown.
pub struct Pipeline {
    phase: Phase,
    job: Job,
    max_retries: u64,
    skip_permissions: bool,
    attempts: u64,
    serial: Option<String>,
    pgp: Option<String>,
    ssh: Option<String>,
    pending_error: Option<WorkerError>,
    teardown_error: Option<WorkerError>,
    session_open: bool,
}

impl View for Pipeline {
    type V = PipelineModel;

    closed spec fn view(&self) -> PipelineModel {
        PipelineModel {
            phase: self.phase,
            job: self.job@,
            max_retries: self.max_retries,
            skip_permissions: self.skip_permissions,
            attempts: self.attempts,
            serial: match self.serial {
                Some(s) => Some(s@),
                None => None,
            },
            pgp: match self.pgp {
                Some(s) => Some(s@),
                None => None,
            },
            ssh: match self.ssh {
                Some(s) => Some(s@),
                None => None,
            },
            pending_error: self.pending_error,
            teardown_error: self.teardown_error,
            session_open: self.session_open,
        }
    }
}

impl Pipeline {
    /// Starts a provisioning run for one job.
    pub fn new(job: Job, max_retries: u64, skip_permissions: bool) -> (p: Pipeline)
        ensures
            p@ == init_model(job@, max_retries, skip_permissions),
            inv(p@),
    {
        Pipeline {
            phase: Phase::AwaitToken,
            job,
            max_retries,
            skip_permissions,
            attempts: 0,
            serial: None,
            pgp: None,
            ssh: None,
            pending_error: None,
            teardown_error: None,
            session_open: false,
        }
    }

    /// The action the driver must perform next.
    pub fn next_action(&self) -> (a: Action)
        ensures
            a == action_spec(self@.phase),
    {
        match self.phase {
            Phase::AwaitToken => Action::RunCheckCard,
            Phase::KillAgent => Action::RunKillAgent,
            Phase::SetPermissions => Action::RunSetPermissions,
            Phase::RecreateDir => Action::RunRecreateDir,
            Phase::SpawnAgent => Action::RunSpawnAgent,
            Phase::FactoryReset => Action::RunFactoryReset,
            Phase::GenerateKey => Action::RunGenerateKey,
            Phase::ExportPublic => Action::RunExportPublic,
            Phase::ExportSsh => Action::RunExportSsh,
            Phase::TransferToCard => Action::RunTransferToCard,
            Phase::SessionClose => Action::RunCloseSession,
            Phase::Done | Phase::Failed => Action::Finish,
        }
    }

    /// The phase the run is in.
    pub fn phase(&self) -> (p: Phase)
        ensures
            p == self@.phase,
    {
        self.phase
    }

    /// How many retries the token wait has consumed.
    pub fn attempts(&self) -> (n: u64)
        ensures
            n == self@.attempts,
    {
        self.attempts
    }

    /// True once the run has succeeded or failed.
    pub fn is_finished(&self) -> (b: bool)
        ensures
            b == terminal(self@.phase),
    {
        match self.phase {
            Phase::Done | Phase::Failed => true,
            _ => false,
        }
    }

    /// The key-generation script for this run's job: the fixed RSA parameters
    /// around the job's full name and email.
    pub fn generation_script(&self) -> (r: String)
        ensures
            r@ == card_info_script(
                full_name_spec(self@.job.first_name, self@.job.last_name),
                self@.job.email,
            ),
    {
        let name = full_name(self.job.first_name.as_str(), self.job.last_name.as_str());
        card_info_args(name.as_str(), self.job.email.as_str())
    }

    /// The email the generated key is filed under.
    pub fn email(&self) -> (r: &str)
        ensures
            r@ == self@.job.email,
    {
        self.job.email.as_str()
    }

    /// Advances the machine by one event.
    pub fn step(&mut self, ev: Event)
        requires
            inv(old(self)@),
            !terminal(old(self)@.phase),
            event_fits(old(self)@.phase, ev@),
        ensures
            final(self)@ == step_spec(old(self)@, ev@),
            inv(final(self)@),
    {
        match (self.phase, ev) {
            (Phase::AwaitToken, Event::Listing(out)) => {
                match check_card(out.as_str()) {
                    Ok(serial) => {
                        self.serial = Some(serial);
                        self.phase = Phase::KillAgent;
                    },
                    Err(e) => {
                        match e {
                            WorkerError::NoKeysFound => {
                                if self.attempts >= self.max_retries {
                                    self.pending_error = Some(WorkerError::NoKeysFound);
                                    self.phase = Phase::Failed;
                                } else {
                                    self.attempts = self.attempts + 1;
                                }
                            },
                            _ => {
                                self.pending_error = Some(e);
                                self.phase = Phase::Failed;
                            },
                        }
                    },
                }
            },
            (Phase::AwaitToken, _) => {
                self.pending_error = Some(WorkerError::YubikeyManager);
                self.phase = Phase::Failed;
            },
            (Phase::KillAgent, Event::StepOk) => {
                self.phase = if self.skip_permissions {
                    Phase::RecreateDir
                } else {
                    Phase::SetPermissions
                };
            },
            (Phase::KillAgent, Event::StepFailed) => {
                self.pending_error = Some(WorkerError::Gpg);
                self.phase = Phase::Failed;
            },
            (Phase::KillAgent, _) => {
                self.pending_error = Some(WorkerError::IO);
                self.phase = Phase::Failed;
            },
            (Phase::SetPermissions, _) => {
                self.phase = Phase::RecreateDir;
            },
            (Phase::RecreateDir, Event::StepOk) => {
                self.phase = Phase::SpawnAgent;
            },
            (Phase::RecreateDir, _) => {
                self.pending_error = Some(WorkerError::IO);
                self.phase = Phase::Failed;
            },
            (Phase::SpawnAgent, Event::StepOk) => {
                self.session_open = true;
                self.phase = Phase::FactoryReset;
            },
            (Phase::SpawnAgent, _) => {
                self.pending_error = Some(WorkerError::IO);
                self.phase = Phase::Failed;
            },
            (Phase::FactoryReset, Event::StepOk) => {
                self.phase = Phase::GenerateKey;
            },
            (Phase::FactoryReset, Event::StepFailed) => {
                self.pending_error = Some(WorkerError::YubikeyManager);
                self.phase = Phase::SessionClose;
            },
            (Phase::FactoryReset, _) => {
                self.pending_error = Some(WorkerError::IO);
                self.phase = Phase::SessionClose;
            },
            (Phase::GenerateKey, Event::StepOk) => {
                self.phase = Phase::ExportPublic;
            },
            (Phase::GenerateKey, Event::StepFailed) => {
                self.pending_error = Some(WorkerError::Gpg);
                self.phase = Phase::SessionClose;
            },
            (Phase::GenerateKey, _) => {
                self.pending_error = Some(WorkerError::IO);
                self.phase = Phase::SessionClose;
            },
            (Phase::ExportPublic, Event::Captured(out)) => {
                self.pgp = Some(out);
                self.phase = Phase::ExportSsh;
            },
            (Phase::ExportPublic, Event::StepFailed) => {
                self.pending_error = Some(WorkerError::Gpg);
                self.phase = Phase::SessionClose;
            },
            (Phase::ExportPublic, Event::TextInvalid) => {
                self.pending_error = Some(WorkerError::UTF8Conversion);
                self.phase = Phase::SessionClose;
            },
            (Phase::ExportPublic, _) => {
                self.pending_error = Some(WorkerError::IO);
                self.phase = Phase::SessionClose;
            },
            (Phase::ExportSsh, Event::Captured(out)) => {
                self.ssh = Some(out);
                self.phase = Phase::TransferToCard;
            },
            (Phase::ExportSsh, Event::StepFailed) => {
                self.pending_error = Some(WorkerError::Gpg);
                self.phase = Phase::SessionClose;
            },
            (Phase::ExportSsh, Event::TextInvalid) => {
                self.pending_error = Some(WorkerError::UTF8Conversion);
                self.phase = Phase::SessionClose;
            },
            (Phase::ExportSsh, _) => {
                self.pending_error = Some(WorkerError::IO);
                self.phase = Phase::SessionClose;
            },
            (Phase::TransferToCard, Event::StepOk) => {
                self.phase = Phase::SessionClose;
            },
            (Phase::TransferToCard, Event::StepFailed) => {
                self.pending_error = Some(WorkerError::Gpg);
                self.phase = Phase::SessionClose;
            },
            (Phase::TransferToCard, _) => {
                self.pending_error = Some(WorkerError::IO);
                self.phase = Phase::SessionClose;
            },
            (Phase::SessionClose, Event::StepOk) => {
                self.session_open = false;
                self.phase = if self.pending_error.is_some() {
                    Phase::Failed
                } else {
                    Phase::Done
                };
            },
            (Phase::SessionClose, _) => {
                self.teardown_error = Some(WorkerError::GPGSessionEnd);
                if self.pending_error.is_none() {
                    self.pending_error = Some(WorkerError::GPGSessionEnd);
                }
                self.phase = Phase::Failed;
            },
            (Phase::Done, _) | (Phase::Failed, _) => {
                proof {
                    assert(false);
                }
            },
        }
    }

    /// The outcome of a finished run.
    pub fn into_outcome(self) -> (o: JobOutcome)
        requires
            inv(self@),
            terminal(self@.phase),
        ensures
            self@.phase is Done ==> (o matches JobOutcome::Success(info)
                && Some(info.pgp@) == self@.pgp && Some(info.ssh@) == self@.ssh
                && Some(info.serial@) == self@.serial),
            self@.phase is Failed ==> (o matches JobOutcome::Failure(e, t)
                && Some(e) == self@.pending_error && t == self@.teardown_error),
    {
        let Pipeline { phase, serial, pgp, ssh, pending_error, teardown_error, .. } = self;
        match phase {
            Phase::Done => JobOutcome::Success(
                ProvisioningInfo {
                    pgp: pgp.unwrap(),
                    ssh: ssh.unwrap(),
                    serial: serial.unwrap(),
                },
            ),
            Phase::Failed => JobOutcome::Failure(pending_error.unwrap(), teardown_error),
            _ => {
                proof {
                    assert(false);
                }
                JobOutcome::Failure(WorkerError::IO, None)
            },
        }
    }
}

/// Every step of the pipeline preserves its invariant.
pub proof fn lemma_step_preserves_inv(s: PipelineModel, ev: EventModel)
    requires
        inv(s),
        !terminal(s.phase),
        event_fits(s.phase, ev),
    ensures
        inv(step_spec(s, ev)),
{
}

/// A finished run never leaks its session silently: either the session was
/// torn down, or the teardown failure stands in the outcome.
pub proof fn lemma_no_silent_leak(s: PipelineModel)
    requires
        inv(s),
        terminal(s.phase),
    ensures
        s.session_open ==> s.teardown_error is Some,
        s.phase is Done ==> !s.session_open,
{
}

/// The happy path as a theorem: for any job, any listing that parses to a
/// serial, and any two captured artifacts, the run that answers every step
/// with success ends in `Done`, carries exactly that serial and those
/// artifacts, and leaves no session open.
pub proof fn lemma_successful_run(
    jm: JobModel,
    max_retries: u64,
    out: Seq<char>,
    pgp: Seq<char>,
    ssh: Seq<char>,
)
    requires
        detect_spec(out) is Ok,
    ensures
        ({
            let s0 = init_model(jm, max_retries, false);
            let s1 = step_spec(s0, EventModel::Listing(out));
            let s2 = step_spec(s1, EventModel::StepOk);  // stale agent killed
            let s3 = step_spec(s2, EventModel::StepOk);  // permissions restricted
            let s4 = step_spec(s3, EventModel::StepOk);  // home recreated
            let s5 = step_spec(s4, EventModel::StepOk);  // agent started
            let s6 = step_spec(s5, EventModel::StepOk);  // token factory-reset
            let s7 = step_spec(s6, EventModel::StepOk);  // key generated
            let s8 = step_spec(s7, EventModel::Captured(pgp));
            let s9 = step_spec(s8, EventModel::Captured(ssh));
            let s10 = step_spec(s9, EventModel::StepOk);  // subkeys transferred
            let s11 = step_spec(s10, EventModel::StepOk);  // session closed
            &&& s11.phase is Done
            &&& s11.serial == Some(detect_spec(out)->Ok_0)
            &&& s11.pgp == Some(pgp)
            &&& s11.ssh == Some(ssh)
            &&& !s11.session_open
        }),
{
}

/// Position of a phase in the order of the run.
pub open spec fn phase_index(phase: Phase) -> int {
    match phase {
        Phase::AwaitToken => 0,
        Phase::KillAgent => 1,
        Phase::SetPermissions => 2,
        Phase::RecreateDir => 3,
        Phase::SpawnAgent => 4,
        Phase::FactoryReset => 5,
        Phase::GenerateKey => 6,
        Phase::ExportPublic => 7,
        Phase::ExportSsh => 8,
        Phase::TransferToCard => 9,
        Phase::SessionClose => 10,
        Phase::Done => 11,
        Phase::Failed => 12,
    }
}

/// The run never re-enters an earlier phase: every step keeps the phase or
/// moves it forward, and only the token wait ever keeps it.
pub proof fn lemma_phases_never_go_back(s: PipelineModel, ev: EventModel)
    requires
        inv(s),
        !terminal(s.phase),
        event_fits(s.phase, ev),
    ensures
        phase_index(step_spec(s, ev).phase) >= phase_index(s.phase),
        step_spec(s, ev).phase == s.phase ==> s.phase is AwaitToken,
{
}

/// Answers the pipeline with a sequence of token listings, in order.
pub open spec fn run_listings(s: PipelineModel, outs: Seq<Seq<char>>) -> PipelineModel
    decreases outs.len(),
{
    if outs.len() == 0 {
        s
    } else {
        run_listings(step_spec(s, EventModel::Listing(outs[0])), outs.drop_first())
    }
}

/// Bounded retry of the token wait.  While the token stays absent (every
/// listing has zero non-empty lines), each check raises the retry count by
/// one and keeps the run waiting, until `max_retries` retries are consumed;
/// the check after that fails the run with `NoKeysFound`, and no session was
/// ever opened.
pub proof fn lemma_await_token_retry_budget(s: PipelineModel, outs: Seq<Seq<char>>)
    requires
        inv(s),
        s.phase is AwaitToken,
        forall|i: int| 0 <= i < outs.len() ==> nonempty_line_count(#[trigger] outs[i]) == 0,
    ensures
        s.attempts + outs.len() <= s.max_retries ==> run_listings(s, outs) == (PipelineModel {
            attempts: (s.attempts + outs.len()) as u64,
            ..s
        }),
        s.attempts + outs.len() == s.max_retries + 1 ==> run_listings(s, outs) == fail_now(
            PipelineModel { attempts: s.max_retries, ..s },
            WorkerError::NoKeysFound,
        ),
    decreases outs.len(),
{
    if outs.len() > 0 {
        assert(nonempty_line_count(outs[0]) == 0);
        let ev = EventModel::Listing(outs[0]);
        let s1 = step_spec(s, ev);
        if s.attempts < s.max_retries {
            lemma_step_preserves_inv(s, ev);
            assert(forall|i: int|
                0 <= i < outs.drop_first().len() ==> nonempty_line_count(
                    #[trigger] outs.drop_first()[i],
                ) == 0) by {
                assert(forall|i: int|
                    0 <= i < outs.drop_first().len() ==> outs.drop_first()[i] == outs[i + 1]);
            }
            lemma_await_token_retry_budget(s1, outs.drop_first());
        } else {
            if outs.len() == 1 {
                assert(run_listings(s1, outs.drop_first()) == s1);
            }
        }
    }
}

/// A token found during the wait ends it at once: the parsed serial is
/// carried forward into the session phases and no retry is consumed.
pub proof fn lemma_token_found_proceeds(s: PipelineModel, out: Seq<char>)
    requires
        inv(s),
        s.phase is AwaitToken,
        detect_spec(out) is Ok,
    ensures
        step_spec(s, EventModel::Listing(out)).phase is KillAgent,
        step_spec(s, EventModel::Listing(out)).serial == Some(detect_spec(out)->Ok_0),
        step_spec(s, EventModel::Listing(out)).attempts == s.attempts,
        !step_spec(s, EventModel::Listing(out)).session_open,
{
}

/// An ambiguous listing (two or more tokens attached) fails the run at once:
/// no retry is consumed and no session is opened.
pub proof fn lemma_ambiguous_token_fails_fast(s: PipelineModel, out: Seq<char>)
    requires
        inv(s),
        s.phase is AwaitToken,
        nonempty_line_count(out) >= 2,
    ensures
        step_spec(s, EventModel::Listing(out)) == fail_now(s, WorkerError::MultipleKeysPresent),
        step_spec(s, EventModel::Listing(out)).attempts == s.attempts,
        !step_spec(s, EventModel::Listing(out)).session_open,
{
}

/// Once the session is live, no failure ends the run directly: every exit
/// first passes through the teardown phase.
pub proof fn lemma_failure_inside_session_closes_first(s: PipelineModel, ev: EventModel)
    requires
        inv(s),
        !terminal(s.phase),
        event_fits(s.phase, ev),
        s.session_open,
        !(s.phase is SessionClose),
    ensures
        !terminal(step_spec(s, ev).phase),
        step_spec(s, ev).session_open,
{
}

} // verus!
