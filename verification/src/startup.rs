//! The overall bring-up sequence and its state machine.
//!
//! `Init → Connecting → Connected → [Provisioning] → Registering → Announced
//! → Serving`; any fatal failure moves directly to `Aborted`, which
//! terminates the process. `run_bringup` composes the connection retry, the
//! optional provisioning handshake, ordered registration and the topology
//! announcement into one decision: given what every external collaborator
//! would answer, it determines everything the process observably does.

use vstd::prelude::*;
use crate::errors::{ChannelError, ConnectionError, FatalError, ProvisioningError};
use crate::provision::{provision_outcome, ProvisionRun};
use crate::registrar::{run_registration, PublishOutcome};
use crate::retry::{run_retry, AttemptOutcome, RetryRun, MAX_ATTEMPTS};
use crate::services::{service_order, ServiceKind, SERVICE_COUNT};

verus! {

/// Whether the optional boot-provisioning handshake runs.
#[derive(Clone, Copy, PartialEq, Eq, Structural, Debug)]
pub enum Mode {
    /// Boot state and attestation identity are sent before normal service.
    Diagnostic,
    /// The handshake is skipped: the trusted side was provisioned elsewhere.
    Production,
}

/// The states of the bring-up sequence.
#[derive(Clone, Copy, PartialEq, Eq, Structural, Debug)]
pub enum StartupState {
    Init,
    Connecting,
    Connected,
    Provisioning,
    Registering,
    Announced,
    Serving,
    Aborted,
}

/// The events that move the bring-up sequence forward.
#[derive(Clone, Copy, PartialEq, Eq, Structural, Debug)]
pub enum StartupEvent {
    /// Bring-up begins: the first connection attempt starts.
    StartRequested,
    /// The connection broker returned a live connection.
    ConnectionEstablished,
    /// The provisioning handshake begins (diagnostic mode only).
    ProvisioningStarted,
    /// The mandatory send succeeded; a best-effort failure only warns.
    ProvisioningCompleted,
    /// Registration of the four fronts begins (production skips provisioning).
    RegistrationStarted,
    /// All four fronts were accepted by the discovery registry.
    AllServicesRegistered,
    /// The trusted side accepted the topology announcement.
    TopologyAccepted,
    /// Any fatal failure, in any state.
    FatalFailure,
}

/// The transition relation of the bring-up state machine. A fatal failure
/// aborts from every state, and an event out of protocol order is itself
/// fatal; `Aborted` is terminal.
pub open spec fn advance_spec(s: StartupState, e: StartupEvent) -> StartupState {
    match (s, e) {
        (StartupState::Init, StartupEvent::StartRequested) => StartupState::Connecting,
        (StartupState::Connecting, StartupEvent::ConnectionEstablished) => StartupState::Connected,
        (StartupState::Connected, StartupEvent::ProvisioningStarted) => StartupState::Provisioning,
        (StartupState::Connected, StartupEvent::RegistrationStarted) => StartupState::Registering,
        (StartupState::Provisioning, StartupEvent::ProvisioningCompleted) => StartupState::Registering,
        (StartupState::Registering, StartupEvent::AllServicesRegistered) => StartupState::Announced,
        (StartupState::Announced, StartupEvent::TopologyAccepted) => StartupState::Serving,
        _ => StartupState::Aborted,
    }
}

/// One transition of the bring-up state machine.
pub fn advance(s: StartupState, e: StartupEvent) -> (s2: StartupState)
    ensures
        s2 == advance_spec(s, e),
        e is FatalFailure ==> s2 is Aborted,
        s is Aborted ==> s2 is Aborted,
{
    match (s, e) {
        (StartupState::Init, StartupEvent::StartRequested) => StartupState::Connecting,
        (StartupState::Connecting, StartupEvent::ConnectionEstablished) => StartupState::Connected,
        (StartupState::Connected, StartupEvent::ProvisioningStarted) => StartupState::Provisioning,
        (StartupState::Connected, StartupEvent::RegistrationStarted) => StartupState::Registering,
        (StartupState::Provisioning, StartupEvent::ProvisioningCompleted) => StartupState::Registering,
        (StartupState::Registering, StartupEvent::AllServicesRegistered) => StartupState::Announced,
        (StartupState::Announced, StartupEvent::TopologyAccepted) => StartupState::Serving,
        _ => StartupState::Aborted,
    }
}

/// The state the machine reaches from `Init` after a sequence of events.
pub open spec fn run_machine(events: Seq<StartupEvent>) -> StartupState
    decreases events.len(),
{
    if events.len() == 0 {
        StartupState::Init
    } else {
        advance_spec(run_machine(events.drop_last()), events.last())
    }
}

/// Law: a fatal failure aborts from every state.
pub proof fn lemma_fatal_aborts_everywhere(s: StartupState, e: StartupEvent)
    requires
        e is FatalFailure,
    ensures
        advance_spec(s, e) is Aborted,
{
}

/// Law: `Aborted` is terminal — no event leaves it, and bring-up never
/// resumes from a partial state.
pub proof fn lemma_aborted_is_terminal(e: StartupEvent)
    ensures
        advance_spec(StartupState::Aborted, e) is Aborted,
{
}

/// Law: the diagnostic success path — connect, provision, register,
/// announce — walks the machine from `Init` to `Serving`.
pub proof fn lemma_diagnostic_path_reaches_serving()
    ensures
        run_machine(
            seq![
                StartupEvent::StartRequested,
                StartupEvent::ConnectionEstablished,
                StartupEvent::ProvisioningStarted,
                StartupEvent::ProvisioningCompleted,
                StartupEvent::AllServicesRegistered,
                StartupEvent::TopologyAccepted,
            ],
        ) is Serving,
{
    reveal_with_fuel(run_machine, 7);
}

/// Law: the production success path skips provisioning and still walks the
/// machine from `Init` to `Serving`.
pub proof fn lemma_production_path_reaches_serving()
    ensures
        run_machine(
            seq![
                StartupEvent::StartRequested,
                StartupEvent::ConnectionEstablished,
                StartupEvent::RegistrationStarted,
                StartupEvent::AllServicesRegistered,
                StartupEvent::TopologyAccepted,
            ],
        ) is Serving,
{
    reveal_with_fuel(run_machine, 6);
}

/// The dispatch loop returning control after `Serving` is itself fatal.
pub fn on_dispatch_loop_exit() -> (e: FatalError)
    ensures
        e is ServingExited,
{
    FatalError::ServingExited
}

/// What every external collaborator would answer during one bring-up:
/// the connect primitive's outcome per attempt, the two provisioning sends,
/// the registry's answer per front, and the topology announcement.
pub struct BringupPlan {
    pub mode: Mode,
    pub connect_outcomes: Vec<AttemptOutcome>,
    pub boot_send: Result<(), ChannelError>,
    pub attest_send: Result<(), ChannelError>,
    pub publish_outcomes: Vec<PublishOutcome>,
    pub announce_send: Result<(), ChannelError>,
}

/// Everything the process observably does during one bring-up.
#[derive(Debug)]
pub struct BringupReport {
    /// Constant delays that elapsed between connection attempts.
    pub delays_elapsed: u32,
    /// The best-effort attestation-identity send failed; logged only.
    pub attest_warning: bool,
    /// Services left registered in the discovery registry, in order.
    pub registered: Vec<ServiceKind>,
    /// `Ok` when the process reached `Serving`; otherwise the fatal error
    /// that aborted bring-up.
    pub outcome: Result<(), FatalError>,
    /// Where the state machine ended: `Serving` or `Aborted`.
    pub final_state: StartupState,
}

/// All attempts the retry policy makes fail.
pub open spec fn all_attempts_fail(outcomes: Seq<AttemptOutcome>) -> bool {
    forall|j: int| 0 <= j < MAX_ATTEMPTS ==> outcomes[j] is Failed
}

/// Attempt `k + 1` (0-based index `k`) is the first to connect.
pub open spec fn first_success_at(outcomes: Seq<AttemptOutcome>, k: int) -> bool {
    &&& 0 <= k < MAX_ATTEMPTS
    &&& outcomes[k] is Connected
    &&& forall|j: int| 0 <= j < k ==> outcomes[j] is Failed
}

/// The registry accepts every front.
pub open spec fn all_published(outcomes: Seq<PublishOutcome>) -> bool {
    forall|j: int| 0 <= j < SERVICE_COUNT ==> outcomes[j] is Accepted
}

/// The front at position `i` is the first the registry rejects.
pub open spec fn first_rejection_at(outcomes: Seq<PublishOutcome>, i: int) -> bool {
    &&& 0 <= i < SERVICE_COUNT
    &&& outcomes[i] is Rejected
    &&& forall|j: int| 0 <= j < i ==> outcomes[j] is Accepted
}

/// What bring-up does once a connection is live: the provisioning policy,
/// then ordered registration, then the announcement.
pub open spec fn after_connect_post(plan: BringupPlan, r: BringupReport) -> bool {
    let boot_fatal = plan.mode is Diagnostic && plan.boot_send is Err;
    &&& (boot_fatal ==> {
        &&& r.outcome == Err::<(), FatalError>(
            FatalError::Provisioning(ProvisioningError { cause: plan.boot_send->Err_0 }),
        )
        &&& r.registered@ == Seq::<ServiceKind>::empty()
        &&& !r.attest_warning
        &&& r.final_state is Aborted
    })
    &&& (!boot_fatal ==> {
        &&& r.attest_warning == (plan.mode is Diagnostic && plan.attest_send is Err)
        &&& (forall|i: int|
            first_rejection_at(plan.publish_outcomes@, i) ==> {
                &&& r.registered@ == service_order().take(i)
                &&& r.outcome matches Err(f) && f matches FatalError::Registration(e)
                    && e.service == service_order()[i]
                    && e.code == plan.publish_outcomes@[i]->Rejected_0
                &&& r.final_state is Aborted
            })
        &&& (all_published(plan.publish_outcomes@) ==> {
            &&& r.registered@ == service_order()
            &&& (plan.announce_send is Ok ==> r.outcome is Ok && r.final_state is Serving)
            &&& (plan.announce_send matches Err(e) ==> r.outcome == Err::<(), FatalError>(
                FatalError::Announcement(e),
            ) && r.final_state is Aborted)
        })
    })
}

/// Everything `run_bringup` promises, for every plan.
pub open spec fn bringup_post(plan: BringupPlan, r: BringupReport) -> bool {
    &&& (all_attempts_fail(plan.connect_outcomes@) ==> {
        &&& r.outcome == Err::<(), FatalError>(
            FatalError::Connection(
                ConnectionError {
                    final_cause: plan.connect_outcomes@[MAX_ATTEMPTS - 1]->Failed_0,
                },
            ),
        )
        &&& r.delays_elapsed == MAX_ATTEMPTS - 1
        &&& r.registered@ == Seq::<ServiceKind>::empty()
        &&& !r.attest_warning
        &&& r.final_state is Aborted
    })
    &&& (forall|k: int|
        first_success_at(plan.connect_outcomes@, k) ==> r.delays_elapsed == k
            && after_connect_post(plan, r))
    &&& (r.final_state is Serving <==> r.outcome is Ok)
}

/// The whole bring-up sequence as one decision: given what the connect
/// primitive, the channel sends, the discovery registry and the trusted side
/// would answer, determines the delays elapsed, the services left registered,
/// whether only a warning was logged, and whether the process reaches
/// `Serving` or aborts with which fatal error.
pub fn run_bringup(plan: &BringupPlan) -> (r: BringupReport)
    requires
        plan.connect_outcomes@.len() >= MAX_ATTEMPTS,
        plan.publish_outcomes@.len() >= SERVICE_COUNT,
    ensures
        bringup_post(*plan, r),
{
    let retry = run_retry(&plan.connect_outcomes, MAX_ATTEMPTS);
    let delays_elapsed: u32 = match retry {
        RetryRun::Failure { final_cause, delays_elapsed } => {
            return BringupReport {
                delays_elapsed,
                attest_warning: false,
                registered: Vec::new(),
                outcome: Err(FatalError::Connection(ConnectionError { final_cause })),
                final_state: StartupState::Aborted,
            };
        },
        RetryRun::Success { attempt: _, delays_elapsed } => delays_elapsed,
    };

    let mut attest_warning = false;
    if let Mode::Diagnostic = plan.mode {
        match provision_outcome(plan.boot_send, plan.attest_send) {
            ProvisionRun::Aborted(e) => {
                return BringupReport {
                    delays_elapsed,
                    attest_warning: false,
                    registered: Vec::new(),
                    outcome: Err(FatalError::Provisioning(e)),
                    final_state: StartupState::Aborted,
                };
            },
            ProvisionRun::Completed { attest_warning: w } => {
                attest_warning = w;
            },
        }
    }

    let registration = run_registration(&plan.publish_outcomes);
    match registration.result {
        Err(e) => BringupReport {
            delays_elapsed,
            attest_warning,
            registered: registration.registered,
            outcome: Err(FatalError::Registration(e)),
            final_state: StartupState::Aborted,
        },
        Ok(_) => match plan.announce_send {
            Err(e) => BringupReport {
                delays_elapsed,
                attest_warning,
                registered: registration.registered,
                outcome: Err(FatalError::Announcement(e)),
                final_state: StartupState::Aborted,
            },
            Ok(_) => BringupReport {
                delays_elapsed,
                attest_warning,
                registered: registration.registered,
                outcome: Ok(()),
                final_state: StartupState::Serving,
            },
        },
    }
}

} // verus!
