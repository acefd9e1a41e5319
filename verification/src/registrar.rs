//! Strictly ordered registration of the four service fronts.
//!
//! Publication in the discovery registry is an external collaborator; the
//! registrar decides which service is published next and stops at the first
//! rejection. Fronts registered before a rejection are deliberately not
//! rolled back: the process aborts and a supervisor restarts bring-up.

use vstd::prelude::*;
use crate::errors::RegistrationError;
use crate::services::{service_at, service_order, ServiceKind, SERVICE_COUNT};

verus! {

/// What the discovery registry answered to one publish request.
#[derive(Clone, Copy, PartialEq, Eq, Structural, Debug)]
pub enum PublishOutcome {
    /// The registry accepted the publication.
    Accepted,
    /// The registry rejected the publication with this status code.
    Rejected(i32),
}

/// Result of running the whole registration sequence.
#[derive(Debug)]
pub struct RegistrationRun {
    /// Services now published in the registry, in registration order. Not
    /// rolled back on a later failure.
    pub registered: Vec<ServiceKind>,
    /// How many publications were attempted; services after the first
    /// rejection are never attempted.
    pub attempted: usize,
    /// `Ok` when all four fronts registered; otherwise the first rejection.
    pub result: Result<(), RegistrationError>,
}

/// Everything `run_registration` promises: success means all four services
/// were accepted in order; failure pins the first rejected service, leaves
/// exactly the services before it registered, and attempts nothing after it.
pub open spec fn registration_post(outcomes: Seq<PublishOutcome>, r: RegistrationRun) -> bool {
    match r.result {
        Ok(_) => {
            &&& r.attempted == SERVICE_COUNT
            &&& r.registered@ == service_order()
            &&& forall|j: int| 0 <= j < SERVICE_COUNT ==> outcomes[j] is Accepted
        },
        Err(e) => {
            &&& 1 <= r.attempted <= SERVICE_COUNT
            &&& outcomes[r.attempted - 1] is Rejected
            &&& forall|j: int| 0 <= j < r.attempted - 1 ==> outcomes[j] is Accepted
            &&& r.registered@ == service_order().take(r.attempted - 1)
            &&& e.service == service_order()[r.attempted - 1]
            &&& e.code == outcomes[r.attempted - 1]->Rejected_0
        },
    }
}

/// Decision core of service registration: given the answer the registry would
/// give each of the four fronts, determines which fronts end up registered,
/// how many publications are attempted, and which rejection (if any) aborts
/// startup.
pub fn run_registration(outcomes: &Vec<PublishOutcome>) -> (r: RegistrationRun)
    requires
        outcomes@.len() >= SERVICE_COUNT,
    ensures
        registration_post(outcomes@, r),
{
    let mut registered: Vec<ServiceKind> = Vec::new();
    let mut i: usize = 0;
    while i < SERVICE_COUNT
        invariant
            outcomes@.len() >= SERVICE_COUNT,
            i <= SERVICE_COUNT,
            registered@ == service_order().take(i as int),
            forall|j: int| 0 <= j < i ==> outcomes@[j] is Accepted,
        decreases SERVICE_COUNT - i,
    {
        let kind = service_at(i);
        match outcomes[i] {
            PublishOutcome::Accepted => {
                registered.push(kind);
                proof {
                    assert(registered@ =~= service_order().take(i + 1));
                }
            },
            PublishOutcome::Rejected(code) => {
                return RegistrationRun {
                    registered,
                    attempted: i + 1,
                    result: Err(RegistrationError { service: kind, code }),
                };
            },
        }
        i = i + 1;
    }
    proof {
        assert(registered@ =~= service_order());
    }
    RegistrationRun { registered, attempted: SERVICE_COUNT, result: Ok(()) }
}

/// Law: registration stops at the first rejection. If the service at
/// position `i` is the first to be rejected, exactly the services before it
/// stay registered (not rolled back), nothing after it is ever attempted, and
/// startup reports a fatal `RegistrationError` naming that service and the
/// registry's code.
pub proof fn lemma_registration_stops_at_first_rejection(
    outcomes: Seq<PublishOutcome>,
    i: int,
    r: RegistrationRun,
)
    requires
        outcomes.len() >= SERVICE_COUNT,
        0 <= i < SERVICE_COUNT,
        outcomes[i] is Rejected,
        forall|j: int| 0 <= j < i ==> outcomes[j] is Accepted,
        registration_post(outcomes, r),
    ensures
        r.attempted == i + 1,
        r.registered@ == service_order().take(i),
        r.result matches Err(e) && e.service == service_order()[i]
            && e.code == outcomes[i]->Rejected_0,
{
}

} // verus!
