//! Physical reservations and runtime incidents. A reservation prohibits
//! replacement writers until positive quiescence evidence arrives;
//! uncertainty never unlocks it.
use vstd::prelude::*;

verus! {

/// Safe incident classifications, never raw provider exception or auth material.
#[derive(Clone, Copy, Debug, PartialEq, Eq, Structural)]
pub enum IncidentKind {
    /// No positive Runner liveness arrived before its deadline.
    HeartbeatLost,
    /// The host rebooted; pre-boot execution cannot continue with its old Lease.
    HostReboot,
    /// Runtime existence or side effects cannot be determined.
    EnvironmentUnknown,
    /// No terminal pipeline outcome was accepted before the process exited.
    Interrupted,
    /// Provider credentials require operator attention.
    Authentication,
    /// Provider or account rate/cost limits were reached.
    BudgetExceeded,
    /// Provider rate/quota refusal, not proof of monetary budget exhaustion.
    RateLimited,
    /// Provider transport/service unavailable.
    ProviderUnavailable,
    /// A child runtime reported a failure without a more specific classification.
    RuntimeFailed,
    /// The bounded local evidence buffer could not retain all bytes.
    EvidenceIncomplete,
    /// An external process could not be prepared or started.
    StartFailed,
}

/// The storage text of an incident kind (its snake_case schema value).
pub open spec fn incident_text(kind: IncidentKind) -> Seq<char> {
    match kind {
        IncidentKind::HeartbeatLost => "heartbeat_lost"@,
        IncidentKind::HostReboot => "host_reboot"@,
        IncidentKind::EnvironmentUnknown => "environment_unknown"@,
        IncidentKind::Interrupted => "interrupted"@,
        IncidentKind::Authentication => "authentication"@,
        IncidentKind::BudgetExceeded => "budget_exceeded"@,
        IncidentKind::RateLimited => "rate_limited"@,
        IncidentKind::ProviderUnavailable => "provider_unavailable"@,
        IncidentKind::RuntimeFailed => "runtime_failed"@,
        IncidentKind::EvidenceIncomplete => "evidence_incomplete"@,
        IncidentKind::StartFailed => "start_failed"@,
    }
}

impl IncidentKind {
    /// The storage text of this kind; incidents are deduplicated per Run and kind.
    pub fn as_str(&self) -> (res: &'static str)
        ensures
            res@ == incident_text(*self),
    {
        match self {
            IncidentKind::HeartbeatLost => "heartbeat_lost",
            IncidentKind::HostReboot => "host_reboot",
            IncidentKind::EnvironmentUnknown => "environment_unknown",
            IncidentKind::Interrupted => "interrupted",
            IncidentKind::Authentication => "authentication",
            IncidentKind::BudgetExceeded => "budget_exceeded",
            IncidentKind::RateLimited => "rate_limited",
            IncidentKind::ProviderUnavailable => "provider_unavailable",
            IncidentKind::RuntimeFailed => "runtime_failed",
            IncidentKind::EvidenceIncomplete => "evidence_incomplete",
            IncidentKind::StartFailed => "start_failed",
        }
    }
}

/// The physical state an environment report records for a reservation.
#[derive(Clone, Copy, Debug, PartialEq, Eq, Structural)]
pub enum ReservationState {
    /// The environment still exists or may still run.
    Active,
    /// Positive exit or nonexistence evidence: the reservation is released.
    Quiescent,
    /// Liveness could not be established: the reservation stays quarantined.
    Unknown,
}

/// The state a report records: inability to establish liveness wins over a
/// quiescence claim, and only positive quiescence evidence is quiescent.
pub open spec fn reported_state(quiescent: bool, unknown: bool) -> ReservationState {
    if unknown {
        ReservationState::Unknown
    } else if quiescent {
        ReservationState::Quiescent
    } else {
        ReservationState::Active
    }
}

/// The storage text of a reservation state.
pub open spec fn reservation_text(state: ReservationState) -> Seq<char> {
    match state {
        ReservationState::Active => "active"@,
        ReservationState::Quiescent => "quiescent"@,
        ReservationState::Unknown => "unknown"@,
    }
}

impl ReservationState {
    /// Whether recording this state releases the reservation.
    pub open spec fn releases(self) -> bool {
        self == ReservationState::Quiescent
    }

    /// The storage text of this state.
    pub fn as_str(&self) -> (res: &'static str)
        ensures
            res@ == reservation_text(*self),
    {
        match self {
            ReservationState::Active => "active",
            ReservationState::Quiescent => "quiescent",
            ReservationState::Unknown => "unknown",
        }
    }

    /// Whether recording this state releases the reservation.
    pub fn is_release(&self) -> (res: bool)
        ensures
            res == self.releases(),
    {
        match self {
            ReservationState::Quiescent => true,
            _ => false,
        }
    }
}

/// The reservation state an environment report records.
pub fn environment_report_state(quiescent: bool, unknown: bool) -> (res: ReservationState)
    ensures
        res == reported_state(quiescent, unknown),
{
    if unknown {
        ReservationState::Unknown
    } else if quiescent {
        ReservationState::Quiescent
    } else {
        ReservationState::Active
    }
}

/// Uncertainty never unlocks a reservation: a report that cannot establish
/// liveness keeps it held whatever else it claims, and so does a report
/// without positive quiescence evidence.
pub proof fn lemma_uncertainty_never_releases(quiescent: bool, unknown: bool)
    ensures
        reported_state(quiescent, unknown).releases() <==> (quiescent && !unknown),
{
}

/// The kind of a Run handoff: an accepted result, or an interrupted Run's.
pub open spec fn handoff_kind_text(accepted: bool) -> Seq<char> {
    if accepted {
        "accepted"@
    } else {
        "interrupted"@
    }
}

/// The stored kind of a Run handoff.
pub fn handoff_kind(accepted: bool) -> (res: &'static str)
    ensures
        res@ == handoff_kind_text(accepted),
{
    if accepted {
        "accepted"
    } else {
        "interrupted"
    }
}

} // verus!
