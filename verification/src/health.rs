//! Health of a background service as the applets see it.
use vstd::prelude::*;

verus! {

/// Whether a service is up, coming up, reconnecting, or degraded with a reason.
#[derive(Debug, Clone)]
pub enum ServiceHealth {
    Starting,
    Reconnecting { attempt: u32 },
    Degraded { message: String },
    Ready,
}

/// The word an applet shows for a health that is not `Ready`, in lower case.
pub open spec fn health_word(health: ServiceHealth) -> Option<Seq<char>> {
    match health {
        ServiceHealth::Starting => Some("starting"@),
        ServiceHealth::Reconnecting { .. } => Some("reconnecting"@),
        ServiceHealth::Degraded { message } => Some(message@),
        ServiceHealth::Ready => None,
    }
}

/// The title an applet's popover shows for a health that is not `Ready`.
pub open spec fn health_title(health: ServiceHealth) -> Option<Seq<char>> {
    match health {
        ServiceHealth::Starting => Some("Starting"@),
        ServiceHealth::Reconnecting { .. } => Some("Reconnecting"@),
        ServiceHealth::Degraded { message } => Some(message@),
        ServiceHealth::Ready => None,
    }
}

} // verus!
