//! Core data model: the remote-owned subscription snapshot, inbound
//! lifecycle notifications, and the provisioning actions derived from them.

use vstd::prelude::*;

verus! {

/// The remote gateway's authoritative provisioning state for a subscription.
#[derive(Clone, Copy, Debug, PartialEq, Eq, Structural)]
pub enum DeploymentStatus {
    Pending,
    Deployed,
    Stopped,
    Undeployed,
}

/// Snapshot of a subscription as the remote gateway reports it.
#[derive(Clone, Copy, Debug, PartialEq, Eq, Structural)]
pub struct Subscription {
    pub id: u32,
    pub deployment_status: DeploymentStatus,
    pub paid: bool,
}

/// The category of change that triggered a notification.
#[derive(Clone, Copy, Debug, PartialEq, Eq, Structural)]
pub enum Lifecycle {
    Created,
    Modified,
    Deleted,
}

/// An inbound notification: which entity changed, its identifier, and how.
pub struct EventNotification {
    pub entity: String,
    pub id: u32,
    pub lifecycle: Lifecycle,
}

/// What the decision engine asks for in response to one event. Only
/// `Provision` and `Unprovision` carry a status transition; the others leave
/// the remote state untouched.
#[derive(Clone, Copy, Debug, PartialEq, Eq, Structural)]
pub enum DeploymentAction {
    NoOp,
    Provision,
    Suspend,
    HealthCheck,
    Unprovision,
}

/// The status transition, if any, that an action carries: provisioning moves
/// the subscription to `Deployed`, unprovisioning to `Undeployed`, and every
/// other action leaves the remote state as it is.
pub open spec fn spec_action_transition(action: DeploymentAction) -> Option<DeploymentStatus> {
    match action {
        DeploymentAction::Provision => Some(DeploymentStatus::Deployed),
        DeploymentAction::Unprovision => Some(DeploymentStatus::Undeployed),
        DeploymentAction::NoOp => None,
        DeploymentAction::Suspend => None,
        DeploymentAction::HealthCheck => None,
    }
}

/// Executable counterpart of [`spec_action_transition`].
pub fn action_transition(action: DeploymentAction) -> (t: Option<DeploymentStatus>)
    ensures
        t == spec_action_transition(action),
{
    match action {
        DeploymentAction::Provision => Some(DeploymentStatus::Deployed),
        DeploymentAction::Unprovision => Some(DeploymentStatus::Undeployed),
        DeploymentAction::NoOp => None,
        DeploymentAction::Suspend => None,
        DeploymentAction::HealthCheck => None,
    }
}

} // verus!
