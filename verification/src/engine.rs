//! Deployment decision engine: a total, pure map from the subscription's
//! current remote state and the incoming lifecycle kind to a provisioning
//! action.

use vstd::prelude::*;

use crate::model::{DeploymentAction, DeploymentStatus, Lifecycle, Subscription};

verus! {

/// The decision matrix for a Created or Modified notification. A pending
/// subscription is provisioned only once it is paid; a deployed one gets a
/// health check; a stopped one is suspended. A notification for an already
/// undeployed subscription is deliberately inert: it never re-triggers
/// provisioning.
pub open spec fn spec_notify_action(status: DeploymentStatus, paid: bool) -> DeploymentAction {
    match status {
        DeploymentStatus::Pending => if paid {
            DeploymentAction::Provision
        } else {
            DeploymentAction::NoOp
        },
        DeploymentStatus::Deployed => DeploymentAction::HealthCheck,
        DeploymentStatus::Stopped => DeploymentAction::Suspend,
        DeploymentStatus::Undeployed => DeploymentAction::NoOp,
    }
}

/// The action taken for one lifecycle event: Created and Modified consult the
/// decision matrix; Deleted unprovisions unconditionally.
pub open spec fn spec_event_action(lifecycle: Lifecycle, subscription: Subscription) -> DeploymentAction {
    match lifecycle {
        Lifecycle::Created => spec_notify_action(subscription.deployment_status, subscription.paid),
        Lifecycle::Modified => spec_notify_action(subscription.deployment_status, subscription.paid),
        Lifecycle::Deleted => DeploymentAction::Unprovision,
    }
}

/// Decide what a Created or Modified notification asks for, given the current
/// remote snapshot. Total over all four statuses.
pub fn decide_on_notify(subscription: &Subscription) -> (action: DeploymentAction)
    ensures
        action == spec_notify_action(subscription.deployment_status, subscription.paid),
{
    match subscription.deployment_status {
        DeploymentStatus::Pending => {
            if subscription.paid {
                DeploymentAction::Provision
            } else {
                DeploymentAction::NoOp
            }
        },
        DeploymentStatus::Deployed => DeploymentAction::HealthCheck,
        DeploymentStatus::Stopped => DeploymentAction::Suspend,
        DeploymentStatus::Undeployed => DeploymentAction::NoOp,
    }
}

/// Decide what a Deleted notification asks for. Deletion is terminal:
/// whatever the current status, the subscription is unprovisioned.
pub fn decide_on_delete(subscription: &Subscription) -> (action: DeploymentAction)
    ensures
        action == DeploymentAction::Unprovision,
        action == spec_event_action(Lifecycle::Deleted, *subscription),
{
    DeploymentAction::Unprovision
}

} // verus!
