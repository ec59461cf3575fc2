//! The guarantees the dispatcher and decision engine give together, stated
//! over the same spec functions their contracts use and proved once and for
//! all: every outcome that meets the contracts of
//! [`crate::dispatch::subscription_deploy`],
//! [`crate::dispatch::subscription_undeploy`] or
//! [`crate::dispatch::dispatch_fetched`] is bound by these.

use vstd::prelude::*;

use crate::cloudesire_client::{spec_is_status_update, Config};
use crate::dispatch::{spec_dispatch_plan, spec_outcome_ok, Outcome};
use crate::engine::spec_event_action;
use crate::model::{DeploymentStatus, EventNotification, Lifecycle, Subscription};

verus! {

/// The subscription as it stands after an outcome's write has been applied by
/// the gateway: the written status replaces the old one; without a write the
/// snapshot is unchanged.
pub open spec fn spec_after_write(subscription: Subscription, o: Outcome) -> Subscription {
    match o.write {
        Some(w) => Subscription { deployment_status: w.status, ..subscription },
        None => subscription,
    }
}

/// A paid, pending subscription is provisioned: a Created or Modified event
/// yields exactly one write, and that write sets the status to Deployed.
pub proof fn law_pending_paid_provisions(
    o: Outcome,
    subscription: Subscription,
    lifecycle: Lifecycle,
    config: Config,
)
    requires
        subscription.deployment_status is Pending,
        subscription.paid,
        lifecycle is Created || lifecycle is Modified,
        !config.read_only,
        o.action == spec_event_action(lifecycle, subscription),
        spec_outcome_ok(o, subscription.id, config),
    ensures
        o.write matches Some(w) && spec_is_status_update(
            w,
            subscription.id,
            DeploymentStatus::Deployed,
            config,
        ),
{
}

/// An unpaid, pending subscription is left alone: a Created or Modified
/// event yields no write at all, whether or not writes are suppressed.
pub proof fn law_pending_unpaid_never_writes(
    o: Outcome,
    subscription: Subscription,
    lifecycle: Lifecycle,
    config: Config,
)
    requires
        subscription.deployment_status is Pending,
        !subscription.paid,
        lifecycle is Created || lifecycle is Modified,
        o.action == spec_event_action(lifecycle, subscription),
        spec_outcome_ok(o, subscription.id, config),
    ensures
        o.write is None,
{
}

/// Deletion is terminal: whatever the subscription's prior status or paid
/// flag, a Deleted event yields exactly one write, and that write sets the
/// status to Undeployed.
pub proof fn law_delete_always_undeploys(o: Outcome, subscription: Subscription, config: Config)
    requires
        !config.read_only,
        o.action == spec_event_action(Lifecycle::Deleted, subscription),
        spec_outcome_ok(o, subscription.id, config),
    ensures
        o.write matches Some(w) && spec_is_status_update(
            w,
            subscription.id,
            DeploymentStatus::Undeployed,
            config,
        ),
        spec_after_write(subscription, o).deployment_status is Undeployed,
{
}

/// Deletion is idempotent: handling a Deleted event on the state a first
/// Deleted event left behind writes the same status again and ends in the
/// same state — applying Deleted twice changes nothing the first did not.
pub proof fn law_delete_idempotent(
    first: Outcome,
    second: Outcome,
    subscription: Subscription,
    config: Config,
)
    requires
        !config.read_only,
        first.action == spec_event_action(Lifecycle::Deleted, subscription),
        spec_outcome_ok(first, subscription.id, config),
        second.action == spec_event_action(Lifecycle::Deleted, spec_after_write(subscription, first)),
        spec_outcome_ok(second, spec_after_write(subscription, first).id, config),
    ensures
        second.write matches Some(w) && w.status is Undeployed,
        spec_after_write(spec_after_write(subscription, first), second) == spec_after_write(
            subscription,
            first,
        ),
{
}

/// Events for entities other than `"Subscription"` touch the gateway in no
/// way: the dispatcher plans neither a read nor, therefore, a write.
pub proof fn law_unmanaged_entity_touches_nothing(notification: EventNotification)
    requires
        notification.entity@ != "Subscription"@,
    ensures
        spec_dispatch_plan(notification) is Skip,
{
}

/// Dry-run changes no decision, only suppresses its effect: under a
/// read-only configuration the engine chooses the same action it would
/// choose live, and no write is produced for the gateway.
pub proof fn law_dry_run_decides_identically(
    dry_outcome: Outcome,
    live_outcome: Outcome,
    subscription: Subscription,
    lifecycle: Lifecycle,
    dry: Config,
)
    requires
        dry.read_only,
        dry_outcome.action == spec_event_action(lifecycle, subscription),
        spec_outcome_ok(dry_outcome, subscription.id, dry),
        live_outcome.action == spec_event_action(lifecycle, subscription),
    ensures
        dry_outcome.action == live_outcome.action,
        dry_outcome.write is None,
{
}

} // verus!
