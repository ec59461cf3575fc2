//! Event dispatcher: classifies inbound notifications by entity, routes
//! subscription events into the decision engine, and turns the chosen action
//! into at most one planned gateway write.

use vstd::prelude::*;
use vstd::string::StringExecFns;

use crate::cloudesire_client::{
    spec_is_status_update, update_status, Config, FetchError, StatusUpdate, SyncError,
};
use crate::engine::{decide_on_delete, decide_on_notify, spec_event_action, spec_notify_action};
use crate::model::{
    spec_action_transition, action_transition, DeploymentAction, DeploymentStatus,
    EventNotification, Lifecycle, Subscription,
};

verus! {

/// A notification after classification: either a subscription event to act
/// on, or an event for some other entity, kept only for its entity name.
pub enum Event {
    Subscription(EventNotification),
    Unmanaged(String),
}

/// Whether a classified notification is the given one, routed as a
/// subscription event.
pub open spec fn spec_is_subscription_event(event: Event, n: EventNotification) -> bool {
    event matches Event::Subscription(m) && m == n
}

/// Classify a notification by its entity: only `"Subscription"` is managed;
/// everything else is dropped without any gateway traffic.
pub fn classify(notification: EventNotification) -> (event: Event)
    ensures
        notification.entity@ == "Subscription"@ ==> spec_is_subscription_event(
            event,
            notification,
        ),
        notification.entity@ != "Subscription"@ ==> (event matches Event::Unmanaged(entity)
            && entity == notification.entity),
{
    let subscription_entity = String::from_str("Subscription");
    if notification.entity == subscription_entity {
        Event::Subscription(notification)
    } else {
        Event::Unmanaged(notification.entity)
    }
}

/// The first half of handling one notification: either there is nothing to
/// do, or the subscription snapshot with this identifier must be fetched
/// before the decision can be made.
#[derive(Clone, Copy, Debug, PartialEq, Eq, Structural)]
pub enum DispatchPlan {
    /// The entity is not managed here: no gateway read, no write.
    Skip,
    /// Fetch the subscription with this identifier, then decide on the event.
    FetchSubscription { id: u32, lifecycle: Lifecycle },
}

/// What one notification requires of the gateway before any decision: a
/// subscription event needs the current snapshot; any other entity needs
/// nothing at all.
pub open spec fn spec_dispatch_plan(n: EventNotification) -> DispatchPlan {
    if n.entity@ == "Subscription"@ {
        DispatchPlan::FetchSubscription { id: n.id, lifecycle: n.lifecycle }
    } else {
        DispatchPlan::Skip
    }
}

/// Route one inbound notification: events for entities other than
/// `"Subscription"` end here with no further effect; subscription events ask
/// for exactly one fresh read of the snapshot.
pub fn dispatch(notification: EventNotification) -> (plan: DispatchPlan)
    ensures
        plan == spec_dispatch_plan(notification),
{
    match classify(notification) {
        Event::Subscription(subscription_event) => DispatchPlan::FetchSubscription {
            id: subscription_event.id,
            lifecycle: subscription_event.lifecycle,
        },
        Event::Unmanaged(_) => DispatchPlan::Skip,
    }
}

/// How one subscription event ends: the action the engine chose, and the one
/// gateway write it entails, if any.
pub struct Outcome {
    pub action: DeploymentAction,
    pub write: Option<StatusUpdate>,
}

/// The status a correct outcome writes: the action's transition, unless
/// writes are suppressed by read-only mode.
pub open spec fn spec_write_planned(action: DeploymentAction, read_only: bool) -> Option<
    DeploymentStatus,
> {
    if read_only {
        None
    } else {
        spec_action_transition(action)
    }
}

/// What an outcome for subscription `id` under `config` must hold: a write
/// exactly when the action carries a transition and writes are not
/// suppressed, and then exactly the one request that sets that status.
pub open spec fn spec_outcome_ok(o: Outcome, id: u32, config: Config) -> bool {
    match spec_write_planned(o.action, config.read_only) {
        Some(status) => o.write matches Some(w) && spec_is_status_update(w, id, status, config),
        None => o.write is None,
    }
}

/// Turn a chosen action into its outcome: plan the one write the action's
/// transition asks for, or none.
fn perform(action: DeploymentAction, id: u32, config: &Config) -> (o: Outcome)
    ensures
        o.action == action,
        spec_outcome_ok(o, id, *config),
{
    let write = match action_transition(action) {
        Some(status) => update_status(id, status, config),
        None => None,
    };
    Outcome { action, write }
}

/// Handle a Created or Modified notification against the fetched snapshot:
/// consult the decision matrix, then plan the write its transition asks for.
pub fn subscription_deploy(subscription: &Subscription, config: &Config) -> (o: Outcome)
    ensures
        o.action == spec_notify_action(subscription.deployment_status, subscription.paid),
        spec_outcome_ok(o, subscription.id, *config),
{
    let action = decide_on_notify(subscription);
    perform(action, subscription.id, config)
}

/// Handle a Deleted notification: unprovision unconditionally, moving the
/// subscription to Undeployed whatever its prior status.
pub fn subscription_undeploy(subscription: &Subscription, config: &Config) -> (o: Outcome)
    ensures
        o.action == DeploymentAction::Unprovision,
        spec_outcome_ok(o, subscription.id, *config),
{
    let action = decide_on_delete(subscription);
    perform(action, subscription.id, config)
}

/// Failure of handling one notification, distinguishable by its cause.
#[derive(Clone, Copy, Debug, PartialEq, Eq, Structural)]
pub enum DispatchError {
    /// The gateway could not be reached, on the read or on the write.
    UpstreamUnavailable,
    /// The gateway's answer to the read did not describe a subscription.
    MalformedResponse,
    /// The gateway refused the status write.
    TransitionRejected,
}

/// The dispatch failure a fetch failure surfaces as. Never swallowed.
pub open spec fn spec_fetch_failure(e: FetchError) -> DispatchError {
    match e {
        FetchError::UpstreamUnavailable => DispatchError::UpstreamUnavailable,
        FetchError::MalformedResponse => DispatchError::MalformedResponse,
    }
}

/// The dispatch failure a write failure surfaces as. Never swallowed.
pub fn sync_failure(e: SyncError) -> (d: DispatchError)
    ensures
        e is UpstreamUnavailable ==> d is UpstreamUnavailable,
        e is TransitionRejected ==> d is TransitionRejected,
{
    match e {
        SyncError::UpstreamUnavailable => DispatchError::UpstreamUnavailable,
        SyncError::TransitionRejected => DispatchError::TransitionRejected,
    }
}

/// The second half of handling a subscription event, once the gateway read
/// has come back: route Created and Modified to the deploy path and Deleted
/// to the undeploy path, and surface a failed read as a distinguishable
/// error.
pub fn dispatch_fetched(
    lifecycle: Lifecycle,
    fetched: Result<Subscription, FetchError>,
    config: &Config,
) -> (r: Result<Outcome, DispatchError>)
    ensures
        match fetched {
            Ok(subscription) => r matches Ok(o) && o.action == spec_event_action(
                lifecycle,
                subscription,
            ) && spec_outcome_ok(o, subscription.id, *config),
            Err(e) => r == Err::<Outcome, DispatchError>(spec_fetch_failure(e)),
        },
{
    match fetched {
        Ok(subscription) => Ok(
            match lifecycle {
                Lifecycle::Created => subscription_deploy(&subscription, config),
                Lifecycle::Modified => subscription_deploy(&subscription, config),
                Lifecycle::Deleted => subscription_undeploy(&subscription, config),
            },
        ),
        Err(FetchError::UpstreamUnavailable) => Err(DispatchError::UpstreamUnavailable),
        Err(FetchError::MalformedResponse) => Err(DispatchError::MalformedResponse),
    }
}

} // verus!
