//! Client-side view of the remote subscription gateway: the configuration it
//! is reached with, the exact requests the library asks the transport to
//! perform, and the errors a transport can report back. The library never
//! opens a connection itself; it constructs each request — method, address,
//! authentication header value and body — and proves the construction exact,
//! and the surrounding program carries the request over the wire.

use vstd::prelude::*;
use vstd::string::StringExecFns;

use crate::decimal::{spec_decimal, u32_to_decimal};
use crate::model::DeploymentStatus;

verus! {

/// Configuration handed in once at startup: where the gateway lives, the
/// value of its authentication header, and whether writes are suppressed
/// (dry-run).
pub struct Config {
    pub base_url: String,
    pub auth_token: String,
    pub read_only: bool,
}

/// One HTTP request to the gateway, fully determined: the verb, the complete
/// address, and the authentication header value to send with it.
pub struct GatewayRequest {
    pub method: String,
    pub url: String,
    pub auth_token: String,
}

/// A planned status write: which subscription moves to which status, and the
/// exact request and body that carry the change to the gateway.
pub struct StatusUpdate {
    pub id: u32,
    pub status: DeploymentStatus,
    pub request: GatewayRequest,
    pub body: String,
}

/// Failure of a gateway read, as the transport reports it.
#[derive(Clone, Copy, Debug, PartialEq, Eq, Structural)]
pub enum FetchError {
    /// The gateway could not be reached.
    UpstreamUnavailable,
    /// The gateway answered, but with data that does not describe a
    /// subscription.
    MalformedResponse,
}

/// Failure of a gateway write, as the transport reports it.
#[derive(Clone, Copy, Debug, PartialEq, Eq, Structural)]
pub enum SyncError {
    /// The gateway could not be reached.
    UpstreamUnavailable,
    /// The gateway refused the transition, for example on a conflict.
    TransitionRejected,
}

/// The wire spelling of a deployment status.
pub open spec fn spec_status_wire(status: DeploymentStatus) -> Seq<char> {
    match status {
        DeploymentStatus::Pending => "PENDING"@,
        DeploymentStatus::Deployed => "DEPLOYED"@,
        DeploymentStatus::Stopped => "STOPPED"@,
        DeploymentStatus::Undeployed => "UNDEPLOYED"@,
    }
}

/// The address of a gateway resource: base, path segment, and identifier.
pub open spec fn spec_request_url(base: Seq<char>, path: Seq<char>, id: u32) -> Seq<char> {
    base + "/"@ + path + "/"@ + spec_decimal(id as nat)
}

/// The JSON body of a status write.
pub open spec fn spec_status_body(status: DeploymentStatus) -> Seq<char> {
    "{\"deploymentStatus\":\""@ + spec_status_wire(status) + "\"}"@
}

/// Everything a correct status write must hold: the subscription it targets,
/// the status it sets, and the exact request and body that say so.
pub open spec fn spec_is_status_update(
    w: StatusUpdate,
    id: u32,
    status: DeploymentStatus,
    config: Config,
) -> bool {
    &&& w.id == id
    &&& w.status == status
    &&& w.request.method@ == "PATCH"@
    &&& w.request.url@ == spec_request_url(config.base_url@, "subscription"@, id)
    &&& w.request.auth_token@ == config.auth_token@
    &&& w.body@ == spec_status_body(status)
}

/// The wire spelling of a deployment status, executable.
pub fn status_wire_name(status: DeploymentStatus) -> (name: &'static str)
    ensures
        name@ == spec_status_wire(status),
{
    match status {
        DeploymentStatus::Pending => "PENDING",
        DeploymentStatus::Deployed => "DEPLOYED",
        DeploymentStatus::Stopped => "STOPPED",
        DeploymentStatus::Undeployed => "UNDEPLOYED",
    }
}

/// Build one gateway request: `<base>/<path>/<id>`, with the configured
/// authentication header value.
pub fn build_request(method: &str, path: &str, id: u32, config: &Config) -> (r: GatewayRequest)
    ensures
        r.method@ == method@,
        r.url@ == spec_request_url(config.base_url@, path@, id),
        r.auth_token@ == config.auth_token@,
{
    let id_text = u32_to_decimal(id);
    let url = config
        .base_url
        .clone()
        .concat("/")
        .concat(path)
        .concat("/")
        .concat(id_text.as_str());
    GatewayRequest {
        method: method.to_owned(),
        url,
        auth_token: config.auth_token.clone(),
    }
}

/// The gateway read that fetches a subscription snapshot by identifier. The
/// returned request is performed by the surrounding program; its response,
/// decoded, is the [`crate::model::Subscription`] the decision engine runs
/// on.
pub fn get_subscription(id: u32, config: &Config) -> (r: GatewayRequest)
    ensures
        r.method@ == "GET"@,
        r.url@ == spec_request_url(config.base_url@, "subscription"@, id),
        r.auth_token@ == config.auth_token@,
{
    build_request("GET", "subscription", id, config)
}

/// Plan the write that moves a subscription to a new status. In read-only
/// (dry-run) mode no write is produced at all — the decision stands, but
/// nothing may reach the gateway; otherwise the one planned write is exact:
/// a PATCH of the subscription resource whose body sets the new status.
pub fn update_status(subscription_id: u32, status: DeploymentStatus, config: &Config) -> (w: Option<
    StatusUpdate,
>)
    ensures
        config.read_only ==> w is None,
        !config.read_only ==> (w matches Some(u) && spec_is_status_update(
            u,
            subscription_id,
            status,
            *config,
        )),
{
    if config.read_only {
        return None;
    }
    let request = build_request("PATCH", "subscription", subscription_id, config);
    let body = String::from_str("{\"deploymentStatus\":\"").concat(status_wire_name(status)).concat(
        "\"}",
    );
    Some(
        StatusUpdate {
            id: subscription_id,
            status,
            request,
            body,
        },
    )
}

} // verus!
