//! Keeps a tenant's provisioning state in step with a remote billing
//! marketplace. Lifecycle notifications about subscriptions arrive from the
//! outside; the decision engine maps each one, together with the
//! subscription's current remote state, to a provisioning action and an
//! optional status write back to the remote gateway.

pub mod cloudesire_client;
pub mod decimal;
pub mod dispatch;
pub mod engine;
pub mod laws;
pub mod model;
