//! Exact request construction: addresses, methods, bodies, and the dry-run
//! switch of the status synchronizer.

use cloudesire_sync::cloudesire_client::{
    build_request, get_subscription, status_wire_name, update_status, Config,
};
use cloudesire_sync::decimal::u32_to_decimal;
use cloudesire_sync::model::DeploymentStatus;

fn live_config() -> Config {
    Config {
        base_url: "http://localhost:8081".to_string(),
        auth_token: "test-token".to_string(),
        read_only: false,
    }
}

#[test]
fn decimal_of_small_numbers() {
    assert_eq!(u32_to_decimal(0), "0");
    assert_eq!(u32_to_decimal(1), "1");
    assert_eq!(u32_to_decimal(9), "9");
    assert_eq!(u32_to_decimal(10), "10");
    assert_eq!(u32_to_decimal(305), "305");
}

#[test]
fn decimal_of_largest_identifier() {
    assert_eq!(u32_to_decimal(u32::MAX), "4294967295");
}

#[test]
fn wire_names_of_all_statuses() {
    assert_eq!(status_wire_name(DeploymentStatus::Pending), "PENDING");
    assert_eq!(status_wire_name(DeploymentStatus::Deployed), "DEPLOYED");
    assert_eq!(status_wire_name(DeploymentStatus::Stopped), "STOPPED");
    assert_eq!(status_wire_name(DeploymentStatus::Undeployed), "UNDEPLOYED");
}

#[test]
fn build_request_assembles_the_address() {
    let request = build_request("GET", "subscription", 42, &live_config());
    assert_eq!(request.method, "GET");
    assert_eq!(request.url, "http://localhost:8081/subscription/42");
    assert_eq!(request.auth_token, "test-token");
}

#[test]
fn get_subscription_reads_the_subscription_resource() {
    let request = get_subscription(7, &live_config());
    assert_eq!(request.method, "GET");
    assert_eq!(request.url, "http://localhost:8081/subscription/7");
    assert_eq!(request.auth_token, "test-token");
}

#[test]
fn update_status_patches_the_subscription_resource() {
    let update = update_status(1, DeploymentStatus::Deployed, &live_config())
        .expect("a live configuration must produce the write");
    assert_eq!(update.id, 1);
    assert_eq!(update.status, DeploymentStatus::Deployed);
    assert_eq!(update.request.method, "PATCH");
    assert_eq!(update.request.url, "http://localhost:8081/subscription/1");
    assert_eq!(update.request.auth_token, "test-token");
    assert_eq!(update.body, "{\"deploymentStatus\":\"DEPLOYED\"}");
}

#[test]
fn update_status_spells_every_status_in_the_body() {
    let config = live_config();
    let cases = [
        (DeploymentStatus::Pending, "{\"deploymentStatus\":\"PENDING\"}"),
        (DeploymentStatus::Deployed, "{\"deploymentStatus\":\"DEPLOYED\"}"),
        (DeploymentStatus::Stopped, "{\"deploymentStatus\":\"STOPPED\"}"),
        (
            DeploymentStatus::Undeployed,
            "{\"deploymentStatus\":\"UNDEPLOYED\"}",
        ),
    ];
    for (status, body) in cases {
        let update = update_status(5, status, &config).unwrap();
        assert_eq!(update.body, body);
    }
}

#[test]
fn update_status_in_read_only_mode_produces_no_write() {
    let config = Config { read_only: true, ..live_config() };
    assert!(update_status(1, DeploymentStatus::Deployed, &config).is_none());
    assert!(update_status(9, DeploymentStatus::Undeployed, &config).is_none());
}
