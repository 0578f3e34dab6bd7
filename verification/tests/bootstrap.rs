use nodes_common::StartedServices;
use nodes_common::api::health_response;
use nodes_common::api::version_response;
use nodes_common::cloud::localstack_settings;
use nodes_common::shutdown::ShutdownCoordinator;
use nodes_common::shutdown::ShutdownEvent;
use nodes_common::version::version_info;

#[test]
fn empty_registry_is_ready() {
    let services = StartedServices::new();
    assert!(services.all_started());
}

#[test]
fn one_unstarted_service_is_not_ready() {
    let mut services = StartedServices::new();
    let _h = services.new_service();
    assert!(!services.all_started());
}

#[test]
fn three_services_ready_only_after_all_marked() {
    let mut services = StartedServices::new();
    let a = services.new_service();
    let b = services.new_service();
    let c = services.new_service();
    services.mark_ready(a);
    services.mark_ready(b);
    assert!(!services.all_started());
    services.mark_ready(c);
    assert!(services.all_started());
}

#[test]
fn marking_twice_equals_marking_once() {
    let mut services = StartedServices::new();
    let a = services.new_service();
    let b = services.new_service();
    services.mark_ready(a);
    services.mark_ready(a);
    assert!(!services.all_started());
    services.mark_ready(b);
    services.mark_ready(b);
    assert!(services.all_started());
}

#[test]
fn registration_after_readiness_resets_aggregate() {
    let mut services = StartedServices::new();
    let a = services.new_service();
    services.mark_ready(a);
    assert!(services.all_started());
    let b = services.new_service();
    assert!(!services.all_started());
    services.mark_ready(b);
    assert!(services.all_started());
}

#[test]
fn manual_cancel_is_not_graceful() {
    let mut coordinator = ShutdownCoordinator::new();
    assert!(!coordinator.is_cancelled());
    assert!(!coordinator.is_graceful());
    coordinator.cancel();
    assert!(coordinator.is_cancelled());
    assert!(!coordinator.is_graceful());
}

#[test]
fn cancel_after_cancel_is_a_no_op() {
    let mut coordinator = ShutdownCoordinator::new();
    coordinator.cancel();
    coordinator.cancel();
    assert!(coordinator.is_cancelled());
    assert!(!coordinator.is_graceful());
}

#[test]
fn external_trigger_is_graceful() {
    let mut coordinator = ShutdownCoordinator::new();
    coordinator.on_external_trigger();
    assert!(coordinator.is_cancelled());
    assert!(coordinator.is_graceful());
}

#[test]
fn trigger_after_manual_cancel_stays_not_graceful() {
    let mut coordinator = ShutdownCoordinator::new();
    coordinator.cancel();
    coordinator.on_external_trigger();
    assert!(coordinator.is_cancelled());
    assert!(!coordinator.is_graceful());
}

#[test]
fn cancel_after_trigger_stays_graceful() {
    let mut coordinator = ShutdownCoordinator::new();
    coordinator.on_external_trigger();
    coordinator.cancel();
    assert!(coordinator.is_cancelled());
    assert!(coordinator.is_graceful());
}

#[test]
fn apply_routes_events_to_the_right_transition() {
    let mut coordinator = ShutdownCoordinator::new();
    coordinator.apply(ShutdownEvent::ManualCancel);
    assert!(coordinator.is_cancelled());
    assert!(!coordinator.is_graceful());
    let mut other = ShutdownCoordinator::new();
    other.apply(ShutdownEvent::ExternalTrigger);
    assert!(other.is_cancelled());
    assert!(other.is_graceful());
}

#[test]
fn health_is_starting_until_all_started() {
    let mut services = StartedServices::new();
    let a = services.new_service();
    let (status, body) = health_response(&services);
    assert_eq!(status, 503);
    assert_eq!(body, "starting");
    services.mark_ready(a);
    let (status, body) = health_response(&services);
    assert_eq!(status, 200);
    assert_eq!(body, "healthy");
}

#[test]
fn health_of_empty_registry_is_ok() {
    let services = StartedServices::new();
    let (status, body) = health_response(&services);
    assert_eq!(status, 200);
    assert_eq!(body, "healthy");
}

#[test]
fn version_probe_answers_ok_with_the_string() {
    let (status, body) = version_response(String::from("pkg 1.2.3 (abc)"));
    assert_eq!(status, 200);
    assert_eq!(body, "pkg 1.2.3 (abc)");
}

#[test]
fn version_info_formats_name_version_revision() {
    let text = version_info("nodes-common", "0.1.0", "deadbeef");
    assert_eq!(text, "nodes-common 0.1.0 (deadbeef)");
}

#[test]
fn localstack_settings_use_static_test_credentials() {
    let settings = localstack_settings(None);
    assert_eq!(settings.region, "us-east-1");
    assert_eq!(settings.access_key_id, "test");
    assert_eq!(settings.secret_access_key, "test");
    assert!(settings.session_token.is_none());
    assert_eq!(settings.provider_name, "Static");
    assert_eq!(settings.endpoint_url, "http://localhost:4566");
}

#[test]
fn localstack_endpoint_can_be_overridden() {
    let settings = localstack_settings(Some(String::from("http://localhost:9999")));
    assert_eq!(settings.endpoint_url, "http://localhost:9999");
}
