use hyperion_desktop::health::{check_server_health, health_request, HealthError};
use hyperion_desktop::http::{
    get_server_url, health_url, is_success, tool_call_url, HttpMethod, HttpReply, HttpRequest,
};

#[test]
fn server_url_is_the_user_interface() {
    assert_eq!(get_server_url(), "http://localhost:7095/ui");
}

#[test]
fn health_url_is_the_health_endpoint() {
    assert_eq!(health_url(), "http://localhost:7095/health");
}

#[test]
fn tool_call_url_is_the_invocation_endpoint() {
    assert_eq!(tool_call_url(), "http://localhost:7095/api/mcp/tools/call");
}

#[test]
fn success_range_is_200_to_299() {
    assert!(!is_success(0));
    assert!(!is_success(100));
    assert!(!is_success(199));
    assert!(is_success(200));
    assert!(is_success(204));
    assert!(is_success(299));
    assert!(!is_success(300));
    assert!(!is_success(404));
    assert!(!is_success(500));
    assert!(!is_success(u16::MAX));
}

#[test]
fn probe_is_a_get_of_the_health_endpoint() {
    assert_eq!(
        health_request(),
        HttpRequest {
            method: HttpMethod::Get,
            url: "http://localhost:7095/health".to_string(),
            body: None,
        }
    );
}

#[test]
fn status_200_is_healthy() {
    assert_eq!(check_server_health(HttpReply::Status(200)), Ok("healthy".to_string()));
}

#[test]
fn status_500_is_unhealthy_with_the_status() {
    assert_eq!(check_server_health(HttpReply::Status(500)), Err(HealthError::Unhealthy(500)));
}

#[test]
fn every_success_status_is_healthy() {
    for status in 200..300u16 {
        assert_eq!(check_server_health(HttpReply::Status(status)), Ok("healthy".to_string()));
    }
}

#[test]
fn every_other_status_is_unhealthy() {
    for status in (0..200u16).chain(300..1000u16) {
        assert_eq!(
            check_server_health(HttpReply::Status(status)),
            Err(HealthError::Unhealthy(status))
        );
    }
}

#[test]
fn unreachable_backend_is_a_failed_request() {
    assert_eq!(
        check_server_health(HttpReply::Failed("connection refused".to_string())),
        Err(HealthError::RequestFailed("connection refused".to_string()))
    );
}

#[test]
fn unhealthy_and_unreachable_are_told_apart() {
    let unhealthy = check_server_health(HttpReply::Status(503));
    let unreachable = check_server_health(HttpReply::Failed("503".to_string()));
    assert_ne!(unhealthy, unreachable);
}

#[test]
fn unhealthy_message_carries_the_status() {
    assert_eq!(HealthError::Unhealthy(500).message(), "Server returned status: 500");
    assert_eq!(HealthError::Unhealthy(404).message(), "Server returned status: 404");
    assert_eq!(HealthError::Unhealthy(0).message(), "Server returned status: 0");
    assert_eq!(HealthError::Unhealthy(u16::MAX).message(), "Server returned status: 65535");
}

#[test]
fn request_failed_message_carries_the_reason() {
    assert_eq!(
        HealthError::RequestFailed("dns error".to_string()).message(),
        "Health check failed: dns error"
    );
}
