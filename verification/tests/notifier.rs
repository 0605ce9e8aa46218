use webhook_notify::digits::u16_to_decimal;
use webhook_notify::notify::classify_response;
use webhook_notify::notify::notify_outcome;
use webhook_notify::notify::Config;
use webhook_notify::notify::NotifyError;
use webhook_notify::notify::SendOutcome;
use webhook_notify::status::status_is_success;
use webhook_notify::url::build_webhook_url;

#[test]
fn url_is_exact() {
    let url = build_webhook_url("localhost:3000");
    assert_eq!(url, "http://localhost:3000/webhook/embed-successful");
}

#[test]
fn changing_host_changes_only_host_segment() {
    let url_a = build_webhook_url("alpha.example");
    let url_b = build_webhook_url("beta.example:8080");
    assert!(url_a.starts_with("http://"));
    assert!(url_b.starts_with("http://"));
    assert!(url_a.ends_with("/webhook/embed-successful"));
    assert!(url_b.ends_with("/webhook/embed-successful"));
    assert_eq!(url_a, "http://alpha.example/webhook/embed-successful");
    assert_eq!(url_b, "http://beta.example:8080/webhook/embed-successful");
}

#[test]
fn config_builds_url_and_body() {
    let config = Config::new(String::from("webapp:8080"));
    assert_eq!(config.webhook_url(), "http://webapp:8080/webhook/embed-successful");
    let (url, body) = config.embed_ready_request("ds-1");
    assert_eq!(url, "http://webapp:8080/webhook/embed-successful");
    assert_eq!(body, "{\"datasourceId\": \"ds-1\"}");
}

#[test]
fn decimal_rendering_is_exact() {
    assert_eq!(u16_to_decimal(0), "0");
    assert_eq!(u16_to_decimal(7), "7");
    assert_eq!(u16_to_decimal(200), "200");
    assert_eq!(u16_to_decimal(404), "404");
    assert_eq!(u16_to_decimal(65535), "65535");
}

#[test]
fn success_statuses_are_the_2xx_range() {
    assert!(status_is_success(200));
    assert!(status_is_success(204));
    assert!(status_is_success(299));
    assert!(!status_is_success(199));
    assert!(!status_is_success(300));
    assert!(!status_is_success(404));
    assert!(!status_is_success(500));
}

#[test]
fn status_200_is_success() {
    assert!(classify_response(200).is_ok());
}

#[test]
fn status_404_fails_with_status_in_message() {
    let err = classify_response(404).unwrap_err();
    let message = err.message();
    assert!(message.contains("404"));
    assert_eq!(message, "Failed to notify webapp. Status: 404");
}

#[test]
fn status_500_fails_with_status_in_message() {
    let err = classify_response(500).unwrap_err();
    assert!(err.message().contains("500"));
}

#[test]
fn successful_response_outcome_is_ok() {
    let outcome = SendOutcome::Response { status: 201 };
    assert!(notify_outcome(outcome).is_ok());
}

#[test]
fn unsuccessful_response_outcome_carries_status() {
    let outcome = SendOutcome::Response { status: 503 };
    let err = notify_outcome(outcome).unwrap_err();
    match err {
        NotifyError::UnsuccessfulResponse { status } => assert_eq!(status, 503),
        NotifyError::Transport { .. } => panic!("expected a status failure"),
    }
}

#[test]
fn transport_failure_outcome_is_surfaced() {
    let outcome = SendOutcome::TransportFailure {
        detail: String::from("connection refused"),
    };
    let err = notify_outcome(outcome).unwrap_err();
    match err {
        NotifyError::Transport { ref detail } => assert_eq!(detail, "connection refused"),
        NotifyError::UnsuccessfulResponse { .. } => panic!("expected a transport failure"),
    }
    assert_eq!(err.message(), "connection refused");
}
