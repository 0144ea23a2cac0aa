use intercom_notifier::config::ServiceConfig;
use intercom_notifier::service::decide;
use intercom_notifier::service::decide_body_notify;
use intercom_notifier::service::forward_status;
use intercom_notifier::service::Method;
use intercom_notifier::service::RouteDecision;
use intercom_notifier::service::STATUS_BAD_GATEWAY;
use intercom_notifier::service::STATUS_BAD_REQUEST;
use intercom_notifier::service::STATUS_NOT_FOUND;
use intercom_notifier::service::STATUS_NO_CONTENT;
use intercom_notifier::service::STATUS_OK;
use intercom_notifier::service::STATUS_UNAUTHORIZED;

fn config() -> ServiceConfig {
    ServiceConfig::new(
        String::from("https://example.invalid/webhooks/123"),
        String::from("hunter2"),
    )
}

#[test]
fn index_is_no_content_whatever_the_credential() {
    let c = config();
    assert_eq!(
        decide(&c, Method::Get, "/", None),
        RouteDecision::Respond(STATUS_NO_CONTENT)
    );
    assert_eq!(
        decide(&c, Method::Get, "/", Some("hunter2")),
        RouteDecision::Respond(STATUS_NO_CONTENT)
    );
    assert_eq!(
        decide(&c, Method::Get, "/", Some("wrong")),
        RouteDecision::Respond(STATUS_NO_CONTENT)
    );
}

#[test]
fn valid_ping_records() {
    let c = config();
    assert_eq!(
        decide(&c, Method::Post, "/ping", Some("hunter2")),
        RouteDecision::RecordPing
    );
}

#[test]
fn invalid_ping_is_unauthorized() {
    let c = config();
    assert_eq!(
        decide(&c, Method::Post, "/ping", Some("wrong")),
        RouteDecision::Respond(STATUS_UNAUTHORIZED)
    );
    assert_eq!(
        decide(&c, Method::Post, "/ping", None),
        RouteDecision::Respond(STATUS_UNAUTHORIZED)
    );
}

#[test]
fn valid_notify_forwards() {
    let c = config();
    assert_eq!(
        decide(&c, Method::Post, "/notify", Some("hunter2")),
        RouteDecision::ForwardNotification
    );
}

#[test]
fn invalid_notify_is_unauthorized() {
    let c = config();
    assert_eq!(
        decide(&c, Method::Post, "/notify", Some("hunter")),
        RouteDecision::Respond(STATUS_UNAUTHORIZED)
    );
    assert_eq!(
        decide(&c, Method::Post, "/notify", None),
        RouteDecision::Respond(STATUS_UNAUTHORIZED)
    );
}

#[test]
fn unknown_routes_are_not_found() {
    let c = config();
    assert_eq!(
        decide(&c, Method::Get, "/ping", Some("hunter2")),
        RouteDecision::Respond(STATUS_NOT_FOUND)
    );
    assert_eq!(
        decide(&c, Method::Post, "/", Some("hunter2")),
        RouteDecision::Respond(STATUS_NOT_FOUND)
    );
    assert_eq!(
        decide(&c, Method::Post, "/nothere", Some("hunter2")),
        RouteDecision::Respond(STATUS_NOT_FOUND)
    );
}

#[test]
fn delivery_outcome_maps_to_status() {
    assert_eq!(forward_status(true), STATUS_OK);
    assert_eq!(forward_status(false), STATUS_BAD_GATEWAY);
}

#[test]
fn body_mode_accepts_the_secret() {
    assert_eq!(
        decide_body_notify(b"hunter2", "hunter2"),
        RouteDecision::ForwardNotification
    );
}

#[test]
fn body_mode_wrong_secret_is_unauthorized() {
    assert_eq!(
        decide_body_notify(b"hunter3", "hunter2"),
        RouteDecision::Respond(STATUS_UNAUTHORIZED)
    );
}

#[test]
fn body_mode_oversized_body_is_bad_request() {
    let body = vec![b'x'; 257];
    assert_eq!(
        decide_body_notify(&body, "hunter2"),
        RouteDecision::Respond(STATUS_BAD_REQUEST)
    );
}

#[test]
fn body_mode_non_text_body_is_bad_request() {
    assert_eq!(
        decide_body_notify(&[0xc0, 0x80], "hunter2"),
        RouteDecision::Respond(STATUS_BAD_REQUEST)
    );
}

#[test]
fn statuses_carry_the_expected_codes() {
    assert_eq!(STATUS_OK, 200);
    assert_eq!(STATUS_NO_CONTENT, 204);
    assert_eq!(STATUS_BAD_REQUEST, 400);
    assert_eq!(STATUS_UNAUTHORIZED, 401);
    assert_eq!(STATUS_NOT_FOUND, 404);
    assert_eq!(STATUS_BAD_GATEWAY, 502);
}
