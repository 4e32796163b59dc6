use request_lifecycle::error::{ErrorDetail, ErrorKind};
use request_lifecycle::fetcher::{
    settle_response, settle_text, settle_user, ResponseSummary, TextOutcome,
};
use request_lifecycle::lifecycle::RequestLifecycle;

#[test]
fn idle_is_the_initial_state() {
    let l: RequestLifecycle<String> = RequestLifecycle::idle();
    assert!(matches!(l, RequestLifecycle::Idle));
}

#[test]
fn start_from_idle_is_in_flight() {
    let l: RequestLifecycle<String> = RequestLifecycle::idle().start();
    assert!(matches!(l, RequestLifecycle::InFlight));
}

#[test]
fn start_discards_a_previous_success() {
    let l = RequestLifecycle::succeed("stale payload".to_string()).start();
    assert!(matches!(l, RequestLifecycle::InFlight));
}

#[test]
fn start_discards_a_previous_error() {
    let l: RequestLifecycle<String> =
        RequestLifecycle::fail(ErrorDetail::network("gone".to_string())).start();
    assert!(matches!(l, RequestLifecycle::InFlight));
}

#[test]
fn succeed_and_fail_are_settled() {
    assert!(RequestLifecycle::succeed(7u32).is_settled());
    assert!(RequestLifecycle::<u32>::fail(ErrorDetail::decode("bad".to_string())).is_settled());
    assert!(!RequestLifecycle::<u32>::idle().is_settled());
    assert!(!RequestLifecycle::<u32>::idle().start().is_settled());
}

#[test]
fn dropped_connection_settles_as_network_failure() {
    let l = settle_text(TextOutcome::TransportFailed("connection dropped".to_string()));
    match l {
        RequestLifecycle::Failed(e) => {
            assert_eq!(e.kind, ErrorKind::Network);
            assert_eq!(e.message, "connection dropped");
        },
        _ => panic!("a transport failure must settle as Failed"),
    }
}

#[test]
fn received_body_settles_as_success() {
    let l = settle_text(TextOutcome::Received("Hello world".to_string()));
    match l {
        RequestLifecycle::Succeeded(body) => assert_eq!(body, "Hello world"),
        _ => panic!("a received body must settle as Succeeded"),
    }
}

#[test]
fn unreadable_body_settles_as_decode_failure() {
    let l = settle_text(TextOutcome::BodyUnreadable("not text".to_string()));
    match l {
        RequestLifecycle::Failed(e) => assert_eq!(e.kind, ErrorKind::Decode),
        _ => panic!("an unreadable body must settle as Failed"),
    }
}

#[test]
fn user_body_settles_as_decoded_user() {
    let body = "{\"name\":\"Ann\",\"color\":{\"r\":10,\"g\":20,\"b\":30}}";
    let l = settle_user(TextOutcome::Received(body.to_string()));
    match l {
        RequestLifecycle::Succeeded(u) => {
            assert_eq!(u.name, "Ann");
            assert_eq!(u.color.r, 10);
            assert_eq!(u.color.g, 20);
            assert_eq!(u.color.b, 30);
        },
        _ => panic!("a well-formed user body must settle as Succeeded"),
    }
}

#[test]
fn malformed_user_body_settles_as_decode_failure() {
    let l = settle_user(TextOutcome::Received("{\"name\":\"Ann\"}".to_string()));
    match l {
        RequestLifecycle::Failed(e) => assert_eq!(e.kind, ErrorKind::Decode),
        _ => panic!("a malformed user body must settle as Failed"),
    }
}

#[test]
fn user_transport_failure_settles_as_network_failure() {
    let l = settle_user(TextOutcome::TransportFailed("no route".to_string()));
    match l {
        RequestLifecycle::Failed(e) => assert_eq!(e.kind, ErrorKind::Network),
        _ => panic!("a transport failure must settle as Failed"),
    }
}

#[test]
fn completed_delete_with_not_found_status_is_a_dispatcher_success() {
    let l = settle_response(Ok(404));
    match l {
        RequestLifecycle::Succeeded(resp) => {
            assert_eq!(resp, ResponseSummary { status: 404 });
            assert!(!resp.ok());
        },
        _ => panic!("a completed response must settle as Succeeded whatever its status"),
    }
}

#[test]
fn completed_response_in_success_range_is_ok() {
    let l = settle_response(Ok(201));
    match l {
        RequestLifecycle::Succeeded(resp) => assert!(resp.ok()),
        _ => panic!("a completed response must settle as Succeeded"),
    }
}

#[test]
fn failed_transport_on_response_settles_as_network_failure() {
    let l = settle_response(Err("refused".to_string()));
    match l {
        RequestLifecycle::Failed(e) => {
            assert_eq!(e.kind, ErrorKind::Network);
            assert_eq!(e.message, "refused");
        },
        _ => panic!("a transport failure must settle as Failed"),
    }
}

#[test]
fn caller_level_status_error_keeps_the_code() {
    let e = ErrorDetail::http_status(404, "no such user".to_string());
    assert_eq!(e.kind, ErrorKind::HttpStatus(404));
    assert_eq!(e.message, "no such user");
}
