use request_lifecycle::color::Rgb;
use request_lifecycle::error::{ErrorDetail, ErrorKind};
use request_lifecycle::fetcher::ResponseSummary;
use request_lifecycle::hello::{Hello, Msg as HelloMsg};
use request_lifecycle::lifecycle::RequestLifecycle;
use request_lifecycle::rest::{user_style, Msg as RestMsg, Rest, RestAction, User};
use request_lifecycle::route::{path_of_route, route_for_path, Route};

fn hello_page() -> Hello {
    Hello::create("http://localhost:8000".to_string())
}

fn rest_page() -> Rest {
    Rest::create("http://localhost:8000".to_string(), "api".to_string())
}

#[test]
fn hello_fetch_dispatches_the_plain_greeting() {
    let mut page = hello_page();
    let (redraw, action) = page.update(HelloMsg::FetchHello);
    assert!(redraw);
    assert_eq!(action.unwrap(), "http://localhost:8000/hello");
    assert!(matches!(page.fetch_state, RequestLifecycle::InFlight));
}

#[test]
fn hello_delay_dispatches_with_the_field_value() {
    let mut page = hello_page();
    let (_, action) = page.update(HelloMsg::FetchAsyncDelay { delay: "2".to_string() });
    assert_eq!(action.unwrap(), "http://localhost:8000/hello/delay/2");
}

#[test]
fn hello_empty_name_falls_back_to_jimmy() {
    let mut page = hello_page();
    let (_, action) = page.update(HelloMsg::FetchHelloName { input: "".to_string() });
    assert_eq!(action.unwrap(), "http://localhost:8000/hello/Jimmy");
}

#[test]
fn hello_name_dispatches_with_the_field_value() {
    let mut page = hello_page();
    let (_, action) = page.update(HelloMsg::FetchHelloName { input: "Ann".to_string() });
    assert_eq!(action.unwrap(), "http://localhost:8000/hello/Ann");
}

#[test]
fn hello_settlement_replaces_the_state() {
    let mut page = hello_page();
    page.update(HelloMsg::FetchHello);
    let (redraw, action) =
        page.update(HelloMsg::SetFetchState(RequestLifecycle::succeed("Hi".to_string())));
    assert!(redraw);
    assert!(action.is_none());
    assert_eq!(page.status_line(), "Hi");
}

#[test]
fn hello_status_lines() {
    let mut page = hello_page();
    assert_eq!(page.status_line(), "Not fetching");
    page.update(HelloMsg::FetchHello);
    assert_eq!(page.status_line(), "Fetching");
    page.update(HelloMsg::SetFetchState(RequestLifecycle::fail(ErrorDetail::network(
        "down".to_string(),
    ))));
    assert_eq!(page.status_line(), "Failed to fetch");
}

#[test]
fn get_user_dispatches_to_the_item_address() {
    let mut page = rest_page();
    let (redraw, action) = page.update(RestMsg::GetUser { id_text: "7".to_string() });
    assert!(redraw);
    match action.unwrap() {
        RestAction::DispatchGet { url } => {
            assert_eq!(url, "http://localhost:8000/api/user/7");
        },
        _ => panic!("a valid id must dispatch a get"),
    }
    assert!(matches!(page.get_state, RequestLifecycle::InFlight));
}

#[test]
fn get_user_with_letters_alerts_and_dispatches_nothing() {
    let mut page = rest_page();
    let (redraw, action) = page.update(RestMsg::GetUser { id_text: "abc".to_string() });
    assert!(!redraw);
    assert!(matches!(action, Some(RestAction::Alert { .. })));
    assert!(matches!(page.get_state, RequestLifecycle::Idle));
}

#[test]
fn delete_user_dispatches_to_the_item_address() {
    let mut page = rest_page();
    let (_, action) = page.update(RestMsg::DeleteUser { id_text: "12".to_string() });
    match action.unwrap() {
        RestAction::DispatchDelete { url } => {
            assert_eq!(url, "http://localhost:8000/api/user/12");
        },
        _ => panic!("a valid id must dispatch a delete"),
    }
    assert!(matches!(page.delete_state, RequestLifecycle::InFlight));
}

#[test]
fn delete_user_with_letters_alerts_and_dispatches_nothing() {
    let mut page = rest_page();
    let (redraw, action) = page.update(RestMsg::DeleteUser { id_text: "1x".to_string() });
    assert!(!redraw);
    assert!(matches!(action, Some(RestAction::Alert { .. })));
    assert!(matches!(page.delete_state, RequestLifecycle::Idle));
}

#[test]
fn post_user_dispatches_the_encoded_record() {
    let mut page = rest_page();
    let (redraw, action) = page.update(RestMsg::PostUser {
        name: "Ann".to_string(),
        color_text: "#0a141e".to_string(),
    });
    assert!(redraw);
    match action.unwrap() {
        RestAction::DispatchPost { url, body } => {
            assert_eq!(url, "http://localhost:8000/api/user");
            assert_eq!(body, "{\"name\":\"Ann\",\"color\":{\"r\":10,\"g\":20,\"b\":30}}");
        },
        _ => panic!("a valid record must dispatch a post"),
    }
    assert!(matches!(page.post_state, RequestLifecycle::InFlight));
}

#[test]
fn post_user_with_bad_color_alerts_and_dispatches_nothing() {
    let mut page = rest_page();
    let (redraw, action) = page.update(RestMsg::PostUser {
        name: "Ann".to_string(),
        color_text: "#2a2a2".to_string(),
    });
    assert!(!redraw);
    assert!(matches!(action, Some(RestAction::Alert { .. })));
    assert!(matches!(page.post_state, RequestLifecycle::Idle));
}

#[test]
fn post_user_with_unencodable_name_fails_the_slot() {
    let mut page = rest_page();
    let (redraw, action) = page.update(RestMsg::PostUser {
        name: "An\"n".to_string(),
        color_text: "#2a2a2a".to_string(),
    });
    assert!(redraw);
    assert!(action.is_none());
    match &page.post_state {
        RequestLifecycle::Failed(e) => assert_eq!(e.kind, ErrorKind::Decode),
        _ => panic!("an unencodable name must fail the post slot"),
    }
}

#[test]
fn delete_notice_reads_the_status_for_the_caller() {
    let mut page = rest_page();
    assert!(page.delete_notice().is_none());
    page.update(RestMsg::SetDeleteState(RequestLifecycle::succeed(ResponseSummary {
        status: 404,
    })));
    assert_eq!(page.delete_notice().unwrap(), "No such user id");
    page.update(RestMsg::SetDeleteState(RequestLifecycle::succeed(ResponseSummary {
        status: 200,
    })));
    assert_eq!(page.delete_notice().unwrap(), "Deleted");
    page.update(RestMsg::SetDeleteState(RequestLifecycle::fail(ErrorDetail::network(
        "down".to_string(),
    ))));
    assert_eq!(page.delete_notice().unwrap(), "Delete request failed; Reason: down");
}

#[test]
fn get_notice_reports_only_failures() {
    let mut page = rest_page();
    assert!(page.get_notice().is_none());
    page.update(RestMsg::SetGetState(RequestLifecycle::fail(ErrorDetail::decode(
        "bad body".to_string(),
    ))));
    assert_eq!(page.get_notice().unwrap(), "Get request failed; Reason: bad body");
}

#[test]
fn current_user_is_the_settled_payload() {
    let mut page = rest_page();
    assert!(page.current_user().is_none());
    let u = User { name: "Ann".to_string(), color: Rgb { r: 1, g: 2, b: 3 } };
    page.update(RestMsg::SetGetState(RequestLifecycle::succeed(u.clone())));
    assert_eq!(page.current_user().unwrap(), u);
}

#[test]
fn user_style_renders_the_color() {
    let u = User { name: "Ann".to_string(), color: Rgb { r: 10, g: 20, b: 30 } };
    assert_eq!(user_style(&u), "color: rgb(10, 20, 30); margin: .25rem;");
}

#[test]
fn routes_map_paths_to_pages() {
    assert_eq!(route_for_path("/"), Route::Home);
    assert_eq!(route_for_path("/hello"), Route::Hello);
    assert_eq!(route_for_path("/dbstuff"), Route::RESTStuff);
    assert_eq!(route_for_path("/404"), Route::NotFound);
    assert_eq!(route_for_path("/anything/else"), Route::NotFound);
}

#[test]
fn page_paths_route_back_to_their_pages() {
    for r in [Route::Home, Route::Hello, Route::NotFound, Route::RESTStuff] {
        assert_eq!(route_for_path(path_of_route(r).as_str()), r);
    }
}
