use http::header::{HeaderName, HeaderValue, ACCEPT, CONTENT_TYPE, LOCATION, REFERER, SET_COOKIE};
use http::{HeaderMap, Method, Uri};
use server_dispatch::context::{RequestHead, ResponseOverrides};
use server_dispatch::procedure::{
    begin_call, handle_server_fns_inner, missing_procedure_message, worker_failure_response,
    Completion, DeploymentTarget, ExecutionStrategy, HeaderLimitReached, ProcedureStep,
};
use server_dispatch::response::{ResponseHead, Status};
use std::cell::Cell;

fn request(headers: HeaderMap) -> RequestHead {
    RequestHead { method: Method::POST, uri: Uri::from_static("/api/save"), headers }
}

fn form_post() -> HeaderMap {
    let mut headers = HeaderMap::new();
    headers.insert(ACCEPT, HeaderValue::from_static("text/html"));
    headers.insert(REFERER, HeaderValue::from_static("https://example.com/form"));
    headers
}

fn head(status: u16) -> ResponseHead {
    ResponseHead::new(Status::new(status).unwrap())
}

fn values(headers: &HeaderMap, name: &str) -> Vec<Vec<u8>> {
    headers.get_all(name).iter().map(|value| value.as_bytes().to_vec()).collect()
}

#[test]
fn unregistered_path_is_a_bad_request_naming_the_path() {
    let hook_runs = Cell::new(0);
    let step = begin_call(
        "/api/missing_fn123",
        |_: &RequestHead, overrides: ResponseOverrides| {
            hook_runs.set(hook_runs.get() + 1);
            (overrides, ())
        },
        None::<()>,
        request(form_post()),
        DeploymentTarget::MultiThreaded,
    );
    assert_eq!(hook_runs.get(), 0);
    match step {
        ProcedureStep::Reject(response) => {
            assert_eq!(response.status.get(), 400);
            assert!(response.body.contains("/api/missing_fn123"));
            assert_eq!(
                response.body,
                "No server function found for path: /api/missing_fn123\nYou may need to rebuild your wasm binary to update a server function link or make sure the prefix your server and client use for server functions match."
            );
        }
        ProcedureStep::Run(_) => panic!("nothing is registered"),
    }
}

#[test]
fn path_that_the_registry_does_not_know_is_a_bad_request() {
    let hook_runs = Cell::new(0);
    for method in [Method::POST, Method::GET] {
        let head = RequestHead {
            method,
            uri: Uri::from_static("/api/never_registered"),
            headers: form_post(),
        };
        let step = handle_server_fns_inner(
            "/api/never_registered",
            |_: &RequestHead, overrides: ResponseOverrides| {
            hook_runs.set(hook_runs.get() + 1);
            (overrides, ())
        },
            head,
            DeploymentTarget::MultiThreaded,
        );
        match step {
            ProcedureStep::Reject(response) => {
                assert_eq!(response.status.get(), 400);
                assert!(response.body.contains("/api/never_registered"));
                assert!(response.body.starts_with("No server function found for path: "));
            }
            ProcedureStep::Run(_) => panic!("nothing is registered"),
        }
    }
    assert_eq!(hook_runs.get(), 0);
}

#[test]
fn diagnostic_on_a_single_threaded_target_suggests_registration() {
    let message = missing_procedure_message("/api/x", DeploymentTarget::SingleThreaded);
    assert_eq!(
        message,
        "No server function found for path: /api/x\nYou may need to explicitly register the server function with `register_explicit`, rebuild your wasm binary to update a server function link or make sure the prefix your server and client use for server functions match."
    );
}

#[test]
fn diagnostic_for_the_empty_path() {
    let message = missing_procedure_message("", DeploymentTarget::MultiThreaded);
    assert!(message.starts_with("No server function found for path: \nYou may need"));
}

#[test]
fn registered_path_builds_a_fresh_context() {
    let hook_runs = Cell::new(0);
    let step = begin_call(
        "/api/save",
        |head: &RequestHead, mut overrides: ResponseOverrides| {
            hook_runs.set(hook_runs.get() + 1);
            assert_eq!(overrides.status, None);
            assert!(overrides.headers.is_empty());
            overrides.headers.insert("x-hook", HeaderValue::from_static("ran"));
            (overrides, format!("user of {} {}", head.method, head.uri))
        },
        Some(7u32),
        request(form_post()),
        DeploymentTarget::MultiThreaded,
    );
    assert_eq!(hook_runs.get(), 1);
    match step {
        ProcedureStep::Run(call) => {
            assert_eq!(call.service, 7);
            assert_eq!(call.context.extensions, "user of POST /api/save");
            assert_eq!(call.context.head.method, Method::POST);
            assert_eq!(call.context.head.uri, "/api/save");
            assert_eq!(call.context.head.headers, form_post());
            assert_eq!(call.context.overrides.status, None);
            assert_eq!(values(&call.context.overrides.headers, "x-hook"), vec![b"ran".to_vec()]);
            assert_eq!(call.context.overrides.headers.len(), 1);
            assert!(call.completion.accepts_html());
            assert_eq!(
                call.completion.referrer(),
                Some(&HeaderValue::from_static("https://example.com/form"))
            );
        }
        ProcedureStep::Reject(_) => panic!("the procedure is registered"),
    }
}

#[test]
fn form_post_without_location_is_redirected_to_the_referrer() {
    let completion = Completion::plan(&form_post());
    let mut response = head(200);
    response.headers.insert(CONTENT_TYPE, HeaderValue::from_static("application/json"));
    let mut overrides = ResponseOverrides::new();
    let done = completion.apply(response, &mut overrides).unwrap();
    assert_eq!(done.status.get(), 302);
    assert_eq!(values(&done.headers, "location"), vec![b"https://example.com/form".to_vec()]);
    assert_eq!(values(&done.headers, "content-type"), vec![b"application/json".to_vec()]);
    assert_eq!(done.headers.len(), 2);
}

#[test]
fn location_set_by_the_procedure_is_kept() {
    let completion = Completion::plan(&form_post());
    let mut response = head(303);
    response.headers.insert(LOCATION, HeaderValue::from_static("/other"));
    let mut overrides = ResponseOverrides::new();
    let done = completion.apply(response, &mut overrides).unwrap();
    assert_eq!(done.status.get(), 303);
    assert_eq!(values(&done.headers, "location"), vec![b"/other".to_vec()]);
}

#[test]
fn no_redirect_without_a_referrer() {
    let mut headers = HeaderMap::new();
    headers.insert(ACCEPT, HeaderValue::from_static("text/html,application/xhtml+xml"));
    let completion = Completion::plan(&headers);
    assert!(completion.accepts_html());
    assert_eq!(completion.referrer(), None);
    let done = completion.apply(head(200), &mut ResponseOverrides::new()).unwrap();
    assert_eq!(done.status.get(), 200);
    assert!(done.headers.is_empty());
}

#[test]
fn no_redirect_for_a_client_that_wants_json() {
    let mut headers = HeaderMap::new();
    headers.insert(ACCEPT, HeaderValue::from_static("application/json"));
    headers.insert(REFERER, HeaderValue::from_static("https://example.com/form"));
    let completion = Completion::plan(&headers);
    assert!(!completion.accepts_html());
    let done = completion.apply(head(201), &mut ResponseOverrides::new()).unwrap();
    assert_eq!(done.status.get(), 201);
    assert!(done.headers.get(LOCATION).is_none());
}

#[test]
fn no_redirect_without_an_accept_header() {
    let mut headers = HeaderMap::new();
    headers.insert(REFERER, HeaderValue::from_static("https://example.com/form"));
    let completion = Completion::plan(&headers);
    assert!(!completion.accepts_html());
    let done = completion.apply(head(200), &mut ResponseOverrides::new()).unwrap();
    assert_eq!(done.status.get(), 200);
    assert!(done.headers.get(LOCATION).is_none());
}

#[test]
fn procedure_path_reads_the_media_type_as_written() {
    let mut headers = HeaderMap::new();
    headers.insert(ACCEPT, HeaderValue::from_static("TEXT/HTML"));
    headers.insert(REFERER, HeaderValue::from_static("/form"));
    assert!(!Completion::plan(&headers).accepts_html());
}

#[test]
fn accept_value_outside_ascii_does_not_count_as_html() {
    let mut headers = HeaderMap::new();
    headers.insert(ACCEPT, HeaderValue::from_bytes(b"text/html\xfa").unwrap());
    headers.insert(REFERER, HeaderValue::from_static("/form"));
    assert!(!Completion::plan(&headers).accepts_html());
}

#[test]
fn only_the_first_accept_and_referer_values_count() {
    let mut headers = HeaderMap::new();
    headers.append(ACCEPT, HeaderValue::from_static("application/json"));
    headers.append(ACCEPT, HeaderValue::from_static("text/html"));
    headers.append(REFERER, HeaderValue::from_static("/first"));
    headers.append(REFERER, HeaderValue::from_static("/second"));
    let completion = Completion::plan(&headers);
    assert!(!completion.accepts_html());
    assert_eq!(completion.referrer(), Some(&HeaderValue::from_static("/first")));
}

#[test]
fn override_headers_reach_the_response_beside_its_own() {
    let mut headers = HeaderMap::new();
    headers.insert(ACCEPT, HeaderValue::from_static("application/json"));
    let completion = Completion::plan(&headers);
    let mut response = head(200);
    response.headers.insert(CONTENT_TYPE, HeaderValue::from_static("application/json"));
    let mut overrides = ResponseOverrides::new();
    assert_eq!(overrides.insert_header("set-cookie", b"session=abc"), Ok(()));
    assert_eq!(overrides.insert_header("x-request-id", b"42"), Ok(()));
    let done = completion.apply(response, &mut overrides).unwrap();
    assert_eq!(done.status.get(), 200);
    assert_eq!(values(&done.headers, "content-type"), vec![b"application/json".to_vec()]);
    assert_eq!(values(&done.headers, "set-cookie"), vec![b"session=abc".to_vec()]);
    assert_eq!(values(&done.headers, "x-request-id"), vec![b"42".to_vec()]);
    assert_eq!(done.headers.len(), 3);
    assert!(overrides.headers.is_empty());
}

#[test]
fn override_under_a_name_of_the_response_is_added_behind() {
    let completion = Completion::plan(&HeaderMap::new());
    let mut response = head(200);
    response.headers.insert(SET_COOKIE, HeaderValue::from_static("a=1"));
    let mut overrides = ResponseOverrides::new();
    overrides.headers.append(SET_COOKIE, HeaderValue::from_static("b=2"));
    overrides.headers.append(SET_COOKIE, HeaderValue::from_static("c=3"));
    overrides.headers.append(HeaderName::from_static("x-extra"), HeaderValue::from_static("1"));
    let done = completion.apply(response, &mut overrides).unwrap();
    assert_eq!(
        values(&done.headers, "set-cookie"),
        vec![b"a=1".to_vec(), b"b=2".to_vec(), b"c=3".to_vec()]
    );
    assert_eq!(values(&done.headers, "x-extra"), vec![b"1".to_vec()]);
    assert!(overrides.headers.is_empty());
}

#[test]
fn redirect_location_stays_ahead_of_an_override_location() {
    let completion = Completion::plan(&form_post());
    let mut overrides = ResponseOverrides::new();
    assert_eq!(overrides.insert_header("location", b"/elsewhere"), Ok(()));
    let done = completion.apply(head(200), &mut overrides).unwrap();
    assert_eq!(done.status.get(), 302);
    assert_eq!(
        values(&done.headers, "location"),
        vec![b"https://example.com/form".to_vec(), b"/elsewhere".to_vec()]
    );
    assert_eq!(done.headers.get(LOCATION).unwrap(), "https://example.com/form");
}

#[test]
fn override_status_does_not_reach_the_response() {
    let mut overrides = ResponseOverrides::new();
    overrides.set_status(Status::new(418).unwrap());
    let done = Completion::plan(&form_post()).apply(head(200), &mut overrides).unwrap();
    assert_eq!(done.status.get(), 302);
    assert_eq!(overrides.status, Status::new(418));

    let mut overrides = ResponseOverrides::new();
    overrides.set_status(Status::new(418).unwrap());
    let done = Completion::plan(&HeaderMap::new()).apply(head(200), &mut overrides).unwrap();
    assert_eq!(done.status.get(), 200);
    assert_eq!(overrides.status, Status::new(418));
}

#[test]
fn names_and_values_made_by_other_means_are_moved_as_they_are() {
    let mut request = form_post();
    let mut page = HeaderValue::from_static("https://example.com/form");
    page.set_sensitive(true);
    request.insert(REFERER, page);
    let mut overrides = ResponseOverrides::new();
    overrides.headers.insert(HeaderName::from_static("x\"y"), HeaderValue::from_static("quoted"));
    let mut secret = HeaderValue::from_static("token");
    secret.set_sensitive(true);
    overrides.headers.append(HeaderName::from_static("x-secret"), secret);
    overrides.headers.append(HeaderName::from_static("x-secret"), HeaderValue::from_static("plain"));
    let done = Completion::plan(&request).apply(head(200), &mut overrides).unwrap();
    assert_eq!(done.status.get(), 302);
    let quoted: Vec<&HeaderValue> =
        done.headers.get_all(HeaderName::from_static("x\"y")).iter().collect();
    assert_eq!(quoted, vec!["quoted"]);
    assert!(done.headers.get(LOCATION).unwrap().is_sensitive());
    let secrets: Vec<bool> =
        done.headers.get_all("x-secret").iter().map(|value| value.is_sensitive()).collect();
    assert_eq!(secrets, vec![true, false]);
    assert_eq!(values(&done.headers, "x-secret"), vec![b"token".to_vec(), b"plain".to_vec()]);
    assert!(overrides.headers.is_empty());
}

#[test]
fn response_beyond_the_safe_limit_is_completed_while_the_map_takes_it() {
    let mut response = head(200);
    for i in 0..7000 {
        let name = HeaderName::from_bytes(format!("x-h{}", i).as_bytes()).unwrap();
        response.headers.insert(name, HeaderValue::from_static("v"));
    }
    let mut overrides = ResponseOverrides::new();
    assert_eq!(overrides.insert_header("x-one", b"1"), Ok(()));
    let done = Completion::plan(&form_post()).apply(response, &mut overrides).unwrap();
    assert_eq!(done.headers.keys_len(), 7002);
    assert_eq!(done.status.get(), 302);
    assert_eq!(values(&done.headers, "x-one"), vec![b"1".to_vec()]);
}

#[test]
fn full_header_map_ends_the_completion() {
    let mut response = head(200);
    let mut taken = 0;
    loop {
        let name = HeaderName::from_bytes(format!("x-h{}", taken).as_bytes()).unwrap();
        if response.headers.try_insert(name, HeaderValue::from_static("v")).is_err() {
            break;
        }
        taken += 1;
    }
    assert!(taken > 6553);
    let mut overrides = ResponseOverrides::new();
    overrides.set_status(Status::new(404).unwrap());
    assert_eq!(overrides.insert_header("x-one", b"1"), Ok(()));
    let done = Completion::plan(&HeaderMap::new()).apply(response, &mut overrides);
    assert_eq!(done.err(), Some(HeaderLimitReached));
    assert_eq!(overrides.status, Status::new(404));
}

#[test]
fn failed_worker_is_answered_with_the_serialized_error() {
    let response = worker_failure_response("task 7 panicked");
    assert_eq!(response.status.get(), 500);
    assert_eq!(response.body, "ServerError|task 7 panicked");
    assert_eq!(worker_failure_response("").body, "ServerError|");
}

#[test]
fn execution_strategy_follows_the_target() {
    assert_eq!(
        DeploymentTarget::MultiThreaded.execution_strategy(),
        ExecutionStrategy::DirectAwait
    );
    assert_eq!(
        DeploymentTarget::SingleThreaded.execution_strategy(),
        ExecutionStrategy::DesignatedWorker
    );
}
