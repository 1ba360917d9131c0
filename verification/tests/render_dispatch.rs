use http::header::{HeaderValue, ACCEPT};
use http::HeaderMap;
use server_dispatch::render::{render_failure_status, render_handler, RenderError, RenderStep};
use server_dispatch::response::{LocalResponse, Status};

fn accept(value: &'static [u8]) -> HeaderMap {
    let mut headers = HeaderMap::new();
    headers.insert(ACCEPT, HeaderValue::from_bytes(value).unwrap());
    headers
}

fn rejected(headers: &HeaderMap) -> LocalResponse {
    match render_handler(headers) {
        RenderStep::Reject(response) => response,
        RenderStep::Render(_) => panic!("the request was let through"),
    }
}

fn renders(headers: &HeaderMap) -> bool {
    matches!(render_handler(headers), RenderStep::Render(_))
}

#[test]
fn json_client_is_not_acceptable() {
    let response = rejected(&accept(b"application/json"));
    assert_eq!(response.status.get(), 406);
    assert_eq!(response.body, "");
}

#[test]
fn request_without_accept_is_rendered() {
    assert!(renders(&HeaderMap::new()));
}

#[test]
fn html_client_is_rendered() {
    assert!(renders(&accept(b"text/html")));
    assert!(renders(&accept(b"text/html,application/xhtml+xml,application/xml;q=0.9,*/*;q=0.8")));
    assert!(renders(&accept(b"application/json, text/html")));
}

#[test]
fn render_path_reads_the_media_type_in_any_case() {
    assert!(renders(&accept(b"TEXT/HTML")));
    assert!(renders(&accept(b"Text/Html; charset=utf-8")));
}

#[test]
fn wildcard_alone_is_not_html() {
    assert_eq!(rejected(&accept(b"*/*")).status.get(), 406);
    assert_eq!(rejected(&accept(b"")).status.get(), 406);
    assert_eq!(rejected(&accept(b"text/htm")).status.get(), 406);
}

#[test]
fn accept_value_that_is_not_text_is_not_acceptable() {
    assert_eq!(rejected(&accept(b"text/html\xfa")).status.get(), 406);
}

#[test]
fn accept_value_with_a_tab_is_text() {
    assert!(renders(&accept(b"text/plain,\ttext/html")));
}

#[test]
fn only_the_first_accept_value_is_read() {
    let mut headers = HeaderMap::new();
    headers.append(ACCEPT, HeaderValue::from_static("application/json"));
    headers.append(ACCEPT, HeaderValue::from_static("text/html"));
    assert_eq!(rejected(&headers).status.get(), 406);
}

#[test]
fn rendered_response_passes_through() {
    let RenderStep::Render(permit) = render_handler(&HeaderMap::new()) else {
        panic!("the request was refused");
    };
    let answer = permit.finish::<String>(Ok("<html></html>".to_string()));
    assert_eq!(answer.ok(), Some("<html></html>".to_string()));
}

#[test]
fn failure_with_a_status_keeps_it() {
    let RenderStep::Render(permit) = render_handler(&accept(b"text/html")) else {
        panic!("the request was refused");
    };
    let response = permit.finish::<String>(Err(RenderError::Http(Status::new(404).unwrap()))).unwrap_err();
    assert_eq!(response.status.get(), 404);
    assert_eq!(response.body, "");
}

#[test]
fn failure_without_a_status_is_an_internal_error() {
    let RenderStep::Render(permit) = render_handler(&accept(b"text/html")) else {
        panic!("the request was refused");
    };
    let response = permit.finish::<String>(Err(RenderError::Other)).unwrap_err();
    assert_eq!(response.status.get(), 500);
    assert_eq!(response.body, "");
}

#[test]
fn failure_status_mapping() {
    for code in [100, 200, 404, 503, 999] {
        let named = Status::new(code).unwrap();
        assert_eq!(render_failure_status(RenderError::Http(named)), named);
        assert_eq!(render_failure_status(RenderError::Http(named)).get(), code);
    }
    assert_eq!(render_failure_status(RenderError::Other).get(), 500);
}
