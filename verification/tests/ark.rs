use seedcanvas::ark::{default_base_url, Endpoint, DEFAULT_BASE_URL};
use seedcanvas::tasks::TaskError;

#[test]
fn default_address_of_the_service() {
    assert_eq!(default_base_url(), "https://ark.cn-beijing.volces.com/api/v3");
    assert_eq!(DEFAULT_BASE_URL, "https://ark.cn-beijing.volces.com/api/v3");
}

#[test]
fn addresses_of_the_endpoints() {
    let base = "https://ark.example/api/v3";
    assert_eq!(Endpoint::Images.url(base, ""), "https://ark.example/api/v3/images/generations");
    assert_eq!(Endpoint::Images.url(base, "ignored"), "https://ark.example/api/v3/images/generations");
    assert_eq!(Endpoint::VideoCreate.url(base, "job-1"), "https://ark.example/api/v3/contents/generations/tasks");
    assert_eq!(Endpoint::VideoStatus.url(base, "job-1"), "https://ark.example/api/v3/contents/generations/tasks/job-1");
}

#[test]
fn failures_carry_status_and_body() {
    match Endpoint::Images.api_error("429 Too Many Requests", "{\"error\":\"slow down\"}") {
        TaskError::Remote(m) => assert_eq!(m, "ARK image API error 429 Too Many Requests: {\"error\":\"slow down\"}"),
        other => panic!("{:?}", other),
    }
    assert_eq!(Endpoint::VideoCreate.api_error("500", "").message(), "ARK video create API error 500: ");
    assert_eq!(Endpoint::VideoStatus.api_error("404 Not Found", "gone").message(), "ARK video status API error 404 Not Found: gone");
}

#[test]
fn failures_of_transport_and_shape() {
    assert!(matches!(Endpoint::Images.request_error("dns"), TaskError::Remote(ref m) if m == "image generation request failed: dns"));
    assert_eq!(Endpoint::VideoCreate.request_error("x").message(), "video task creation request failed: x");
    assert_eq!(Endpoint::VideoStatus.request_error("x").message(), "video task status request failed: x");
    assert!(matches!(Endpoint::Images.response_error("eof"), TaskError::Protocol(ref m) if m == "failed to parse image generation response: eof"));
    assert_eq!(Endpoint::VideoCreate.response_error("x").message(), "failed to parse video create response: x");
    assert_eq!(Endpoint::VideoStatus.response_error("x").message(), "failed to parse video task status response: x");
}
