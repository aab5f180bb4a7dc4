use lettermint::api::ping::{EmptyBody, PingRequest, PingResponse};
use lettermint::endpoint::Method;

#[test]
fn endpoint_path_and_method() {
    let req = PingRequest;
    assert_eq!(req.endpoint(), "ping");
    assert_eq!(req.method(), Method::Get);
    assert_eq!(req.method().as_str(), http::Method::GET.as_str());
}

#[test]
fn method_names_match_http() {
    assert_eq!(Method::Get.as_str(), "GET");
    assert_eq!(Method::Post.as_str(), "POST");
    assert_eq!(Method::Post.as_str(), http::Method::POST.as_str());
}

#[test]
fn ping_body_is_empty() {
    let body: EmptyBody = PingRequest.body();
    assert_eq!(format!("{body:?}"), "EmptyBody");
}

#[test]
fn ping_response_holds_status() {
    let resp = PingResponse { status: 200 };
    assert_eq!(resp.status, 200);
    assert_eq!(resp, PingResponse { status: 200 });
}
