use swap_rpc::transport::{route, Refusal, RequestAction, BAD_REQUEST};

fn refused() -> RequestAction {
    RequestAction::Respond(Refusal { status: 400, content: "Only v1 supported".to_string() })
}

#[test]
fn v1_goes_through() {
    assert_eq!(route("/v1"), RequestAction::Proceed);
}

#[test]
fn v1_with_an_empty_query_goes_through() {
    assert_eq!(route("/v1?"), RequestAction::Proceed);
}

#[test]
fn any_other_target_is_a_bad_request() {
    for target in [
        "", "/", "/v2", "/v1/", "/v1/swap", "/V1", "v1", "/v1?x=1", "/v1??", " /v1", "/v",
        "/v10", "http://127.0.0.1/v1", "*",
    ] {
        assert_eq!(route(target), refused(), "target {:?}", target);
    }
}

#[test]
fn bad_request_is_status_400() {
    assert_eq!(BAD_REQUEST, 400);
    assert_eq!(u16::from(hyper::StatusCode::BAD_REQUEST), BAD_REQUEST);
}

#[test]
fn routing_agrees_with_comparing_the_uri() {
    for target in [
        "/v1", "/v1?", "/v1#top", "/", "/v", "/v1/", "/v2", "/v1?x=1", "/?", "*",
        "http://127.0.0.1:3000/v1", "http://127.0.0.1:3000", "127.0.0.1:3000",
    ] {
        let uri: hyper::Uri = target.parse().unwrap();
        let proceeds = route(&uri.to_string()) == RequestAction::Proceed;
        assert_eq!(proceeds, uri == "/v1", "target {:?}", target);
    }
}
