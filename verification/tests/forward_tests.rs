use llmproxify::errors::{AppError, RequestFailure};
use llmproxify::forward::{
    index, outbound_method, plan_request, prepare, relay, ClientResponse, Method, OutboundRequest,
    ResponseHead,
};
use llmproxify::headers::Header;
use llmproxify::registry::ProviderTable;

fn header(name: &str, value: &[u8]) -> Header {
    Header {
        name: name.to_string(),
        value: value.to_vec(),
    }
}

#[test]
fn supported_methods_stay() {
    assert_eq!(outbound_method(Method::Get), Method::Get);
    assert_eq!(outbound_method(Method::Post), Method::Post);
    assert_eq!(outbound_method(Method::Put), Method::Put);
    assert_eq!(outbound_method(Method::Delete), Method::Delete);
}

#[test]
fn unsupported_methods_fall_back_to_get() {
    assert_eq!(outbound_method(Method::Patch), Method::Get);
    assert_eq!(outbound_method(Method::Head), Method::Get);
    assert_eq!(outbound_method(Method::Options), Method::Get);
    assert_eq!(outbound_method(Method::Connect), Method::Get);
    assert_eq!(outbound_method(Method::Trace), Method::Get);
    assert_eq!(outbound_method(Method::Other), Method::Get);
}

#[test]
fn greeting_text() {
    assert_eq!(index(), "Hello, llmproxify!");
}

#[test]
fn plan_maps_method_and_filters_headers() {
    let inbound = vec![header("x-custom", b"foo"), header("x-api-key", b"abc")];
    let request = plan_request(
        Method::Patch,
        "https://api.openai.com/v1/models".to_string(),
        &inbound,
        b"{}".to_vec(),
        Some("http://127.0.0.1:3128".to_string()),
    );
    assert_eq!(
        request,
        OutboundRequest {
            method: Method::Get,
            url: "https://api.openai.com/v1/models".to_string(),
            headers: vec![header("x-api-key", b"abc")],
            body: b"{}".to_vec(),
            proxy: Some("http://127.0.0.1:3128".to_string()),
        }
    );
}

#[test]
fn prepare_builds_the_outbound_request() {
    let table = ProviderTable::with_defaults();
    let inbound = vec![
        header("authorization", b"Bearer sk-1"),
        header("content-type", b"application/json"),
        header("user-agent", b"curl"),
    ];
    let request = prepare(
        &table,
        "openai",
        "v1/chat/completions",
        Some("stream=true"),
        Method::Post,
        &inbound,
        b"{\"model\":\"m\"}".to_vec(),
        None,
    )
    .unwrap();
    assert_eq!(request.method, Method::Post);
    assert_eq!(request.url, "https://api.openai.com/v1/chat/completions?stream=true");
    assert_eq!(
        request.headers,
        vec![
            header("authorization", b"Bearer sk-1"),
            header("content-type", b"application/json"),
        ]
    );
    assert_eq!(request.body, b"{\"model\":\"m\"}".to_vec());
    assert_eq!(request.proxy, None);
}

#[test]
fn prepare_stops_at_an_unknown_provider() {
    let table = ProviderTable::with_defaults();
    let outcome = prepare(&table, "nope", "v1", None, Method::Get, &Vec::new(), Vec::new(), None);
    match outcome {
        Err(error) => {
            assert!(matches!(error, AppError::ProviderNotFound(_)));
            assert_eq!(
                relay(Err(error)),
                ClientResponse::Failure {
                    status: 400,
                    message: "Other error: Provider not found: nope".to_string(),
                }
            );
        }
        Ok(request) => panic!("unexpected: {:?}", request),
    }
}

#[test]
fn prepare_stops_at_a_bad_base_url() {
    let mut table = ProviderTable::new();
    table.insert("broken".to_string(), "no scheme".to_string());
    let outcome = prepare(&table, "broken", "v1", None, Method::Get, &Vec::new(), Vec::new(), None);
    assert!(matches!(outcome, Err(AppError::UrlParseError(_))));
}

#[test]
fn relay_passes_status_and_headers_on() {
    let head = ResponseHead {
        status: 429,
        headers: vec![
            header("retry-after", b"3"),
            header("x-request-id", b"r-1"),
            header("set-cookie", b"a=b"),
        ],
    };
    assert_eq!(relay(Ok(head.clone())), ClientResponse::Relay(head));
}

#[test]
fn relay_reports_a_failed_exchange() {
    let failure = RequestFailure {
        status: None,
        message: "connection refused".to_string(),
    };
    assert_eq!(
        relay(Err(AppError::RequestError(failure))),
        ClientResponse::Failure {
            status: 502,
            message: "Request error: connection refused".to_string(),
        }
    );
}
