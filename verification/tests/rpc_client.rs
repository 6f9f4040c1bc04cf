use fil_consensus::rpc_client::{
    authorization, conclude, fold_url, is_success, multiaddress_to_url, port_text, CallError,
    JsonRpcError, JsonRpcResponse, Protocol, DEFAULT_PORT,
};

#[test]
fn default_multiaddress_gives_the_default_url() {
    // /ip4/127.0.0.1/tcp/1234/http
    let url = multiaddress_to_url(vec![
        Protocol::Ip4("127.0.0.1".to_string()),
        Protocol::Tcp(1234),
        Protocol::Http,
    ]);
    assert_eq!(url, "http://127.0.0.1:1234/rpc/v0");
}

#[test]
fn empty_multiaddress_gives_the_defaults() {
    assert_eq!(multiaddress_to_url(Vec::new()), "http://127.0.0.1:1234/rpc/v0");
    assert_eq!(DEFAULT_PORT, 1234);
}

#[test]
fn each_component_sets_its_part() {
    let url = multiaddress_to_url(vec![
        Protocol::Dns("node.example".to_string()),
        Protocol::Tcp(443),
        Protocol::Https,
    ]);
    assert_eq!(url, "https://node.example:443/rpc/v0");
    let url = multiaddress_to_url(vec![Protocol::Ip6("::1".to_string()), Protocol::Tcp(80)]);
    assert_eq!(url, "http://::1:80/rpc/v0");
}

#[test]
fn later_component_stands() {
    let url = multiaddress_to_url(vec![
        Protocol::Https,
        Protocol::Ip4("10.0.0.1".to_string()),
        Protocol::Tcp(1),
        Protocol::Other,
        Protocol::Dns4("a.b".to_string()),
        Protocol::Http,
        Protocol::Tcp(65535),
        Protocol::Dns6("c.d".to_string()),
        Protocol::Dnsaddr("e.f".to_string()),
    ]);
    assert_eq!(url, "http://e.f:65535/rpc/v0");
}

#[test]
fn folded_parts() {
    let url = fold_url(&vec![Protocol::Tcp(8080), Protocol::Other]);
    assert_eq!(url.protocol, "http");
    assert_eq!(url.host, "127.0.0.1");
    assert_eq!(url.port, 8080);
}

#[test]
fn ports_in_decimal() {
    assert_eq!(port_text(0), "0");
    assert_eq!(port_text(7), "7");
    assert_eq!(port_text(10), "10");
    assert_eq!(port_text(1234), "1234");
    assert_eq!(port_text(40089), "40089");
    assert_eq!(port_text(65535), "65535");
}

#[test]
fn configured_token_comes_first() {
    let configured = Some("jwt-a".to_string());
    let given = Some("jwt-b".to_string());
    assert_eq!(authorization(&configured, &given), Some("jwt-a".to_string()));
    assert_eq!(authorization(&None, &given), Some("jwt-b".to_string()));
    assert_eq!(authorization(&configured, &None), Some("jwt-a".to_string()));
    assert_eq!(authorization(&None, &None), None);
}

#[test]
fn statuses_of_success() {
    assert!(is_success(200));
    assert!(is_success(299));
    assert!(!is_success(199));
    assert!(!is_success(300));
    assert!(!is_success(404));
}

#[test]
fn result_is_handed_out() {
    let body: Result<JsonRpcResponse<u32>, String> = Ok(JsonRpcResponse::Result { result: 7 });
    assert!(matches!(conclude(200, body), Ok(7)));
}

#[test]
fn status_other_than_success_is_an_error_whatever_the_body() {
    let body: Result<JsonRpcResponse<u32>, String> = Ok(JsonRpcResponse::Result { result: 7 });
    assert!(matches!(conclude(500, body), Err(CallError::Http { status: 500 })));
}

#[test]
fn unreadable_body_is_an_error() {
    let body: Result<JsonRpcResponse<u32>, String> = Err("eof".to_string());
    match conclude(200, body) {
        Err(CallError::Parse { reason }) => assert_eq!(reason, "eof"),
        other => panic!("expected a parse error, got {:?}", other),
    }
}

#[test]
fn error_of_the_endpoint_is_passed_on() {
    let body: Result<JsonRpcResponse<u32>, String> = Ok(JsonRpcResponse::Error {
        error: JsonRpcError { code: -32601, message: "method not found".to_string() },
    });
    match conclude(200, body) {
        Err(CallError::Remote { code, message }) => {
            assert_eq!(code, -32601);
            assert_eq!(message, "method not found");
        }
        other => panic!("expected the endpoint's error, got {:?}", other),
    }
}
