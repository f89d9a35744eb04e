use wallet_balances::balance_request_body;
use wallet_balances::rpc_url;
use wallet_balances::u64_to_decimal;
use wallet_balances::FetchError;
use wallet_balances::interpret_reply;

#[test]
fn request_body_is_the_fixed_json_rpc_envelope() {
    assert_eq!(
        balance_request_body("So11111111111111111111111111111111111111112"),
        "{\"jsonrpc\":\"2.0\",\"id\":1,\"method\":\"getBalance\",\"params\":[\"So11111111111111111111111111111111111111112\"]}"
    );
}

#[test]
fn request_body_escapes_the_address() {
    assert_eq!(
        balance_request_body("a\"b\\c"),
        "{\"jsonrpc\":\"2.0\",\"id\":1,\"method\":\"getBalance\",\"params\":[\"a\\\"b\\\\c\"]}"
    );
}

#[test]
fn the_endpoint_is_mainnet() {
    assert_eq!(rpc_url(), "https://api.mainnet-beta.solana.com");
}

#[test]
fn decimal_rendering_is_exact() {
    assert_eq!(u64_to_decimal(0), "0");
    assert_eq!(u64_to_decimal(7), "7");
    assert_eq!(u64_to_decimal(10), "10");
    assert_eq!(u64_to_decimal(1000000000), "1000000000");
    assert_eq!(u64_to_decimal(18446744073709551615), "18446744073709551615");
}

#[test]
fn a_reply_with_a_value_yields_that_value() {
    match interpret_reply("{\"result\":{\"value\":7}}") {
        Ok(n) => assert_eq!(n, 7),
        Err(_) => panic!("a well-formed reply must yield its value"),
    }
}

#[test]
fn the_rpc_failure_has_its_fixed_description() {
    match interpret_reply("{\"other\":1}") {
        Err(e) => {
            assert!(matches!(e, FetchError::Rpc));
            assert_eq!(e.description(), "Failed to get balance");
        }
        Ok(_) => panic!("a reply without result must fail"),
    }
}

#[test]
fn a_decode_failure_carries_the_parser_message() {
    match interpret_reply("{\"result\":") {
        Err(FetchError::Decode(m)) => assert!(!m.is_empty()),
        _ => panic!("truncated JSON must be a decode failure"),
    }
}

#[test]
fn an_oversized_value_is_a_decode_failure() {
    assert!(matches!(
        interpret_reply("{\"result\":{\"value\":99999999999999999999999999}}"),
        Err(FetchError::Decode(_))
    ));
}

#[test]
fn network_failures_keep_their_message() {
    let e = FetchError::Network("dns failure".to_string());
    assert_eq!(e.description(), "dns failure");
}
