use rust_chaser::binance::{check_response, judge_reply, order_id_of, ApiError, BinanceClient, HttpMethod};
use rust_chaser::signing::sign_query;

fn client() -> BinanceClient {
    BinanceClient::new("  my-key \n".to_string(), "\tsecret ".to_string(), false)
}

#[test]
fn new_trims_credentials_and_picks_the_exchange() {
    let live = client();
    assert_eq!(live.api_key(), "my-key");
    assert_eq!(live.base_url(), "https://fapi.binance.com");
    assert_eq!(live.time_offset(), 0);
    let test = BinanceClient::new("k".to_string(), "s".to_string(), true);
    assert_eq!(test.base_url(), "https://testnet.binancefuture.com");
}

#[test]
fn sign_uses_the_trimmed_secret() {
    let c = client();
    assert_eq!(c.sign("a=1"), sign_query("secret", "a=1"));
}

#[test]
fn limit_maker_order_request_is_post_only_and_signed() {
    let c = client();
    let req = c.place_limit_maker_order("1000PEPEUSDC", "BUY", 1_000_000_000_000, 1_045_600, 1_700_000_000_000);
    let query = "symbol=1000PEPEUSDC&side=BUY&type=LIMIT&timeInForce=GTX&quantity=10000&price=0.0104560&timestamp=1700000000000&recvWindow=5000";
    assert_eq!(req.method, HttpMethod::Post);
    assert_eq!(
        req.url,
        format!("https://fapi.binance.com/fapi/v1/order?{}&signature={}", query, sign_query("secret", query))
    );
}

#[test]
fn cancel_and_query_requests_name_the_order() {
    let c = client();
    let query = "symbol=1000PEPEUSDC&orderId=42&timestamp=1700000000000&recvWindow=5000";
    let expected = format!("https://fapi.binance.com/fapi/v1/order?{}&signature={}", query, sign_query("secret", query));
    let cancel = c.cancel_order("1000PEPEUSDC", 42, 1_700_000_000_000);
    assert_eq!(cancel.method, HttpMethod::Delete);
    assert_eq!(cancel.url, expected);
    let read = c.query_order("1000PEPEUSDC", 42, 1_700_000_000_000);
    assert_eq!(read.method, HttpMethod::Get);
    assert_eq!(read.url, expected);
}

#[test]
fn sync_time_aligns_the_timestamp_with_the_server() {
    let mut c = client();
    let r = c.sync_time("{\"serverTime\":1700000000500}", 1_700_000_000_000);
    assert!(matches!(r, Ok(true)));
    assert_eq!(c.time_offset(), 500);
    assert!(c.timestamp_fits(1_700_000_000_000));
    assert_eq!(c.timestamp_at(1_700_000_000_000), 1_700_000_000_500);
    assert_eq!(c.timestamp_at(1_700_000_001_000), 1_700_000_001_500);
}

#[test]
fn sync_time_without_server_time_keeps_the_offset() {
    let mut c = client();
    assert!(matches!(c.sync_time("{\"other\":1}", 10), Ok(false)));
    assert!(matches!(c.sync_time("{\"serverTime\":\"12\"}", 10), Ok(false)));
    assert!(matches!(c.sync_time("{\"serverTime\":-9223372036854775808}", 10), Ok(false)));
    assert_eq!(c.time_offset(), 0);
}

#[test]
fn sync_time_fails_on_a_reply_that_is_not_json() {
    let mut c = client();
    assert!(matches!(c.sync_time("<html>", 10), Err(ApiError::Json(_))));
    assert_eq!(c.time_offset(), 0);
}

#[test]
fn timestamp_that_does_not_fit_is_reported() {
    let mut c = client();
    assert!(matches!(c.sync_time("{\"serverTime\":9223372036854775807}", 0), Ok(true)));
    assert!(!c.timestamp_fits(1));
    assert!(c.timestamp_fits(0));
}

#[test]
fn replies_are_judged_by_json_then_status() {
    assert!(matches!(check_response(200, "{\"orderId\":1}"), Ok(())));
    assert!(matches!(check_response(299, "[]"), Ok(())));
    match check_response(400, "{\"code\":-2011,\"msg\":\"Unknown order sent.\"}") {
        Err(ApiError::Status { code, body }) => {
            assert_eq!(code, 400);
            assert_eq!(body, "{\"code\":-2011,\"msg\":\"Unknown order sent.\"}");
        }
        other => panic!("unexpected {:?}", other),
    }
    assert!(matches!(check_response(200, "not json"), Err(ApiError::Json(_))));
    assert!(matches!(check_response(502, "Bad Gateway"), Err(ApiError::Json(_))));
    assert!(matches!(check_response(300, "{}"), Err(ApiError::Status { code: 300, .. })));
}

#[test]
fn order_id_is_read_from_the_reply() {
    assert_eq!(order_id_of("{\"orderId\":8389765519,\"status\":\"NEW\"}"), Some(8_389_765_519));
    assert_eq!(order_id_of("{\"status\":\"NEW\"}"), None);
    assert_eq!(order_id_of("{\"orderId\":\"7\"}"), None);
    assert_eq!(order_id_of("oops"), None);
}

#[test]
fn rejected_status_reads_with_its_reason_phrase() {
    let body = "{\"code\":-2011,\"msg\":\"Unknown order sent.\"}";
    let e = check_response(400, body).unwrap_err();
    assert_eq!(e.message(), format!("Binance API Error: status=400 Bad Request body={}", body));
    let e = check_response(400, "{\"code\":-5022,\"msg\":\"Post Only order will be rejected.\"}").unwrap_err();
    assert_eq!(
        e.message(),
        "Binance API Error: status=400 Bad Request body={\"code\":-5022,\"msg\":\"Post Only order will be rejected.\"}"
    );
    let e = ApiError::Status { code: 42, body: "x".to_string() };
    assert_eq!(e.message(), "Binance API Error: status=42 body=x");
    assert_eq!(ApiError::Transport("down".to_string()).message(), "down");
    assert_eq!(check_response(200, "oops").unwrap_err().message(), "expected value at line 1 column 1");
}

#[test]
fn replies_are_judged_from_the_parse_outcome() {
    assert!(matches!(judge_reply(200, None, "{}"), Ok(())));
    assert!(matches!(judge_reply(200, Some("bad".to_string()), "x"), Err(ApiError::Json(m)) if m == "bad"));
    assert!(matches!(judge_reply(503, None, "{}"), Err(ApiError::Status { code: 503, .. })));
}

#[test]
fn server_time_is_applied_when_it_fits() {
    let mut c = client();
    assert!(c.apply_server_time(Some(1_000), 400));
    assert_eq!(c.time_offset(), 600);
    assert!(!c.apply_server_time(None, 400));
    assert_eq!(c.time_offset(), 600);
    assert!(!c.apply_server_time(Some(i64::MIN), 1));
    assert_eq!(c.time_offset(), 600);
    assert!(c.apply_server_time(Some(0), 1_000));
    assert_eq!(c.time_offset(), -1_000);
}
