use binance::api::Futures;
use binance::api::Spot;
use binance::api::API;
use binance::client::failure;
use binance::client::is_valid_header_value;
use binance::client::plain_failure;
use binance::client::rejection;
use binance::client::sign;
use binance::client::sign_payload;
use binance::client::Client;
use binance::client::Method;
use binance::client::Response;
use binance::errors::BinanceContentError;
use binance::errors::Error;
use binance::json::Json;
use binance::util::Params;
use hmac::Mac;

const SECRET: &str = "NhqPtmdSJYdKjVHjA7PZj4Mge3R5YNiP1e3UZjInClVN65XAbvqqM6A7H5fATj0j";
const PAYLOAD: &str = "symbol=LTCBTC&side=BUY&type=LIMIT&timeInForce=GTC&quantity=1&price=0.1&recvWindow=5000&timestamp=1499827319559";
const SIGNATURE: &str = "c8db56825ae71d6d79447849e617115f4a920fa2acdcab2b053c4b2838bd6b71";

fn client() -> Client {
    Client::new(
        Some("vmPUZE6mv9SD5VNHk4HlWFsOr6aKE2zvsw0MuIgwCIPy6utIco14y7Ju91duEh8A".into()),
        Some(SECRET.into()),
        "https://api.binance.com".into(),
    )
}

fn reply(status: u16, body: &str) -> Response {
    Response { status, used_weight: None, body: body.as_bytes().to_vec() }
}

fn expected_signature(secret: &str, payload: &str) -> String {
    let mut mac = hmac::Hmac::<sha2::Sha256>::new_from_slice(secret.as_bytes()).unwrap();
    mac.update(payload.as_bytes());
    hex::encode(mac.finalize().into_bytes())
}

#[test]
fn signature_of_a_known_payload() {
    assert_eq!(
        sign_payload(SECRET, PAYLOAD),
        format!("{PAYLOAD}&signature={SIGNATURE}")
    );
}

#[test]
fn signature_of_the_empty_payload() {
    let signed = sign_payload(SECRET, "");
    assert_eq!(signed, format!("&signature={}", expected_signature(SECRET, "")));
    assert_eq!(signed.len(), "&signature=".len() + 64);
}

#[test]
fn signature_is_lower_case_hex() {
    let signed = sign_payload("key", "The quick brown fox jumps over the lazy dog");
    assert_eq!(
        signed,
        "The quick brown fox jumps over the lazy dog&signature=f7bc83f430538424b13298e6aa6fb143ef4d59a14946175997479dbc2d1a3cd8"
    );
}

#[test]
fn sign_serializes_in_key_order() {
    let mut parameters = Params::new();
    parameters.insert("symbol".into(), "LTCBTC".into());
    parameters.insert("side".into(), "BUY".into());
    let signed = sign(parameters, SECRET);
    let payload = "side=BUY&symbol=LTCBTC";
    assert_eq!(
        signed,
        format!("{payload}&signature={}", expected_signature(SECRET, payload))
    );
}

#[test]
fn signing_twice_gives_the_same_text() {
    let mut parameters = Params::new();
    parameters.insert("symbol".into(), "LTCBTC".into());
    parameters.insert("quantity".into(), "1".into());
    let first = sign(parameters.clone(), SECRET);
    let second = sign(parameters, SECRET);
    assert_eq!(first, second);
}

#[test]
fn changing_a_character_changes_the_signature() {
    let mut parameters = Params::new();
    parameters.insert("symbol".into(), "LTCBTC".into());
    parameters.insert("quantity".into(), "1".into());
    let mut changed = Params::new();
    changed.insert("symbol".into(), "LTCBTD".into());
    changed.insert("quantity".into(), "1".into());
    let a = sign(parameters, SECRET);
    let b = sign(changed, SECRET);
    assert_ne!(a, b);
    assert_ne!(a.rsplit('=').next(), b.rsplit('=').next());
}

#[test]
fn a_different_secret_gives_a_different_signature() {
    assert_ne!(sign_payload("a", PAYLOAD), sign_payload("b", PAYLOAD));
}

#[test]
fn signed_address_of_a_route() {
    let url = client().sign_request(API::Spot(Spot::Order), Some(PAYLOAD.into()));
    assert_eq!(
        url,
        format!("https://api.binance.com/api/v3/order?{PAYLOAD}&signature={SIGNATURE}")
    );
}

#[test]
fn signed_address_without_request() {
    let url = client().sign_request(API::Spot(Spot::Account), None);
    assert_eq!(
        url,
        format!(
            "https://api.binance.com/api/v3/account?&signature={}",
            expected_signature(SECRET, "")
        )
    );
}

#[test]
fn signed_address_of_a_complete_url() {
    let link = "https://download.example/file.tar.gz".to_string();
    let url = client().sign_request(API::Futures(Futures::DownloadLink(link.clone())), Some("a=1".into()));
    assert_eq!(
        url,
        format!("{link}?a=1&signature={}", expected_signature(SECRET, "a=1"))
    );
}

#[test]
fn a_path_gets_the_host_in_front() {
    let url = client().sign_request(API::Futures(Futures::DownloadLink("/relative".into())), Some("a=1".into()));
    assert!(url.starts_with("https://api.binance.com/relative?a=1&signature="));
}

#[test]
fn headers_of_a_signed_request() {
    let headers = client().build_headers(true).unwrap();
    assert_eq!(
        headers,
        vec![
            ("user-agent".to_string(), "binance-rs".to_string()),
            (
                "content-type".to_string(),
                "application/x-www-form-urlencoded".to_string()
            ),
            (
                "x-mbx-apikey".to_string(),
                "vmPUZE6mv9SD5VNHk4HlWFsOr6aKE2zvsw0MuIgwCIPy6utIco14y7Ju91duEh8A".to_string()
            ),
        ]
    );
}

#[test]
fn headers_without_content_type_and_key() {
    let public = Client::new(None, None, "https://api.binance.com".into());
    assert_eq!(
        public.build_headers(false).unwrap(),
        vec![("user-agent".to_string(), "binance-rs".to_string())]
    );
}

#[test]
fn a_key_that_no_header_can_carry() {
    let broken = Client::new(Some("ab\ncd".into()), None, "https://api.binance.com".into());
    assert_eq!(broken.build_headers(true), Err(Error::InvalidHeader));
    assert_eq!(
        broken.get_signed(API::Spot(Spot::Account), None),
        Err(Error::InvalidHeader)
    );
    assert_eq!(broken.post(API::Spot(Spot::UserDataStream)), Err(Error::InvalidHeader));
    assert!(!is_valid_header_value("\u{7f}"));
    assert!(!is_valid_header_value("\u{0}"));
    assert!(is_valid_header_value("a\tb \u{e9}~"));
    assert!(is_valid_header_value(""));
}

#[test]
fn plan_of_a_signed_get() {
    let plan = client().get_signed(API::Spot(Spot::OpenOrders), Some("symbol=LTCBTC".into())).unwrap();
    assert_eq!(plan.method, Method::Get);
    assert_eq!(
        plan.url,
        format!(
            "https://api.binance.com/api/v3/openOrders?symbol=LTCBTC&signature={}",
            expected_signature(SECRET, "symbol=LTCBTC")
        )
    );
    assert_eq!(plan.headers.len(), 3);
    assert_eq!(plan.body, None);
    let bytes = client().get_signed_bytes(API::Spot(Spot::OpenOrders), Some("symbol=LTCBTC".into())).unwrap();
    assert_eq!(bytes, plan);
}

#[test]
fn plans_of_signed_post_and_delete() {
    let post = client().post_signed(API::Spot(Spot::Order), "a=1".into()).unwrap();
    assert_eq!(post.method, Method::Post);
    assert!(post.url.starts_with("https://api.binance.com/api/v3/order?a=1&signature="));
    assert_eq!(post.body, None);
    let delete = client().delete_signed(API::Spot(Spot::Order), Some("a=1".into())).unwrap();
    assert_eq!(delete.method, Method::Delete);
    assert_eq!(delete.url, post.url);
}

#[test]
fn plan_of_an_unsigned_get() {
    let plan = client().get(API::Spot(Spot::Depth), Some("symbol=LTCBTC".into()));
    assert_eq!(plan.method, Method::Get);
    assert_eq!(plan.url, "https://api.binance.com/api/v3/depth?symbol=LTCBTC");
    assert!(plan.headers.is_empty());
    assert_eq!(plan.body, None);
    assert_eq!(
        client().get(API::Spot(Spot::Ping), None).url,
        "https://api.binance.com/api/v3/ping"
    );
    assert_eq!(
        client().get(API::Spot(Spot::Ping), Some(String::new())).url,
        "https://api.binance.com/api/v3/ping"
    );
}

#[test]
fn plans_of_the_listen_key_calls() {
    let start = client().post(API::Spot(Spot::UserDataStream)).unwrap();
    assert_eq!(start.method, Method::Post);
    assert_eq!(start.url, "https://api.binance.com/api/v3/userDataStream");
    assert_eq!(start.headers.len(), 2);
    assert_eq!(start.body, None);
    let keep = client().put(API::Spot(Spot::UserDataStream), "abc").unwrap();
    assert_eq!(keep.method, Method::Put);
    assert_eq!(keep.body, Some("listenKey=abc".to_string()));
    assert_eq!(keep.headers.len(), 2);
    let close = client().delete(API::Futures(Futures::UserDataStream), "abc").unwrap();
    assert_eq!(close.method, Method::Delete);
    assert_eq!(close.url, "https://api.binance.com/fapi/v1/listenKey");
    assert_eq!(close.body, Some("listenKey=abc".to_string()));
}

#[test]
fn stamped_plan_at_a_fixed_time() {
    let mut parameters = Params::new();
    parameters.insert("symbol".into(), "LTCBTC".into());
    let plan = client()
        .stamped_request(Method::Get, API::Spot(Spot::MyTrades), parameters, 5000, 1_499_827_319_559)
        .unwrap();
    let payload = "recvWindow=5000&symbol=LTCBTC&timestamp=1499827319559";
    assert_eq!(
        plan.url,
        format!(
            "https://api.binance.com/api/v3/myTrades?{payload}&signature={}",
            expected_signature(SECRET, payload)
        )
    );
    assert_eq!(plan.method, Method::Get);
}

#[test]
fn status_200_gives_the_body() {
    let r = client().bytes_handler(reply(200, "raw bytes"));
    assert_eq!(r, Ok(b"raw bytes".to_vec()));
    let document = client().handler(reply(200, "{\"a\":1}")).unwrap();
    assert_eq!(document.get("a").and_then(Json::as_u64), Some(1));
}

#[test]
fn status_200_with_a_body_that_is_no_json() {
    assert_eq!(client().handler(reply(200, "<html>")).err(), Some(Error::Decode));
    assert_eq!(client().handler(reply(200, "")).err(), Some(Error::Decode));
}

#[test]
fn status_400_gives_the_exchange_error() {
    let expected = Error::Exchange(BinanceContentError { code: -1000, msg: "x".into() });
    let body = "{\"code\":-1000,\"msg\":\"x\"}";
    assert_eq!(client().bytes_handler(reply(400, body)), Err(expected.clone()));
    assert_eq!(client().handler(reply(400, body)).err(), Some(expected.clone()));
    assert_eq!(failure(&reply(400, body)), expected);
}

#[test]
fn status_400_with_a_body_of_another_form() {
    assert_eq!(client().bytes_handler(reply(400, "nonsense")), Err(Error::Decode));
    assert_eq!(client().bytes_handler(reply(400, "{\"code\":-1000}")), Err(Error::Decode));
    assert_eq!(
        client().bytes_handler(reply(400, "{\"code\":40000,\"msg\":\"x\"}")),
        Err(Error::Decode)
    );
    assert_eq!(
        client().bytes_handler(reply(400, "{\"code\":\"-1\",\"msg\":\"x\"}")),
        Err(Error::Decode)
    );
    assert_eq!(rejection(None), Error::Decode);
    assert_eq!(rejection(Json::parse("[]")), Error::Decode);
    assert_eq!(
        rejection(Json::parse("{\"msg\":\"m\",\"code\":-32768,\"more\":[1]}")),
        Error::Exchange(BinanceContentError { code: -32768, msg: "m".into() })
    );
}

#[test]
fn every_other_status_has_its_failure() {
    let unsigned = Client::new(None, None, "https://api.binance.com".into());
    for c in [client(), unsigned] {
        assert_eq!(c.bytes_handler(reply(401, "")), Err(Error::Unauthorized));
        assert_eq!(c.bytes_handler(reply(429, "")), Err(Error::RateLimited));
        assert_eq!(c.bytes_handler(reply(500, "")), Err(Error::ServerError));
        assert_eq!(c.bytes_handler(reply(503, "")), Err(Error::ServiceUnavailable));
        assert_eq!(c.bytes_handler(reply(599, "")), Err(Error::UnexpectedStatus(599)));
        assert_eq!(c.bytes_handler(reply(418, "")), Err(Error::UnexpectedStatus(418)));
        assert_eq!(c.bytes_handler(reply(204, "")), Err(Error::UnexpectedStatus(204)));
        assert_eq!(c.handler(reply(401, "{}")).err(), Some(Error::Unauthorized));
        assert_eq!(c.handler(reply(429, "{}")).err(), Some(Error::RateLimited));
        assert_eq!(c.handler(reply(500, "{}")).err(), Some(Error::ServerError));
        assert_eq!(c.handler(reply(503, "{}")).err(), Some(Error::ServiceUnavailable));
        assert_eq!(c.handler(reply(599, "{}")).err(), Some(Error::UnexpectedStatus(599)));
    }
    assert_eq!(plain_failure(0), Error::UnexpectedStatus(0));
}

#[test]
fn the_used_weight_passes_through() {
    let response = Response { status: 200, used_weight: Some("12".into()), body: b"{}".to_vec() };
    assert_eq!(response.used_weight.as_deref(), Some("12"));
    assert!(client().handler(response).is_ok());
}
