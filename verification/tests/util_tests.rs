use std::time::Duration;
use std::time::SystemTime;
use std::time::UNIX_EPOCH;

use binance::errors::Error;
use binance::util::build_request;
use binance::util::build_signed_request_custom;
use binance::util::build_stamped_request;
use binance::util::get_timestamp;
use binance::util::timestamp_millis;
use binance::util::Params;
use binance::util::SinceEpoch;

#[test]
fn build_request_empty() {
    let parameters = Params::new();
    let result = build_request(parameters);
    assert!(result.is_empty());
}

#[test]
fn build_request_not_empty() {
    let mut parameters = Params::new();
    parameters.insert("recvWindow".into(), "1234".to_string());
    let result = build_request(parameters);
    assert_eq!(result, format!("recvWindow={}", 1234));
}

#[test]
fn build_signed_request() {
    let now = SystemTime::now();
    let recv_window = 1234;

    let since_epoch = now.duration_since(UNIX_EPOCH).unwrap();
    let timestamp =
        since_epoch.as_secs() * 1000 + u64::from(since_epoch.subsec_nanos()) / 1_000_000;

    let parameters = Params::new();
    let result = build_signed_request_custom(parameters, recv_window, now).unwrap();

    assert_eq!(
        result,
        format!("recvWindow={recv_window}&timestamp={timestamp}")
    );
}

#[test]
fn build_request_orders_keys_by_bytes() {
    let mut parameters = Params::new();
    parameters.insert("symbol".into(), "LTCBTC".into());
    parameters.insert("limit".into(), "10".into());
    parameters.insert("interval".into(), "5m".into());
    parameters.insert("Zeta".into(), "1".into());
    parameters.insert("startTime".into(), "7".into());
    assert_eq!(
        build_request(parameters),
        "Zeta=1&interval=5m&limit=10&startTime=7&symbol=LTCBTC"
    );
}

#[test]
fn insert_replaces_the_value_of_a_key() {
    let mut parameters = Params::new();
    parameters.insert("symbol".into(), "LTCBTC".into());
    parameters.insert("side".into(), "BUY".into());
    parameters.insert("symbol".into(), "BNBBTC".into());
    assert_eq!(parameters.len(), 2);
    assert_eq!(parameters.get("symbol"), Some(&"BNBBTC".to_string()));
    assert_eq!(parameters.get("side"), Some(&"BUY".to_string()));
    assert_eq!(parameters.get("type"), None);
    assert_eq!(build_request(parameters), "side=BUY&symbol=BNBBTC");
}

#[test]
fn a_prefix_sorts_before_its_extensions() {
    let mut parameters = Params::new();
    parameters.insert("ab".into(), "2".into());
    parameters.insert("a".into(), "1".into());
    parameters.insert("abc".into(), "3".into());
    parameters.insert("".into(), "0".into());
    assert_eq!(build_request(parameters), "=0&a=1&ab=2&abc=3");
}

#[test]
fn keys_beyond_ascii_sort_by_their_bytes() {
    let mut parameters = Params::new();
    parameters.insert("\u{e9}".into(), "2".into());
    parameters.insert("z".into(), "1".into());
    parameters.insert("\u{1f600}".into(), "3".into());
    assert_eq!(build_request(parameters), "z=1&\u{e9}=2&\u{1f600}=3");
}

#[test]
fn clone_keeps_the_parameters() {
    let mut parameters = Params::new();
    parameters.insert("b".into(), "2".into());
    parameters.insert("a".into(), "1".into());
    let copy = parameters.clone();
    assert_eq!(build_request(copy), build_request(parameters));
}

#[test]
fn stamped_request_at_a_fixed_time() {
    let result = build_stamped_request(Params::new(), 1234, 1_499_827_319_559);
    assert_eq!(result, "recvWindow=1234&timestamp=1499827319559");
}

#[test]
fn stamped_request_without_window() {
    let mut parameters = Params::new();
    parameters.insert("symbol".into(), "LTCBTC".into());
    let result = build_stamped_request(parameters, 0, 5);
    assert_eq!(result, "symbol=LTCBTC&timestamp=5");
}

#[test]
fn stamping_replaces_a_timestamp_given() {
    let mut parameters = Params::new();
    parameters.insert("timestamp".into(), "1".into());
    parameters.insert("recvWindow".into(), "9".into());
    let result = build_stamped_request(parameters, 5000, 42);
    assert_eq!(result, "recvWindow=5000&timestamp=42");
}

#[test]
fn timestamp_in_milliseconds() {
    let t = SinceEpoch { secs: 1_499_827_319, subsec_nanos: 559_999_999 };
    assert_eq!(timestamp_millis(t), Ok(1_499_827_319_559));
    let zero = SinceEpoch { secs: 0, subsec_nanos: 999_999 };
    assert_eq!(timestamp_millis(zero), Ok(0));
}

#[test]
fn timestamp_that_does_not_fit() {
    let t = SinceEpoch { secs: u64::MAX / 1000 + 1, subsec_nanos: 0 };
    assert_eq!(timestamp_millis(t), Err(Error::Clock));
    let edge = SinceEpoch { secs: u64::MAX / 1000, subsec_nanos: 999_999_999 };
    assert_eq!(timestamp_millis(edge), Err(Error::Clock));
    let last = SinceEpoch { secs: u64::MAX / 1000, subsec_nanos: 615_999_999 };
    assert_eq!(timestamp_millis(last), Ok(u64::MAX));
}

#[test]
fn timestamp_of_a_time() {
    let start = UNIX_EPOCH + Duration::new(12, 345_678_901);
    assert_eq!(get_timestamp(start), Ok(12_345));
}

#[test]
fn clock_before_the_epoch() {
    let start = UNIX_EPOCH - Duration::from_secs(1);
    assert_eq!(get_timestamp(start), Err(Error::Clock));
    assert_eq!(
        build_signed_request_custom(Params::new(), 1234, start),
        Err(Error::Clock)
    );
}

#[test]
fn signed_request_made_now() {
    let before = get_timestamp(SystemTime::now()).unwrap();
    let result = binance::util::build_signed_request(Params::new(), 0).unwrap();
    let after = get_timestamp(SystemTime::now()).unwrap();
    let stamp: u64 = result.strip_prefix("timestamp=").unwrap().parse().unwrap();
    assert!(before <= stamp && stamp <= after);
}

#[test]
fn the_order_of_insertion_does_not_matter() {
    let pairs = [("symbol", "LTCBTC"), ("side", "BUY"), ("type", "LIMIT"), ("quantity", "1")];
    let mut forward = Params::new();
    for (key, value) in pairs {
        forward.insert(key.into(), value.into());
    }
    let mut backward = Params::new();
    for (key, value) in pairs.iter().rev() {
        backward.insert(key.to_string(), value.to_string());
    }
    assert_eq!(build_request(forward), "quantity=1&side=BUY&symbol=LTCBTC&type=LIMIT");
    assert_eq!(build_request(backward), "quantity=1&side=BUY&symbol=LTCBTC&type=LIMIT");
}
