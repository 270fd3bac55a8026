use eth_balance::address::{parse_address, Address};
use eth_balance::balance::{report, reply_status, root, Balance};
use eth_balance::error::{ApiError, STATUS_OK};
use eth_balance::fetch::{accepts, step, FetchAction, FetchEvent, FetchState};
use eth_balance::wei::{to_base_units, Wei, WEI_PER_ETHER};

const SAMPLE: &str = "0x00192Fb10dF37c9FB26829eb2CC623cd1BF599E8";

#[test]
fn root_answers_fixed_text() {
    assert_eq!(root(), "Hello, World!");
    assert_eq!(STATUS_OK, 200);
}

#[test]
fn one_and_a_half_tokens_floor_to_one() {
    let w = Wei::from_u64(1_500_000_000_000_000_000);
    assert_eq!(to_base_units(w), Wei::from_u64(1));
}

#[test]
fn just_under_one_token_floors_to_zero() {
    let w = Wei::from_u64(999_999_999_999_999_999);
    assert_eq!(to_base_units(w), Wei::from_u64(0));
}

#[test]
fn exactly_one_token() {
    assert_eq!(to_base_units(Wei::from_u64(WEI_PER_ETHER)), Wei::from_u64(1));
}

#[test]
fn division_of_a_wide_amount() {
    // 2^64 wei = 18446744073709551616 wei, which is 18 whole tokens.
    let w = Wei::from_words([0, 1, 0, 0]);
    assert_eq!(to_base_units(w), Wei::from_u64(18));
    assert_eq!(w.to_decimal(), "18446744073709551616");
}

#[test]
fn largest_amount_in_decimal() {
    let w = Wei::from_words([u64::MAX; 4]);
    assert_eq!(
        w.to_decimal(),
        "115792089237316195423570985008687907853269984665640564039457584007913129639935"
    );
    assert_eq!(
        to_base_units(w).to_decimal(),
        "115792089237316195423570985008687907853269984665640564039457"
    );
}

#[test]
fn zero_in_decimal() {
    assert_eq!(Wei::from_u64(0).to_decimal(), "0");
    assert_eq!(Wei::from_u64(1_500_000_000_000_000_000).to_decimal(), "1500000000000000000");
}

#[test]
fn parses_prefixed_address() {
    let a = parse_address(SAMPLE).unwrap();
    assert_eq!(a.bytes[0], 0x00);
    assert_eq!(a.bytes[1], 0x19);
    assert_eq!(a.bytes[19], 0xe8);
}

#[test]
fn parses_unprefixed_address() {
    let a = parse_address("00192Fb10dF37c9FB26829eb2CC623cd1BF599E8").unwrap();
    assert_eq!(a, parse_address(SAMPLE).unwrap());
}

#[test]
fn address_round_trips_in_lower_case() {
    let a = parse_address(SAMPLE).unwrap();
    assert_eq!(a.to_hex(), "0x00192fb10df37c9fb26829eb2cc623cd1bf599e8");
}

#[test]
fn address_text_of_bytes() {
    let mut bytes = [0u8; 20];
    bytes[0] = 0xab;
    bytes[19] = 0x01;
    let a = Address { bytes };
    assert_eq!(a.to_hex(), "0xab00000000000000000000000000000000000001");
}

#[test]
fn short_address_is_rejected() {
    assert_eq!(parse_address("0x123"), Err(ApiError::InvalidAddress));
    assert_eq!(ApiError::InvalidAddress.status(), 400);
}

#[test]
fn non_hex_address_is_rejected() {
    assert_eq!(parse_address("not-an-address"), Err(ApiError::InvalidAddress));
}

#[test]
fn empty_and_overlong_addresses_are_rejected() {
    assert_eq!(parse_address(""), Err(ApiError::InvalidAddress));
    assert_eq!(parse_address("0x"), Err(ApiError::InvalidAddress));
    let long = format!("{}0", SAMPLE);
    assert_eq!(parse_address(&long), Err(ApiError::InvalidAddress));
    let bad = "0x00192Fb10dF37c9FB26829eb2CC623cd1BF599Eg";
    assert_eq!(parse_address(bad), Err(ApiError::InvalidAddress));
}

#[test]
fn error_statuses() {
    assert_eq!(ApiError::InvalidAddress.status(), 400);
    assert_eq!(ApiError::Configuration.status(), 500);
    assert_eq!(ApiError::Connection.status(), 502);
    assert_eq!(ApiError::Rpc.status(), 502);
    assert_eq!(ApiError::Timeout.status(), 504);
    assert_eq!(ApiError::Configuration.message(), "no RPC endpoint is configured");
}

#[test]
fn missing_endpoint_is_reported() {
    let (s, a) = step(FetchState::Start, FetchEvent::Endpoint(None));
    assert_eq!(s, FetchState::Finished);
    assert_eq!(a, FetchAction::Finish(Err(ApiError::Configuration)));
    assert_eq!(ApiError::Configuration.status(), 500);
}

#[test]
fn refused_connection_ends_with_server_error() {
    let url = "ws://127.0.0.1:1".to_string();
    let (s, a) = step(FetchState::Start, FetchEvent::Endpoint(Some(url.clone())));
    assert_eq!(s, FetchState::Connecting);
    assert_eq!(a, FetchAction::Connect(url));
    let (s, a) = step(s, FetchEvent::Connected(false));
    assert_eq!(s, FetchState::Finished);
    assert_eq!(a, FetchAction::Finish(Err(ApiError::Connection)));
    assert_eq!(ApiError::Connection.status(), 502);
}

#[test]
fn failed_call_and_timeout_end_the_fetch() {
    let (s, a) = step(FetchState::Querying, FetchEvent::Answered(None));
    assert_eq!((s, a), (FetchState::Finished, FetchAction::Finish(Err(ApiError::Rpc))));
    let (s, a) = step(FetchState::Connecting, FetchEvent::TimedOut);
    assert_eq!((s, a), (FetchState::Finished, FetchAction::Finish(Err(ApiError::Timeout))));
    assert!(!accepts(FetchState::Finished, &FetchEvent::TimedOut));
}

#[test]
fn successful_fetch_in_three_steps() {
    let w = Wei::from_u64(42);
    let (s, a) = step(FetchState::Start, FetchEvent::Endpoint(Some("ws://node".to_string())));
    assert!(matches!(a, FetchAction::Connect(_)));
    assert!(accepts(s, &FetchEvent::Connected(true)));
    let (s, a) = step(s, FetchEvent::Connected(true));
    assert_eq!(a, FetchAction::QueryBalance);
    let (s, a) = step(s, FetchEvent::Answered(Some(w)));
    assert_eq!(s, FetchState::Finished);
    assert_eq!(a, FetchAction::Finish(Ok(w)));
}

#[test]
fn report_of_a_fetched_amount() {
    let a = parse_address(SAMPLE).unwrap();
    let r = report(a, Ok(Wei::from_u64(1_500_000_000_000_000_000)));
    assert_eq!(reply_status(&r), 200);
    let b = r.unwrap();
    assert_eq!(b.address, a);
    assert_eq!(b.wei.to_decimal(), "1500000000000000000");
    assert_eq!(b.balance.to_decimal(), "1");
}

#[test]
fn failed_fetch_is_passed_on() {
    let a = parse_address(SAMPLE).unwrap();
    let r = report(a, Err(ApiError::Timeout));
    assert_eq!(r, Err(ApiError::Timeout));
    assert_eq!(reply_status(&r), 504);
}

#[test]
fn two_requests_keep_their_own_accounts() {
    let a1 = parse_address(SAMPLE).unwrap();
    let a2 = parse_address("0x0000000000000000000000000000000000000001").unwrap();
    let b1 = Balance::new(a1, Wei::from_u64(7));
    let b2 = Balance::new(a2, Wei::from_u64(3_000_000_000_000_000_000));
    assert_eq!(b1.address, a1);
    assert_eq!(b2.address, a2);
    assert_eq!(b1.wei, Wei::from_u64(7));
    assert_eq!(b2.balance, Wei::from_u64(3));
}
