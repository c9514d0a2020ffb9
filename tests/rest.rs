use binance_async::client::classify_status;
use binance_async::client::request_url_at;
use binance_async::client::Api;
use binance_async::client::Credentials;
use binance_async::client::FApi;
use binance_async::client::SApi;
use binance_async::client::StatusClass;
use binance_async::extensions::Poll;
use binance_async::fields::string_as_bool;
use binance_async::extensions::ResultExt;
use binance_async::paths::AccountApi;
use binance_async::paths::ExchangeApi;
use binance_async::paths::MarketApi;
use binance_async::paths::TradeApi;

fn venue_creds() -> Credentials {
    Credentials::new(
        "vmPUZE6mv9SD5VNHk4HlWFsOr6aKE2zvsw0MuIgwCIPy6utIco14y7Ju91duEh8A".to_string(),
        "NhqPtmdSJYdKjVHjA7PZj4Mge3R5YNiP1e3UZjInClVN65XAbvqqM6A7H5fATj0j".to_string(),
    )
}

#[test]
fn signs_with_hmac_sha256_in_hex() {
    let creds = Credentials::new("k".to_string(), "key".to_string());
    assert_eq!(
        creds.sign(b"The quick brown fox jumps over the lazy dog"),
        "f7bc83f430538424b13298e6aa6fb143ef4d59a14946175997479dbc2d1a3cd8"
    );
    assert_eq!(creds.api_key(), "k");
}

#[test]
fn signs_a_query_at_a_given_time() {
    let creds = venue_creds();
    let signed = creds.signed_query_at(
        "symbol=LTCBTC&side=BUY&type=LIMIT&timeInForce=GTC&quantity=1&price=0.1&recvWindow=5000",
        1499827319559,
    );
    assert_eq!(
        signed,
        "symbol=LTCBTC&side=BUY&type=LIMIT&timeInForce=GTC&quantity=1&price=0.1&recvWindow=5000\
         &timestamp=1499827319559\
         &signature=c8db56825ae71d6d79447849e617115f4a920fa2acdcab2b053c4b2838bd6b71"
    );
    let negative = creds.signed_query_at("a=1", -5);
    assert!(negative.starts_with("a=1&timestamp=-5&signature="));
}

#[test]
fn builds_urls() {
    assert_eq!(
        request_url_at::<FApi>(None, "/fapi/v1/ping", "", 1),
        "https://fapi.binance.com/fapi/v1/ping?"
    );
    assert_eq!(
        request_url_at::<SApi>(None, "/api/v3/depth", "symbol=BTCUSDT", 1),
        "https://api.binance.com/api/v3/depth?symbol=BTCUSDT"
    );
    let creds = venue_creds();
    let url = request_url_at::<FApi>(Some(&creds), "/fapi/v2/balance", "", 1499827319559);
    assert_eq!(
        url,
        format!(
            "https://fapi.binance.com/fapi/v2/balance?{}",
            creds.signed_query_at("", 1499827319559)
        )
    );
    assert!(url.starts_with("https://fapi.binance.com/fapi/v2/balance?&timestamp=1499827319559&signature="));
    assert_eq!(FApi::host(), "https://fapi.binance.com");
    assert_eq!(SApi::host(), "https://api.binance.com");
}

#[test]
fn reads_statuses() {
    assert_eq!(classify_status(200), StatusClass::Success);
    assert_eq!(classify_status(403), StatusClass::FirewallLimit);
    assert_eq!(classify_status(418), StatusClass::Banned);
    assert_eq!(classify_status(429), StatusClass::RateLimited);
    assert_eq!(classify_status(400), StatusClass::BadRequest);
    assert_eq!(classify_status(499), StatusClass::BadRequest);
    assert_eq!(classify_status(503), StatusClass::Timeout);
    assert_eq!(classify_status(500), StatusClass::ServerError);
    assert_eq!(classify_status(599), StatusClass::ServerError);
    assert_eq!(classify_status(201), StatusClass::Other);
    assert_eq!(classify_status(302), StatusClass::Other);
    assert_eq!(classify_status(600), StatusClass::Other);
}

#[test]
fn endpoint_paths() {
    assert_eq!(<FApi as AccountApi>::balance(), Some("/fapi/v2/balance"));
    assert_eq!(<SApi as AccountApi>::balance(), None);
    assert_eq!(<SApi as AccountApi>::listen_key(), Some("/api/v3/listenKey"));
    assert_eq!(<SApi as ExchangeApi>::time(), Some("/api/v3/time"));
    assert_eq!(<FApi as MarketApi>::order_book(), Some("/fapi/v1/depth"));
    assert_eq!(<SApi as TradeApi>::leverage(), None);
    assert_eq!(<SApi as TradeApi>::all_open_orders(), Some("/api/v3/openOrders"));
}

#[test]
fn flattens_nested_results() {
    let ok: Result<Result<u8, &str>, &str> = Ok(Ok(3));
    assert_eq!(ok.x_flatten(), Ok(3));
    let inner: Result<Result<u8, &str>, &str> = Ok(Err("inner"));
    assert_eq!(inner.x_flatten(), Err("inner"));
    let outer: Result<Result<u8, &str>, &str> = Err("outer");
    assert_eq!(outer.x_flatten(), Err("outer"));
}

#[test]
fn maps_stream_polls() {
    let p: Poll<Option<Result<u8, &str>>> = Poll::Ready(Some(Ok(2)));
    assert_eq!(p.x_map_ok(|v| v * 10), Poll::Ready(Some(Ok(20))));
    let p: Poll<Option<Result<u8, &str>>> = Poll::Ready(Some(Err("e")));
    assert_eq!(p.x_map_ok(|v| v * 10), Poll::Ready(Some(Err("e"))));
    let p: Poll<Option<Result<u8, &str>>> = Poll::Ready(Some(Err("e")));
    assert_eq!(p.x_map_err(|e| e.len()), Poll::Ready(Some(Err(1))));
    let p: Poll<Option<Result<u8, &str>>> = Poll::Pending;
    assert_eq!(p.x_map_err(|e| e.len()), Poll::Pending);
    let p: Poll<Option<Result<u8, &str>>> = Poll::Ready(None);
    assert_eq!(p.x_map_ok(|v| v + 1), Poll::Ready(None));
    let p: Poll<Option<Result<u8, &str>>> = Poll::Ready(Some(Ok(0)));
    assert_eq!(p.x_map_flatten(|v| if v == 0 { Err("zero") } else { Ok(v) }), Poll::Ready(Some(Err("zero"))));
    let p: Poll<Option<Result<u8, &str>>> = Poll::Ready(Some(Ok(4)));
    assert_eq!(p.x_map_flatten(|v| if v == 0 { Err("zero") } else { Ok(v) }), Poll::Ready(Some(Ok(4))));
}

#[test]
fn polls_convert_to_and_from_std() {
    let p: Poll<u8> = Poll::from_std(std::task::Poll::Ready(3));
    assert_eq!(p, Poll::Ready(3));
    assert_eq!(Poll::<u8>::Pending.into_std(), std::task::Poll::Pending);
    assert_eq!(Poll::from_std(std::task::Poll::<u8>::Pending), Poll::Pending);
    assert_eq!(Poll::Ready(5u8).into_std(), std::task::Poll::Ready(5));
}

#[test]
fn reads_flags_written_as_text() {
    assert!(string_as_bool("true"));
    assert!(string_as_bool("TRUE"));
    assert!(string_as_bool("1"));
    assert!(string_as_bool("T"));
    assert!(!string_as_bool("false"));
    assert!(!string_as_bool("0"));
    assert!(!string_as_bool(""));
    assert!(!string_as_bool("yes"));
}
