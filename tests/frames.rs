use binance_async::frame::OutFrame;
use binance_async::frame::OutboundItem;
use binance_async::frame::Param;
use binance_async::frame::WSRequest;
use binance_async::frame::WSRequestMethod;
use binance_async::frame::WS_PROPERTY_COMBINED;
use binance_async::stream::ChartInterval;
use binance_async::stream::WSStream;
use binance_async::ws::connect_url;
use binance_async::ws::get_property_request;
use binance_async::ws::list_subscriptions_request;
use binance_async::ws::set_property_request;
use binance_async::ws::subscribe_request;
use binance_async::ws::unsubscribe_request;
use binance_async::ws::WSFApi;
use binance_async::ws::WSSApi;
use std::time::Duration;

#[test]
fn stream_names_fold_the_symbol() {
    assert_eq!(WSStream::AggTrade("BTCUSDT".to_string()).name(), "btcusdt@aggTrade");
    assert_eq!(
        WSStream::Kline("EthUsdt".to_string(), ChartInterval::OneMonth).name(),
        "ethusdt@kline_1M"
    );
    assert_eq!(
        WSStream::PartialBookDepth500ms("BNBUSDT".to_string(), 20).name(),
        "bnbusdt@depth20@500ms"
    );
    assert_eq!(WSStream::PartialBookDepth("BNBUSDT".to_string(), 5).name(), "bnbusdt@depth5");
    assert_eq!(WSStream::BookDepthRealTime("X".to_string()).name(), "x@depth@0ms");
    assert_eq!(WSStream::AllMarkPriceOneSec.name(), "!markPrice@arr@1s");
    assert_eq!(WSStream::UserData("AbCListenKey".to_string()).name(), "AbCListenKey");
}

#[test]
fn interval_texts() {
    assert_eq!(ChartInterval::FifteenMinute.text(), "15m");
    assert_eq!(ChartInterval::TwelveHour.text(), "12h");
    assert_eq!(ChartInterval::OneWeek.text(), "1w");
}

#[test]
fn command_without_id_or_params() {
    let req = WSRequest::new(WSRequestMethod::ListSubscriptions);
    assert_eq!(req.to_json(), r#"{"method":"LIST_SUBSCRIPTIONS"}"#);
}

#[test]
fn command_with_id_and_params() {
    let mut req = subscribe_request(&WSStream::AggTrade("BTCUSDT".to_string()));
    req.id = Some(1);
    assert_eq!(req.to_json(), r#"{"id":1,"method":"SUBSCRIBE","params":["btcusdt@aggTrade"]}"#);
    req.id = Some(18446744073709551615);
    assert_eq!(
        req.to_json(),
        r#"{"id":18446744073709551615,"method":"SUBSCRIBE","params":["btcusdt@aggTrade"]}"#
    );
}

#[test]
fn command_with_several_params() {
    let mut req = set_property_request(WS_PROPERTY_COMBINED, Param::Bool(true));
    req.id = Some(42);
    assert_eq!(req.to_json(), r#"{"id":42,"method":"SET_PROPERTY","params":["combined",true]}"#);
    let req = WSRequest::new(WSRequestMethod::Unsubscribe)
        .stream(&WSStream::Ticker("A".to_string()))
        .stream(&WSStream::AllTicker);
    assert_eq!(req.to_json(), r#"{"method":"UNSUBSCRIBE","params":["a@ticker","!ticker@arr"]}"#);
    let req = WSRequest::new(WSRequestMethod::SetProperty).set_property("p", Param::Null);
    assert_eq!(req.to_json(), r#"{"method":"SET_PROPERTY","params":["p",null]}"#);
}

#[test]
fn string_params_are_escaped() {
    let req = WSRequest::new(WSRequestMethod::GetProperty).get_property("a\"b\\c\nd\u{1}é");
    assert_eq!(
        req.to_json(),
        "{\"method\":\"GET_PROPERTY\",\"params\":[\"a\\\"b\\\\c\\nd\\u0001é\"]}"
    );
}

#[test]
fn timeout_is_never_written() {
    let req = WSRequest::new(WSRequestMethod::ListSubscriptions).timeout(Duration::from_millis(5));
    assert_eq!(req.timeout, Some(Duration::from_millis(5)));
    assert_eq!(req.to_json(), r#"{"method":"LIST_SUBSCRIPTIONS"}"#);
}

#[test]
fn commands_carry_the_default_deadline() {
    let ten = Some(Duration::from_secs(10));
    let s = subscribe_request(&WSStream::BookTicker("X".to_string()));
    assert_eq!(s.method, WSRequestMethod::Subscribe);
    assert_eq!(s.timeout, ten);
    assert_eq!(s.id, None);
    let u = unsubscribe_request(&WSStream::BookTicker("X".to_string()));
    assert_eq!(u.method, WSRequestMethod::Unsubscribe);
    assert_eq!(u.to_json(), r#"{"method":"UNSUBSCRIBE","params":["x@bookTicker"]}"#);
    let l = list_subscriptions_request();
    assert_eq!(l.timeout, ten);
    assert!(l.params.is_empty());
    let g = get_property_request("combined");
    assert_eq!(g.method, WSRequestMethod::GetProperty);
    assert_eq!(g.to_json(), r#"{"method":"GET_PROPERTY","params":["combined"]}"#);
    assert_eq!(g.timeout, ten);
}

#[test]
fn connect_urls() {
    assert_eq!(connect_url::<WSFApi>(None), "wss://fstream.binance.com/ws/");
    assert_eq!(
        connect_url::<WSSApi>(Some(&WSStream::UserData("key".to_string()))),
        "wss://stream.binance.com:9443/ws/key"
    );
}

#[test]
fn outbound_items_become_frames() {
    match OutboundItem::Pong(vec![1, 2, 3]).into_frame() {
        OutFrame::Pong(p) => assert_eq!(p, vec![1, 2, 3]),
        other => panic!("unexpected frame {:?}", other),
    }
    let mut req = list_subscriptions_request();
    req.id = Some(7);
    match OutboundItem::Command(req).into_frame() {
        OutFrame::Text(t) => assert_eq!(t, r#"{"id":7,"method":"LIST_SUBSCRIPTIONS"}"#),
        other => panic!("unexpected frame {:?}", other),
    }
}

#[test]
fn raw_params_are_placed_as_written() {
    let req = WSRequest::new(WSRequestMethod::SetProperty)
        .set_property("depth", Param::Raw("{\"levels\":[5,10]}".to_string()));
    assert_eq!(
        req.to_json(),
        r#"{"method":"SET_PROPERTY","params":["depth",{"levels":[5,10]}]}"#
    );
}
