use binance_async::dispatch::begin_command;
use binance_async::dispatch::fail_command;
use binance_async::dispatch::orphan_error;
use binance_async::dispatch::route_inbound;
use binance_async::dispatch::settle_wait;
use binance_async::dispatch::Inbound;
use binance_async::dispatch::Routing;
use binance_async::dispatch::WaitEnd;
use binance_async::error::ClientError;
use binance_async::error::WSApiCode;
use binance_async::frame::Envelope;
use binance_async::frame::OutFrame;
use binance_async::frame::OutboundItem;
use binance_async::frame::WSRequest;
use binance_async::frame::WSRequestMethod;
use binance_async::frame::WSResponse;
use binance_async::session::SessionState;
use binance_async::stream::WSStream;
use binance_async::ws::get_property_request;
use binance_async::ws::subscribe_request;

type Seen = Inbound<String>;

fn reply(id: u64) -> WSResponse {
    WSResponse { id, result: serde_json::Value::Null }
}

#[test]
fn ids_start_at_one_and_increase() {
    let mut s: SessionState<&str> = SessionState::new();
    assert_eq!(s.next_id(), 1);
    assert_eq!(s.begin("a"), Some(1));
    assert_eq!(s.begin("b"), Some(2));
    assert_eq!(s.finish(1), Some("a"));
    assert_eq!(s.begin("c"), Some(3));
    assert_eq!(s.finish(2), Some("b"));
    assert_eq!(s.finish(3), Some("c"));
    assert_eq!(s.begin("d"), Some(4));
    assert_eq!(s.pending_count(), 1);
}

#[test]
fn finishing_one_request_leaves_the_other() {
    let mut s: SessionState<&str> = SessionState::new();
    let a = s.begin("a").unwrap();
    let b = s.begin("b").unwrap();
    assert_eq!(s.finish(a), Some("a"));
    assert_eq!(s.finish(a), None);
    assert!(s.is_pending(b));
    assert_eq!(s.finish(b), Some("b"));
}

#[test]
fn closed_session_refuses_new_commands() {
    let mut s: SessionState<&str> = SessionState::new();
    s.begin("a");
    s.begin("b");
    let orphans = s.shut_down();
    assert!(s.is_closed());
    assert_eq!(orphans.len(), 2);
    assert_eq!(orphans.get(&1), Some(&"a"));
    assert_eq!(orphans.get(&2), Some(&"b"));
    assert_eq!(s.pending_count(), 0);
    assert_eq!(s.begin("c"), None);
    assert_eq!(s.next_id(), 3);
    let r = begin_command::<&str, WSApiCode>(&mut s, list_req(), "d");
    assert!(matches!(r, Err(ClientError::WebsocketClosed)));
    assert_eq!(s.pending_count(), 0);
}

fn list_req() -> WSRequest {
    WSRequest::new(WSRequestMethod::ListSubscriptions)
}

#[test]
fn timed_out_requests_leave_no_entries() {
    let mut s: SessionState<u32> = SessionState::new();
    for n in 0..100u32 {
        let req = begin_command::<u32, WSApiCode>(&mut s, list_req(), n).unwrap();
        let id = req.id.unwrap();
        assert_eq!(id, n as u64 + 1);
        let r = settle_wait::<u32, WSApiCode>(&mut s, id, WaitEnd::DeadlineElapsed);
        assert!(matches!(r, Err(ClientError::WebsocketRequestTimeout)));
    }
    assert_eq!(s.pending_count(), 0);
    assert_eq!(s.next_id(), 101);
}

#[test]
fn dropped_sink_cancels_and_cleans_up() {
    let mut s: SessionState<u32> = SessionState::new();
    let req = begin_command::<u32, WSApiCode>(&mut s, list_req(), 9).unwrap();
    let r = settle_wait::<u32, WSApiCode>(&mut s, req.id.unwrap(), WaitEnd::SinkDropped);
    assert!(matches!(r, Err(ClientError::WebsocketRequestCancelled)));
    assert_eq!(s.pending_count(), 0);
}

#[test]
fn resolved_wait_returns_the_reply() {
    let mut s: SessionState<u32> = SessionState::new();
    let req = begin_command::<u32, WSApiCode>(&mut s, list_req(), 9).unwrap();
    s.finish(1);
    let r = settle_wait::<u32, WSApiCode>(&mut s, 1, WaitEnd::Resolved(Ok(reply(1))));
    assert_eq!(r.unwrap().id, 1);
    assert_eq!(req.id, Some(1));
}

#[test]
fn ping_is_echoed_once_and_emits_nothing() {
    let mut s: SessionState<u32> = SessionState::new();
    s.begin(5);
    let (routing, orphans) = route_inbound::<_, _, WSApiCode>(&mut s, Seen::Ping(vec![9, 8, 7]));
    assert!(orphans.is_empty());
    assert_eq!(s.pending_count(), 1);
    assert!(!s.is_closed());
    match routing {
        Routing::Echo(p) => match OutboundItem::Pong(p).into_frame() {
            OutFrame::Pong(q) => assert_eq!(q, vec![9, 8, 7]),
            _ => panic!("expected a pong frame"),
        },
        _ => panic!("expected an echo"),
    }
}

#[test]
fn reply_reaches_its_command_only() {
    let mut s: SessionState<&str> = SessionState::new();
    s.begin("first");
    s.begin("second");
    let (routing, _) = route_inbound::<_, _, WSApiCode>(&mut s, Inbound::<String>::Text(Envelope::Response(reply(2))));
    match routing {
        Routing::Deliver(sink, resp) => {
            assert_eq!(sink, "second");
            assert_eq!(resp.id, 2);
        },
        _ => panic!("expected a delivery"),
    }
    assert!(s.is_pending(1));
    assert!(!s.is_pending(2));
    let (routing, _) = route_inbound::<_, _, WSApiCode>(&mut s, Inbound::<String>::Text(Envelope::Response(reply(2))));
    assert!(matches!(routing, Routing::Skip));
    assert!(s.is_pending(1));
}

#[test]
fn events_are_forwarded() {
    let mut s: SessionState<u8> = SessionState::new();
    let (routing, _) = route_inbound::<_, _, WSApiCode>(&mut s, Seen::Text(Envelope::Event("tick".to_string())));
    assert!(matches!(routing, Routing::Forward(e) if e == "tick"));
    let (routing, _) = route_inbound::<_, _, WSApiCode>(&mut s, Seen::Text(Envelope::Request(list_req())));
    assert!(matches!(routing, Routing::Skip));
    let (routing, _) = route_inbound::<_, _, WSApiCode>(&mut s, Seen::Other);
    assert!(matches!(routing, Routing::Skip));
    assert!(!s.is_closed());
}

#[test]
fn end_of_connection_closes_and_hands_back_waiters() {
    for seen in [Seen::Close, Seen::Ended, Seen::CloseRequested] {
        let mut s: SessionState<u8> = SessionState::new();
        s.begin(1);
        s.begin(2);
        let (routing, orphans) = route_inbound::<_, _, WSApiCode>(&mut s, seen);
        assert!(matches!(routing, Routing::Stop(None)));
        assert_eq!(orphans.len(), 2);
        assert!(s.is_closed());
        assert_eq!(s.pending_count(), 0);
        assert_eq!(s.begin(3), None);
    }
}

#[test]
fn decode_failure_is_reported_and_ends_the_session() {
    let mut s: SessionState<u8> = SessionState::new();
    let err = serde_json::from_str::<u8>("{").unwrap_err();
    let (routing, orphans) = route_inbound::<String, u8, WSApiCode>(&mut s, Seen::Malformed(err));
    assert!(matches!(routing, Routing::Stop(Some(ClientError::ResponseDecoding(_)))));
    assert!(orphans.is_empty());
    assert!(s.is_closed());
}

#[test]
fn failed_write_fails_its_command() {
    let mut s: SessionState<&str> = SessionState::new();
    let sent = begin_command::<&str, WSApiCode>(&mut s, list_req(), "w").unwrap();
    assert_eq!(fail_command(&mut s, &sent), Some("w"));
    assert_eq!(s.pending_count(), 0);
    assert_eq!(fail_command(&mut s, &list_req()), None);
}

#[test]
fn subscribe_then_concurrent_commands_with_interleaved_event() {
    let mut s: SessionState<&str> = SessionState::new();
    let a = subscribe_request(&WSStream::AggTrade("streamA".to_string()));
    let a = begin_command::<&str, WSApiCode>(&mut s, a, "subscribe A").unwrap();
    assert_eq!(a.timeout, Some(std::time::Duration::from_secs(10)));
    assert_eq!(a.to_json(), r#"{"id":1,"method":"SUBSCRIBE","params":["streama@aggTrade"]}"#);
    let (r, _) = route_inbound::<_, _, WSApiCode>(&mut s, Seen::Text(Envelope::Response(reply(1))));
    assert!(matches!(r, Routing::Deliver("subscribe A", ref resp) if resp.id == 1));

    let b = subscribe_request(&WSStream::AggTrade("streamB".to_string()));
    let b = begin_command::<&str, WSApiCode>(&mut s, b, "subscribe B").unwrap();
    let g = begin_command::<&str, WSApiCode>(&mut s, get_property_request("combined"), "get").unwrap();
    assert_eq!(b.id, Some(2));
    assert_eq!(g.id, Some(3));
    assert_eq!(g.to_json(), r#"{"id":3,"method":"GET_PROPERTY","params":["combined"]}"#);

    let (r, _) = route_inbound::<_, _, WSApiCode>(&mut s, Seen::Text(Envelope::Event("streamA push".to_string())));
    assert!(matches!(r, Routing::Forward(ref e) if e == "streamA push"));
    assert_eq!(s.pending_count(), 2);

    let (r, _) = route_inbound::<_, _, WSApiCode>(&mut s, Seen::Text(Envelope::Response(reply(3))));
    assert!(matches!(r, Routing::Deliver("get", _)));
    let (r, _) = route_inbound::<_, _, WSApiCode>(&mut s, Seen::Text(Envelope::Response(reply(2))));
    assert!(matches!(r, Routing::Deliver("subscribe B", _)));
    assert_eq!(s.pending_count(), 0);
    assert!(!s.is_closed());
}

#[test]
fn orphans_are_failed_as_closed() {
    assert!(matches!(orphan_error::<WSApiCode>(), ClientError::WebsocketClosed));
}
