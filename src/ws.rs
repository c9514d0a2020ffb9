//! The streaming endpoints, and the commands a client handle issues on one.

use crate::frame::duration_from_secs;
use crate::frame::secs_duration;
use crate::frame::Param;
use crate::frame::WSRequest;
use crate::frame::WSRequestMethod;
use crate::frame::WS_REQUEST_TIMEOUT_SECS;
use crate::stream::WSStream;
use vstd::prelude::*;

verus! {

/// One of the venue's streaming endpoints.
pub trait WSApi {
    /// The endpoint's base URL; a stream's name may follow it.
    spec fn spec_host() -> Seq<char>;

    fn host() -> (r: &'static str)
        ensures
            r@ == Self::spec_host(),
    ;
}

/// The futures streaming endpoint.
#[derive(Clone, Copy, Debug)]
pub struct WSFApi;

/// The spot streaming endpoint.
#[derive(Clone, Copy, Debug)]
pub struct WSSApi;

impl WSApi for WSFApi {
    open spec fn spec_host() -> Seq<char> {
        "wss://fstream.binance.com/ws/"@
    }

    fn host() -> (r: &'static str) {
        "wss://fstream.binance.com/ws/"
    }
}

impl WSApi for WSSApi {
    open spec fn spec_host() -> Seq<char> {
        "wss://stream.binance.com:9443/ws/"@
    }

    fn host() -> (r: &'static str) {
        "wss://stream.binance.com:9443/ws/"
    }
}

/// The URL to connect to: the endpoint, followed by the name of the stream
/// to select before the first frame, if one is given.
pub fn connect_url<A: WSApi>(stream: Option<&WSStream>) -> (r: String)
    ensures
        r@ == A::spec_host() + match stream {
            Some(s) => s.spec_name(),
            None => Seq::empty(),
        },
{
    let mut r = String::from_str(A::host());
    match stream {
        Some(s) => {
            let name = s.name();
            r.append(name.as_str());
        },
        None => {
            assert(r@ + Seq::<char>::empty() =~= r@);
        },
    }
    r
}

/// The command's fields, as every command of a client handle sets them:
/// no id yet, and the default deadline.
pub open spec fn is_command(r: WSRequest, method: WSRequestMethod) -> bool {
    &&& r.id is None
    &&& r.method == method
    &&& r.timeout == Some(secs_duration(WS_REQUEST_TIMEOUT_SECS))
}

/// The parameter is the string `s`.
pub open spec fn is_str_param(p: Param, s: Seq<char>) -> bool {
    p matches Param::Str(t) && t@ == s
}

/// The command that subscribes to a stream.
pub fn subscribe_request(stream: &WSStream) -> (r: WSRequest)
    ensures
        is_command(r, WSRequestMethod::Subscribe),
        r.params@.len() == 1,
        is_str_param(r.params@[0], stream.spec_name()),
{
    let r = WSRequest::new(WSRequestMethod::Subscribe).stream(stream).timeout(
        duration_from_secs(WS_REQUEST_TIMEOUT_SECS),
    );
    assert(r.params@[0] == r.params@.last());
    r
}

/// The command that ends a subscription.
pub fn unsubscribe_request(stream: &WSStream) -> (r: WSRequest)
    ensures
        is_command(r, WSRequestMethod::Unsubscribe),
        r.params@.len() == 1,
        is_str_param(r.params@[0], stream.spec_name()),
{
    let r = WSRequest::new(WSRequestMethod::Unsubscribe).stream(stream).timeout(
        duration_from_secs(WS_REQUEST_TIMEOUT_SECS),
    );
    assert(r.params@[0] == r.params@.last());
    r
}

/// The command that lists the current subscriptions.
pub fn list_subscriptions_request() -> (r: WSRequest)
    ensures
        is_command(r, WSRequestMethod::ListSubscriptions),
        r.params@.len() == 0,
{
    WSRequest::new(WSRequestMethod::ListSubscriptions).timeout(
        duration_from_secs(WS_REQUEST_TIMEOUT_SECS),
    )
}

/// The command that reads a property.
pub fn get_property_request(property: &str) -> (r: WSRequest)
    ensures
        is_command(r, WSRequestMethod::GetProperty),
        r.params@.len() == 1,
        is_str_param(r.params@[0], property@),
{
    let r = WSRequest::new(WSRequestMethod::GetProperty).get_property(property).timeout(
        duration_from_secs(WS_REQUEST_TIMEOUT_SECS),
    );
    assert(r.params@[0] == r.params@.last());
    r
}

/// The command that writes a property.
pub fn set_property_request(property: &str, value: Param) -> (r: WSRequest)
    ensures
        is_command(r, WSRequestMethod::SetProperty),
        r.params@.len() == 2,
        is_str_param(r.params@[0], property@),
        r.params@[1] == value,
{
    let r = WSRequest::new(WSRequestMethod::SetProperty).set_property(property, value).timeout(
        duration_from_secs(WS_REQUEST_TIMEOUT_SECS),
    );
    assert(r.params@[1] == r.params@.last());
    r
}

} // verus!
