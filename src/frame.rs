//! The frames exchanged with the streaming endpoint: commands going out,
//! replies and push events coming in, and the keepalive echo.

use crate::json::decimal;
use crate::json::push_decimal;
use crate::json::push_quoted;
use crate::json::quoted;
use crate::stream::WSStream;
use core::time::Duration;
use vstd::prelude::*;

verus! {

/// The property that switches the endpoint to combined stream payloads.
pub const WS_PROPERTY_COMBINED: &'static str = "combined";

/// How long a command waits for its reply unless told otherwise.
pub const WS_REQUEST_TIMEOUT_SECS: u64 = 10;

/// The duration of a whole number of seconds.
pub uninterp spec fn secs_duration(secs: u64) -> Duration;

/// Relies on `Duration::from_secs`: the duration depends on the count alone.
#[verifier::external_body]
pub(crate) fn duration_from_secs(secs: u64) -> (r: Duration)
    ensures
        r == secs_duration(secs),
{
    Duration::from_secs(secs)
}

/// The command a request carries.
#[derive(Clone, Copy, Debug, PartialEq, Eq, Structural)]
pub enum WSRequestMethod {
    Subscribe,
    Unsubscribe,
    ListSubscriptions,
    SetProperty,
    GetProperty,
}

impl WSRequestMethod {
    /// The method as a JSON string.
    pub open spec fn spec_json(self) -> Seq<char> {
        match self {
            WSRequestMethod::Subscribe => "\"SUBSCRIBE\""@,
            WSRequestMethod::Unsubscribe => "\"UNSUBSCRIBE\""@,
            WSRequestMethod::ListSubscriptions => "\"LIST_SUBSCRIPTIONS\""@,
            WSRequestMethod::SetProperty => "\"SET_PROPERTY\""@,
            WSRequestMethod::GetProperty => "\"GET_PROPERTY\""@,
        }
    }

    pub fn json(&self) -> (r: &'static str)
        ensures
            r@ == self.spec_json(),
    {
        match self {
            WSRequestMethod::Subscribe => "\"SUBSCRIBE\"",
            WSRequestMethod::Unsubscribe => "\"UNSUBSCRIBE\"",
            WSRequestMethod::ListSubscriptions => "\"LIST_SUBSCRIPTIONS\"",
            WSRequestMethod::SetProperty => "\"SET_PROPERTY\"",
            WSRequestMethod::GetProperty => "\"GET_PROPERTY\"",
        }
    }
}

/// One positional parameter of a command.
#[derive(Clone, Debug)]
pub enum Param {
    /// A string, written as a JSON string literal.
    Str(String),
    Bool(bool),
    Null,
    /// A value already written as JSON text, placed as it is.
    Raw(String),
}

impl Param {
    /// The parameter as JSON text.
    pub open spec fn spec_json(&self) -> Seq<char> {
        match self {
            Param::Str(s) => quoted(s@),
            Param::Bool(b) => if *b {
                "true"@
            } else {
                "false"@
            },
            Param::Null => "null"@,
            Param::Raw(text) => text@,
        }
    }

    pub fn push_json(&self, out: &mut String)
        ensures
            final(out)@ == old(out)@ + self.spec_json(),
    {
        match self {
            Param::Str(s) => push_quoted(out, s.as_str()),
            Param::Bool(b) => if *b {
                out.append("true");
            } else {
                out.append("false");
            },
            Param::Null => out.append("null"),
            Param::Raw(text) => out.append(text.as_str()),
        }
    }
}

/// The parameters as the elements of a JSON array, comma separated.
pub open spec fn params_json(ps: Seq<Param>) -> Seq<char>
    decreases ps.len(),
{
    if ps.len() == 0 {
        Seq::empty()
    } else if ps.len() == 1 {
        ps[0].spec_json()
    } else {
        params_json(ps.drop_last()) + ","@ + ps.last().spec_json()
    }
}

/// A command to the streaming endpoint. The id is set when the command is
/// accepted by the session; the timeout stays on this side of the wire.
#[derive(Clone, Debug)]
pub struct WSRequest {
    pub id: Option<u64>,
    pub method: WSRequestMethod,
    pub params: Vec<Param>,
    pub timeout: Option<Duration>,
}

impl WSRequest {
    /// The command's frame text: the id only once set, the parameters only
    /// when there are any, and never the timeout.
    pub open spec fn spec_json(&self) -> Seq<char> {
        "{"@ + match self.id {
            Some(id) => "\"id\":"@ + decimal(id as nat) + ","@,
            None => Seq::empty(),
        } + "\"method\":"@ + self.method.spec_json() + if self.params@.len() == 0 {
            Seq::empty()
        } else {
            ",\"params\":["@ + params_json(self.params@) + "]"@
        } + "}"@
    }

    pub fn new(method: WSRequestMethod) -> (r: Self)
        ensures
            r.id is None,
            r.method == method,
            r.params@ == Seq::<Param>::empty(),
            r.timeout is None,
    {
        WSRequest { id: None, method, params: Vec::new(), timeout: None }
    }

    /// Turns the command into a read of `property`.
    pub fn get_property(self, property: &str) -> (r: Self)
        ensures
            r.id == self.id,
            r.method == WSRequestMethod::GetProperty,
            r.params@.len() == self.params@.len() + 1,
            r.params@.drop_last() == self.params@,
            r.params@.last() matches Param::Str(p) && p@ == property@,
            r.timeout == self.timeout,
    {
        let mut r = self;
        r.method = WSRequestMethod::GetProperty;
        r.params.push(Param::Str(String::from_str(property)));
        assert(r.params@.drop_last() =~= self.params@);
        r
    }

    /// Turns the command into a write of `value` to `property`.
    pub fn set_property(self, property: &str, value: Param) -> (r: Self)
        ensures
            r.id == self.id,
            r.method == WSRequestMethod::SetProperty,
            r.params@.len() == self.params@.len() + 2,
            r.params@.subrange(0, self.params@.len() as int) == self.params@,
            r.params@[self.params@.len() as int] matches Param::Str(p) && p@ == property@,
            r.params@.last() == value,
            r.timeout == self.timeout,
    {
        let mut r = self;
        r.method = WSRequestMethod::SetProperty;
        r.params.push(Param::Str(String::from_str(property)));
        r.params.push(value);
        assert(r.params@.subrange(0, self.params@.len() as int) =~= self.params@);
        r
    }

    /// Adds a stream's name to the parameters.
    pub fn stream(self, stream: &WSStream) -> (r: Self)
        ensures
            r.id == self.id,
            r.method == self.method,
            r.params@.len() == self.params@.len() + 1,
            r.params@.drop_last() == self.params@,
            r.params@.last() matches Param::Str(p) && p@ == stream.spec_name(),
            r.timeout == self.timeout,
    {
        let mut r = self;
        r.params.push(Param::Str(stream.name()));
        assert(r.params@.drop_last() =~= self.params@);
        r
    }

    pub fn timeout(self, timeout: Duration) -> (r: Self)
        ensures
            r.id == self.id,
            r.method == self.method,
            r.params == self.params,
            r.timeout == Some(timeout),
    {
        let mut r = self;
        r.timeout = Some(timeout);
        r
    }

    /// The command's frame text.
    pub fn to_json(&self) -> (r: String)
        ensures
            r@ == self.spec_json(),
    {
        let mut out = String::from_str("{");
        match self.id {
            Some(id) => {
                out.append("\"id\":");
                push_decimal(&mut out, id);
                out.append(",");
            },
            None => {},
        }
        out.append("\"method\":");
        out.append(self.method.json());
        let n = self.params.len();
        if n > 0 {
            let ghost start = out@;
            out.append(",\"params\":[");
            let mut i: usize = 0;
            while i < n
                invariant
                    n == self.params@.len(),
                    0 < n,
                    i <= n,
                    out@ == start + ",\"params\":["@ + params_json(self.params@.subrange(0, i as int)),
                decreases n - i,
            {
                let ghost before = out@;
                if i > 0 {
                    out.append(",");
                }
                self.params[i].push_json(&mut out);
                let ghost ps = self.params@.subrange(0, i + 1);
                assert(ps.drop_last() =~= self.params@.subrange(0, i as int));
                assert(ps.last() == self.params@[i as int]);
                if i == 0 {
                    assert(self.params@.subrange(0, 0) =~= Seq::<Param>::empty());
                }
                i = i + 1;
            }
            assert(self.params@.subrange(0, n as int) =~= self.params@);
            out.append("]");
        }
        out.append("}");
        out
    }
}

/// A reply to a command: the command's id and its opaque result.
#[derive(Debug)]
pub struct WSResponse {
    pub id: u64,
    pub result: serde_json::Value,
}

/// The shapes a decoded text frame can take.
pub enum Envelope<E> {
    /// An unsolicited push event.
    Event(E),
    /// A command, which the endpoint never sends.
    Request(WSRequest),
    /// The reply to a command.
    Response(WSResponse),
    /// A keepalive echo, which the endpoint never sends.
    Pong(Vec<u8>),
}

/// What the outbound task writes: a caller's command, or the echo of a
/// keepalive ping.
pub enum OutboundItem {
    Command(WSRequest),
    Pong(Vec<u8>),
}

/// A frame as the connection writes it.
#[derive(Debug)]
pub enum OutFrame {
    Text(String),
    Pong(Vec<u8>),
}

impl OutboundItem {
    /// Serialises the item: a command as a text frame, an echo as a pong
    /// with the ping's payload.
    pub fn into_frame(self) -> (r: OutFrame)
        ensures
            match self {
                OutboundItem::Command(req) => r matches OutFrame::Text(t) && t@ == req.spec_json(),
                OutboundItem::Pong(p) => r matches OutFrame::Pong(q) && q@ == p@,
            },
    {
        match self {
            OutboundItem::Command(req) => OutFrame::Text(req.to_json()),
            OutboundItem::Pong(p) => OutFrame::Pong(p),
        }
    }
}

} // verus!
