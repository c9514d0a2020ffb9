//! The pure parts of the venue's request/response interface: the two
//! interfaces and their hosts, signing with the caller's credentials, the
//! assembly of a request's URL, and the reading of a response's status.

use crate::error::ApiCode;
use crate::error::FApiCode;
use crate::error::SApiCode;
use crate::json::decimal;
use crate::json::digit_text;
use crate::json::push_decimal;
use hmac::Mac;
use hmac::NewMac;
use vstd::prelude::*;
use vstd::utf8::encode_utf8;

verus! {

/// One of the venue's request/response interfaces.
pub trait Api {
    /// The table of error codes specific to the interface.
    type ErrorCode: ApiCode;

    /// The interface's base URL.
    spec fn spec_host() -> Seq<char>;

    fn host() -> (r: &'static str)
        ensures
            r@ == Self::spec_host(),
    ;
}

/// The futures interface.
#[derive(Clone, Copy, Debug)]
pub struct FApi;

/// The spot interface.
#[derive(Clone, Copy, Debug)]
pub struct SApi;

impl Api for FApi {
    type ErrorCode = FApiCode;

    open spec fn spec_host() -> Seq<char> {
        "https://fapi.binance.com"@
    }

    fn host() -> (r: &'static str) {
        "https://fapi.binance.com"
    }
}

impl Api for SApi {
    type ErrorCode = SApiCode;

    open spec fn spec_host() -> Seq<char> {
        "https://api.binance.com"@
    }

    fn host() -> (r: &'static str) {
        "https://api.binance.com"
    }
}

/// The lower-case hexadecimal text of some bytes, two digits a byte.
pub open spec fn hex_of(b: Seq<u8>) -> Seq<char>
    decreases b.len(),
{
    if b.len() == 0 {
        Seq::empty()
    } else {
        hex_of(b.drop_last()) + digit_text((b.last() / 16) as nat) + digit_text(
            (b.last() % 16) as nat,
        )
    }
}

/// Relies on `hex::encode`: two lower-case digits for each byte, in order.
#[verifier::external_body]
fn hex_encode(b: &[u8]) -> (r: String)
    ensures
        r@ == hex_of(b@),
{
    hex::encode(b)
}

/// The HMAC-SHA256 tag of `data` under `key`.
pub uninterp spec fn hmac_sha256_of(key: Seq<u8>, data: Seq<u8>) -> Seq<u8>;

/// Relies on `hmac::Hmac<sha2::Sha256>`: `new_varkey` accepts a key of any
/// length, and the tag depends on the key and the data alone.
#[verifier::external_body]
fn hmac_sha256(key: &[u8], data: &[u8]) -> (r: Vec<u8>)
    ensures
        r@ == hmac_sha256_of(key@, data@),
{
    let mut mac = hmac::Hmac::<sha2::Sha256>::new_varkey(key).expect("any key length is accepted");
    mac.update(data);
    mac.finalize().into_bytes().to_vec()
}

/// The decimal text of a signed number.
pub open spec fn signed_decimal(v: int) -> Seq<char> {
    if v < 0 {
        "-"@ + decimal((-v) as nat)
    } else {
        decimal(v as nat)
    }
}

fn push_signed(out: &mut String, v: i64)
    ensures
        final(out)@ == old(out)@ + signed_decimal(v as int),
{
    if v < 0 {
        out.append("-");
        push_decimal(out, (-(v as i128)) as u64);
    } else {
        push_decimal(out, v as u64);
    }
}

/// A caller's key pair for the signed endpoints.
#[derive(Clone, Debug)]
pub struct Credentials {
    api_key: String,
    secret_key: String,
}

impl Credentials {
    pub closed spec fn spec_api_key(&self) -> Seq<char> {
        self.api_key@
    }

    pub closed spec fn spec_secret_key(&self) -> Seq<char> {
        self.secret_key@
    }

    /// The signature of `data`: the hexadecimal HMAC-SHA256 tag under the
    /// UTF-8 bytes of the secret key.
    pub open spec fn spec_sign(&self, data: Seq<u8>) -> Seq<char> {
        hex_of(hmac_sha256_of(encode_utf8(self.spec_secret_key()), data))
    }

    /// The query with the timestamp appended, and then the signature of
    /// everything before it.
    pub open spec fn spec_signed_query(&self, query: Seq<char>, timestamp: int) -> Seq<char> {
        let stamped = query + "&timestamp="@ + signed_decimal(timestamp);
        stamped + "&signature="@ + self.spec_sign(encode_utf8(stamped))
    }

    pub fn new(api_key: String, secret_key: String) -> (r: Self)
        ensures
            r.spec_api_key() == api_key@,
            r.spec_secret_key() == secret_key@,
    {
        Credentials { api_key, secret_key }
    }

    pub fn api_key(&self) -> (r: &str)
        ensures
            r@ == self.spec_api_key(),
    {
        self.api_key.as_str()
    }

    pub fn sign(&self, data: &[u8]) -> (r: String)
        ensures
            r@ == self.spec_sign(data@),
    {
        let tag = hmac_sha256(self.secret_key.as_str().as_bytes(), data);
        hex_encode(tag.as_slice())
    }

    /// Signs a query at a given time.
    pub fn signed_query_at(&self, query: &str, timestamp: i64) -> (r: String)
        ensures
            r@ == self.spec_signed_query(query@, timestamp as int),
    {
        let mut stamped = String::from_str(query);
        stamped.append("&timestamp=");
        push_signed(&mut stamped, timestamp);
        let signature = self.sign(stamped.as_str().as_bytes());
        let mut r = stamped;
        r.append("&signature=");
        r.append(signature.as_str());
        r
    }
}

/// A request's URL: host, path, and query.
pub open spec fn spec_request_url(host: Seq<char>, path: Seq<char>, query: Seq<char>) -> Seq<
    char,
> {
    host + path + "?"@ + query
}

/// Builds the URL of a request on interface `A`; with credentials the
/// query is stamped with `timestamp` (milliseconds since the Unix epoch)
/// and signed first, as the signed endpoints require.
pub fn request_url_at<A: Api>(creds: Option<&Credentials>, path: &str, query: &str, timestamp: i64)
    -> (r: String)
    ensures
        r@ == spec_request_url(
            A::spec_host(),
            path@,
            match creds {
                None => query@,
                Some(c) => c.spec_signed_query(query@, timestamp as int),
            },
        ),
{
    let mut r = String::from_str(A::host());
    r.append(path);
    r.append("?");
    match creds {
        None => r.append(query),
        Some(c) => {
            let signed = c.signed_query_at(query, timestamp);
            r.append(signed.as_str());
        },
    }
    r
}

/// How a response's status is read.
#[derive(Clone, Copy, Debug, PartialEq, Eq, Structural)]
pub enum StatusClass {
    /// 200: the body is the result.
    Success,
    /// 403: the web application firewall's limit was hit.
    FirewallLimit,
    /// 418: the address has been banned.
    Banned,
    /// 429: the request rate limit was hit.
    RateLimited,
    /// Any other 4xx: the body is the venue's error.
    BadRequest,
    /// 503: the venue timed out.
    Timeout,
    /// Any other 5xx: the body is the venue's error.
    ServerError,
    /// Anything else: fail on an error status, else read the body.
    Other,
}

pub open spec fn spec_classify_status(status: u16) -> StatusClass {
    if status == 200 {
        StatusClass::Success
    } else if status == 403 {
        StatusClass::FirewallLimit
    } else if status == 418 {
        StatusClass::Banned
    } else if status == 429 {
        StatusClass::RateLimited
    } else if 400 <= status <= 499 {
        StatusClass::BadRequest
    } else if status == 503 {
        StatusClass::Timeout
    } else if 500 <= status <= 599 {
        StatusClass::ServerError
    } else {
        StatusClass::Other
    }
}

pub fn classify_status(status: u16) -> (r: StatusClass)
    ensures
        r == spec_classify_status(status),
{
    match status {
        200 => StatusClass::Success,
        403 => StatusClass::FirewallLimit,
        418 => StatusClass::Banned,
        429 => StatusClass::RateLimited,
        400..=499 => StatusClass::BadRequest,
        503 => StatusClass::Timeout,
        500..=599 => StatusClass::ServerError,
        _ => StatusClass::Other,
    }
}

} // verus!
