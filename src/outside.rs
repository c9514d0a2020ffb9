//! Types of other crates that values of this library carry without looking
//! inside them.

use vstd::prelude::*;

verus! {

/// The HTTP client's error, carried through unread.
#[verifier::external_type_specification]
#[verifier::external_body]
pub struct ExHttpError(reqwest::Error);

/// The query encoder's error, carried through unread.
#[verifier::external_type_specification]
#[verifier::external_body]
pub struct ExQueryError(serde_urlencoded::ser::Error);

/// The JSON decoder's error, carried through unread.
#[verifier::external_type_specification]
#[verifier::external_body]
pub struct ExJsonError(serde_json::Error);

/// The websocket transport's error, carried through unread.
#[verifier::external_type_specification]
#[verifier::external_body]
pub struct ExSocketError(async_tungstenite::tungstenite::Error);

/// A JSON value of a reply, carried through unread.
#[verifier::external_type_specification]
#[verifier::external_body]
pub struct ExJsonValue(serde_json::Value);

} // verus!
