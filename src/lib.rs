//! A client for a trading venue's streaming interface: the error-code
//! vocabulary, the command frames, the correlation of replies with the
//! commands that caused them, and the routing decisions of the two
//! connection tasks. Beside it, the pure parts of the venue's
//! request/response interface: signing, URLs, and the reading of statuses.

pub mod error;
pub mod outside;
pub mod session;
pub mod json;
pub mod stream;
pub mod frame;
pub mod dispatch;
pub mod client;
pub mod ws;
pub mod paths;
pub mod extensions;
pub mod fields;
