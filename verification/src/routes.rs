//! The gateway's own HTTP API: request limits, API-key checks and how
//! platform errors are answered.

use vstd::prelude::*;
use crate::json::JsonValue;
use crate::platform::PlatformError;
use crate::text::{join2, str_eq, parse_u16, parse_u16_spec};

verus! {

/// How many messages a history read asks for: the requested number (10 when
/// not given), at most 50.
pub open spec fn message_limit_spec(requested: Option<u64>) -> u64 {
    let wanted = match requested { Some(n) => n, None => 10 };
    if wanted < 50 { wanted } else { 50 }
}

/// The `limit` of `GET /channels/{channel_id}/messages`.
pub fn message_limit(requested: Option<u64>) -> (res: u64)
    ensures
        res == message_limit_spec(requested),
        res <= 50,
        requested is None ==> res == 10,
        requested matches Some(n) ==> (n <= 50 ==> res == n),
        requested matches Some(n) ==> (n > 50 ==> res == 50),
{
    let wanted = match requested { Some(n) => n, None => 10 };
    if wanted < 50 { wanted } else { 50 }
}

/// `axum::http::StatusCode::from_u16`, which accepts the codes 100 to 999;
/// the accepted code is handed back as its number.
#[verifier::external_body]
fn status_code_from_u16(status: u16) -> (res: Option<u16>)
    ensures
        res == (if 100 <= status <= 999 { Some(status) } else { None::<u16> }),
{
    match axum::http::StatusCode::from_u16(status) {
        Ok(code) => Some(code.as_u16()),
        Err(_) => None,
    }
}

/// The status the gateway answers a platform error with: the platform's
/// status when it is a valid HTTP status, 502 otherwise.
pub open spec fn error_status_spec(status: u16) -> u16 {
    if 100 <= status <= 999 { status } else { 502 }
}

/// The answer to a failed platform call.
#[derive(Debug, PartialEq)]
pub struct ErrorReply {
    pub status: u16,
    /// `{"error": message}`.
    pub body: JsonValue,
}

/// Turns a platform error into the gateway's answer.
pub fn platform_err(e: &PlatformError) -> (res: ErrorReply)
    ensures
        res.status == error_status_spec(e.status),
        100 <= e.status <= 999 ==> res.status == e.status,
        !(100 <= e.status <= 999) ==> res.status == 502,
        res.body matches JsonValue::Object(entries) && entries@.len() == 1
            && crate::json::is_str_member(entries@[0], "error"@, e.message@),
{
    let status = match status_code_from_u16(e.status) {
        Some(s) => s,
        None => 502,
    };
    ErrorReply { status, body: JsonValue::single("error", JsonValue::from_str_slice(e.message.as_str())) }
}

/// A request may use the API when it carries `Authorization: Bearer <key>`
/// for the configured key; without a configured key nothing is let in.
pub open spec fn api_key_accepted_spec(header: Option<Seq<char>>, api_key: Option<Seq<char>>) -> bool {
    match (header, api_key) {
        (Some(h), Some(k)) => h == "Bearer "@ + k,
        _ => false,
    }
}

/// Checks the `Authorization` header against the configured API key.
pub fn api_key_accepted(header: Option<&str>, api_key: Option<&str>) -> (res: bool)
    ensures
        res == api_key_accepted_spec(
            match header { Some(h) => Some(h@), None => None },
            match api_key { Some(k) => Some(k@), None => None },
        ),
        res ==> header is Some && api_key is Some,
        api_key is None ==> !res,
        header matches Some(h) ==> (api_key matches Some(k) ==> (res <==> h@ == "Bearer "@ + k@)),
{
    match (header, api_key) {
        (Some(h), Some(k)) => {
            let expected = join2("Bearer ", k);
            str_eq(h, expected.as_str())
        },
        _ => false,
    }
}

/// The port to listen on: the `PORT` setting when it reads as a port
/// number, 3000 otherwise.
pub open spec fn listen_port_spec(setting: Option<Seq<char>>) -> u16 {
    match setting {
        Some(s) => match parse_u16_spec(s) {
            Some(p) => p,
            None => 3000,
        },
        None => 3000,
    }
}

/// Reads the `PORT` setting.
pub fn listen_port(setting: Option<&str>) -> (res: u16)
    ensures
        res == listen_port_spec(match setting { Some(s) => Some(s@), None => None }),
{
    match setting {
        Some(s) => match parse_u16(s) {
            Some(p) => p,
            None => 3000,
        },
        None => 3000,
    }
}

/// The history limit is the requested number when it is at most 50, and 50
/// when it is larger; without a request it is 10.
pub proof fn lemma_message_limit_is_capped_request(requested: Option<u64>)
    ensures
        requested is None ==> message_limit_spec(requested) == 10,
        requested matches Some(n) ==> (n <= 50 ==> message_limit_spec(requested) == n),
        requested matches Some(n) ==> (n > 50 ==> message_limit_spec(requested) == 50),
        requested matches Some(n) ==> message_limit_spec(requested) <= n,
{
}

/// A platform error with a valid HTTP status is answered with that very
/// status; only an invalid status becomes 502.
pub proof fn lemma_error_status_kept(status: u16)
    ensures
        100 <= status <= 999 ==> error_status_spec(status) == status,
        !(100 <= status <= 999) ==> error_status_spec(status) == 502,
{
}

/// A `PORT` setting written as a port number in decimal is the port the
/// gateway listens on.
pub proof fn lemma_listen_port_reads_decimal(port: u16)
    ensures
        listen_port_spec(Some(crate::text::decimal_spec(port as nat))) == port,
{
    crate::text::lemma_decimal_parses_back(port);
}

} // verus!
