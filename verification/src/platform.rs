//! What the gateway sends to a chat platform and what it answers with.

use vstd::prelude::*;
use vstd::string::*;
use crate::json::JsonValue;
use crate::text::str_eq;

verus! {

/// The chat platforms the gateway can stand in front of.
#[derive(Debug, PartialEq, Eq, Structural)]
pub enum PlatformKind {
    Discord,
    Slack,
}

/// The HTTP methods the platform calls use.
#[derive(Debug, PartialEq, Eq, Structural)]
pub enum HttpMethod {
    Get,
    Post,
    Patch,
    Put,
}

/// One HTTP call to a platform's API.
#[derive(Debug, PartialEq)]
pub struct PlatformRequest {
    pub method: HttpMethod,
    pub url: String,
    /// The JSON body, sent with a JSON content type; `None` sends no body.
    pub body: Option<JsonValue>,
}

/// A failed platform call: the HTTP status to answer with and a message.
#[derive(Debug, PartialEq)]
pub struct PlatformError {
    pub status: u16,
    pub message: String,
}

/// A platform call's outcome: the platform's JSON answer, or an error.
pub type PlatformResult = Result<JsonValue, PlatformError>;

/// `true` for a 2xx status.
pub open spec fn is_success(status: u16) -> bool {
    200 <= status < 300
}

/// Which platform a `PLATFORM` setting selects; unset means Discord.
pub open spec fn select_platform_spec(name: Option<Seq<char>>) -> Option<PlatformKind> {
    match name {
        None => Some(PlatformKind::Discord),
        Some(n) => if n == "discord"@ {
            Some(PlatformKind::Discord)
        } else if n == "slack"@ {
            Some(PlatformKind::Slack)
        } else {
            None
        },
    }
}

/// Chooses the platform from the `PLATFORM` setting: `"discord"` (also when
/// unset) or `"slack"`; any other name is refused.
pub fn select_platform(name: Option<&str>) -> (res: Option<PlatformKind>)
    ensures
        res == select_platform_spec(match name { Some(n) => Some(n@), None => None }),
        name is None ==> res == Some(PlatformKind::Discord),
        name matches Some(n) ==> (n@ == "discord"@ ==> res == Some(PlatformKind::Discord)),
        name matches Some(n) ==> (n@ == "slack"@ ==> res == Some(PlatformKind::Slack)),
        name matches Some(n) ==> (n@ != "discord"@ && n@ != "slack"@ ==> res is None),
{
    proof {
        reveal_strlit("discord");
        reveal_strlit("slack");
        assert("discord"@.len() != "slack"@.len());
    }
    match name {
        None => Some(PlatformKind::Discord),
        Some(n) => if str_eq(n, "discord") {
            Some(PlatformKind::Discord)
        } else if str_eq(n, "slack") {
            Some(PlatformKind::Slack)
        } else {
            None
        },
    }
}

} // verus!
