//! The events the gateway publishes to its subscribers.

use vstd::prelude::*;
use crate::json::JsonValue;

verus! {

/// Who caused an event.
#[derive(Debug, PartialEq)]
pub struct EventAuthor {
    pub id: String,
    pub username: String,
    pub display_name: Option<String>,
    pub is_bot: bool,
}

/// A platform-neutral event: a message, a reaction, a repository event.
#[derive(Debug, PartialEq)]
pub struct GatewayEvent {
    pub id: String,
    pub platform: String,
    pub event_type: String,
    pub channel_id: Option<String>,
    pub author: Option<EventAuthor>,
    pub content: Option<String>,
    pub timestamp: String,
    pub raw: JsonValue,
}

/// The text of an optional string.
pub open spec fn opt_view(s: Option<String>) -> Option<Seq<char>> {
    match s {
        Some(t) => Some(t@),
        None => None,
    }
}

/// `true` for `'0'`-`'9'` and `'a'`-`'f'`.
pub open spec fn is_lower_hex_digit(c: char) -> bool {
    ('0' <= c && c <= '9') || ('a' <= c && c <= 'f')
}

/// The hyphenated lower-case text of a version-4 UUID: 36 characters,
/// hyphens at 8, 13, 18 and 23, hex digits elsewhere, version digit `'4'`
/// and a variant digit of `'8'`, `'9'`, `'a'` or `'b'`.
pub open spec fn is_uuid_v4_text(s: Seq<char>) -> bool {
    &&& s.len() == 36
    &&& forall|i: int| 0 <= i < 36 ==> if i == 8 || i == 13 || i == 18 || i == 23 {
        #[trigger] s[i] == '-'
    } else {
        is_lower_hex_digit(s[i])
    }
    &&& s[14] == '4'
    &&& (s[19] == '8' || s[19] == '9' || s[19] == 'a' || s[19] == 'b')
}

/// A fresh random event id: `uuid::Uuid::new_v4()` written out with
/// `to_string`. Which id comes out is left open; its shape is stated.
#[verifier::external_body]
pub(crate) fn new_event_id() -> (res: String)
    ensures
        is_uuid_v4_text(res@),
{
    uuid::Uuid::new_v4().to_string()
}

/// `true` when `s` ends with the UTC offset `"+00:00"`.
pub open spec fn ends_with_utc_offset(s: Seq<char>) -> bool {
    &&& s.len() >= 6
    &&& s.subrange(s.len() - 6, s.len() as int) == seq!['+', '0', '0', ':', '0', '0']
}

/// `true` for `'0'`-`'9'`.
pub open spec fn is_ascii_digit(c: char) -> bool {
    '0' <= c && c <= '9'
}

/// The text of an instant in UTC as RFC 3339 writes it: a four-digit year
/// gives `YYYY-MM-DDTHH:MM:SS`, then nothing or a fraction of 3, 6 or 9
/// digits, then `+00:00`; a year outside 0 to 9999 is written with a sign
/// and more digits, so only the ending is fixed then.
pub open spec fn is_rfc3339_utc(s: Seq<char>) -> bool {
    &&& s.len() >= 25
    &&& ends_with_utc_offset(s)
    &&& is_ascii_digit(s[0]) ==> {
        &&& forall|i: int| 0 <= i < 19 && i != 4 && i != 7 && i != 10 && i != 13 && i != 16
            ==> is_ascii_digit(#[trigger] s[i])
        &&& s[4] == '-' && s[7] == '-' && s[10] == 'T' && s[13] == ':' && s[16] == ':'
        &&& (s.len() == 25 || ((s.len() == 29 || s.len() == 32 || s.len() == 35) && s[19] == '.'
            && forall|i: int| 20 <= i < s.len() - 6 ==> is_ascii_digit(#[trigger] s[i])))
    }
}

/// The current time: `chrono::Utc::now().to_rfc3339()`. Which instant comes
/// out is left open; the text has the shape of a UTC RFC 3339 time.
#[verifier::external_body]
pub(crate) fn now_rfc3339() -> (res: String)
    ensures
        is_rfc3339_utc(res@),
{
    chrono::Utc::now().to_rfc3339()
}

} // verus!
