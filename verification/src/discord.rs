//! Discord's REST API: the calls the gateway makes and how it reads the
//! answers.

use vstd::prelude::*;
use vstd::string::*;
use vstd::utf8::encode_utf8;
use crate::json::{JsonValue, is_str_member, parse_json, json_of_bytes};
use crate::platform::{HttpMethod, PlatformRequest, PlatformError, PlatformResult, is_success};
use crate::text::{owned, join2, decimal, decimal_spec};

verus! {

/// The base of every Discord API URL.
pub open spec fn base_url() -> Seq<char> {
    "https://discord.com/api/v10"@
}

/// The URL of a channel.
pub open spec fn channel_url(channel_id: Seq<char>) -> Seq<char> {
    base_url() + "/channels/"@ + channel_id
}

/// The URL of a channel's messages.
pub open spec fn messages_url(channel_id: Seq<char>) -> Seq<char> {
    channel_url(channel_id) + "/messages"@
}

/// The URL of one message.
pub open spec fn message_url(channel_id: Seq<char>, message_id: Seq<char>) -> Seq<char> {
    messages_url(channel_id) + "/"@ + message_id
}

/// `body` is `{"content": content}`, with `"message_reference":
/// {"message_id": reply_to}` added when replying.
pub open spec fn is_message_body(body: JsonValue, content: Seq<char>, reply_to: Option<Seq<char>>) -> bool {
    body matches JsonValue::Object(entries) && {
        &&& is_str_member(entries@[0], "content"@, content)
        &&& match reply_to {
            None => entries@.len() == 1,
            Some(r) => {
                &&& entries@.len() == 2
                &&& entries@[1].0@ == "message_reference"@
                &&& entries@[1].1 matches JsonValue::Object(inner) && inner@.len() == 1
                    && is_str_member(inner@[0], "message_id"@, r)
            },
        }
    }
}

fn channel_url_of(channel_id: &str) -> (res: String)
    ensures
        res@ == channel_url(channel_id@),
{
    let mut url = join2("https://discord.com/api/v10", "/channels/");
    url.append(channel_id);
    url
}

fn message_url_of(channel_id: &str, message_id: &str) -> (res: String)
    ensures
        res@ == message_url(channel_id@, message_id@),
{
    let mut url = channel_url_of(channel_id);
    url.append("/messages");
    url.append("/");
    url.append(message_id);
    url
}

fn content_member(content: &str) -> (res: (String, JsonValue))
    ensures
        is_str_member(res, "content"@, content@),
{
    (owned("content"), JsonValue::from_str_slice(content))
}

/// Posts `content` to a channel, as a reply to `reply_to` when given.
pub fn send_message(channel_id: &str, content: &str, reply_to: Option<&str>) -> (res: PlatformRequest)
    ensures
        res.method == HttpMethod::Post,
        res.url@ == messages_url(channel_id@),
        res.body matches Some(b) && is_message_body(b, content@,
            match reply_to { Some(r) => Some(r@), None => None }),
{
    let mut url = channel_url_of(channel_id);
    url.append("/messages");
    let mut entries: Vec<(String, JsonValue)> = Vec::new();
    entries.push(content_member(content));
    match reply_to {
        Some(r) => {
            let reference = JsonValue::single("message_id", JsonValue::from_str_slice(r));
            entries.push((owned("message_reference"), reference));
        },
        None => {},
    }
    PlatformRequest { method: HttpMethod::Post, url, body: Some(JsonValue::Object(entries)) }
}

/// Replaces the text of a message.
pub fn edit_message(channel_id: &str, message_id: &str, content: &str) -> (res: PlatformRequest)
    ensures
        res.method == HttpMethod::Patch,
        res.url@ == message_url(channel_id@, message_id@),
        res.body matches Some(b) && is_message_body(b, content@, None),
{
    let url = message_url_of(channel_id, message_id);
    let mut entries: Vec<(String, JsonValue)> = Vec::new();
    entries.push(content_member(content));
    PlatformRequest { method: HttpMethod::Patch, url, body: Some(JsonValue::Object(entries)) }
}

/// Adds the bot's reaction `emoji` to a message; the emoji goes into the
/// path as given.
pub fn add_reaction(channel_id: &str, message_id: &str, emoji: &str) -> (res: PlatformRequest)
    ensures
        res.method == HttpMethod::Put,
        res.url@ == message_url(channel_id@, message_id@) + "/reactions/"@ + emoji@ + "/@me"@,
        res.body is None,
{
    let mut url = message_url_of(channel_id, message_id);
    url.append("/reactions/");
    url.append(emoji);
    url.append("/@me");
    PlatformRequest { method: HttpMethod::Put, url, body: None }
}

/// Reads the last `limit` messages of a channel.
pub fn get_messages(channel_id: &str, limit: u64) -> (res: PlatformRequest)
    ensures
        res.method == HttpMethod::Get,
        res.url@ == messages_url(channel_id@) + "?limit="@ + decimal_spec(limit as nat),
        res.body is None,
{
    let mut url = channel_url_of(channel_id);
    url.append("/messages");
    url.append("?limit=");
    let digits = decimal(limit);
    url.append(digits.as_str());
    PlatformRequest { method: HttpMethod::Get, url, body: None }
}

/// Reads a channel's description.
pub fn get_channel_info(channel_id: &str) -> (res: PlatformRequest)
    ensures
        res.method == HttpMethod::Get,
        res.url@ == channel_url(channel_id@),
        res.body is None,
{
    PlatformRequest { method: HttpMethod::Get, url: channel_url_of(channel_id), body: None }
}

/// The error for a call that got no answer at all.
pub fn request_failed(detail: &str) -> (res: PlatformError)
    ensures
        res.status == 502,
        res.message@ == "Discord request failed: "@ + detail@,
{
    PlatformError { status: 502, message: join2("Discord request failed: ", detail) }
}

/// `v` is `{"ok": true}`.
pub open spec fn is_ok_marker(v: JsonValue) -> bool {
    v matches JsonValue::Object(entries) && entries@.len() == 1 && entries@[0].0@ == "ok"@
        && entries@[0].1 == JsonValue::Bool(true)
}

/// Reads Discord's answer from its status, its body `text` and `parsed`,
/// the JSON reading of `text` (`None` when `text` is not JSON). A non-2xx
/// status is passed on with the text; an empty 2xx body stands for
/// `{"ok": true}`.
pub fn interpret_response(status: u16, text: String, parsed: Option<JsonValue>) -> (res: PlatformResult)
    ensures
        !is_success(status) ==> (res matches Err(e) && e.status == status && e.message@ == text@),
        is_success(status) && text@.len() == 0 ==> (res matches Ok(v) && is_ok_marker(v)),
        is_success(status) && text@.len() > 0 && parsed is Some ==> res == Ok::<JsonValue, PlatformError>(parsed->0),
        is_success(status) && text@.len() > 0 && parsed is None ==> (res matches Err(e) && e.status == 502
            && e.message@ == "Invalid JSON from Discord: "@ + text@),
{
    if !(200 <= status && status < 300) {
        return Err(PlatformError { status, message: text });
    }
    if text.as_str().is_empty() {
        return Ok(JsonValue::single("ok", JsonValue::Bool(true)));
    }
    match parsed {
        Some(v) => Ok(v),
        None => Err(PlatformError { status: 502, message: join2("Invalid JSON from Discord: ", text.as_str()) }),
    }
}

/// Reads Discord's answer: `status` and body `text`. A non-2xx status is
/// passed on with the text; an empty 2xx body stands for `{"ok": true}`;
/// any other 2xx body must be JSON, which is the result.
pub fn read_response(status: u16, text: String) -> (res: PlatformResult)
    ensures
        !is_success(status) ==> (res matches Err(e) && e.status == status && e.message@ == text@),
        is_success(status) && text@.len() == 0 ==> (res matches Ok(v) && is_ok_marker(v)),
        is_success(status) && text@.len() > 0 && json_of_bytes(encode_utf8(text@)) is Some
            ==> res == Ok::<JsonValue, PlatformError>(json_of_bytes(encode_utf8(text@))->0),
        is_success(status) && text@.len() > 0 && json_of_bytes(encode_utf8(text@)) is None
            ==> (res matches Err(e) && e.status == 502 && e.message@ == "Invalid JSON from Discord: "@ + text@),
{
    let parsed = if text.as_str().is_empty() { None } else { parse_json(text.as_str().as_bytes()) };
    interpret_response(status, text, parsed)
}

/// The `Authorization` header value for the Discord bot token.
pub fn authorization(token: &str) -> (res: String)
    ensures
        res@ == "Bot "@ + token@,
{
    join2("Bot ", token)
}

} // verus!
