//! Slack's Web API: the methods the gateway calls and how it reads the
//! answers.

use vstd::prelude::*;
use vstd::string::*;
use crate::json::{JsonValue, JsonNumber, is_str_member, json_to_string, json_text, is_writable, writable};
use crate::platform::{HttpMethod, PlatformRequest, PlatformError, PlatformResult, is_success};
use crate::text::{owned, join2, trim_colons, trim_colons_spec};

verus! {

/// The URL of a Web API method.
pub open spec fn method_url(method: Seq<char>) -> Seq<char> {
    "https://slack.com/api"@ + "/"@ + method
}

fn method_url_of(method: &str) -> (res: String)
    ensures
        res@ == method_url(method@),
{
    let mut url = join2("https://slack.com/api", "/");
    url.append(method);
    url
}

fn str_member(key: &str, value: &str) -> (res: (String, JsonValue))
    ensures
        is_str_member(res, key@, value@),
{
    (owned(key), JsonValue::from_str_slice(value))
}

/// Every Web API call is a POST of a JSON object.
pub open spec fn is_api_call(req: PlatformRequest, method: Seq<char>) -> bool {
    &&& req.method == HttpMethod::Post
    &&& req.url@ == method_url(method)
    &&& req.body matches Some(JsonValue::Object(_))
}

/// The members of the call's JSON object.
pub open spec fn members(req: PlatformRequest) -> Seq<(String, JsonValue)> {
    match req.body {
        Some(JsonValue::Object(entries)) => entries@,
        _ => Seq::empty(),
    }
}

fn api_call(method: &str, entries: Vec<(String, JsonValue)>) -> (res: PlatformRequest)
    ensures
        is_api_call(res, method@),
        members(res) == entries@,
{
    PlatformRequest { method: HttpMethod::Post, url: method_url_of(method), body: Some(JsonValue::Object(entries)) }
}

/// `chat.postMessage` with `channel` and `text`, and `thread_ts` when
/// replying in a thread.
pub fn send_message(channel_id: &str, content: &str, reply_to: Option<&str>) -> (res: PlatformRequest)
    ensures
        is_api_call(res, "chat.postMessage"@),
        is_str_member(members(res)[0], "channel"@, channel_id@),
        is_str_member(members(res)[1], "text"@, content@),
        match reply_to {
            None => members(res).len() == 2,
            Some(ts) => members(res).len() == 3 && is_str_member(members(res)[2], "thread_ts"@, ts@),
        },
{
    let mut entries: Vec<(String, JsonValue)> = Vec::new();
    entries.push(str_member("channel", channel_id));
    entries.push(str_member("text", content));
    match reply_to {
        Some(ts) => entries.push(str_member("thread_ts", ts)),
        None => {},
    }
    api_call("chat.postMessage", entries)
}

/// `chat.update` of the message whose timestamp is `message_id`.
pub fn edit_message(channel_id: &str, message_id: &str, content: &str) -> (res: PlatformRequest)
    ensures
        is_api_call(res, "chat.update"@),
        members(res).len() == 3,
        is_str_member(members(res)[0], "channel"@, channel_id@),
        is_str_member(members(res)[1], "ts"@, message_id@),
        is_str_member(members(res)[2], "text"@, content@),
{
    let mut entries: Vec<(String, JsonValue)> = Vec::new();
    entries.push(str_member("channel", channel_id));
    entries.push(str_member("ts", message_id));
    entries.push(str_member("text", content));
    api_call("chat.update", entries)
}

/// Slack emoji names carry no colons: strips every leading and trailing
/// `':'`.
pub fn emoji_name(emoji: &str) -> (res: &str)
    ensures
        res@ == trim_colons_spec(emoji@),
{
    trim_colons(emoji)
}

/// `reactions.add` of `emoji`, written without its colons.
pub fn add_reaction(channel_id: &str, message_id: &str, emoji: &str) -> (res: PlatformRequest)
    ensures
        is_api_call(res, "reactions.add"@),
        members(res).len() == 3,
        is_str_member(members(res)[0], "channel"@, channel_id@),
        is_str_member(members(res)[1], "timestamp"@, message_id@),
        is_str_member(members(res)[2], "name"@, trim_colons_spec(emoji@)),
{
    let name = emoji_name(emoji);
    let mut entries: Vec<(String, JsonValue)> = Vec::new();
    entries.push(str_member("channel", channel_id));
    entries.push(str_member("timestamp", message_id));
    entries.push(str_member("name", name));
    api_call("reactions.add", entries)
}

/// `conversations.history` with a numeric `limit`.
pub fn get_messages(channel_id: &str, limit: u64) -> (res: PlatformRequest)
    ensures
        is_api_call(res, "conversations.history"@),
        members(res).len() == 2,
        is_str_member(members(res)[0], "channel"@, channel_id@),
        members(res)[1].0@ == "limit"@,
        members(res)[1].1 == JsonValue::Number(JsonNumber::PosInt(limit)),
{
    let mut entries: Vec<(String, JsonValue)> = Vec::new();
    entries.push(str_member("channel", channel_id));
    entries.push((owned("limit"), JsonValue::Number(JsonNumber::PosInt(limit))));
    api_call("conversations.history", entries)
}

/// `conversations.info` of a channel.
pub fn get_channel_info(channel_id: &str) -> (res: PlatformRequest)
    ensures
        is_api_call(res, "conversations.info"@),
        members(res).len() == 1,
        is_str_member(members(res)[0], "channel"@, channel_id@),
{
    let mut entries: Vec<(String, JsonValue)> = Vec::new();
    entries.push(str_member("channel", channel_id));
    api_call("conversations.info", entries)
}

/// The error for a call that got no answer at all.
pub fn request_failed(detail: &str) -> (res: PlatformError)
    ensures
        res.status == 502,
        res.message@ == "Slack request failed: "@ + detail@,
{
    PlatformError { status: 502, message: join2("Slack request failed: ", detail) }
}

/// An answer body that was read as JSON: the value and its compact text.
#[derive(Debug, PartialEq)]
pub struct SlackBody {
    pub data: JsonValue,
    pub text: String,
}

/// The message of an answer whose `ok` member is not `true`: its `error`
/// member, or `"unknown_error"`.
pub open spec fn api_error_message(data: JsonValue) -> Seq<char> {
    match data.str_at("error"@) {
        Some(e) => e,
        None => "unknown_error"@,
    }
}

/// Reads Slack's answer given as `SlackBody`: the JSON reading of the
/// answer with its compact text, or the reader's error text when it was not
/// JSON. Slack answers 200 even when a
/// call fails, so a 2xx answer is accepted only when its `ok` member is
/// `true`.
pub fn interpret_response(status: u16, body: Result<SlackBody, String>) -> (res: PlatformResult)
    ensures
        body matches Err(e) ==> (res matches Err(pe) && pe.status == 502
            && pe.message@ == "Invalid JSON from Slack: "@ + e@),
        body matches Ok(b) ==> {
            &&& !is_success(status) ==> (res matches Err(pe) && pe.status == status
                && pe.message@ == b.text@)
            &&& is_success(status) && b.data.spec_get("ok"@) != Some(JsonValue::Bool(true))
                ==> (res matches Err(pe) && pe.status == 400 && pe.message@ == api_error_message(b.data))
            &&& is_success(status) && b.data.spec_get("ok"@) == Some(JsonValue::Bool(true))
                ==> res == Ok::<JsonValue, PlatformError>(b.data)
        },
{
    let b = match body {
        Err(e) => {
            return Err(PlatformError { status: 502, message: join2("Invalid JSON from Slack: ", e.as_str()) });
        },
        Ok(b) => b,
    };
    if !(200 <= status && status < 300) {
        return Err(PlatformError { status, message: b.text });
    }
    let ok = match b.data.get("ok") {
        Some(v) => v.as_bool(),
        None => None,
    };
    if ok != Some(true) {
        let message = match b.data.string_at("error") {
            Some(e) => e,
            None => owned("unknown_error"),
        };
        return Err(PlatformError { status: 400, message });
    }
    Ok(b.data)
}

/// Reads Slack's answer: `body` is the JSON reading of the answer, or the
/// reader's error text when it was not JSON. A non-2xx answer becomes an
/// error whose message is the answer's compact JSON text; a 2xx answer is
/// accepted only when its `ok` member is `true`. A non-2xx answer that JSON
/// cannot express (a repeated key, a number text that does not read as a
/// number; the reader never produces one) is reported as invalid JSON.
pub fn read_response(status: u16, body: Result<JsonValue, String>) -> (res: PlatformResult)
    ensures
        body matches Err(e) ==> (res matches Err(pe) && pe.status == 502
            && pe.message@ == "Invalid JSON from Slack: "@ + e@),
        body matches Ok(data) ==> {
            &&& !is_success(status) && writable(data) ==> (res matches Err(pe) && pe.status == status
                && pe.message@ == json_text(data))
            &&& !is_success(status) && !writable(data) ==> (res matches Err(pe) && pe.status == 502
                && pe.message@ == "Invalid JSON from Slack: "@ + "the answer cannot be written as JSON"@)
            &&& is_success(status) && data.spec_get("ok"@) != Some(JsonValue::Bool(true))
                ==> (res matches Err(pe) && pe.status == 400 && pe.message@ == api_error_message(data))
            &&& is_success(status) && data.spec_get("ok"@) == Some(JsonValue::Bool(true))
                ==> res == Ok::<JsonValue, PlatformError>(data)
        },
{
    match body {
        Err(e) => interpret_response(status, Err(e)),
        Ok(data) => {
            if 200 <= status && status < 300 {
                interpret_response(status, Ok(SlackBody { data, text: String::new() }))
            } else if is_writable(&data) {
                let text = json_to_string(&data);
                interpret_response(status, Ok(SlackBody { data, text }))
            } else {
                let message = join2("Invalid JSON from Slack: ", "the answer cannot be written as JSON");
                Err(PlatformError { status: 502, message })
            }
        },
    }
}

/// The `Authorization` header value for the Slack bot token.
pub fn authorization(token: &str) -> (res: String)
    ensures
        res@ == "Bearer "@ + token@,
{
    join2("Bearer ", token)
}

} // verus!
