//! Inbound webhooks from Slack and GitHub: which requests are accepted,
//! what they are answered with and the events built from them.

use hmac::{Hmac, Mac};
use sha2::Sha256;
use vstd::prelude::*;
use vstd::string::*;
use vstd::utf8::encode_utf8;
use crate::events::{EventAuthor, GatewayEvent, opt_view, new_event_id, now_rfc3339, is_uuid_v4_text,
    is_rfc3339_utc};
use crate::json::{JsonValue, is_str_member, parse_json, json_of_bytes};
use crate::text::{owned, str_eq, strip_prefix, has_prefix, decimal, decimal_spec};

verus! {

/// A webhook's answer and the event it publishes, if any.
#[derive(Debug, PartialEq)]
pub struct WebhookReply {
    pub status: u16,
    pub body: JsonValue,
    pub event: Option<GatewayEvent>,
}

/// `v` is `{"ok": true}`.
pub open spec fn is_ok_body(v: JsonValue) -> bool {
    v matches JsonValue::Object(entries) && entries@.len() == 1 && entries@[0].0@ == "ok"@
        && entries@[0].1 == JsonValue::Bool(true)
}

/// `v` is the object `{key: value}` with a string value.
pub open spec fn is_single_str_body(v: JsonValue, key: Seq<char>, value: Seq<char>) -> bool {
    v matches JsonValue::Object(entries) && entries@.len() == 1 && is_str_member(entries@[0], key, value)
}

fn ok_body() -> (res: JsonValue)
    ensures
        is_ok_body(res),
{
    JsonValue::single("ok", JsonValue::Bool(true))
}

// ── Slack ───────────────────────────────────────────────────────────────

/// The gateway's name for a Slack event type.
pub open spec fn slack_event_type_spec(slack_type: Seq<char>) -> Seq<char> {
    if slack_type == "message"@ {
        "message_create"@
    } else if slack_type == "reaction_added"@ {
        "reaction_add"@
    } else if slack_type == "reaction_removed"@ {
        "reaction_remove"@
    } else if slack_type == "app_mention"@ {
        "app_mention"@
    } else {
        slack_type
    }
}

proof fn lemma_slack_literals_differ()
    ensures
        "message"@ != "reaction_added"@,
        "message"@ != "reaction_removed"@,
        "message"@ != "app_mention"@,
        "reaction_added"@ != "reaction_removed"@,
        "reaction_added"@ != "app_mention"@,
        "reaction_removed"@ != "app_mention"@,
{
    reveal_strlit("message");
    reveal_strlit("reaction_added");
    reveal_strlit("reaction_removed");
    reveal_strlit("app_mention");
    assert("message"@.len() != "reaction_added"@.len());
    assert("message"@.len() != "reaction_removed"@.len());
    assert("message"@.len() != "app_mention"@.len());
    assert("reaction_added"@.len() != "reaction_removed"@.len());
    assert("reaction_added"@.len() != "app_mention"@.len());
    assert("reaction_removed"@.len() != "app_mention"@.len());
}

proof fn lemma_github_literals_differ()
    ensures
        "opened"@ != "closed"@,
        "pull_request"@ != "issue_comment"@,
        "pull_request"@ != "push"@,
        "pull_request"@ != "issues"@,
        "issue_comment"@ != "push"@,
        "issue_comment"@ != "issues"@,
        "push"@ != "issues"@,
{
    reveal_strlit("opened");
    reveal_strlit("closed");
    reveal_strlit("pull_request");
    reveal_strlit("issue_comment");
    reveal_strlit("push");
    reveal_strlit("issues");
    assert("opened"@[0] != "closed"@[0]);
    assert("pull_request"@.len() != "issue_comment"@.len());
    assert("pull_request"@.len() != "push"@.len());
    assert("pull_request"@.len() != "issues"@.len());
    assert("issue_comment"@.len() != "push"@.len());
    assert("issue_comment"@.len() != "issues"@.len());
    assert("push"@.len() != "issues"@.len());
}

/// Only four Slack event types are renamed (`message`, `reaction_added`,
/// `reaction_removed`, `app_mention`, the last to itself); every other type
/// is published as it is.
pub proof fn lemma_slack_event_names(slack_type: Seq<char>)
    ensures
        slack_type == "message"@ ==> slack_event_type_spec(slack_type) == "message_create"@,
        slack_type == "reaction_added"@ ==> slack_event_type_spec(slack_type) == "reaction_add"@,
        slack_type == "reaction_removed"@ ==> slack_event_type_spec(slack_type) == "reaction_remove"@,
        slack_type == "app_mention"@ ==> slack_event_type_spec(slack_type) == "app_mention"@,
        slack_type != "message"@ && slack_type != "reaction_added"@ && slack_type != "reaction_removed"@
            ==> slack_event_type_spec(slack_type) == slack_type,
{
    lemma_slack_literals_differ();
}

/// Maps a Slack event type to the gateway's name for it.
pub fn slack_event_type(slack_type: &str) -> (res: String)
    ensures
        res@ == slack_event_type_spec(slack_type@),
        slack_type@ == "message"@ ==> res@ == "message_create"@,
        slack_type@ == "reaction_added"@ ==> res@ == "reaction_add"@,
        slack_type@ == "reaction_removed"@ ==> res@ == "reaction_remove"@,
        slack_type@ != "message"@ && slack_type@ != "reaction_added"@ && slack_type@ != "reaction_removed"@
            ==> res@ == slack_type@,
{
    proof {
        lemma_slack_literals_differ();
    }
    if str_eq(slack_type, "message") {
        owned("message_create")
    } else if str_eq(slack_type, "reaction_added") {
        owned("reaction_add")
    } else if str_eq(slack_type, "reaction_removed") {
        owned("reaction_remove")
    } else if str_eq(slack_type, "app_mention") {
        owned("app_mention")
    } else {
        owned(slack_type)
    }
}

/// `opt` or the empty text.
pub open spec fn or_empty(opt: Option<Seq<char>>) -> Seq<char> {
    match opt {
        Some(s) => s,
        None => Seq::empty(),
    }
}

/// The event built from a Slack event callback whose `event` member is
/// `event` and whose whole body is `body`.
pub open spec fn is_slack_event(ev: GatewayEvent, body: JsonValue, event: JsonValue, id: Seq<char>,
    timestamp: Seq<char>) -> bool {
    &&& ev.id@ == id
    &&& ev.platform@ == "slack"@
    &&& ev.event_type@ == slack_event_type_spec(
        match event.str_at("type"@) { Some(t) => t, None => "unknown"@ })
    &&& opt_view(ev.channel_id) == event.str_at("channel"@)
    &&& opt_view(ev.content) == event.str_at("text"@)
    &&& match event.str_at("user"@) {
        None => ev.author is None,
        Some(user) => ev.author matches Some(a) && a.id@ == user && a.username@.len() == 0
            && a.display_name is None && a.is_bot == (event.spec_get("bot_id"@) is Some),
    }
    &&& ev.timestamp@ == timestamp
    &&& ev.raw == body
}

/// The `ts` of a Slack event callback's `event`.
pub fn slack_event_ts(body: &JsonValue) -> (res: Option<String>)
    ensures
        match body.spec_get("event"@) {
            Some(event) => opt_view(res) == event.str_at("ts"@),
            None => res is None,
        },
{
    match body.get("event") {
        Some(event) => event.string_at("ts"),
        None => None,
    }
}

/// Builds the event of a Slack event callback, given its id and timestamp;
/// `None` when the body has no `event`.
pub fn slack_gateway_event(body: JsonValue, id: String, timestamp: String) -> (res: Option<GatewayEvent>)
    ensures
        match body.spec_get("event"@) {
            Some(event) => res matches Some(ev) && is_slack_event(ev, body, event, id@, timestamp@),
            None => res is None,
        },
{
    let (event_type, channel_id, content, author) = match body.get("event") {
        None => {
            return None;
        },
        Some(event) => {
            let event_type = match event.get("type") {
                Some(t) => match t.as_str() {
                    Some(t) => slack_event_type(t),
                    None => slack_event_type("unknown"),
                },
                None => slack_event_type("unknown"),
            };
            let channel_id = event.string_at("channel");
            let content = event.string_at("text");
            let author = match event.string_at("user") {
                Some(uid) => Some(EventAuthor {
                    id: uid,
                    username: String::new(),
                    display_name: None,
                    is_bot: event.get("bot_id").is_some(),
                }),
                None => None,
            };
            (event_type, channel_id, content, author)
        },
    };
    Some(GatewayEvent {
        id,
        platform: owned("slack"),
        event_type,
        channel_id,
        author,
        content,
        timestamp,
        raw: body,
    })
}

/// `true` when the body is Slack's `url_verification` handshake.
pub open spec fn is_url_verification(body: JsonValue) -> bool {
    body.str_at("type"@) == Some("url_verification"@)
}

/// Handles a Slack Events API request. The `url_verification` handshake is
/// answered with its `challenge`; an event callback is answered
/// `{"ok": true}` and published as an event with a fresh id, stamped with
/// the event's `ts` or else the current time; anything else is answered
/// `{"ok": true}` and dropped.
pub fn slack_webhook(body: JsonValue) -> (res: WebhookReply)
    ensures
        res.status == 200,
        is_url_verification(body) ==> is_single_str_body(res.body, "challenge"@,
            or_empty(body.str_at("challenge"@))) && res.event is None,
        !is_url_verification(body) ==> is_ok_body(res.body),
        !is_url_verification(body) && body.spec_get("event"@) is None ==> res.event is None,
        !is_url_verification(body) && body.spec_get("event"@) is Some ==> (res.event matches Some(ev)
            && is_uuid_v4_text(ev.id@)
            && is_slack_event(ev, body, body.spec_get("event"@)->0, ev.id@, ev.timestamp@)
            && match body.spec_get("event"@)->0.str_at("ts"@) {
                Some(ts) => ev.timestamp@ == ts,
                None => is_rfc3339_utc(ev.timestamp@),
            }),
{
    let verification = match body.get("type") {
        Some(t) => match t.as_str() {
            Some(t) => str_eq(t, "url_verification"),
            None => false,
        },
        None => false,
    };
    if verification {
        let challenge = match body.string_at("challenge") {
            Some(c) => c,
            None => String::new(),
        };
        let reply = JsonValue::single("challenge", JsonValue::Str(challenge));
        return WebhookReply { status: 200, body: reply, event: None };
    }
    if body.get("event").is_none() {
        return WebhookReply { status: 200, body: ok_body(), event: None };
    }
    let id = new_event_id();
    let timestamp = match slack_event_ts(&body) {
        Some(ts) => ts,
        None => now_rfc3339(),
    };
    let event = slack_gateway_event(body, id, timestamp);
    WebhookReply { status: 200, body: ok_body(), event }
}

// ── GitHub ──────────────────────────────────────────────────────────────

/// The value of a hex digit (either case), `None` for any other byte.
pub open spec fn hex_digit_value(c: u8) -> Option<u8> {
    if 48 <= c <= 57 {
        Some((c - 48) as u8)
    } else if 65 <= c <= 70 {
        Some((c - 55) as u8)
    } else if 97 <= c <= 102 {
        Some((c - 87) as u8)
    } else {
        None
    }
}

/// What `hex::decode` gives: an even number of hex digits (either case)
/// decodes to one byte per pair, high digit first; anything else is an
/// error.
pub open spec fn hex_decode_spec(data: Seq<u8>) -> Option<Seq<u8>> {
    if data.len() % 2 == 0 && forall|i: int| 0 <= i < data.len() ==> (#[trigger] hex_digit_value(data[i])) is Some {
        Some(Seq::new((data.len() / 2) as nat, |i: int|
            (hex_digit_value(data[2 * i])->0 * 16 + hex_digit_value(data[2 * i + 1])->0) as u8))
    } else {
        None
    }
}

/// `hex::decode`, with its error dropped.
#[verifier::external_body]
fn hex_decode(data: &[u8]) -> (res: Option<Vec<u8>>)
    ensures
        res matches Some(v) ==> hex_decode_spec(data@) == Some(v@),
        res is None ==> hex_decode_spec(data@) is None,
{
    hex::decode(data).ok()
}

/// The HMAC-SHA256 tag of `message` under `key`.
pub uninterp spec fn hmac_sha256(key: Seq<u8>, message: Seq<u8>) -> Seq<u8>;

/// `Hmac::<Sha256>::new_from_slice(key)`, `update(message)` and
/// `verify_slice(tag)`: `true` exactly when `tag` is the HMAC-SHA256 tag of
/// `message` under `key` (compared in constant time; a tag of another length
/// is refused). The key may have any length.
#[verifier::external_body]
fn hmac_sha256_matches(key: &[u8], message: &[u8], tag: &[u8]) -> (res: bool)
    ensures
        res == (tag@ == hmac_sha256(key@, message@)),
{
    let mut mac = <Hmac<Sha256> as Mac>::new_from_slice(key).expect("HMAC can take key of any size");
    mac.update(message);
    mac.verify_slice(tag).is_ok()
}

/// The lower-case hex digit for `n < 16`.
pub open spec fn hex_char(n: u8) -> char {
    if n == 0 { '0' } else if n == 1 { '1' } else if n == 2 { '2' } else if n == 3 { '3' }
    else if n == 4 { '4' } else if n == 5 { '5' } else if n == 6 { '6' } else if n == 7 { '7' }
    else if n == 8 { '8' } else if n == 9 { '9' } else if n == 10 { 'a' } else if n == 11 { 'b' }
    else if n == 12 { 'c' } else if n == 13 { 'd' } else if n == 14 { 'e' } else { 'f' }
}

/// The lower-case hex text of `bytes`, two digits per byte, high digit
/// first.
pub open spec fn hex_lower(bytes: Seq<u8>) -> Seq<char> {
    Seq::new(2 * bytes.len(), |i: int| if i % 2 == 0 { hex_char(bytes[i / 2] / 16) } else { hex_char(bytes[i / 2] % 16) })
}

proof fn lemma_hex_char(n: u8)
    requires
        n < 16,
    ensures
        hex_digit_value(hex_char(n) as u8) == Some(n),
        '\0' <= hex_char(n) <= '\u{7f}',
{
}

proof fn lemma_hex_lower_decodes(bytes: Seq<u8>)
    ensures
        hex_decode_spec(encode_utf8(hex_lower(bytes))) == Some(bytes),
{
    let h = hex_lower(bytes);
    assert forall|i: int| 0 <= i < h.len() implies '\0' <= #[trigger] h[i] <= '\u{7f}' by {
        assert(0 <= i / 2 < bytes.len()) by (nonlinear_arith)
            requires 0 <= i < 2 * bytes.len();
        lemma_hex_char(bytes[i / 2] / 16);
        lemma_hex_char(bytes[i / 2] % 16);
    }
    assert(vstd::utf8::is_ascii_chars(h));
    vstd::utf8::is_ascii_chars_encode_utf8(h);
    let data = encode_utf8(h);
    assert(data.len() == 2 * bytes.len());
    assert(data.len() % 2 == 0);
    assert forall|i: int| 0 <= i < data.len() implies (#[trigger] hex_digit_value(data[i])) is Some by {
        assert(0 <= i / 2 < bytes.len()) by (nonlinear_arith)
            requires 0 <= i < 2 * bytes.len();
        lemma_hex_char(bytes[i / 2] / 16);
        lemma_hex_char(bytes[i / 2] % 16);
        assert(data[i] == h[i] as u8);
    }
    let decoded = hex_decode_spec(data)->0;
    assert(decoded.len() == bytes.len());
    assert forall|j: int| 0 <= j < bytes.len() implies decoded[j] == bytes[j] by {
        assert((2 * j) / 2 == j && (2 * j) % 2 == 0 && (2 * j + 1) / 2 == j && (2 * j + 1) % 2 == 1)
            by (nonlinear_arith);
        assert(0 <= 2 * j + 1 < data.len());
        lemma_hex_char(bytes[j] / 16);
        lemma_hex_char(bytes[j] % 16);
        assert(data[2 * j] == h[2 * j] as u8);
        assert(data[2 * j + 1] == h[2 * j + 1] as u8);
        assert(h[2 * j] == hex_char(bytes[j] / 16));
        assert(h[2 * j + 1] == hex_char(bytes[j] % 16));
        assert((bytes[j] / 16) * 16 + bytes[j] % 16 == bytes[j]);
    }
    assert(decoded =~= bytes);
}

/// The signature GitHub sends for `body` under `secret`: `sha256=` and the
/// lower-case hex of the HMAC-SHA256 tag.
pub open spec fn github_signature_for(secret: Seq<char>, body: Seq<u8>) -> Seq<char> {
    "sha256="@ + hex_lower(hmac_sha256(encode_utf8(secret), body))
}

/// A delivery signed as GitHub signs it passes the signature check.
pub proof fn lemma_signed_delivery_accepted(secret: Seq<char>, body: Seq<u8>)
    ensures
        signature_valid_spec(secret, body, github_signature_for(secret, body)),
        github_accepted_spec(Some(secret), body, Some(github_signature_for(secret, body))),
{
    let tag = hmac_sha256(encode_utf8(secret), body);
    let sig = github_signature_for(secret, body);
    let p = "sha256="@;
    assert(sig.subrange(0, p.len() as int) =~= p);
    assert(sig.skip(p.len() as int) =~= hex_lower(tag));
    lemma_hex_lower_decodes(tag);
}

/// A signature whose hex does not decode to the body's tag under the
/// secret is refused, whatever else it holds.
pub proof fn lemma_wrong_tag_refused(secret: Seq<char>, body: Seq<u8>, signature: Seq<char>)
    requires
        secret.len() > 0,
        match hex_decode_spec(encode_utf8(signature.skip("sha256="@.len() as int))) {
            Some(tag) => tag != hmac_sha256(encode_utf8(secret), body),
            None => true,
        },
    ensures
        !github_accepted_spec(Some(secret), body, Some(signature)),
{
}

/// A `X-Hub-Signature-256` value is valid when it is `sha256=` followed by
/// the hex text of the HMAC-SHA256 tag of the body under the secret.
pub open spec fn signature_valid_spec(secret: Seq<char>, body: Seq<u8>, signature: Seq<char>) -> bool {
    &&& has_prefix(signature, "sha256="@)
    &&& match hex_decode_spec(encode_utf8(signature.skip("sha256="@.len() as int))) {
        Some(tag) => tag == hmac_sha256(encode_utf8(secret), body),
        None => false,
    }
}

/// Checks a GitHub webhook signature.
pub fn verify_github_signature(secret: &str, body: &[u8], signature: &str) -> (res: bool)
    ensures
        res == signature_valid_spec(secret@, body@, signature@),
{
    let sig_hex = match strip_prefix(signature, "sha256=") {
        Some(hex) => hex,
        None => return false,
    };
    let sig_bytes = match hex_decode(sig_hex.as_bytes()) {
        Some(bytes) => bytes,
        None => return false,
    };
    hmac_sha256_matches(secret.as_bytes(), body, sig_bytes.as_slice())
}

/// Whether a GitHub delivery gets past the signature check: always when no
/// secret (or an empty one) is configured, otherwise only with a valid
/// signature (a missing signature counts as empty).
pub open spec fn github_accepted_spec(secret: Option<Seq<char>>, body: Seq<u8>, signature: Option<Seq<char>>) -> bool {
    match secret {
        None => true,
        Some(s) => s.len() == 0 || signature_valid_spec(s, body, or_empty(signature)),
    }
}

/// The signature check of the GitHub webhook.
pub fn github_accepted(secret: Option<&str>, body: &[u8], signature: Option<&str>) -> (res: bool)
    ensures
        res == github_accepted_spec(opt_str(secret), body@, opt_str(signature)),
{
    match secret {
        None => true,
        Some(s) => {
            if s.is_empty() {
                true
            } else {
                let sig = match signature {
                    Some(sig) => sig,
                    None => "",
                };
                proof {
                    reveal_strlit("");
                    assert(""@ =~= Seq::<char>::empty());
                }
                verify_github_signature(s, body, sig)
            }
        },
    }
}

/// The text of an optional string slice.
pub open spec fn opt_str(s: Option<&str>) -> Option<Seq<char>> {
    match s {
        Some(t) => Some(t@),
        None => None,
    }
}

/// The gateway's name for a GitHub event, from the `X-GitHub-Event` header,
/// the payload's `action` and whether a closed pull request was merged.
pub open spec fn github_event_type_spec(gh_event: Seq<char>, action: Seq<char>, merged: bool) -> Seq<char> {
    if gh_event == "pull_request"@ {
        if action == "opened"@ {
            "pr_opened"@
        } else if action == "closed"@ {
            if merged { "pr_merged"@ } else { "pr_closed"@ }
        } else {
            action
        }
    } else if gh_event == "issue_comment"@ {
        "issue_comment"@
    } else if gh_event == "push"@ {
        "push"@
    } else if gh_event == "issues"@ && action == "opened"@ {
        "issue_opened"@
    } else if gh_event == "issues"@ && action == "closed"@ {
        "issue_closed"@
    } else {
        gh_event
    }
}

/// How GitHub events are named: a pull request that is opened is
/// `pr_opened`, one that is closed is `pr_merged` or `pr_closed` by whether
/// it was merged, and any other pull-request action is passed on as it is;
/// an issue comment, a push, an opened or closed issue get their own names;
/// any other event keeps its GitHub name.
pub proof fn lemma_github_event_names(gh_event: Seq<char>, action: Seq<char>, merged: bool)
    ensures
        gh_event == "pull_request"@ && action == "opened"@ ==> github_event_type_spec(gh_event, action, merged) == "pr_opened"@,
        gh_event == "pull_request"@ && action == "closed"@ && merged ==> github_event_type_spec(gh_event, action, merged) == "pr_merged"@,
        gh_event == "pull_request"@ && action == "closed"@ && !merged ==> github_event_type_spec(gh_event, action, merged) == "pr_closed"@,
        gh_event == "pull_request"@ && action != "opened"@ && action != "closed"@
            ==> github_event_type_spec(gh_event, action, merged) == action,
        gh_event == "issue_comment"@ ==> github_event_type_spec(gh_event, action, merged) == "issue_comment"@,
        gh_event == "push"@ ==> github_event_type_spec(gh_event, action, merged) == "push"@,
        gh_event == "issues"@ && action == "opened"@ ==> github_event_type_spec(gh_event, action, merged) == "issue_opened"@,
        gh_event == "issues"@ && action == "closed"@ ==> github_event_type_spec(gh_event, action, merged) == "issue_closed"@,
        gh_event == "issues"@ && action != "opened"@ && action != "closed"@ ==> github_event_type_spec(gh_event, action, merged) == "issues"@,
        gh_event != "pull_request"@ && gh_event != "issue_comment"@ && gh_event != "push"@ && gh_event != "issues"@
            ==> github_event_type_spec(gh_event, action, merged) == gh_event,
{
    lemma_github_literals_differ();
}

/// Names a GitHub event.
pub fn github_event_type(gh_event: &str, action: &str, merged: bool) -> (res: String)
    ensures
        res@ == github_event_type_spec(gh_event@, action@, merged),
        gh_event@ == "pull_request"@ && action@ == "opened"@ ==> res@ == "pr_opened"@,
        gh_event@ == "pull_request"@ && action@ == "closed"@ ==> res@ == (if merged { "pr_merged"@ } else { "pr_closed"@ }),
        gh_event@ == "pull_request"@ && action@ != "opened"@ && action@ != "closed"@ ==> res@ == action@,
{
    proof {
        lemma_github_literals_differ();
    }
    if str_eq(gh_event, "pull_request") {
        if str_eq(action, "opened") {
            owned("pr_opened")
        } else if str_eq(action, "closed") {
            if merged { owned("pr_merged") } else { owned("pr_closed") }
        } else {
            owned(action)
        }
    } else if str_eq(gh_event, "issue_comment") {
        owned("issue_comment")
    } else if str_eq(gh_event, "push") {
        owned("push")
    } else if str_eq(gh_event, "issues") && str_eq(action, "opened") {
        owned("issue_opened")
    } else if str_eq(gh_event, "issues") && str_eq(action, "closed") {
        owned("issue_closed")
    } else {
        owned(gh_event)
    }
}

/// Whether the payload reports a merged pull request.
pub open spec fn payload_merged(payload: JsonValue) -> bool {
    match payload.spec_get("pull_request"@) {
        Some(pr) => pr.spec_get("merged"@) matches Some(m) && m.spec_as_bool() == Some(true),
        None => false,
    }
}

/// The author named by a payload's `sender`.
pub open spec fn is_github_author(author: Option<EventAuthor>, payload: JsonValue) -> bool {
    match payload.spec_get("sender"@) {
        None => author is None,
        Some(sender) => author matches Some(a) && {
            &&& a.id@ == match sender.spec_get("id"@) {
                Some(id) => match id.spec_as_u64() {
                    Some(n) => decimal_spec(n as nat),
                    None => Seq::empty(),
                },
                None => Seq::empty(),
            }
            &&& a.username@ == or_empty(sender.str_at("login"@))
            &&& a.display_name is None
            &&& a.is_bot == (sender.str_at("type"@) == Some("Bot"@))
        },
    }
}

/// Reads the author of a GitHub payload from its `sender`.
pub fn github_author(payload: &JsonValue) -> (res: Option<EventAuthor>)
    ensures
        is_github_author(res, *payload),
{
    match payload.get("sender") {
        None => None,
        Some(sender) => {
            let id = match sender.get("id") {
                Some(id) => match id.as_u64() {
                    Some(n) => decimal(n),
                    None => String::new(),
                },
                None => String::new(),
            };
            let username = match sender.string_at("login") {
                Some(l) => l,
                None => String::new(),
            };
            let is_bot = match sender.get("type") {
                Some(t) => match t.as_str() {
                    Some(t) => str_eq(t, "Bot"),
                    None => false,
                },
                None => false,
            };
            Some(EventAuthor { id, username, display_name: None, is_bot })
        },
    }
}

/// The event built from a GitHub delivery of kind `gh_event`.
pub open spec fn is_github_event(ev: GatewayEvent, gh_event: Seq<char>, payload: JsonValue, id: Seq<char>,
    timestamp: Seq<char>) -> bool {
    &&& ev.id@ == id
    &&& ev.platform@ == "github"@
    &&& ev.event_type@ == github_event_type_spec(gh_event, or_empty(payload.str_at("action"@)),
        payload_merged(payload))
    &&& is_github_author(ev.author, payload)
    &&& opt_view(ev.channel_id) == match payload.spec_get("repository"@) {
        Some(repo) => repo.str_at("full_name"@),
        None => None,
    }
    &&& ev.content is None
    &&& ev.timestamp@ == timestamp
    &&& ev.raw == payload
}

/// Builds the event of a GitHub delivery, given its id and timestamp; the
/// repository's full name stands as the channel.
pub fn github_gateway_event(gh_event: &str, payload: JsonValue, id: String, timestamp: String) -> (res: GatewayEvent)
    ensures
        is_github_event(res, gh_event@, payload, id@, timestamp@),
{
    let action = match payload.string_at("action") {
        Some(a) => a,
        None => String::new(),
    };
    let merged = match payload.get("pull_request") {
        Some(pr) => match pr.get("merged") {
            Some(m) => m.as_bool() == Some(true),
            None => false,
        },
        None => false,
    };
    let event_type = github_event_type(gh_event, action.as_str(), merged);
    let author = github_author(&payload);
    let channel_id = match payload.get("repository") {
        Some(repo) => repo.string_at("full_name"),
        None => None,
    };
    GatewayEvent {
        id,
        platform: owned("github"),
        event_type,
        channel_id,
        author,
        content: None,
        timestamp,
        raw: payload,
    }
}

/// The payload of a GitHub delivery: the JSON reading of its body, `null`
/// when the body is not JSON.
pub open spec fn github_payload(body: Seq<u8>) -> JsonValue {
    match json_of_bytes(body) {
        Some(v) => v,
        None => JsonValue::Null,
    }
}

/// Handles a GitHub webhook delivery: `gh_event` is the `X-GitHub-Event`
/// header and `signature` the `X-Hub-Signature-256` header. A delivery that
/// fails the signature check is answered 401 `{"error": "Invalid
/// signature"}` and dropped; any other is answered `{"ok": true}`, and its
/// body, read as JSON, is published with a fresh id and the current time.
pub fn github_webhook(secret: Option<&str>, signature: Option<&str>, gh_event: Option<&str>, body: &[u8]) -> (res: WebhookReply)
    ensures
        !github_accepted_spec(opt_str(secret), body@, opt_str(signature)) ==> res.status == 401
            && is_single_str_body(res.body, "error"@, "Invalid signature"@) && res.event is None,
        github_accepted_spec(opt_str(secret), body@, opt_str(signature)) ==> res.status == 200
            && is_ok_body(res.body) && (res.event matches Some(ev)
            && is_uuid_v4_text(ev.id@) && is_rfc3339_utc(ev.timestamp@)
            && is_github_event(ev, match gh_event { Some(e) => e@, None => "unknown"@ }, github_payload(body@),
                ev.id@, ev.timestamp@)),
{
    if !github_accepted(secret, body, signature) {
        let reply = JsonValue::single("error", JsonValue::from_str_slice("Invalid signature"));
        return WebhookReply { status: 401, body: reply, event: None };
    }
    let kind = match gh_event {
        Some(e) => e,
        None => "unknown",
    };
    let payload = match parse_json(body) {
        Some(v) => v,
        None => JsonValue::Null,
    };
    let id = new_event_id();
    let timestamp = now_rfc3339();
    let event = github_gateway_event(kind, payload, id, timestamp);
    WebhookReply { status: 200, body: ok_body(), event: Some(event) }
}

} // verus!
