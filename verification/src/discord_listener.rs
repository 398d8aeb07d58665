//! Inbound Discord gateway events: the events built from new messages and
//! added reactions, and what the listener does when its connection ends.

use vstd::prelude::*;
use crate::events::{EventAuthor, GatewayEvent, opt_view, new_event_id, now_rfc3339, is_uuid_v4_text,
    is_rfc3339_utc};
use crate::json::JsonValue;
use crate::text::owned;

verus! {

/// What the gateway reads of a Discord message.
pub struct DiscordMessage {
    pub channel_id: String,
    pub author_id: String,
    pub author_name: String,
    pub author_global_name: Option<String>,
    pub author_is_bot: bool,
    pub content: String,
    /// The message's creation time in RFC 3339, when it can be written so.
    pub timestamp: Option<String>,
}

/// The event built from a message.
pub open spec fn is_message_event(ev: GatewayEvent, msg: DiscordMessage, raw: JsonValue, id: Seq<char>,
    timestamp: Seq<char>) -> bool {
    &&& ev.id@ == id
    &&& ev.platform@ == "discord"@
    &&& ev.event_type@ == "message_create"@
    &&& opt_view(ev.channel_id) == Some(msg.channel_id@)
    &&& ev.author matches Some(a) && a.id@ == msg.author_id@ && a.username@ == msg.author_name@
        && opt_view(a.display_name) == opt_view(msg.author_global_name) && a.is_bot == msg.author_is_bot
    &&& opt_view(ev.content) == Some(msg.content@)
    &&& ev.timestamp@ == timestamp
    &&& ev.raw == raw
}

/// Builds the `message_create` event of a message, given its id and
/// timestamp; `raw` is the message as JSON.
pub fn message_event(msg: DiscordMessage, raw: JsonValue, id: String, timestamp: String) -> (res: GatewayEvent)
    ensures
        is_message_event(res, msg, raw, id@, timestamp@),
{
    let DiscordMessage { channel_id, author_id, author_name, author_global_name, author_is_bot, content, timestamp: _ } = msg;
    GatewayEvent {
        id,
        platform: owned("discord"),
        event_type: owned("message_create"),
        channel_id: Some(channel_id),
        author: Some(EventAuthor {
            id: author_id,
            username: author_name,
            display_name: author_global_name,
            is_bot: author_is_bot,
        }),
        content: Some(content),
        timestamp,
        raw,
    }
}

/// The event of a new message, with a fresh id, stamped with the message's
/// own time or else the current time.
pub fn message(msg: DiscordMessage, raw: JsonValue) -> (res: GatewayEvent)
    ensures
        is_uuid_v4_text(res.id@),
        is_message_event(res, msg, raw, res.id@, res.timestamp@),
        match msg.timestamp {
            Some(t) => res.timestamp@ == t@,
            None => is_rfc3339_utc(res.timestamp@),
        },
{
    let id = new_event_id();
    let timestamp = match &msg.timestamp {
        Some(t) => t.clone(),
        None => now_rfc3339(),
    };
    message_event(msg, raw, id, timestamp)
}

/// What the gateway reads of an added reaction.
pub struct DiscordReaction {
    pub channel_id: String,
    pub user_id: Option<String>,
    /// The emoji as text.
    pub emoji: String,
}

/// The reacting user, when looking them up succeeded.
pub struct ResolvedUser {
    pub name: String,
    pub is_bot: bool,
}

/// The event built from a reaction; the author is known only when the
/// reaction names a user, and its name and bot flag only when the lookup
/// succeeded.
pub open spec fn is_reaction_event(ev: GatewayEvent, reaction: DiscordReaction, user: Option<ResolvedUser>,
    raw: JsonValue, id: Seq<char>, timestamp: Seq<char>) -> bool {
    &&& ev.id@ == id
    &&& ev.platform@ == "discord"@
    &&& ev.event_type@ == "reaction_add"@
    &&& opt_view(ev.channel_id) == Some(reaction.channel_id@)
    &&& match reaction.user_id {
        None => ev.author is None,
        Some(uid) => ev.author matches Some(a) && a.id@ == uid@ && a.display_name is None && match user {
            Some(u) => a.username@ == u.name@ && a.is_bot == u.is_bot,
            None => a.username@.len() == 0 && !a.is_bot,
        },
    }
    &&& opt_view(ev.content) == Some(reaction.emoji@)
    &&& ev.timestamp@ == timestamp
    &&& ev.raw == raw
}

/// Builds the `reaction_add` event of a reaction, given its id and
/// timestamp; `raw` is the reaction as JSON.
pub fn reaction_event(reaction: DiscordReaction, user: Option<ResolvedUser>, raw: JsonValue, id: String,
    timestamp: String) -> (res: GatewayEvent)
    ensures
        is_reaction_event(res, reaction, user, raw, id@, timestamp@),
{
    let DiscordReaction { channel_id, user_id, emoji } = reaction;
    let author = match user_id {
        Some(uid) => {
            let (username, is_bot) = match user {
                Some(u) => (u.name, u.is_bot),
                None => (String::new(), false),
            };
            Some(EventAuthor { id: uid, username, display_name: None, is_bot })
        },
        None => None,
    };
    GatewayEvent {
        id,
        platform: owned("discord"),
        event_type: owned("reaction_add"),
        channel_id: Some(channel_id),
        author,
        content: Some(emoji),
        timestamp,
        raw,
    }
}

/// The event of an added reaction, with a fresh id and the current time.
pub fn reaction_add(reaction: DiscordReaction, user: Option<ResolvedUser>, raw: JsonValue) -> (res: GatewayEvent)
    ensures
        is_uuid_v4_text(res.id@),
        is_rfc3339_utc(res.timestamp@),
        is_reaction_event(res, reaction, user, raw, res.id@, res.timestamp@),
{
    let id = new_event_id();
    let timestamp = now_rfc3339();
    reaction_event(reaction, user, raw, id, timestamp)
}

/// How a listener session ended.
pub enum ListenerOutcome {
    /// The client could not be built.
    BuildFailed,
    /// The connection ended with an error.
    Disconnected,
    /// The connection ended without an error.
    Stopped,
}

/// How loudly an outcome is reported.
#[derive(Debug, PartialEq, Eq, Structural)]
pub enum LogLevel {
    Error,
    Warn,
}

/// What the listener does next: report at `level`, wait, and connect again.
#[derive(Debug, PartialEq)]
pub struct ListenerStep {
    pub level: LogLevel,
    pub retry_after_secs: u64,
}

/// The listener never gives up: after any outcome it waits ten seconds and
/// connects again; only a clean stop is reported as a warning.
pub fn next_attempt(outcome: ListenerOutcome) -> (res: ListenerStep)
    ensures
        res.retry_after_secs == 10,
        res.level == (if outcome is Stopped { LogLevel::Warn } else { LogLevel::Error }),
{
    let level = match outcome {
        ListenerOutcome::Stopped => LogLevel::Warn,
        _ => LogLevel::Error,
    };
    ListenerStep { level, retry_after_secs: 10 }
}

} // verus!
