//! Verified core of a messaging gateway: the requests it sends to chat
//! platforms, how it reads their answers, the events it builds from inbound
//! webhooks and listener callbacks, and how it routes events to subscribers.

pub mod text;
pub mod json;
pub mod events;
pub mod platform;
pub mod discord;
pub mod slack;
pub mod routes;
pub mod webhooks;
pub mod subscribers;
pub mod discord_listener;
