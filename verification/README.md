# metalcraft-agent-gateway

A platform-agnostic messaging gateway: one HTTP API in front of Discord or
Slack, inbound webhooks from Slack and GitHub, a Discord gateway listener,
and delivery of normalized events to webhook subscribers.

The decisions are a Verus-verified library (`src/`):

- `text`: string helpers (decimal writing, `u16` parsing, colon trimming, prefixes).
- `json`: the JSON document model the library reads and writes.
- `platform`, `discord`, `slack`: the platform calls the gateway makes and how
  their answers become results or errors.
- `routes`: message limits, error answers, the API-key check, the listen port.
- `webhooks`: Slack and GitHub webhooks, including HMAC-SHA256 signature checks.
- `discord_listener`: events from Discord messages and reactions, reconnect policy.
- `subscribers`: subscriber filters, stored rows, and delivery plans.
- `events`: the published event types, ids and timestamps.

`app/` is the server around it: axum routes and middleware, reqwest calls,
the SQLite store, the serenity listener and serde conversions.
