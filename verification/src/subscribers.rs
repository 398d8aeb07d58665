//! Webhook subscribers: which events reach which subscriber, how a
//! subscriber is stored as a row, and what is sent to each.

use vstd::prelude::*;
use crate::events::{GatewayEvent, new_event_id, now_rfc3339, is_uuid_v4_text, is_rfc3339_utc};
use crate::text::str_eq;

verus! {

/// A webhook subscriber: where to post events, which event types (`"*"` for
/// all) and which platforms (`None` for all) it wants, and the bearer token
/// to send, if any.
#[derive(Debug, PartialEq)]
pub struct Subscriber {
    pub id: String,
    pub url: String,
    pub events: Vec<String>,
    pub platforms: Option<Vec<String>>,
    pub secret: Option<String>,
    pub created_at: String,
}

/// The text of each string of `v`.
pub open spec fn texts(v: Vec<String>) -> Seq<Seq<char>> {
    v@.map_values(|s: String| s@)
}

/// A subscriber as plain text.
pub struct SubscriberView {
    pub id: Seq<char>,
    pub url: Seq<char>,
    pub events: Seq<Seq<char>>,
    pub platforms: Option<Seq<Seq<char>>>,
    pub secret: Option<Seq<char>>,
    pub created_at: Seq<char>,
}

impl View for Subscriber {
    type V = SubscriberView;

    open spec fn view(&self) -> SubscriberView {
        SubscriberView {
            id: self.id@,
            url: self.url@,
            events: texts(self.events),
            platforms: match self.platforms {
                Some(p) => Some(texts(p)),
                None => None,
            },
            secret: match self.secret {
                Some(s) => Some(s@),
                None => None,
            },
            created_at: self.created_at@,
        }
    }
}

/// A subscriber wants an event when its event filter holds `"*"` or the
/// event's type, and its platform filter is absent or holds the event's
/// platform.
pub open spec fn wants(sub: SubscriberView, event_type: Seq<char>, platform: Seq<char>) -> bool {
    &&& (sub.events.contains("*"@) || sub.events.contains(event_type))
    &&& match sub.platforms {
        None => true,
        Some(p) => p.contains(platform),
    }
}

/// Whether `list` holds `s`.
pub fn contains_text(list: &Vec<String>, s: &str) -> (res: bool)
    ensures
        res == texts(*list).contains(s@),
{
    let n = list.len();
    let mut i: usize = 0;
    while i < n
        invariant
            n == list@.len(),
            i <= n,
            forall|k: int| 0 <= k < i ==> list@[k]@ != s@,
        decreases n - i,
    {
        if str_eq(list[i].as_str(), s) {
            assert(texts(*list)[i as int] == s@);
            return true;
        }
        i = i + 1;
    }
    assert forall|k: int| 0 <= k < texts(*list).len() implies texts(*list)[k] != s@ by {
        assert(texts(*list)[k] == list@[k]@);
    }
    false
}

impl Subscriber {
    /// Whether this subscriber wants an event of `event_type` from
    /// `platform`.
    pub fn wants(&self, event_type: &str, platform: &str) -> (res: bool)
        ensures
            res == wants(self@, event_type@, platform@),
            res ==> texts(self.events).contains("*"@) || texts(self.events).contains(event_type@),
            res ==> (self.platforms matches Some(p) ==> texts(p).contains(platform@)),
            (texts(self.events).contains("*"@) || texts(self.events).contains(event_type@))
                && (self.platforms matches Some(p) ==> texts(p).contains(platform@)) ==> res,
    {
        let event_match = contains_text(&self.events, "*") || contains_text(&self.events, event_type);
        let platform_match = match &self.platforms {
            None => true,
            Some(platforms) => contains_text(platforms, platform),
        };
        event_match && platform_match
    }
}

/// The subscribers of `subs` that want an event of `event_type` from
/// `platform`, in their order.
pub open spec fn matching(subs: Seq<Subscriber>, event_type: Seq<char>, platform: Seq<char>) -> Seq<Subscriber> {
    subs.filter(|sub: Subscriber| wants(sub@, event_type, platform))
}

/// Every subscriber the matching keeps wants the event, every subscriber
/// that wants it is kept, and nothing is added.
pub proof fn lemma_matching_exact(subs: Seq<Subscriber>, event_type: Seq<char>, platform: Seq<char>)
    ensures
        matching(subs, event_type, platform).len() <= subs.len(),
        forall|i: int| 0 <= i < matching(subs, event_type, platform).len()
            ==> wants((#[trigger] matching(subs, event_type, platform)[i])@, event_type, platform),
        forall|i: int| 0 <= i < subs.len() && wants((#[trigger] subs[i])@, event_type, platform)
            ==> matching(subs, event_type, platform).contains(subs[i]),
{
    broadcast use vstd::seq_lib::group_filter_ensures;
    let pred = |sub: Subscriber| wants(sub@, event_type, platform);
    assert forall|i: int| 0 <= i < matching(subs, event_type, platform).len()
        implies wants((#[trigger] matching(subs, event_type, platform)[i])@, event_type, platform) by {
        assert(pred(subs.filter(pred)[i]));
    }
    assert forall|i: int| 0 <= i < subs.len() && wants((#[trigger] subs[i])@, event_type, platform)
        implies matching(subs, event_type, platform).contains(subs[i]) by {
        assert(pred(subs[i]));
        assert(subs.filter(pred).contains(subs[i]));
    }
}

/// The event filter always applies: a subscriber whose event list holds
/// neither `"*"` nor the event's type does not want the event, whatever its
/// platform filter says.
pub proof fn lemma_event_filter_required(sub: SubscriberView, event_type: Seq<char>, platform: Seq<char>)
    requires
        !sub.events.contains("*"@),
        !sub.events.contains(event_type),
    ensures
        !wants(sub, event_type, platform),
{
}

/// Both filters decide together: a subscriber wants an event exactly when
/// its event list holds `"*"` or the event's type, and it has no platform
/// list or its platform list holds the event's platform.
pub proof fn lemma_wants_both_filters(sub: SubscriberView, event_type: Seq<char>, platform: Seq<char>)
    ensures
        wants(sub, event_type, platform) <==> (
            (sub.events.contains("*"@) || sub.events.contains(event_type))
            && (sub.platforms matches Some(p) ==> p.contains(platform))),
{
}

/// A subscriber whose event filter holds `"*"` and that has no platform
/// filter gets every event.
pub proof fn lemma_wildcard_subscriber_gets_everything(sub: SubscriberView, event_type: Seq<char>, platform: Seq<char>)
    requires
        sub.events.contains("*"@),
        sub.platforms is None,
    ensures
        wants(sub, event_type, platform),
{
}

/// A subscriber limited to other platforms gets nothing from `platform`.
pub proof fn lemma_platform_filter_excludes(sub: SubscriberView, event_type: Seq<char>, platform: Seq<char>)
    requires
        sub.platforms matches Some(p) && !p.contains(platform),
    ensures
        !wants(sub, event_type, platform),
{
}

/// Keeps the subscribers that want `event`, in their order.
pub fn get_matching(subs: Vec<Subscriber>, event: &GatewayEvent) -> (res: Vec<Subscriber>)
    ensures
        res@ == matching(subs@, event.event_type@, event.platform@),
{
    let ghost all = subs@;
    let ghost pred = |sub: Subscriber| wants(sub@, event.event_type@, event.platform@);
    let mut res: Vec<Subscriber> = Vec::new();
    assert(all.take(0) =~= Seq::<Subscriber>::empty());
    proof {
        reveal_with_fuel(Seq::<_>::filter, 1);
    }
    for sub in it: subs.into_iter()
        invariant
            it.seq() == all,
            res@ == all.take(it.index() as int).filter(pred),
            pred == (|sub: Subscriber| wants(sub@, event.event_type@, event.platform@)),
    {
        let ghost i = it.index();
        let keep = sub.wants(event.event_type.as_str(), event.platform.as_str());
        proof {
            assert(all.take(i + 1).drop_last() =~= all.take(i as int));
            assert(all.take(i + 1).last() == sub);
            reveal_with_fuel(Seq::<_>::filter, 1);
        }
        if keep {
            res.push(sub);
        }
    }
    assert(all.take(all.len() as int) =~= all);
    res
}

/// The JSON text of a list of strings, as `serde_json::to_string` writes it.
pub uninterp spec fn json_text_of_strings(items: Seq<Seq<char>>) -> Seq<char>;

/// The list of strings that `serde_json::from_str::<Vec<String>>` reads
/// from `text`, `None` when `text` is not a JSON array of strings.
pub uninterp spec fn strings_of_json_text(text: Seq<char>) -> Option<Seq<Seq<char>>>;

/// `serde_json::to_string` of a list of strings. Writing strings into a
/// `String` cannot fail, and reading the text back with
/// `serde_json::from_str` gives the same strings.
#[verifier::external_body]
fn strings_to_json(items: &Vec<String>) -> (res: String)
    ensures
        res@ == json_text_of_strings(texts(*items)),
        strings_of_json_text(res@) == Some(texts(*items)),
{
    serde_json::to_string(items).unwrap()
}

/// `serde_json::from_str::<Vec<String>>`, with its error dropped.
#[verifier::external_body]
fn strings_from_json(text: &str) -> (res: Option<Vec<String>>)
    ensures
        match res {
            Some(v) => strings_of_json_text(text@) == Some(texts(v)),
            None => strings_of_json_text(text@) is None,
        },
{
    serde_json::from_str::<Vec<String>>(text).ok()
}

/// A subscriber as it is stored: its lists as JSON text.
#[derive(Debug, PartialEq)]
pub struct SubscriberRow {
    pub id: String,
    pub url: String,
    pub events: String,
    pub platforms: Option<String>,
    pub secret: Option<String>,
    pub created_at: String,
}

/// `row` stores `sub`: the same text fields, and lists that read back as
/// `sub`'s.
pub open spec fn row_stores(row: SubscriberRow, sub: SubscriberView) -> bool {
    &&& row.id@ == sub.id
    &&& row.url@ == sub.url
    &&& row.events@ == json_text_of_strings(sub.events)
    &&& strings_of_json_text(row.events@) == Some(sub.events)
    &&& match sub.platforms {
        None => row.platforms is None,
        Some(p) => row.platforms matches Some(t) && t@ == json_text_of_strings(p)
            && strings_of_json_text(t@) == Some(p),
    }
    &&& match row.secret {
        Some(s) => sub.secret == Some(s@),
        None => sub.secret is None,
    }
    &&& row.created_at@ == sub.created_at
}

/// The subscriber a row reads as: an event list that does not read is
/// empty, a platform list that does not read is absent.
pub open spec fn read_row(row: SubscriberRow) -> SubscriberView {
    SubscriberView {
        id: row.id@,
        url: row.url@,
        events: match strings_of_json_text(row.events@) {
            Some(e) => e,
            None => Seq::empty(),
        },
        platforms: match row.platforms {
            Some(t) => strings_of_json_text(t@),
            None => None,
        },
        secret: match row.secret {
            Some(s) => Some(s@),
            None => None,
        },
        created_at: row.created_at@,
    }
}

fn copy_opt(s: &Option<String>) -> (res: Option<String>)
    ensures
        res == *s,
{
    match s {
        Some(t) => Some(t.clone()),
        None => None,
    }
}

impl Subscriber {
    /// A subscriber with the given id and creation time.
    pub fn create(id: String, created_at: String, url: String, events: Vec<String>,
        platforms: Option<Vec<String>>, secret: Option<String>) -> (res: Subscriber)
        ensures
            res.id == id,
            res.created_at == created_at,
            res.url == url,
            res.events == events,
            res.platforms == platforms,
            res.secret == secret,
    {
        Subscriber { id, url, events, platforms, secret, created_at }
    }

    /// A new subscriber with a fresh id, created now: `create` with a
    /// random id and the clock's reading.
    pub fn new(url: String, events: Vec<String>, platforms: Option<Vec<String>>, secret: Option<String>) -> (res: Subscriber)
        ensures
            is_uuid_v4_text(res.id@),
            is_rfc3339_utc(res.created_at@),
            res.url == url,
            res.events == events,
            res.platforms == platforms,
            res.secret == secret,
    {
        let id = new_event_id();
        let created_at = now_rfc3339();
        Subscriber::create(id, created_at, url, events, platforms, secret)
    }

    /// The row that stores this subscriber.
    pub fn to_row(&self) -> (res: SubscriberRow)
        ensures
            row_stores(res, self@),
    {
        let platforms = match &self.platforms {
            Some(p) => Some(strings_to_json(p)),
            None => None,
        };
        SubscriberRow {
            id: self.id.clone(),
            url: self.url.clone(),
            events: strings_to_json(&self.events),
            platforms,
            secret: copy_opt(&self.secret),
            created_at: self.created_at.clone(),
        }
    }

    /// Reads a stored row back.
    pub fn from_row(row: SubscriberRow) -> (res: Subscriber)
        ensures
            res@ == read_row(row),
    {
        let events = match strings_from_json(row.events.as_str()) {
            Some(e) => e,
            None => {
                let empty: Vec<String> = Vec::new();
                assert(texts(empty) =~= Seq::<Seq<char>>::empty());
                empty
            },
        };
        let platforms = match &row.platforms {
            Some(t) => strings_from_json(t.as_str()),
            None => None,
        };
        Subscriber { id: row.id, url: row.url, events, platforms, secret: row.secret, created_at: row.created_at }
    }
}

/// A subscriber read back from the row that stores it is that subscriber.
pub proof fn lemma_stored_subscriber_reads_back(row: SubscriberRow, sub: SubscriberView)
    requires
        row_stores(row, sub),
    ensures
        read_row(row) == sub,
{
}

/// How long a post to a subscriber may take, in seconds.
pub const DELIVERY_TIMEOUT_SECS: u64 = 10;

/// One post of an event to a subscriber: the event's JSON, sent to `url`.
#[derive(Debug, PartialEq)]
pub struct Delivery {
    pub subscriber_id: String,
    pub url: String,
    /// How long the post may take.
    pub timeout_secs: u64,
    /// Sent as `Authorization: Bearer <token>` when present.
    pub bearer_token: Option<String>,
}

/// What is posted for each of `subs`: to its URL, with its secret as the
/// bearer token; the subscriber's id goes along for reporting.
pub fn deliveries(subs: &Vec<Subscriber>) -> (res: Vec<Delivery>)
    ensures
        res@.len() == subs@.len(),
        forall|i: int| 0 <= i < subs@.len() ==> (#[trigger] res@[i]).url == subs@[i].url
            && res@[i].bearer_token == subs@[i].secret && res@[i].subscriber_id == subs@[i].id
            && res@[i].timeout_secs == 10,
{
    let mut res: Vec<Delivery> = Vec::new();
    let n = subs.len();
    let mut i: usize = 0;
    while i < n
        invariant
            n == subs@.len(),
            i <= n,
            res@.len() == i,
            forall|k: int| 0 <= k < i ==> (#[trigger] res@[k]).url == subs@[k].url
                && res@[k].bearer_token == subs@[k].secret && res@[k].subscriber_id == subs@[k].id
                && res@[k].timeout_secs == 10,
        decreases n - i,
    {
        let sub = &subs[i];
        res.push(Delivery { subscriber_id: sub.id.clone(), url: sub.url.clone(), timeout_secs: DELIVERY_TIMEOUT_SECS, bearer_token: copy_opt(&sub.secret) });
        i = i + 1;
    }
    res
}

/// The posts an event causes: one per subscriber that wants it, in the
/// subscribers' order.
pub fn dispatch_plan(subs: Vec<Subscriber>, event: &GatewayEvent) -> (res: Vec<Delivery>)
    ensures
        res@.len() == matching(subs@, event.event_type@, event.platform@).len(),
        forall|i: int| 0 <= i < res@.len() ==> {
            let sub = #[trigger] matching(subs@, event.event_type@, event.platform@)[i];
            res@[i].url == sub.url && res@[i].bearer_token == sub.secret && res@[i].subscriber_id == sub.id
                && res@[i].timeout_secs == 10
        },
{
    let matched = get_matching(subs, event);
    deliveries(&matched)
}

/// What the broadcast receiver gave the dispatcher.
pub enum Received {
    /// An event to deliver.
    Event,
    /// The receiver fell behind and this many events were skipped.
    Lagged(u64),
    /// The channel is closed: no event will come.
    Closed,
}

/// What the dispatcher does next.
#[derive(Debug, PartialEq, Eq, Structural)]
pub enum DispatcherAction {
    /// Post the event to every subscriber of its `dispatch_plan`.
    Deliver,
    /// Report the skipped events and keep receiving.
    ReportLag(u64),
    /// Stop the dispatcher.
    Stop,
}

/// The dispatcher delivers each event, keeps going when it falls behind,
/// and stops only when the channel closes.
pub fn dispatcher_step(received: Received) -> (res: DispatcherAction)
    ensures
        match received {
            Received::Event => res == DispatcherAction::Deliver,
            Received::Lagged(n) => res == DispatcherAction::ReportLag(n),
            Received::Closed => res == DispatcherAction::Stop,
        },
{
    match received {
        Received::Event => DispatcherAction::Deliver,
        Received::Lagged(n) => DispatcherAction::ReportLag(n),
        Received::Closed => DispatcherAction::Stop,
    }
}

} // verus!
