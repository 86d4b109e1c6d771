//! Core event types: where an event came from and the metadata every event carries.

use vstd::prelude::*;
use crate::json::JsonMap;
use crate::text::{opt_view, opt_as_str};
use crate::time::{Timestamp, generated_id, int_decimal};

verus! {

/// Where an event originated.
#[derive(Debug, PartialEq, Eq)]
pub enum EventSource {
    User,
    System,
    Api,
    Worker(String),
    Unknown,
}

impl Clone for EventSource {
    fn clone(&self) -> (r: Self)
        ensures
            r == *self,
    {
        match self {
            EventSource::User => EventSource::User,
            EventSource::System => EventSource::System,
            EventSource::Api => EventSource::Api,
            EventSource::Worker(s) => EventSource::Worker(s.clone()),
            EventSource::Unknown => EventSource::Unknown,
        }
    }
}

/// The lowercase name of a source, `worker:<name>` for a worker.
pub open spec fn source_name(s: EventSource) -> Seq<char> {
    match s {
        EventSource::User => "user"@,
        EventSource::System => "system"@,
        EventSource::Api => "api"@,
        EventSource::Worker(w) => "worker:"@ + w@,
        EventSource::Unknown => "unknown"@,
    }
}

impl EventSource {
    /// The lowercase name of this source.
    pub fn name(&self) -> (r: String)
        ensures
            r@ == source_name(*self),
    {
        match self {
            EventSource::User => String::from_str("user"),
            EventSource::System => String::from_str("system"),
            EventSource::Api => String::from_str("api"),
            EventSource::Worker(w) => {
                let mut r = String::from_str("worker:");
                r.append(w.as_str());
                r
            },
            EventSource::Unknown => String::from_str("unknown"),
        }
    }
}

/// Metadata common to all events.
#[derive(Debug, Clone, PartialEq)]
pub struct EventMetadata {
    /// Unique event identifier: `<type>-<millis>-<uuid>`.
    pub event_id: String,
    /// When the event happened.
    pub timestamp: Timestamp,
    pub source: EventSource,
    /// The user who triggered the event.
    pub user_id: Option<String>,
    /// The group, for group events.
    pub group_id: Option<String>,
    /// The bot's own id.
    pub self_id: Option<String>,
    /// Links related events.
    pub correlation_id: Option<String>,
    /// Additional custom metadata.
    pub extra: JsonMap,
}

/// `id` has the generated form `<prefix>-<millis>-<uuid>`.
pub open spec fn is_generated_id(id: Seq<char>, prefix: Seq<char>) -> bool {
    exists|ms: int, u: Seq<char>| u.len() == 36 && id == prefix + "-"@ + int_decimal(ms) + "-"@ + u
}

impl EventMetadata {
    /// Fresh metadata for an event of type `event_type`: a generated id,
    /// the current time, an unknown source, no ids and no extra members.
    pub fn new(event_type: &str) -> (r: Self)
        ensures
            is_generated_id(r.event_id@, event_type@),
            r.source == EventSource::Unknown,
            r.user_id is None,
            r.group_id is None,
            r.self_id is None,
            r.correlation_id is None,
            r.extra@.len() == 0,
    {
        let id_time = Timestamp::now();
        let event_id = generated_id(event_type, &id_time);
        EventMetadata {
            event_id,
            timestamp: Timestamp::now(),
            source: EventSource::Unknown,
            user_id: None,
            group_id: None,
            self_id: None,
            correlation_id: None,
            extra: JsonMap::new(),
        }
    }

    /// Set the source.
    pub fn with_source(self, source: EventSource) -> (r: Self)
        ensures
            r == (EventMetadata { source, ..self }),
    {
        let mut m = self;
        m.source = source;
        m
    }

    /// Set the user id.
    pub fn with_user_id(self, user_id: &str) -> (r: Self)
        ensures
            opt_view(r.user_id) == Some(user_id@),
            r == (EventMetadata { user_id: r.user_id, ..self }),
    {
        let mut m = self;
        m.user_id = Some(String::from_str(user_id));
        m
    }

    /// Set the group id.
    pub fn with_group_id(self, group_id: &str) -> (r: Self)
        ensures
            opt_view(r.group_id) == Some(group_id@),
            r == (EventMetadata { group_id: r.group_id, ..self }),
    {
        let mut m = self;
        m.group_id = Some(String::from_str(group_id));
        m
    }

    /// Set the self id.
    pub fn with_self_id(self, self_id: &str) -> (r: Self)
        ensures
            opt_view(r.self_id) == Some(self_id@),
            r == (EventMetadata { self_id: r.self_id, ..self }),
    {
        let mut m = self;
        m.self_id = Some(String::from_str(self_id));
        m
    }

    /// Set the correlation id.
    pub fn with_correlation_id(self, correlation_id: &str) -> (r: Self)
        ensures
            opt_view(r.correlation_id) == Some(correlation_id@),
            r == (EventMetadata { correlation_id: r.correlation_id, ..self }),
    {
        let mut m = self;
        m.correlation_id = Some(String::from_str(correlation_id));
        m
    }

    /// Add an extra member; `json` is the JSON text of its value.
    pub fn with_extra(self, key: &str, json: &str) -> (r: Self)
        ensures
            crate::json::map_get(r.extra@, key@) == Some(json@),
            forall|k: Seq<char>|
                k != key@ ==> crate::json::map_get(r.extra@, k) == crate::json::map_get(
                    self.extra@,
                    k,
                ),
            r == (EventMetadata { extra: r.extra, ..self }),
    {
        let mut m = self;
        m.extra.set(key, json);
        m
    }

    /// The user id, borrowed.
    pub fn user_id_str(&self) -> (r: Option<&str>)
        ensures
            crate::text::opt_str_view(r) == opt_view(self.user_id),
    {
        opt_as_str(&self.user_id)
    }

    /// The group id, borrowed.
    pub fn group_id_str(&self) -> (r: Option<&str>)
        ensures
            crate::text::opt_str_view(r) == opt_view(self.group_id),
    {
        opt_as_str(&self.group_id)
    }

    /// The self id, borrowed.
    pub fn self_id_str(&self) -> (r: Option<&str>)
        ensures
            crate::text::opt_str_view(r) == opt_view(self.self_id),
    {
        opt_as_str(&self.self_id)
    }

    /// The correlation id, borrowed.
    pub fn correlation_id_str(&self) -> (r: Option<&str>)
        ensures
            crate::text::opt_str_view(r) == opt_view(self.correlation_id),
    {
        opt_as_str(&self.correlation_id)
    }
}

impl Default for EventMetadata {
    fn default() -> (r: Self)
        ensures
            is_generated_id(r.event_id@, "unknown"@),
            r.source == EventSource::Unknown,
            r.user_id is None,
            r.group_id is None,
    {
        Self::new("unknown")
    }
}

/// The accessors every event offers.
pub trait Event {
    /// The event's unique id.
    fn event_id(&self) -> &str;

    /// The dotted event type name.
    fn event_type(&self) -> &str;

    /// When the event happened.
    fn timestamp(&self) -> Timestamp;

    /// Where the event came from.
    fn source(&self) -> EventSource;

    /// The user who triggered the event.
    fn user_id(&self) -> Option<&str>;

    /// The group, for group events.
    fn group_id(&self) -> Option<&str>;

    /// The bot's own id.
    fn self_id(&self) -> Option<&str>;

    /// Links related events.
    fn correlation_id(&self) -> Option<&str>;
}

} // verus!
