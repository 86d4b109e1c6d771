//! EventEnum: one type for all four event kinds.

use vstd::prelude::*;
use crate::events::message::MessageEvent;
use crate::events::meta::MetaEvent;
use crate::events::notice::NoticeEvent;
use crate::events::request::RequestEvent;
use crate::events::traits::{Event, EventMetadata, source_name};
use crate::text::{opt_view, opt_str_view};

verus! {

/// All event kinds in one enum.
#[derive(Debug, Clone, PartialEq)]
pub enum EventEnum {
    Message(MessageEvent),
    Notice(NoticeEvent),
    Request(RequestEvent),
    Meta(MetaEvent),
}

/// The processing status of an event.
#[derive(Debug, Clone, Copy, PartialEq, Eq, Structural)]
pub enum Status {
    Unknown,
    Pending,
    Processing,
    Succeeded,
    Failed,
    Cancelled,
}

impl EventEnum {
    /// The metadata of the wrapped event.
    pub open spec fn spec_metadata(self) -> EventMetadata {
        match self {
            EventEnum::Message(e) => e.spec_metadata(),
            EventEnum::Notice(e) => e.spec_metadata(),
            EventEnum::Request(e) => e.spec_metadata(),
            EventEnum::Meta(e) => e.spec_metadata(),
        }
    }

    /// The dotted type name of the wrapped event.
    pub open spec fn spec_event_type(self) -> Seq<char> {
        match self {
            EventEnum::Message(e) => e.spec_event_type(),
            EventEnum::Notice(e) => e.spec_event_type(),
            EventEnum::Request(e) => e.spec_event_type(),
            EventEnum::Meta(e) => e.spec_event_type(),
        }
    }

    /// The user id the wrapped event reports.
    pub open spec fn spec_user_id(self) -> Option<Seq<char>> {
        match self {
            EventEnum::Message(e) => e.spec_user_id(),
            EventEnum::Notice(e) => e.spec_user_id(),
            EventEnum::Request(e) => e.spec_user_id(),
            EventEnum::Meta(e) => e.spec_user_id(),
        }
    }

    /// The group id the wrapped event reports.
    pub open spec fn spec_group_id(self) -> Option<Seq<char>> {
        match self {
            EventEnum::Message(e) => e.spec_group_id(),
            EventEnum::Notice(e) => e.spec_group_id(),
            EventEnum::Request(e) => e.spec_group_id(),
            EventEnum::Meta(e) => e.spec_group_id(),
        }
    }

    /// The event id.
    pub fn event_id(&self) -> (r: &str)
        ensures
            r@ == self.spec_metadata().event_id@,
    {
        match self {
            EventEnum::Message(e) => e.event_id(),
            EventEnum::Notice(e) => e.event_id(),
            EventEnum::Request(e) => e.event_id(),
            EventEnum::Meta(e) => e.event_id(),
        }
    }

    /// The event type.
    pub fn event_type(&self) -> (r: &str)
        ensures
            r@ == self.spec_event_type(),
    {
        match self {
            EventEnum::Message(e) => e.event_type(),
            EventEnum::Notice(e) => e.event_type(),
            EventEnum::Request(e) => e.event_type(),
            EventEnum::Meta(e) => e.event_type(),
        }
    }

    /// The timestamp in milliseconds since the epoch.
    pub fn timestamp(&self) -> (r: i64)
        ensures
            r == self.spec_metadata().timestamp.spec_millis(),
    {
        let ts = match self {
            EventEnum::Message(e) => e.timestamp(),
            EventEnum::Notice(e) => e.timestamp(),
            EventEnum::Request(e) => e.timestamp(),
            EventEnum::Meta(e) => e.timestamp(),
        };
        ts.timestamp_millis()
    }

    /// The source name: `user`, `system`, `api`, `worker:<name>` or `unknown`.
    pub fn source(&self) -> (r: String)
        ensures
            r@ == source_name(self.spec_metadata().source),
    {
        let src = match self {
            EventEnum::Message(e) => e.source(),
            EventEnum::Notice(e) => e.source(),
            EventEnum::Request(e) => e.source(),
            EventEnum::Meta(e) => e.source(),
        };
        src.name()
    }

    /// The user id.
    pub fn user_id(&self) -> (r: Option<&str>)
        ensures
            opt_str_view(r) == self.spec_user_id(),
    {
        match self {
            EventEnum::Message(e) => e.user_id(),
            EventEnum::Notice(e) => e.user_id(),
            EventEnum::Request(e) => e.user_id(),
            EventEnum::Meta(e) => e.user_id(),
        }
    }

    /// The group id.
    pub fn group_id(&self) -> (r: Option<&str>)
        ensures
            opt_str_view(r) == self.spec_group_id(),
    {
        match self {
            EventEnum::Message(e) => e.group_id(),
            EventEnum::Notice(e) => e.group_id(),
            EventEnum::Request(e) => e.group_id(),
            EventEnum::Meta(e) => e.group_id(),
        }
    }

    /// The bot's own id.
    pub fn self_id(&self) -> (r: Option<&str>)
        ensures
            opt_str_view(r) == opt_view(self.spec_metadata().self_id),
    {
        match self {
            EventEnum::Message(e) => e.self_id(),
            EventEnum::Notice(e) => e.self_id(),
            EventEnum::Request(e) => e.self_id(),
            EventEnum::Meta(e) => e.self_id(),
        }
    }

    /// The correlation id.
    pub fn correlation_id(&self) -> (r: Option<&str>)
        ensures
            opt_str_view(r) == opt_view(self.spec_metadata().correlation_id),
    {
        match self {
            EventEnum::Message(e) => e.correlation_id(),
            EventEnum::Notice(e) => e.correlation_id(),
            EventEnum::Request(e) => e.correlation_id(),
            EventEnum::Meta(e) => e.correlation_id(),
        }
    }

    pub fn is_message(&self) -> (r: bool)
        ensures
            r == self is Message,
    {
        match self {
            EventEnum::Message(_) => true,
            _ => false,
        }
    }

    pub fn is_notice(&self) -> (r: bool)
        ensures
            r == self is Notice,
    {
        match self {
            EventEnum::Notice(_) => true,
            _ => false,
        }
    }

    pub fn is_request(&self) -> (r: bool)
        ensures
            r == self is Request,
    {
        match self {
            EventEnum::Request(_) => true,
            _ => false,
        }
    }

    pub fn is_meta(&self) -> (r: bool)
        ensures
            r == self is Meta,
    {
        match self {
            EventEnum::Meta(_) => true,
            _ => false,
        }
    }

    /// The message event, if this is one.
    pub fn as_message(&self) -> (r: Option<&MessageEvent>)
        ensures
            r matches Some(e) ==> *self == EventEnum::Message(*e),
            r is None <==> !(self is Message),
    {
        match self {
            EventEnum::Message(e) => Some(e),
            _ => None,
        }
    }

    /// The notice event, if this is one.
    pub fn as_notice(&self) -> (r: Option<&NoticeEvent>)
        ensures
            r matches Some(e) ==> *self == EventEnum::Notice(*e),
            r is None <==> !(self is Notice),
    {
        match self {
            EventEnum::Notice(e) => Some(e),
            _ => None,
        }
    }

    /// The request event, if this is one.
    pub fn as_request(&self) -> (r: Option<&RequestEvent>)
        ensures
            r matches Some(e) ==> *self == EventEnum::Request(*e),
            r is None <==> !(self is Request),
    {
        match self {
            EventEnum::Request(e) => Some(e),
            _ => None,
        }
    }

    /// The meta event, if this is one.
    pub fn as_meta(&self) -> (r: Option<&MetaEvent>)
        ensures
            r matches Some(e) ==> *self == EventEnum::Meta(*e),
            r is None <==> !(self is Meta),
    {
        match self {
            EventEnum::Meta(e) => Some(e),
            _ => None,
        }
    }
}

} // verus!
