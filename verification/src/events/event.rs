//! The unified event: simple events (no content) and group events (with a payload).

use vstd::prelude::*;
use crate::events::payloads_legacy::{
    MessageContent, MessagePayload, MessageSubtype, NoticeContent, NoticePayload, NoticeSubtype,
    RequestContent, RequestPayload, RequestSubtype, UserInfo, message_subtype_name,
    notice_subtype_name, request_subtype_name,
};
use crate::events::traits::{EventMetadata, EventSource};
use crate::text::{opt_view, opt_str_view, opt_as_str};
use crate::time::{Timestamp, int_decimal};

verus! {

/// An event without content: notifications, status changes, system events.
#[derive(Debug, Clone, PartialEq)]
pub struct SimpleEvent {
    pub event_type: String,
    pub metadata: EventMetadata,
}

impl SimpleEvent {
    pub fn new(event_type: &str, metadata: EventMetadata) -> (r: Self)
        ensures
            r.event_type@ == event_type@,
            r.metadata == metadata,
    {
        SimpleEvent { event_type: String::from_str(event_type), metadata }
    }
}

/// An event with payload content.
#[derive(Debug, Clone, PartialEq)]
pub enum GroupEvent {
    Message(MessagePayload),
    Notice(NoticePayload),
    Request(RequestPayload),
}

/// An event, either simple or with a payload.
#[derive(Debug, Clone, PartialEq)]
pub enum UnifiedEvent {
    Simple(SimpleEvent),
    Group(GroupEvent),
}

impl UnifiedEvent {
    /// The metadata of the event.
    pub open spec fn spec_metadata(self) -> EventMetadata {
        match self {
            UnifiedEvent::Simple(e) => e.metadata,
            UnifiedEvent::Group(GroupEvent::Message(p)) => p.metadata,
            UnifiedEvent::Group(GroupEvent::Notice(p)) => p.metadata,
            UnifiedEvent::Group(GroupEvent::Request(p)) => p.metadata,
        }
    }

    /// The type name of the event.
    pub open spec fn spec_event_type(self) -> Seq<char> {
        match self {
            UnifiedEvent::Simple(e) => e.event_type@,
            UnifiedEvent::Group(GroupEvent::Message(p)) => message_subtype_name(p.subtype),
            UnifiedEvent::Group(GroupEvent::Notice(p)) => notice_subtype_name(p.subtype),
            UnifiedEvent::Group(GroupEvent::Request(p)) => request_subtype_name(p.subtype),
        }
    }

    fn metadata(&self) -> (r: &EventMetadata)
        ensures
            *r == self.spec_metadata(),
    {
        match self {
            UnifiedEvent::Simple(e) => &e.metadata,
            UnifiedEvent::Group(GroupEvent::Message(p)) => &p.metadata,
            UnifiedEvent::Group(GroupEvent::Notice(p)) => &p.metadata,
            UnifiedEvent::Group(GroupEvent::Request(p)) => &p.metadata,
        }
    }

    pub fn event_id(&self) -> (r: &str)
        ensures
            r@ == self.spec_metadata().event_id@,
    {
        self.metadata().event_id.as_str()
    }

    pub fn event_type(&self) -> (r: &str)
        ensures
            r@ == self.spec_event_type(),
    {
        match self {
            UnifiedEvent::Simple(e) => e.event_type.as_str(),
            UnifiedEvent::Group(GroupEvent::Message(p)) => p.event_type(),
            UnifiedEvent::Group(GroupEvent::Notice(p)) => p.event_type(),
            UnifiedEvent::Group(GroupEvent::Request(p)) => p.event_type(),
        }
    }

    pub fn timestamp(&self) -> (r: Timestamp)
        ensures
            r == self.spec_metadata().timestamp,
    {
        self.metadata().timestamp
    }

    pub fn source(&self) -> (r: &EventSource)
        ensures
            *r == self.spec_metadata().source,
    {
        &self.metadata().source
    }

    pub fn user_id(&self) -> (r: Option<&str>)
        ensures
            opt_str_view(r) == opt_view(self.spec_metadata().user_id),
    {
        opt_as_str(&self.metadata().user_id)
    }

    pub fn group_id(&self) -> (r: Option<&str>)
        ensures
            opt_str_view(r) == opt_view(self.spec_metadata().group_id),
    {
        opt_as_str(&self.metadata().group_id)
    }

    pub fn self_id(&self) -> (r: Option<&str>)
        ensures
            opt_str_view(r) == opt_view(self.spec_metadata().self_id),
    {
        opt_as_str(&self.metadata().self_id)
    }

    pub fn correlation_id(&self) -> (r: Option<&str>)
        ensures
            opt_str_view(r) == opt_view(self.spec_metadata().correlation_id),
    {
        opt_as_str(&self.metadata().correlation_id)
    }

    pub fn is_simple(&self) -> (r: bool)
        ensures
            r == self is Simple,
    {
        match self {
            UnifiedEvent::Simple(_) => true,
            _ => false,
        }
    }

    pub fn is_group(&self) -> (r: bool)
        ensures
            r == self is Group,
    {
        match self {
            UnifiedEvent::Group(_) => true,
            _ => false,
        }
    }

    pub fn as_simple(&self) -> (r: Option<&SimpleEvent>)
        ensures
            r matches Some(e) ==> *self == UnifiedEvent::Simple(*e),
            r is None <==> !(self is Simple),
    {
        match self {
            UnifiedEvent::Simple(e) => Some(e),
            UnifiedEvent::Group(_) => None,
        }
    }

    pub fn as_group(&self) -> (r: Option<&GroupEvent>)
        ensures
            r matches Some(e) ==> *self == UnifiedEvent::Group(*e),
            r is None <==> !(self is Group),
    {
        match self {
            UnifiedEvent::Group(e) => Some(e),
            UnifiedEvent::Simple(_) => None,
        }
    }

    pub fn is_message(&self) -> (r: bool)
        ensures
            r == (self matches UnifiedEvent::Group(GroupEvent::Message(_))),
    {
        match self {
            UnifiedEvent::Group(GroupEvent::Message(_)) => true,
            _ => false,
        }
    }

    pub fn is_notice(&self) -> (r: bool)
        ensures
            r == (self matches UnifiedEvent::Group(GroupEvent::Notice(_))),
    {
        match self {
            UnifiedEvent::Group(GroupEvent::Notice(_)) => true,
            _ => false,
        }
    }

    pub fn is_request(&self) -> (r: bool)
        ensures
            r == (self matches UnifiedEvent::Group(GroupEvent::Request(_))),
    {
        match self {
            UnifiedEvent::Group(GroupEvent::Request(_)) => true,
            _ => false,
        }
    }

    pub fn as_message(&self) -> (r: Option<&MessagePayload>)
        ensures
            r matches Some(p) ==> *self == UnifiedEvent::Group(GroupEvent::Message(*p)),
            r is None <==> !(self matches UnifiedEvent::Group(GroupEvent::Message(_))),
    {
        match self {
            UnifiedEvent::Group(GroupEvent::Message(p)) => Some(p),
            _ => None,
        }
    }

    pub fn as_notice(&self) -> (r: Option<&NoticePayload>)
        ensures
            r matches Some(p) ==> *self == UnifiedEvent::Group(GroupEvent::Notice(*p)),
            r is None <==> !(self matches UnifiedEvent::Group(GroupEvent::Notice(_))),
    {
        match self {
            UnifiedEvent::Group(GroupEvent::Notice(p)) => Some(p),
            _ => None,
        }
    }

    pub fn as_request(&self) -> (r: Option<&RequestPayload>)
        ensures
            r matches Some(p) ==> *self == UnifiedEvent::Group(GroupEvent::Request(*p)),
            r is None <==> !(self matches UnifiedEvent::Group(GroupEvent::Request(_))),
    {
        match self {
            UnifiedEvent::Group(GroupEvent::Request(p)) => Some(p),
            _ => None,
        }
    }

    /// A simple event.
    pub fn simple(event_type: &str, metadata: EventMetadata) -> (r: Self)
        ensures
            r matches UnifiedEvent::Simple(e) && e.event_type@ == event_type@ && e.metadata
                == metadata,
    {
        UnifiedEvent::Simple(SimpleEvent::new(event_type, metadata))
    }

    /// A text message event.
    pub fn message_text(text: &str, metadata: EventMetadata) -> (r: Self)
        ensures
            r matches UnifiedEvent::Group(GroupEvent::Message(p)) && p.subtype
                == MessageSubtype::Text && p.metadata == metadata && (p.content matches MessageContent::Text {
                text: t,
            } && t@ == text@),
    {
        UnifiedEvent::Group(
            GroupEvent::Message(
                MessagePayload {
                    subtype: MessageSubtype::Text,
                    content: MessageContent::Text { text: String::from_str(text) },
                    metadata,
                },
            ),
        )
    }

    /// An image message event.
    pub fn message_image(url: &str, caption: Option<String>, metadata: EventMetadata) -> (r: Self)
        ensures
            r matches UnifiedEvent::Group(GroupEvent::Message(p)) && p.subtype
                == MessageSubtype::Image && p.metadata == metadata && (p.content matches MessageContent::Image {
                url: u,
                caption: c,
            } && u@ == url@ && c == caption),
    {
        UnifiedEvent::Group(
            GroupEvent::Message(
                MessagePayload {
                    subtype: MessageSubtype::Image,
                    content: MessageContent::Image { url: String::from_str(url), caption },
                    metadata,
                },
            ),
        )
    }

    /// A heartbeat: a simple `meta.heartbeat` event whose metadata carries the
    /// interval under the extra key `interval`.
    pub fn heartbeat(interval: u32, metadata: EventMetadata) -> (r: Self)
        ensures
            r matches UnifiedEvent::Simple(e) && e.event_type@ == "meta.heartbeat"@
                && crate::json::map_get(e.metadata.extra@, "interval"@) == Some(
                int_decimal(interval as int),
            ) && e.metadata == (EventMetadata { extra: e.metadata.extra, ..metadata }),
    {
        let text = crate::time::decimal_string(interval as i64);
        UnifiedEvent::Simple(
            SimpleEvent {
                event_type: String::from_str("meta.heartbeat"),
                metadata: metadata.with_extra("interval", text.as_str()),
            },
        )
    }

    /// A lifecycle event of type `meta.lifecycle.<phase>`.
    pub fn lifecycle(phase: &str, metadata: EventMetadata) -> (r: Self)
        ensures
            r matches UnifiedEvent::Simple(e) && e.event_type@ == "meta.lifecycle."@ + phase@
                && e.metadata == metadata,
    {
        let mut t = String::from_str("meta.lifecycle.");
        t.append(phase);
        UnifiedEvent::Simple(SimpleEvent { event_type: t, metadata })
    }

    /// A connection status event of type `meta.connection.<status>`.
    pub fn connection_status(status: &str, metadata: EventMetadata) -> (r: Self)
        ensures
            r matches UnifiedEvent::Simple(e) && e.event_type@ == "meta.connection."@ + status@
                && e.metadata == metadata,
    {
        let mut t = String::from_str("meta.connection.");
        t.append(status);
        UnifiedEvent::Simple(SimpleEvent { event_type: t, metadata })
    }

    /// A group-member-join notice.
    pub fn notice_member_join(
        user_id: String,
        group_id: String,
        user_info: Option<UserInfo>,
        metadata: EventMetadata,
    ) -> (r: Self)
        ensures
            r == UnifiedEvent::Group(
                GroupEvent::Notice(
                    NoticePayload {
                        subtype: NoticeSubtype::GroupMemberJoin,
                        content: NoticeContent::GroupMemberJoin { user_id, group_id, user_info },
                        metadata,
                    },
                ),
            ),
    {
        UnifiedEvent::Group(
            GroupEvent::Notice(
                NoticePayload {
                    subtype: NoticeSubtype::GroupMemberJoin,
                    content: NoticeContent::GroupMemberJoin { user_id, group_id, user_info },
                    metadata,
                },
            ),
        )
    }

    /// A friend request.
    pub fn request_friend(from_user_id: String, comment: Option<String>, metadata: EventMetadata) -> (r: Self)
        ensures
            r == UnifiedEvent::Group(
                GroupEvent::Request(
                    RequestPayload {
                        subtype: RequestSubtype::Friend,
                        content: RequestContent::Friend { from_user_id, comment },
                        metadata,
                    },
                ),
            ),
    {
        UnifiedEvent::Group(
            GroupEvent::Request(
                RequestPayload {
                    subtype: RequestSubtype::Friend,
                    content: RequestContent::Friend { from_user_id, comment },
                    metadata,
                },
            ),
        )
    }
}

} // verus!
