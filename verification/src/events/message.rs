//! Message events: text, media, mentions, replies and the like.

use vstd::prelude::*;
use crate::events::traits::{Event, EventMetadata, EventSource};
use crate::text::{opt_view, opt_str_view, opt_as_str};
use crate::time::Timestamp;

verus! {

/// Message event types.
#[derive(Debug, Clone, PartialEq)]
pub enum MessageEvent {
    /// A text message.
    Text {
        text: String,
        metadata: EventMetadata,
    },
    /// An image, with an optional caption.
    Image {
        url: String,
        caption: Option<String>,
        metadata: EventMetadata,
    },
    /// A voice message; duration in seconds.
    Voice {
        url: String,
        duration: u32,
        metadata: EventMetadata,
    },
    /// A video; duration in seconds.
    Video {
        url: String,
        duration: u32,
        cover_url: Option<String>,
        metadata: EventMetadata,
    },
    /// A message mentioning users.
    At {
        text: String,
        at_list: Vec<String>,
        metadata: EventMetadata,
    },
    /// A reply to another message.
    Reply {
        reply_to: String,
        text: String,
        metadata: EventMetadata,
    },
    /// A forwarded message.
    Forward {
        forward_from: String,
        text: Option<String>,
        metadata: EventMetadata,
    },
    /// A file; size in bytes.
    File {
        url: String,
        name: String,
        size: u64,
        metadata: EventMetadata,
    },
    /// A location. Latitude and longitude are IEEE-754 doubles, held by their bit patterns.
    Location {
        latitude_bits: u64,
        longitude_bits: u64,
        address: Option<String>,
        metadata: EventMetadata,
    },
    /// A sticker.
    Sticker {
        sticker_id: String,
        metadata: EventMetadata,
    },
    /// A markdown message.
    Markdown {
        content: String,
        metadata: EventMetadata,
    },
}

impl MessageEvent {
    /// The metadata of this event.
    pub open spec fn spec_metadata(self) -> EventMetadata {
        match self {
            MessageEvent::Text { metadata, .. } => metadata,
            MessageEvent::Image { metadata, .. } => metadata,
            MessageEvent::Voice { metadata, .. } => metadata,
            MessageEvent::Video { metadata, .. } => metadata,
            MessageEvent::At { metadata, .. } => metadata,
            MessageEvent::Reply { metadata, .. } => metadata,
            MessageEvent::Forward { metadata, .. } => metadata,
            MessageEvent::File { metadata, .. } => metadata,
            MessageEvent::Location { metadata, .. } => metadata,
            MessageEvent::Sticker { metadata, .. } => metadata,
            MessageEvent::Markdown { metadata, .. } => metadata,
        }
    }

    /// The dotted type name of this event.
    pub open spec fn spec_event_type(self) -> Seq<char> {
        match self {
            MessageEvent::Text { .. } => "message.text"@,
            MessageEvent::Image { .. } => "message.image"@,
            MessageEvent::Voice { .. } => "message.voice"@,
            MessageEvent::Video { .. } => "message.video"@,
            MessageEvent::At { .. } => "message.at"@,
            MessageEvent::Reply { .. } => "message.reply"@,
            MessageEvent::Forward { .. } => "message.forward"@,
            MessageEvent::File { .. } => "message.file"@,
            MessageEvent::Location { .. } => "message.location"@,
            MessageEvent::Sticker { .. } => "message.sticker"@,
            MessageEvent::Markdown { .. } => "message.markdown"@,
        }
    }

    /// The user id this event reports.
    pub open spec fn spec_user_id(self) -> Option<Seq<char>> {
        match self {
            MessageEvent::Text { metadata, .. } => opt_view(metadata.user_id),
            MessageEvent::Image { metadata, .. } => opt_view(metadata.user_id),
            MessageEvent::Voice { metadata, .. } => opt_view(metadata.user_id),
            MessageEvent::Video { metadata, .. } => opt_view(metadata.user_id),
            MessageEvent::At { metadata, .. } => opt_view(metadata.user_id),
            MessageEvent::Reply { metadata, .. } => opt_view(metadata.user_id),
            MessageEvent::Forward { metadata, .. } => opt_view(metadata.user_id),
            MessageEvent::File { metadata, .. } => opt_view(metadata.user_id),
            MessageEvent::Location { metadata, .. } => opt_view(metadata.user_id),
            MessageEvent::Sticker { metadata, .. } => opt_view(metadata.user_id),
            MessageEvent::Markdown { metadata, .. } => opt_view(metadata.user_id),
        }
    }

    /// The group id this event reports.
    pub open spec fn spec_group_id(self) -> Option<Seq<char>> {
        match self {
            MessageEvent::Text { metadata, .. } => opt_view(metadata.group_id),
            MessageEvent::Image { metadata, .. } => opt_view(metadata.group_id),
            MessageEvent::Voice { metadata, .. } => opt_view(metadata.group_id),
            MessageEvent::Video { metadata, .. } => opt_view(metadata.group_id),
            MessageEvent::At { metadata, .. } => opt_view(metadata.group_id),
            MessageEvent::Reply { metadata, .. } => opt_view(metadata.group_id),
            MessageEvent::Forward { metadata, .. } => opt_view(metadata.group_id),
            MessageEvent::File { metadata, .. } => opt_view(metadata.group_id),
            MessageEvent::Location { metadata, .. } => opt_view(metadata.group_id),
            MessageEvent::Sticker { metadata, .. } => opt_view(metadata.group_id),
            MessageEvent::Markdown { metadata, .. } => opt_view(metadata.group_id),
        }
    }

    /// The metadata of this event, borrowed.
    pub fn metadata(&self) -> (r: &EventMetadata)
        ensures
            *r == self.spec_metadata(),
    {
        match self {
            MessageEvent::Text { metadata, .. } => metadata,
            MessageEvent::Image { metadata, .. } => metadata,
            MessageEvent::Voice { metadata, .. } => metadata,
            MessageEvent::Video { metadata, .. } => metadata,
            MessageEvent::At { metadata, .. } => metadata,
            MessageEvent::Reply { metadata, .. } => metadata,
            MessageEvent::Forward { metadata, .. } => metadata,
            MessageEvent::File { metadata, .. } => metadata,
            MessageEvent::Location { metadata, .. } => metadata,
            MessageEvent::Sticker { metadata, .. } => metadata,
            MessageEvent::Markdown { metadata, .. } => metadata,
        }
    }

    /// The text content, where the message has one.
    pub open spec fn spec_content(self) -> Option<Seq<char>> {
        match self {
            MessageEvent::Text { text, .. } => Some(text@),
            MessageEvent::Reply { text, .. } => Some(text@),
            MessageEvent::Forward { text, .. } => opt_view(text),
            MessageEvent::Markdown { content, .. } => Some(content@),
            MessageEvent::Image { caption, .. } => opt_view(caption),
            MessageEvent::At { text, .. } => Some(text@),
            _ => None,
        }
    }

    /// The media URL (the sticker id for a sticker), where there is one.
    pub open spec fn spec_media_url(self) -> Option<Seq<char>> {
        match self {
            MessageEvent::Image { url, .. } => Some(url@),
            MessageEvent::Voice { url, .. } => Some(url@),
            MessageEvent::Video { url, .. } => Some(url@),
            MessageEvent::File { url, .. } => Some(url@),
            MessageEvent::Sticker { sticker_id, .. } => Some(sticker_id@),
            _ => None,
        }
    }

    /// The message's text content, or its caption.
    pub fn content(&self) -> (r: Option<&str>)
        ensures
            opt_str_view(r) == self.spec_content(),
    {
        match self {
            MessageEvent::Text { text, .. } => Some(text.as_str()),
            MessageEvent::Reply { text, .. } => Some(text.as_str()),
            MessageEvent::Forward { text, .. } => opt_as_str(text),
            MessageEvent::Markdown { content, .. } => Some(content.as_str()),
            MessageEvent::Image { caption, .. } => opt_as_str(caption),
            MessageEvent::At { text, .. } => Some(text.as_str()),
            _ => None,
        }
    }

    /// The media URL, if applicable.
    pub fn media_url(&self) -> (r: Option<&str>)
        ensures
            opt_str_view(r) == self.spec_media_url(),
    {
        match self {
            MessageEvent::Image { url, .. } => Some(url.as_str()),
            MessageEvent::Voice { url, .. } => Some(url.as_str()),
            MessageEvent::Video { url, .. } => Some(url.as_str()),
            MessageEvent::File { url, .. } => Some(url.as_str()),
            MessageEvent::Sticker { sticker_id, .. } => Some(sticker_id.as_str()),
            _ => None,
        }
    }

}

impl Event for MessageEvent {
    fn event_id(&self) -> (r: &str)
        ensures
            r@ == self.spec_metadata().event_id@,
    {
        self.metadata().event_id.as_str()
    }

    fn event_type(&self) -> (r: &str)
        ensures
            r@ == self.spec_event_type(),
    {
        match self {
            MessageEvent::Text { .. } => "message.text",
            MessageEvent::Image { .. } => "message.image",
            MessageEvent::Voice { .. } => "message.voice",
            MessageEvent::Video { .. } => "message.video",
            MessageEvent::At { .. } => "message.at",
            MessageEvent::Reply { .. } => "message.reply",
            MessageEvent::Forward { .. } => "message.forward",
            MessageEvent::File { .. } => "message.file",
            MessageEvent::Location { .. } => "message.location",
            MessageEvent::Sticker { .. } => "message.sticker",
            MessageEvent::Markdown { .. } => "message.markdown",
        }
    }

    fn timestamp(&self) -> (r: Timestamp)
        ensures
            r == self.spec_metadata().timestamp,
    {
        self.metadata().timestamp
    }

    fn source(&self) -> (r: EventSource)
        ensures
            r == self.spec_metadata().source,
    {
        self.metadata().source.clone()
    }

    fn user_id(&self) -> (r: Option<&str>)
        ensures
            opt_str_view(r) == self.spec_user_id(),
    {
        opt_as_str(&self.metadata().user_id)
    }

    fn group_id(&self) -> (r: Option<&str>)
        ensures
            opt_str_view(r) == self.spec_group_id(),
    {
        opt_as_str(&self.metadata().group_id)
    }

    fn self_id(&self) -> (r: Option<&str>)
        ensures
            opt_str_view(r) == opt_view(self.spec_metadata().self_id),
    {
        opt_as_str(&self.metadata().self_id)
    }

    fn correlation_id(&self) -> (r: Option<&str>)
        ensures
            opt_str_view(r) == opt_view(self.spec_metadata().correlation_id),
    {
        opt_as_str(&self.metadata().correlation_id)
    }
}


/// Each kind of message has its own dotted type name: `message.` followed by text, image, voice, video, at, reply, forward, file, location, sticker or markdown; two messages have the same type exactly when they are of the same kind.
pub proof fn lemma_message_types(a: MessageEvent, b: MessageEvent)
    ensures
        a is Text ==> a.spec_event_type() == "message.text"@,
        a is Image ==> a.spec_event_type() == "message.image"@,
        a is Voice ==> a.spec_event_type() == "message.voice"@,
        a is Video ==> a.spec_event_type() == "message.video"@,
        a is At ==> a.spec_event_type() == "message.at"@,
        a is Reply ==> a.spec_event_type() == "message.reply"@,
        a is Forward ==> a.spec_event_type() == "message.forward"@,
        a is File ==> a.spec_event_type() == "message.file"@,
        a is Location ==> a.spec_event_type() == "message.location"@,
        a is Sticker ==> a.spec_event_type() == "message.sticker"@,
        a is Markdown ==> a.spec_event_type() == "message.markdown"@,
        a.spec_event_type() == b.spec_event_type() ==> ((a is Text && b is Text) || (a is Image && b is Image) || (a is Voice && b is Voice) || (a is Video && b is Video) || (a is At && b is At) || (a is Reply && b is Reply) || (a is Forward && b is Forward) || (a is File && b is File) || (a is Location && b is Location) || (a is Sticker && b is Sticker) || (a is Markdown && b is Markdown)),
{
    reveal_strlit("message.text");
    reveal_strlit("message.image");
    reveal_strlit("message.voice");
    reveal_strlit("message.video");
    reveal_strlit("message.at");
    reveal_strlit("message.reply");
    reveal_strlit("message.forward");
    reveal_strlit("message.file");
    reveal_strlit("message.location");
    reveal_strlit("message.sticker");
    reveal_strlit("message.markdown");
    let x = a.spec_event_type();
    let y = b.spec_event_type();
    if x == y {
        assert(x.len() == y.len() && x[8] == y[8] && x[9] == y[9]);
    }
}


/// A message reports the user and group ids of its metadata, whatever its kind.
pub proof fn lemma_message_ids(a: MessageEvent)
    ensures
        a matches MessageEvent::Text { metadata, .. } ==> a.spec_user_id() == opt_view(metadata.user_id),
        a matches MessageEvent::Image { metadata, .. } ==> a.spec_user_id() == opt_view(metadata.user_id),
        a matches MessageEvent::Voice { metadata, .. } ==> a.spec_user_id() == opt_view(metadata.user_id),
        a matches MessageEvent::Video { metadata, .. } ==> a.spec_user_id() == opt_view(metadata.user_id),
        a matches MessageEvent::At { metadata, .. } ==> a.spec_user_id() == opt_view(metadata.user_id),
        a matches MessageEvent::Reply { metadata, .. } ==> a.spec_user_id() == opt_view(metadata.user_id),
        a matches MessageEvent::Forward { metadata, .. } ==> a.spec_user_id() == opt_view(metadata.user_id),
        a matches MessageEvent::File { metadata, .. } ==> a.spec_user_id() == opt_view(metadata.user_id),
        a matches MessageEvent::Location { metadata, .. } ==> a.spec_user_id() == opt_view(metadata.user_id),
        a matches MessageEvent::Sticker { metadata, .. } ==> a.spec_user_id() == opt_view(metadata.user_id),
        a matches MessageEvent::Markdown { metadata, .. } ==> a.spec_user_id() == opt_view(metadata.user_id),
        a matches MessageEvent::Text { metadata, .. } ==> a.spec_group_id() == opt_view(metadata.group_id),
        a matches MessageEvent::Image { metadata, .. } ==> a.spec_group_id() == opt_view(metadata.group_id),
        a matches MessageEvent::Voice { metadata, .. } ==> a.spec_group_id() == opt_view(metadata.group_id),
        a matches MessageEvent::Video { metadata, .. } ==> a.spec_group_id() == opt_view(metadata.group_id),
        a matches MessageEvent::At { metadata, .. } ==> a.spec_group_id() == opt_view(metadata.group_id),
        a matches MessageEvent::Reply { metadata, .. } ==> a.spec_group_id() == opt_view(metadata.group_id),
        a matches MessageEvent::Forward { metadata, .. } ==> a.spec_group_id() == opt_view(metadata.group_id),
        a matches MessageEvent::File { metadata, .. } ==> a.spec_group_id() == opt_view(metadata.group_id),
        a matches MessageEvent::Location { metadata, .. } ==> a.spec_group_id() == opt_view(metadata.group_id),
        a matches MessageEvent::Sticker { metadata, .. } ==> a.spec_group_id() == opt_view(metadata.group_id),
        a matches MessageEvent::Markdown { metadata, .. } ==> a.spec_group_id() == opt_view(metadata.group_id),
{
}

} // verus!
