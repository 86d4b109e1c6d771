//! Event payloads of the earlier design: message, notice and request
//! payloads with their subtypes, and the text/blob/event payloads.

use vstd::prelude::*;
use crate::events::traits::EventMetadata;
use crate::text::{opt_view, opt_str_view, opt_as_str};

verus! {

/// Common interface of the message, notice and request payloads.
pub trait Payload {
    /// The event metadata.
    fn metadata(&self) -> &EventMetadata;

    /// The dotted event type name.
    fn event_type(&self) -> &str;
}

/// Message subtypes.
#[derive(Debug, Clone, Copy, PartialEq, Eq, Structural)]
pub enum MessageSubtype {
    Text,
    Image,
    Voice,
    Video,
    At,
    Reply,
    Forward,
    File,
    Location,
    Sticker,
    Markdown,
}

/// The dotted event type name of a MessageSubtype.
pub open spec fn message_subtype_name(s: MessageSubtype) -> Seq<char> {
    match s {
        MessageSubtype::Text => "message.text"@,
        MessageSubtype::Image => "message.image"@,
        MessageSubtype::Voice => "message.voice"@,
        MessageSubtype::Video => "message.video"@,
        MessageSubtype::At => "message.at"@,
        MessageSubtype::Reply => "message.reply"@,
        MessageSubtype::Forward => "message.forward"@,
        MessageSubtype::File => "message.file"@,
        MessageSubtype::Location => "message.location"@,
        MessageSubtype::Sticker => "message.sticker"@,
        MessageSubtype::Markdown => "message.markdown"@,
    }
}

fn message_subtype_name_exec(s: MessageSubtype) -> (r: &'static str)
    ensures
        r@ == message_subtype_name(s),
{
    match s {
        MessageSubtype::Text => "message.text",
        MessageSubtype::Image => "message.image",
        MessageSubtype::Voice => "message.voice",
        MessageSubtype::Video => "message.video",
        MessageSubtype::At => "message.at",
        MessageSubtype::Reply => "message.reply",
        MessageSubtype::Forward => "message.forward",
        MessageSubtype::File => "message.file",
        MessageSubtype::Location => "message.location",
        MessageSubtype::Sticker => "message.sticker",
        MessageSubtype::Markdown => "message.markdown",
    }
}

/// Message content; location coordinates are IEEE-754 doubles, held by their bit patterns.
#[derive(Debug, Clone, PartialEq)]
pub enum MessageContent {
    Text {
        text: String,
    },
    Image {
        url: String,
        caption: Option<String>,
    },
    Voice {
        url: String,
        duration: u32,
    },
    Video {
        url: String,
        duration: u32,
        cover_url: Option<String>,
    },
    At {
        text: String,
        at_list: Vec<String>,
    },
    Reply {
        reply_to: String,
        text: String,
    },
    Forward {
        forward_from: String,
        text: Option<String>,
    },
    File {
        url: String,
        name: String,
        size: u64,
    },
    Location {
        latitude_bits: u64,
        longitude_bits: u64,
        address: Option<String>,
    },
    Sticker {
        sticker_id: String,
    },
    Markdown {
        content: String,
    },
}

impl MessageContent {
    /// The text content, where there is one.
    pub open spec fn spec_text(self) -> Option<Seq<char>> {
        match self {
            MessageContent::Text { text } => Some(text@),
            MessageContent::Reply { text, .. } => Some(text@),
            MessageContent::Forward { text, .. } => opt_view(text),
            MessageContent::Markdown { content } => Some(content@),
            MessageContent::Image { caption, .. } => opt_view(caption),
            MessageContent::At { text, .. } => Some(text@),
            _ => None,
        }
    }

    /// The media URL (the sticker id for a sticker), where there is one.
    pub open spec fn spec_media_url(self) -> Option<Seq<char>> {
        match self {
            MessageContent::Image { url, .. } => Some(url@),
            MessageContent::Voice { url, .. } => Some(url@),
            MessageContent::Video { url, .. } => Some(url@),
            MessageContent::File { url, .. } => Some(url@),
            MessageContent::Sticker { sticker_id } => Some(sticker_id@),
            _ => None,
        }
    }

    /// The text content, if applicable.
    pub fn text(&self) -> (r: Option<&str>)
        ensures
            opt_str_view(r) == self.spec_text(),
    {
        match self {
            MessageContent::Text { text } => Some(text.as_str()),
            MessageContent::Reply { text, .. } => Some(text.as_str()),
            MessageContent::Forward { text, .. } => opt_as_str(text),
            MessageContent::Markdown { content } => Some(content.as_str()),
            MessageContent::Image { caption, .. } => opt_as_str(caption),
            MessageContent::At { text, .. } => Some(text.as_str()),
            _ => None,
        }
    }

    /// The media URL, if applicable.
    pub fn media_url(&self) -> (r: Option<&str>)
        ensures
            opt_str_view(r) == self.spec_media_url(),
    {
        match self {
            MessageContent::Image { url, .. } => Some(url.as_str()),
            MessageContent::Voice { url, .. } => Some(url.as_str()),
            MessageContent::Video { url, .. } => Some(url.as_str()),
            MessageContent::File { url, .. } => Some(url.as_str()),
            MessageContent::Sticker { sticker_id } => Some(sticker_id.as_str()),
            _ => None,
        }
    }
}

/// A message payload.
#[derive(Debug, Clone, PartialEq)]
pub struct MessagePayload {
    pub subtype: MessageSubtype,
    pub content: MessageContent,
    pub metadata: EventMetadata,
}

impl MessagePayload {
    pub fn new(subtype: MessageSubtype, content: MessageContent, metadata: EventMetadata) -> (r: Self)
        ensures
            r == (MessagePayload { subtype, content, metadata }),
    {
        MessagePayload { subtype, content, metadata }
    }

    /// The dotted event type name, given by the subtype.
    pub fn event_type(&self) -> (r: &'static str)
        ensures
            r@ == message_subtype_name(self.subtype),
    {
        message_subtype_name_exec(self.subtype)
    }
}

impl Payload for MessagePayload {
    fn metadata(&self) -> (r: &EventMetadata)
        ensures
            *r == self.metadata,
    {
        &self.metadata
    }

    fn event_type(&self) -> (r: &str)
        ensures
            r@ == message_subtype_name(self.subtype),
    {
        message_subtype_name_exec(self.subtype)
    }
}

/// Notice subtypes.
#[derive(Debug, Clone, Copy, PartialEq, Eq, Structural)]
pub enum NoticeSubtype {
    GroupMemberJoin,
    GroupMemberLeave,
    GroupMemberKick,
    GroupMemberBan,
    GroupMemberMute,
    GroupNameChange,
    FriendAdd,
    FriendDelete,
    GroupInvite,
    GroupDisband,
    FriendRequestNotice,
    System,
}

/// The dotted event type name of a NoticeSubtype.
pub open spec fn notice_subtype_name(s: NoticeSubtype) -> Seq<char> {
    match s {
        NoticeSubtype::GroupMemberJoin => "notice.group.member.join"@,
        NoticeSubtype::GroupMemberLeave => "notice.group.member.leave"@,
        NoticeSubtype::GroupMemberKick => "notice.group.member.kick"@,
        NoticeSubtype::GroupMemberBan => "notice.group.member.ban"@,
        NoticeSubtype::GroupMemberMute => "notice.group.member.mute"@,
        NoticeSubtype::GroupNameChange => "notice.group.name.change"@,
        NoticeSubtype::FriendAdd => "notice.friend.add"@,
        NoticeSubtype::FriendDelete => "notice.friend.delete"@,
        NoticeSubtype::GroupInvite => "notice.group.invite"@,
        NoticeSubtype::GroupDisband => "notice.group.disband"@,
        NoticeSubtype::FriendRequestNotice => "notice.friend.request"@,
        NoticeSubtype::System => "notice.system"@,
    }
}

fn notice_subtype_name_exec(s: NoticeSubtype) -> (r: &'static str)
    ensures
        r@ == notice_subtype_name(s),
{
    match s {
        NoticeSubtype::GroupMemberJoin => "notice.group.member.join",
        NoticeSubtype::GroupMemberLeave => "notice.group.member.leave",
        NoticeSubtype::GroupMemberKick => "notice.group.member.kick",
        NoticeSubtype::GroupMemberBan => "notice.group.member.ban",
        NoticeSubtype::GroupMemberMute => "notice.group.member.mute",
        NoticeSubtype::GroupNameChange => "notice.group.name.change",
        NoticeSubtype::FriendAdd => "notice.friend.add",
        NoticeSubtype::FriendDelete => "notice.friend.delete",
        NoticeSubtype::GroupInvite => "notice.group.invite",
        NoticeSubtype::GroupDisband => "notice.group.disband",
        NoticeSubtype::FriendRequestNotice => "notice.friend.request",
        NoticeSubtype::System => "notice.system",
    }
}

/// Information about a user.
#[derive(Debug, Clone, PartialEq)]
pub struct UserInfo {
    pub nickname: Option<String>,
    pub avatar: Option<String>,
    pub card: Option<String>,
    pub sex: Option<String>,
    pub age: Option<u32>,
}

/// Notice content.
#[derive(Debug, Clone, PartialEq)]
pub enum NoticeContent {
    GroupMemberJoin {
        user_id: String,
        group_id: String,
        user_info: Option<UserInfo>,
    },
    GroupMemberLeave {
        user_id: String,
        group_id: String,
        reason: Option<String>,
    },
    GroupMemberKick {
        user_id: String,
        group_id: String,
        operator_id: String,
        reason: Option<String>,
    },
    GroupMemberBan {
        user_id: String,
        group_id: String,
        operator_id: String,
        duration: Option<u64>,
        reason: Option<String>,
    },
    GroupMemberMute {
        user_id: String,
        group_id: String,
        operator_id: String,
        duration: Option<u64>,
        reason: Option<String>,
    },
    GroupNameChange {
        old_name: String,
        new_name: String,
        operator_id: String,
    },
    FriendAdd {
        user_id: String,
        user_info: Option<UserInfo>,
    },
    FriendDelete {
        user_id: String,
    },
    GroupInvite {
        group_id: String,
        inviter_id: String,
        invitee_id: Option<String>,
    },
    GroupDisband {
        group_id: String,
        operator_id: String,
    },
    FriendRequestNotice {
        from_user_id: String,
    },
    System {
        notice_type: String,
        content: String,
    },
}

/// A notice payload.
#[derive(Debug, Clone, PartialEq)]
pub struct NoticePayload {
    pub subtype: NoticeSubtype,
    pub content: NoticeContent,
    pub metadata: EventMetadata,
}

impl NoticePayload {
    pub fn new(subtype: NoticeSubtype, content: NoticeContent, metadata: EventMetadata) -> (r: Self)
        ensures
            r == (NoticePayload { subtype, content, metadata }),
    {
        NoticePayload { subtype, content, metadata }
    }

    /// The dotted event type name, given by the subtype.
    pub fn event_type(&self) -> (r: &'static str)
        ensures
            r@ == notice_subtype_name(self.subtype),
    {
        notice_subtype_name_exec(self.subtype)
    }
}

impl Payload for NoticePayload {
    fn metadata(&self) -> (r: &EventMetadata)
        ensures
            *r == self.metadata,
    {
        &self.metadata
    }

    fn event_type(&self) -> (r: &str)
        ensures
            r@ == notice_subtype_name(self.subtype),
    {
        notice_subtype_name_exec(self.subtype)
    }
}

/// Request subtypes.
#[derive(Debug, Clone, Copy, PartialEq, Eq, Structural)]
pub enum RequestSubtype {
    Friend,
    GroupInvite,
    GroupJoin,
    Approve,
    Reject,
    Cancel,
}

/// The dotted event type name of a RequestSubtype.
pub open spec fn request_subtype_name(s: RequestSubtype) -> Seq<char> {
    match s {
        RequestSubtype::Friend => "request.friend"@,
        RequestSubtype::GroupInvite => "request.group.invite"@,
        RequestSubtype::GroupJoin => "request.group.join"@,
        RequestSubtype::Approve => "request.approve"@,
        RequestSubtype::Reject => "request.reject"@,
        RequestSubtype::Cancel => "request.cancel"@,
    }
}

fn request_subtype_name_exec(s: RequestSubtype) -> (r: &'static str)
    ensures
        r@ == request_subtype_name(s),
{
    match s {
        RequestSubtype::Friend => "request.friend",
        RequestSubtype::GroupInvite => "request.group.invite",
        RequestSubtype::GroupJoin => "request.group.join",
        RequestSubtype::Approve => "request.approve",
        RequestSubtype::Reject => "request.reject",
        RequestSubtype::Cancel => "request.cancel",
    }
}

/// Request content.
#[derive(Debug, Clone, PartialEq)]
pub enum RequestContent {
    Friend {
        from_user_id: String,
        comment: Option<String>,
    },
    GroupInvite {
        inviter_id: String,
        group_id: String,
        message: Option<String>,
    },
    GroupJoin {
        user_id: String,
        group_id: String,
        reason: Option<String>,
    },
    Approve {
        request_type: String,
        request_id: String,
        approver_id: Option<String>,
    },
    Reject {
        request_type: String,
        request_id: String,
        rejector_id: Option<String>,
        reason: Option<String>,
    },
    Cancel {
        request_type: String,
        request_id: String,
        canceled_by: String,
        reason: Option<String>,
    },
}

/// A request payload.
#[derive(Debug, Clone, PartialEq)]
pub struct RequestPayload {
    pub subtype: RequestSubtype,
    pub content: RequestContent,
    pub metadata: EventMetadata,
}

impl RequestPayload {
    pub fn new(subtype: RequestSubtype, content: RequestContent, metadata: EventMetadata) -> (r: Self)
        ensures
            r == (RequestPayload { subtype, content, metadata }),
    {
        RequestPayload { subtype, content, metadata }
    }

    /// The dotted event type name, given by the subtype.
    pub fn event_type(&self) -> (r: &'static str)
        ensures
            r@ == request_subtype_name(self.subtype),
    {
        request_subtype_name_exec(self.subtype)
    }
}

impl Payload for RequestPayload {
    fn metadata(&self) -> (r: &EventMetadata)
        ensures
            *r == self.metadata,
    {
        &self.metadata
    }

    fn event_type(&self) -> (r: &str)
        ensures
            r@ == request_subtype_name(self.subtype),
    {
        request_subtype_name_exec(self.subtype)
    }
}

/// Errors of payload operations.
#[derive(Debug, Clone, PartialEq, Eq)]
pub enum PayloadError {
    TypeMismatch { expected: String, actual: String },
    SerializationError(String),
    DeserializationError(String),
    UnknownType(String),
}

/// A payload's type name and size estimate.
pub trait PayloadType {
    /// The payload type name.
    fn payload_type_name(&self) -> &'static str;

    /// Estimated size in bytes.
    fn size_estimate(&self) -> usize;
}

/// Text formats.
#[derive(Debug, Clone, Copy, PartialEq, Eq, Structural)]
pub enum TextFormat {
    Plain,
    Markdown,
    Html,
    Json,
}

impl Default for TextFormat {
    fn default() -> (r: Self)
        ensures
            r == TextFormat::Plain,
    {
        TextFormat::Plain
    }
}

/// A text payload.
#[derive(Debug, Clone)]
pub struct TextPayload {
    pub content: String,
    pub format: TextFormat,
}

impl TextPayload {
    /// Plain text with the given content.
    pub fn new(content: &str) -> (r: Self)
        ensures
            r.content@ == content@,
            r.format == TextFormat::Plain,
    {
        TextPayload { content: String::from_str(content), format: TextFormat::Plain }
    }

    /// Set the format.
    pub fn with_format(self, format: TextFormat) -> (r: Self)
        ensures
            r.content == self.content,
            r.format == format,
    {
        let mut p = self;
        p.format = format;
        p
    }
}

impl PayloadType for TextPayload {
    fn payload_type_name(&self) -> (r: &'static str)
        ensures
            r@ == "text"@,
    {
        "text"
    }

    /// The byte length of the content.
    fn size_estimate(&self) -> (r: usize)
        ensures
            r == vstd::utf8::encode_utf8(self.content@).len() as usize,
    {
        self.content.as_str().len()
    }
}

/// A binary payload (images, files and the like).
#[derive(Debug, Clone)]
pub struct BlobPayload {
    pub data: Vec<u8>,
    pub mime_type: String,
    /// A URL for large data.
    pub url: Option<String>,
}

impl BlobPayload {
    /// Inline data of the given MIME type.
    pub fn new(data: Vec<u8>, mime_type: String) -> (r: Self)
        ensures
            r.data@ == data@,
            r.mime_type@ == mime_type@,
            r.url is None,
    {
        BlobPayload { data, mime_type, url: None }
    }

    /// Data held at a URL; no inline bytes.
    pub fn from_url(url: String, mime_type: String) -> (r: Self)
        ensures
            r.data@.len() == 0,
            r.mime_type@ == mime_type@,
            opt_view(r.url) == Some(url@),
    {
        BlobPayload { data: Vec::new(), mime_type, url: Some(url) }
    }
}

impl PayloadType for BlobPayload {
    fn payload_type_name(&self) -> (r: &'static str)
        ensures
            r@ == "blob"@,
    {
        "blob"
    }

    /// The number of inline bytes.
    fn size_estimate(&self) -> (r: usize)
        ensures
            r == self.data@.len(),
    {
        self.data.len()
    }
}

/// A structured event payload; `data` holds the compact JSON text of the event data.
#[derive(Debug, Clone)]
pub struct EventPayload {
    pub event_type: String,
    pub data: String,
}

impl EventPayload {
    pub fn new(event_type: &str, data: &str) -> (r: Self)
        ensures
            r.event_type@ == event_type@,
            r.data@ == data@,
    {
        EventPayload { event_type: String::from_str(event_type), data: String::from_str(data) }
    }
}

impl PayloadType for EventPayload {
    fn payload_type_name(&self) -> (r: &'static str)
        ensures
            r@ == "event"@,
    {
        "event"
    }

    /// The byte length of the compact JSON text of the data.
    fn size_estimate(&self) -> (r: usize)
        ensures
            r == vstd::utf8::encode_utf8(self.data@).len() as usize,
    {
        self.data.as_str().len()
    }
}

} // verus!

