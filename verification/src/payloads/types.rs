//! Payload types: text, binary and structured-event payloads, and the framing
//! by which they travel as a type URL with JSON-encoded bytes.

use vstd::prelude::*;
use crate::text::{opt_view, str_eq};

verus! {

/// Errors of payload operations.
#[derive(Debug, Clone, PartialEq, Eq)]
pub enum PayloadError {
    TypeMismatch { expected: String, actual: String },
    SerializationError(String),
    DeserializationError(String),
    UnknownType(String),
    InvalidTypeUrl(String),
}

/// A payload as it travels: the type URL and the encoded bytes
/// (the shape of protobuf's `Any`).
#[derive(Debug, Clone, PartialEq, Eq)]
pub struct ProtoAny {
    pub type_url: String,
    pub value: Vec<u8>,
}

/// The type URL under which a payload type travels:
/// `type.googleapis.com/loquat.payloads.<Type>`.
pub trait TypeUrl {
    spec fn spec_type_url() -> Seq<char>;

    fn type_url() -> (r: &'static str)
        ensures
            r@ == Self::spec_type_url(),
    ;
}

/// A payload's type name and size estimate.
pub trait PayloadType {
    /// The payload type name.
    fn payload_type_name(&self) -> &'static str;

    /// Estimated size in bytes.
    fn size_estimate(&self) -> usize;
}

/// Checks that `any` carries the type URL `expected`.
pub fn check_type_url(any: &ProtoAny, expected: &str) -> (r: Result<(), PayloadError>)
    ensures
        r is Ok <==> any.type_url@ == expected@,
        r matches Err(e) ==> e matches PayloadError::TypeMismatch { expected: x, actual: a } && x@
            == expected@ && a@ == any.type_url@,
{
    if str_eq(any.type_url.as_str(), expected) {
        Ok(())
    } else {
        Err(
            PayloadError::TypeMismatch {
                expected: String::from_str(expected),
                actual: any.type_url.clone(),
            },
        )
    }
}

/// Frames encoded bytes under a type URL.
pub fn frame(type_url: &str, value: Vec<u8>) -> (r: ProtoAny)
    ensures
        r.type_url@ == type_url@,
        r.value@ == value@,
{
    ProtoAny { type_url: String::from_str(type_url), value }
}

/// Text formats.
#[derive(Debug, Clone, Copy, PartialEq, Eq, Structural)]
pub enum TextFormat {
    Plain,
    Markdown,
    Html,
    Json,
}

/// The lowercase name of a text format.
pub open spec fn text_format_name(f: TextFormat) -> Seq<char> {
    match f {
        TextFormat::Plain => "plain"@,
        TextFormat::Markdown => "markdown"@,
        TextFormat::Html => "html"@,
        TextFormat::Json => "json"@,
    }
}

impl TextFormat {
    /// The lowercase name of this format.
    pub fn name(&self) -> (r: &'static str)
        ensures
            r@ == text_format_name(*self),
    {
        match self {
            TextFormat::Plain => "plain",
            TextFormat::Markdown => "markdown",
            TextFormat::Html => "html",
            TextFormat::Json => "json",
        }
    }

    /// The lowercase name of this format, owned.
    pub fn to_string(&self) -> (r: String)
        ensures
            r@ == text_format_name(*self),
    {
        String::from_str(self.name())
    }
}

impl Default for TextFormat {
    fn default() -> (r: Self)
        ensures
            r == TextFormat::Plain,
    {
        TextFormat::Plain
    }
}

/// A text payload.
#[derive(Debug, Clone)]
pub struct TextPayload {
    pub content: String,
    pub format: TextFormat,
}

impl TextPayload {
    /// Plain text with the given content.
    pub fn new(content: &str) -> (r: Self)
        ensures
            r.content@ == content@,
            r.format == TextFormat::Plain,
    {
        TextPayload { content: String::from_str(content), format: TextFormat::Plain }
    }

    /// Set the format.
    pub fn with_format(self, format: TextFormat) -> (r: Self)
        ensures
            r.content == self.content,
            r.format == format,
    {
        let mut p = self;
        p.format = format;
        p
    }
}

impl TypeUrl for TextPayload {
    open spec fn spec_type_url() -> Seq<char> {
        "type.googleapis.com/loquat.payloads.TextPayload"@
    }

    fn type_url() -> (r: &'static str) {
        "type.googleapis.com/loquat.payloads.TextPayload"
    }
}

impl PayloadType for TextPayload {
    fn payload_type_name(&self) -> (r: &'static str)
        ensures
            r@ == "TextPayload"@,
    {
        "TextPayload"
    }

    /// The byte length of the content.
    fn size_estimate(&self) -> (r: usize)
        ensures
            r == vstd::utf8::encode_utf8(self.content@).len() as usize,
    {
        self.content.as_str().len()
    }
}

/// A binary payload (images, files and the like).
#[derive(Debug, Clone)]
pub struct BlobPayload {
    pub data: Vec<u8>,
    pub mime_type: String,
    /// A URL for large data.
    pub url: Option<String>,
}

impl BlobPayload {
    /// Inline data of the given MIME type.
    pub fn new(data: Vec<u8>, mime_type: String) -> (r: Self)
        ensures
            r.data@ == data@,
            r.mime_type@ == mime_type@,
            r.url is None,
    {
        BlobPayload { data, mime_type, url: None }
    }

    /// Data held at a URL; no inline bytes.
    pub fn from_url(url: String, mime_type: String) -> (r: Self)
        ensures
            r.data@.len() == 0,
            r.mime_type@ == mime_type@,
            opt_view(r.url) == Some(url@),
    {
        BlobPayload { data: Vec::new(), mime_type, url: Some(url) }
    }

    /// The number of inline bytes.
    pub fn size(&self) -> (r: usize)
        ensures
            r == self.data@.len(),
    {
        self.data.len()
    }
}

impl TypeUrl for BlobPayload {
    open spec fn spec_type_url() -> Seq<char> {
        "type.googleapis.com/loquat.payloads.BlobPayload"@
    }

    fn type_url() -> (r: &'static str) {
        "type.googleapis.com/loquat.payloads.BlobPayload"
    }
}

impl PayloadType for BlobPayload {
    fn payload_type_name(&self) -> (r: &'static str)
        ensures
            r@ == "BlobPayload"@,
    {
        "BlobPayload"
    }

    fn size_estimate(&self) -> (r: usize)
        ensures
            r == self.data@.len(),
    {
        self.data.len()
    }
}

/// A structured event payload; `data` is the compact JSON text of the event data.
#[derive(Debug, Clone)]
pub struct EventPayload {
    pub event_type: String,
    pub data: String,
}

impl EventPayload {
    pub fn new(event_type: &str, data: &str) -> (r: Self)
        ensures
            r.event_type@ == event_type@,
            r.data@ == data@,
    {
        EventPayload { event_type: String::from_str(event_type), data: String::from_str(data) }
    }

    /// Replace the event data (JSON text).
    pub fn with_data(self, data: &str) -> (r: Self)
        ensures
            r.event_type == self.event_type,
            r.data@ == data@,
    {
        let mut p = self;
        p.data = String::from_str(data);
        p
    }
}

impl TypeUrl for EventPayload {
    open spec fn spec_type_url() -> Seq<char> {
        "type.googleapis.com/loquat.payloads.EventPayload"@
    }

    fn type_url() -> (r: &'static str) {
        "type.googleapis.com/loquat.payloads.EventPayload"
    }
}

impl PayloadType for EventPayload {
    fn payload_type_name(&self) -> (r: &'static str)
        ensures
            r@ == "EventPayload"@,
    {
        "EventPayload"
    }

    /// The byte length of the compact JSON text of the data.
    fn size_estimate(&self) -> (r: usize)
        ensures
            r == vstd::utf8::encode_utf8(self.data@).len() as usize,
    {
        self.data.as_str().len()
    }
}

/// A payload decoded from its framed form.
#[derive(Debug, Clone)]
pub enum DecodedPayload {
    Text(TextPayload),
    Blob(BlobPayload),
    Event(EventPayload),
}


/// Each payload kind is framed under its own type URL:
/// `type.googleapis.com/loquat.payloads.` followed by `TextPayload`,
/// `BlobPayload` or `EventPayload`; no two kinds share one.
pub proof fn lemma_type_urls()
    ensures
        TextPayload::spec_type_url() == "type.googleapis.com/loquat.payloads.TextPayload"@,
        BlobPayload::spec_type_url() == "type.googleapis.com/loquat.payloads.BlobPayload"@,
        EventPayload::spec_type_url() == "type.googleapis.com/loquat.payloads.EventPayload"@,
        TextPayload::spec_type_url() != BlobPayload::spec_type_url(),
        TextPayload::spec_type_url() != EventPayload::spec_type_url(),
        BlobPayload::spec_type_url() != EventPayload::spec_type_url(),
{
    reveal_strlit("type.googleapis.com/loquat.payloads.TextPayload");
    reveal_strlit("type.googleapis.com/loquat.payloads.BlobPayload");
    reveal_strlit("type.googleapis.com/loquat.payloads.EventPayload");
    let t = TextPayload::spec_type_url();
    let b = BlobPayload::spec_type_url();
    let e = EventPayload::spec_type_url();
    assert(t[36] != b[36] && t[36] != e[36] && b[36] != e[36]);
}

} // verus!
