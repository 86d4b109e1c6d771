//! Package: the unit of processing on the stream: target sites, blocks of
//! events, a processing trace and metadata.

use vstd::prelude::*;
use crate::events::block::Block;
use crate::events::payloads_legacy::{BlobPayload, EventPayload, PayloadType, TextPayload};
use crate::events::target_site::TargetSite;
use crate::events::traits::is_generated_id;
use crate::text::{opt_view, str_eq};
use crate::time::{Timestamp, generated_id};

verus! {

/// A payload a package can carry.
#[derive(Debug, Clone)]
pub enum PackagePayload {
    Text(TextPayload),
    Blob(BlobPayload),
    Event(EventPayload),
}

/// The type name of a carried payload.
pub open spec fn package_payload_name(p: PackagePayload) -> Seq<char> {
    match p {
        PackagePayload::Text(_) => "text"@,
        PackagePayload::Blob(_) => "blob"@,
        PackagePayload::Event(_) => "event"@,
    }
}

impl PackagePayload {
    /// The type name: `text`, `blob` or `event`.
    pub fn payload_type_name(&self) -> (r: &'static str)
        ensures
            r@ == package_payload_name(*self),
    {
        match self {
            PackagePayload::Text(t) => t.payload_type_name(),
            PackagePayload::Blob(b) => b.payload_type_name(),
            PackagePayload::Event(e) => e.payload_type_name(),
        }
    }
}

/// A package on the stream.
#[derive(Debug, Clone)]
pub struct Package {
    /// The sites by which workers recognise this package.
    pub target_sites: Vec<TargetSite>,
    pub blocks: Vec<Block>,
    pub timestamp: Timestamp,
    /// `pkg-<millis>-<uuid>`.
    pub package_id: String,
    /// Additional metadata, as JSON text.
    pub extra: String,
    /// The payload the package carries.
    pub payload: Option<PackagePayload>,
    /// The type name of the payload the package carries, for filtering.
    pub payload_type: Option<String>,
    /// Names of the workers that processed this package, in order.
    pub trace: Vec<String>,
}

impl Package {
    /// An empty package with a generated id, the current time and `{}` as extra.
    pub fn new() -> (r: Self)
        ensures
            r.target_sites@.len() == 0,
            r.blocks@.len() == 0,
            is_generated_id(r.package_id@, "pkg"@),
            r.extra@ == "{}"@,
            r.payload is None,
            r.payload_type is None,
            r.trace@.len() == 0,
    {
        let timestamp = Timestamp::now();
        let id_time = Timestamp::now();
        Package {
            target_sites: Vec::new(),
            blocks: Vec::new(),
            timestamp,
            package_id: generated_id("pkg", &id_time),
            extra: String::from_str("{}"),
            payload: None,
            payload_type: None,
            trace: Vec::new(),
        }
    }

    /// Add a target site.
    pub fn with_target_site(self, site: TargetSite) -> (r: Self)
        ensures
            r.target_sites@ == self.target_sites@.push(site),
            r == (Package { target_sites: r.target_sites, ..self }),
    {
        let mut p = self;
        p.target_sites.push(site);
        p
    }

    /// Add several target sites, in order.
    pub fn with_target_sites(self, sites: Vec<TargetSite>) -> (r: Self)
        ensures
            r.target_sites@ == self.target_sites@ + sites@,
            r == (Package { target_sites: r.target_sites, ..self }),
    {
        let mut p = self;
        let mut more = sites;
        p.target_sites.append(&mut more);
        p
    }

    /// Add a block.
    pub fn with_block(self, block: Block) -> (r: Self)
        ensures
            r.blocks@ == self.blocks@.push(block),
            r == (Package { blocks: r.blocks, ..self }),
    {
        let mut p = self;
        p.blocks.push(block);
        p
    }

    /// Add several blocks, in order.
    pub fn with_blocks(self, blocks: Vec<Block>) -> (r: Self)
        ensures
            r.blocks@ == self.blocks@ + blocks@,
            r == (Package { blocks: r.blocks, ..self }),
    {
        let mut p = self;
        let mut more = blocks;
        p.blocks.append(&mut more);
        p
    }

    /// Replace the extra metadata (JSON text).
    pub fn with_extra(self, extra: &str) -> (r: Self)
        ensures
            r.extra@ == extra@,
            r == (Package { extra: r.extra, ..self }),
    {
        let mut p = self;
        p.extra = String::from_str(extra);
        p
    }

    /// Carry `payload`, recording its type name.
    pub fn with_payload(self, payload: PackagePayload) -> (r: Self)
        ensures
            r.payload == Some(payload),
            opt_view(r.payload_type) == Some(package_payload_name(payload)),
            r == (Package { payload: r.payload, payload_type: r.payload_type, ..self }),
    {
        let name = payload.payload_type_name();
        let mut p = self;
        p.payload_type = Some(String::from_str(name));
        p.payload = Some(payload);
        p
    }

    /// The carried payload, if any.
    pub fn get_payload(&self) -> (r: Option<&PackagePayload>)
        ensures
            r == match self.payload {
                Some(ref x) => Some(x),
                None => None::<&PackagePayload>,
            },
    {
        match &self.payload {
            Some(x) => Some(x),
            None => None,
        }
    }

    /// Mutable access to the carried payload, if any.
    pub fn get_payload_mut(&mut self) -> (r: Option<&mut PackagePayload>)
        ensures
            r is Some <==> old(self).payload is Some,
            r matches Some(x) ==> *x == old(self).payload->Some_0 && final(self).payload == Some(
                *final(x),
            ),
            *final(self) == (Package { payload: final(self).payload, ..*old(self) }),
            r is None ==> *final(self) == *old(self),
    {
        match &mut self.payload {
            Some(x) => Some(x),
            None => None,
        }
    }

    /// Record the type name of the payload the package carries.
    pub fn with_payload_type(self, payload_kind: &str) -> (r: Self)
        ensures
            opt_view(r.payload_type) == Some(payload_kind@),
            r == (Package { payload_type: r.payload_type, ..self }),
    {
        let mut p = self;
        p.payload_type = Some(String::from_str(payload_kind));
        p
    }

    /// Append a worker to the processing trace.
    pub fn trace_worker(self, worker_name: &str) -> (r: Self)
        ensures
            r.trace@.len() == self.trace@.len() + 1,
            r.trace@.drop_last() == self.trace@,
            r.trace@.last()@ == worker_name@,
            r == (Package { trace: r.trace, ..self }),
    {
        let mut p = self;
        p.trace.push(String::from_str(worker_name));
        p
    }

    /// Whether the package carries a payload of type `payload_kind`.
    pub fn has_payload_type(&self, payload_kind: &str) -> (r: bool)
        ensures
            r == (opt_view(self.payload_type) == Some(payload_kind@)),
    {
        match &self.payload_type {
            Some(t) => str_eq(t.as_str(), payload_kind),
            None => false,
        }
    }
}

impl Default for Package {
    fn default() -> (r: Self)
        ensures
            r.target_sites@.len() == 0,
            r.blocks@.len() == 0,
            r.trace@.len() == 0,
    {
        Self::new()
    }
}

} // verus!
