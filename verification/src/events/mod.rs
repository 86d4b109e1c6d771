//! The event model: target sites, events, groups, blocks and packages.

pub mod target_site;
pub mod traits;
pub mod message;
pub mod notice;
pub mod request;
pub mod meta;
pub mod event_enum;
pub mod group;
pub mod block;
pub mod payloads_legacy;
pub mod event;
pub mod package;
