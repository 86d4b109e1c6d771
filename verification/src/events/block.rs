//! Block: an ordered collection of groups.

use vstd::prelude::*;
use crate::events::group::Group;
use crate::events::traits::is_generated_id;
use crate::time::{Timestamp, generated_id};

verus! {

/// Block type.
#[derive(Debug, Clone, PartialEq, Eq)]
pub enum BlockType {
    Default,
    Message,
    Notice,
    Request,
    Meta,
    Custom(String),
}

/// A block of groups.
#[derive(Debug, Clone)]
pub struct Block {
    pub groups: Vec<Group>,
    pub block_type: BlockType,
    /// `block-<millis>-<uuid>`.
    pub block_id: String,
}

impl Block {
    /// An empty block of the given type with a generated id.
    pub fn new(block_type: BlockType) -> (r: Self)
        ensures
            r.groups@.len() == 0,
            r.block_type == block_type,
            is_generated_id(r.block_id@, "block"@),
    {
        let now = Timestamp::now();
        Block { groups: Vec::new(), block_type, block_id: generated_id("block", &now) }
    }

    /// An empty default block.
    pub fn default_block() -> (r: Self)
        ensures
            r.groups@.len() == 0,
            r.block_type == BlockType::Default,
            is_generated_id(r.block_id@, "block"@),
    {
        Self::new(BlockType::Default)
    }

    /// An empty message block.
    pub fn message_block() -> (r: Self)
        ensures
            r.groups@.len() == 0,
            r.block_type == BlockType::Message,
            is_generated_id(r.block_id@, "block"@),
    {
        Self::new(BlockType::Message)
    }

    /// Append a group.
    pub fn with_group(self, group: Group) -> (r: Self)
        ensures
            r.groups@ == self.groups@.push(group),
            r.block_type == self.block_type,
            r.block_id == self.block_id,
    {
        let mut b = self;
        b.groups.push(group);
        b
    }

    /// Append several groups, in order.
    pub fn with_groups(self, groups: Vec<Group>) -> (r: Self)
        ensures
            r.groups@ == self.groups@ + groups@,
            r.block_type == self.block_type,
            r.block_id == self.block_id,
    {
        let mut b = self;
        let mut more = groups;
        b.groups.append(&mut more);
        b
    }
}

impl Default for Block {
    fn default() -> (r: Self)
        ensures
            r.groups@.len() == 0,
            r.block_type == BlockType::Default,
    {
        Self::new(BlockType::Default)
    }
}

} // verus!
