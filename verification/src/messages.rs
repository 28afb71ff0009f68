//! Message and reaction shapes: the stored records and their
//! create/update variants.

use vstd::prelude::*;

use crate::primitives::{Id, Timestamp};

verus! {

/// A stored reaction to a message.
#[derive(Debug, Clone)]
pub struct Reaction {
    pub id: Id,
    pub user_id: Option<Id>,
    pub reaction: String,
}

/// The payload that adds a reaction to a message.
#[derive(Debug, Clone)]
pub struct CreateReaction {
    pub user_id: Id,
    pub reaction: String,
}

/// A stored message record.
#[derive(Debug, Clone)]
pub struct Message {
    pub id: Id,
    pub chat_id: Id,
    pub author_id: Option<Id>,
    pub content: String,
    pub media: Vec<Id>,
    pub is_edited: bool,
    pub created_at: Timestamp,
    pub updated_at: Timestamp,
    pub reactions: Vec<Reaction>,
}

/// The payload that creates a message.
#[derive(Debug, Clone)]
pub struct CreateMessage {
    pub id: Id,
    pub author_id: Id,
    pub content: String,
    pub media: Vec<Id>,
}

impl CreateMessage {
    /// The field-level check on creation: the content is non-empty.
    pub fn is_valid(&self) -> (r: bool)
        ensures
            r == (self.content@.len() >= 1),
    {
        !self.content.as_str().is_empty()
    }
}

/// A partial update of a message.
#[derive(Debug, Clone)]
pub struct UpdateMessage {
    pub author_id: Option<Id>,
    pub content: Option<String>,
    pub media: Option<Vec<Id>>,
}

impl UpdateMessage {
    /// The field-level check on update: when new content is supplied it is
    /// non-empty; absent content passes.
    pub fn is_valid(&self) -> (r: bool)
        ensures
            r == (self.content matches Some(c) ==> c@.len() >= 1),
    {
        match &self.content {
            Some(content) => !content.as_str().is_empty(),
            None => true,
        }
    }
}

} // verus!
