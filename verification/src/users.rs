//! User entity shapes: the stored record and its create/update/query
//! variants.

use vstd::prelude::*;

use crate::enums::NullableField;
use crate::primitives::{Id, Timestamp};

verus! {

/// A stored user record.
#[derive(Debug, Clone)]
pub struct User {
    pub id: Id,
    pub username: String,
    pub display_name: Option<String>,
    pub bio: Option<String>,
    pub profile_picture_url: Option<String>,
    pub created_at: Timestamp,
    pub updated_at: Timestamp,
}

/// The payload that creates a user.
#[derive(Debug, Clone)]
pub struct CreateUser {
    pub id: Id,
    pub username: String,
    pub display_name: Option<String>,
    pub bio: Option<String>,
    pub profile_picture_url: Option<String>,
}

/// A partial update of a user. The nullable fields may each be erased
/// independently of being omitted, so they are tri-state.
#[derive(Debug, Clone)]
pub struct UpdateUser {
    pub username: Option<String>,
    pub display_name: NullableField<String>,
    pub bio: NullableField<String>,
    pub profile_picture_url: NullableField<String>,
}

/// The outcome of looking up a batch of users: the records that were
/// found and the identifiers that were not.
#[derive(Debug, Clone)]
pub struct UsersBatchResult {
    pub users: Vec<User>,
    pub not_found: Vec<Id>,
}

} // verus!
