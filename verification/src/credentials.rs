//! Credential shapes: the stored record, the secure email pair, and the
//! create/update variants.

use vstd::prelude::*;
use vstd::string::StrSliceExecFns;

use crate::primitives::{Id, Timestamp};
use crate::users::{CreateUser, User};

verus! {

/// The expected character length of a hashed email address: the unpadded
/// base64 form of a 256-bit digest.
pub const HASHED_EMAIL_LEN: usize = 43;

/// A stored credential record.
#[derive(Debug, Clone)]
pub struct Credentials {
    pub user_id: Id,
    pub encrypted_email_address: String,
    pub hashed_email_address: String,
    pub hashed_password: String,
    pub created_at: Timestamp,
    pub updated_at: Timestamp,
}

/// An email address as it travels through the system: encrypted for
/// storage and hashed for lookup.
#[derive(Debug, Clone)]
pub struct SecureEmailAddress {
    pub encrypted_email_address: String,
    pub hashed_email_address: String,
}

impl SecureEmailAddress {
    /// The field-level check on the pair: the hashed form is exactly
    /// [`HASHED_EMAIL_LEN`] characters long.
    pub fn is_valid(&self) -> (r: bool)
        ensures
            r == (self.hashed_email_address@.len() == HASHED_EMAIL_LEN),
    {
        self.hashed_email_address.as_str().unicode_len() == HASHED_EMAIL_LEN
    }
}

/// The payload that attaches credentials to an existing user.
#[derive(Debug, Clone)]
pub struct CreateCredentials {
    pub user_id: Id,
    pub email_address: SecureEmailAddress,
    pub hashed_password: String,
}

impl CreateCredentials {
    /// The nested field-level check: the email pair must be valid.
    pub fn is_valid(&self) -> (r: bool)
        ensures
            r == (self.email_address.hashed_email_address@.len() == HASHED_EMAIL_LEN),
    {
        self.email_address.is_valid()
    }
}

/// The payload that creates a user together with their credentials.
#[derive(Debug, Clone)]
pub struct CreateCredentialsAndUser {
    pub user: CreateUser,
    pub email_address: SecureEmailAddress,
    pub hashed_password: String,
}

impl CreateCredentialsAndUser {
    /// The nested field-level check: the email pair must be valid.
    pub fn is_valid(&self) -> (r: bool)
        ensures
            r == (self.email_address.hashed_email_address@.len() == HASHED_EMAIL_LEN),
    {
        self.email_address.is_valid()
    }
}

/// A credential record paired with the user it belongs to.
#[derive(Debug, Clone)]
pub struct CredentialsAndUser {
    pub credentials: Credentials,
    pub user: User,
}

/// A partial update of a credential record. Both fields are optional;
/// an absent field leaves the stored value alone.
#[derive(Debug, Clone)]
pub struct UpdateCredentials {
    pub email_address: Option<SecureEmailAddress>,
    pub hashed_password: Option<String>,
}

impl UpdateCredentials {
    /// The nested field-level check: when a new email pair is supplied it
    /// must be valid; an absent pair passes.
    pub fn is_valid(&self) -> (r: bool)
        ensures
            r == (self.email_address matches Some(e) ==> e.hashed_email_address@.len()
                == HASHED_EMAIL_LEN),
    {
        match &self.email_address {
            Some(email_address) => email_address.is_valid(),
            None => true,
        }
    }
}

} // verus!
