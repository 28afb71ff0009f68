//! Session shapes and the reasons a session may be revoked.

use vstd::prelude::*;

use crate::primitives::{Id, IpNet, Timestamp};

verus! {

/// Why a session stopped being valid.
#[derive(Debug, Clone, Copy, PartialEq, Eq)]
pub enum RevokeReason {
    Logout,
    Expired,
    TokenReused,
    PasswordChanged,
    AdminLogout,
    UserDeleted,
}

impl RevokeReason {
    /// The snake_case wire name of this reason.
    pub fn to_string(&self) -> (r: String)
        ensures
            self is Logout ==> r@ == "logout"@,
            self is Expired ==> r@ == "expired"@,
            self is TokenReused ==> r@ == "token_reused"@,
            self is PasswordChanged ==> r@ == "password_changed"@,
            self is AdminLogout ==> r@ == "admin_logout"@,
            self is UserDeleted ==> r@ == "user_deleted"@,
    {
        match self {
            RevokeReason::Logout => "logout".to_owned(),
            RevokeReason::Expired => "expired".to_owned(),
            RevokeReason::TokenReused => "token_reused".to_owned(),
            RevokeReason::PasswordChanged => "password_changed".to_owned(),
            RevokeReason::AdminLogout => "admin_logout".to_owned(),
            RevokeReason::UserDeleted => "user_deleted".to_owned(),
        }
    }
}

/// A stored session record.
#[derive(Debug, Clone)]
pub struct Session {
    pub id: Id,
    pub user_id: Id,
    pub hashed_token: String,
    pub is_revoked: bool,
    pub revoked_at: Option<Timestamp>,
    pub revoke_reason: Option<RevokeReason>,
    pub created_at: Timestamp,
    pub expires_at: Timestamp,
    pub ip_address: Option<IpNet>,
}

/// The payload that opens a session.
#[derive(Debug, Clone)]
pub struct CreateSession {
    pub id: Id,
    pub user_id: Id,
    pub hashed_token: String,
    pub expires_at: Timestamp,
    pub ip_address: Option<IpNet>,
}

} // verus!
