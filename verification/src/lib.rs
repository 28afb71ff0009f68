//! Data-model layer for a chat application.
//!
//! The crate centres on two pieces: the tri-state optional field
//! ([`enums::NullableField`]), which keeps "field absent" apart from "field
//! explicitly null" in partial-update payloads, and the cross-field
//! validation rules for chat creation and update requests ([`chats`]).
//! The remaining modules hold the entity shapes those rules operate on.

pub mod chats;
pub mod credentials;
pub mod enums;
pub mod messages;
pub mod primitives;
pub mod query;
pub mod sessions;
pub mod users;
