use chat_models::chats::{
    has_common, validate_no_participant_conflicts, validate_owner_is_not_removed,
    validate_owner_is_participant, CreateChat, SchemaError, UpdateChat,
};
use chat_models::credentials::{SecureEmailAddress, UpdateCredentials};
use chat_models::enums::NullableField;
use chat_models::messages::{CreateMessage, UpdateMessage};
use chat_models::primitives::{Id, IpNet, Timestamp};
use chat_models::query::{default_limit, ListQuery};
use chat_models::sessions::RevokeReason;

fn id(value: u128) -> Id {
    Id { value }
}

fn create_chat(owner: u128, participants: &[u128]) -> CreateChat {
    CreateChat {
        id: id(99),
        name: Some(String::from("general")),
        owner_id: id(owner),
        is_group: true,
        participants: participants.iter().map(|v| id(*v)).collect(),
    }
}

fn update_chat(owner: Option<u128>, add: Option<&[u128]>, remove: Option<&[u128]>) -> UpdateChat {
    UpdateChat {
        name: NullableField::Missing,
        owner_id: owner.map(id),
        add_participants: add.map(|v| v.iter().map(|x| id(*x)).collect()),
        remove_participants: remove.map(|v| v.iter().map(|x| id(*x)).collect()),
    }
}

#[test]
fn owner_outside_member_list_is_rejected() {
    let chat = create_chat(1, &[2, 3]);
    assert_eq!(
        validate_owner_is_participant(&chat),
        Err(SchemaError::OwnerNotParticipant)
    );
    assert_eq!(chat.validate(), Err(SchemaError::OwnerNotParticipant));
}

#[test]
fn owner_inside_member_list_passes() {
    let chat = create_chat(1, &[1, 2]);
    assert_eq!(validate_owner_is_participant(&chat), Ok(()));
    assert_eq!(chat.validate(), Ok(()));
}

#[test]
fn min_participant_count_is_two() {
    assert!(!create_chat(1, &[1]).has_min_participants());
    assert!(create_chat(1, &[1, 2]).has_min_participants());
}

#[test]
fn removing_the_new_owner_is_rejected() {
    let chat = update_chat(Some(1), None, Some(&[1, 2]));
    assert_eq!(
        validate_owner_is_not_removed(&chat),
        Err(SchemaError::OwnerInRemovalSet)
    );
    assert_eq!(chat.validate(), Err(SchemaError::OwnerInRemovalSet));
}

#[test]
fn removing_someone_else_passes() {
    let chat = update_chat(Some(1), None, Some(&[2]));
    assert_eq!(validate_owner_is_not_removed(&chat), Ok(()));
    assert_eq!(chat.validate(), Ok(()));
}

#[test]
fn missing_owner_short_circuits_the_owner_rule() {
    let chat = update_chat(None, None, Some(&[1, 2, 3]));
    assert_eq!(validate_owner_is_not_removed(&chat), Ok(()));
}

#[test]
fn missing_removal_set_short_circuits_the_owner_rule() {
    let chat = update_chat(Some(1), None, None);
    assert_eq!(validate_owner_is_not_removed(&chat), Ok(()));
}

#[test]
fn overlapping_add_and_remove_sets_are_rejected() {
    let chat = update_chat(None, Some(&[2, 3]), Some(&[3, 4]));
    assert_eq!(
        validate_no_participant_conflicts(&chat),
        Err(SchemaError::AddRemoveConflict)
    );
    assert_eq!(chat.validate(), Err(SchemaError::AddRemoveConflict));
}

#[test]
fn disjoint_add_and_remove_sets_pass() {
    let chat = update_chat(None, Some(&[2]), Some(&[4]));
    assert_eq!(validate_no_participant_conflicts(&chat), Ok(()));
    assert_eq!(chat.validate(), Ok(()));
}

#[test]
fn missing_add_set_short_circuits_the_conflict_rule() {
    let chat = update_chat(None, None, Some(&[4]));
    assert_eq!(validate_no_participant_conflicts(&chat), Ok(()));
}

#[test]
fn owner_rule_is_reported_before_conflict_rule() {
    let chat = update_chat(Some(3), Some(&[2, 3]), Some(&[3, 4]));
    assert_eq!(chat.validate(), Err(SchemaError::OwnerInRemovalSet));
}

#[test]
fn has_common_detects_any_overlap() {
    assert!(has_common(&[id(2), id(3)], &[id(3), id(4)]));
    assert!(!has_common(&[id(2)], &[id(4)]));
    assert!(!has_common(&[], &[id(4)]));
    assert!(!has_common(&[id(2)], &[]));
}

#[test]
fn schema_error_codes_match_the_rule_identifiers() {
    assert_eq!(
        SchemaError::OwnerNotParticipant.code(),
        "owner_is_not_participant"
    );
    assert_eq!(
        SchemaError::OwnerInRemovalSet.code(),
        "owner_id_in_remove_participants"
    );
    assert_eq!(SchemaError::AddRemoveConflict.code(), "participant_conflicts");
}

#[test]
fn schema_error_messages_explain_the_rule() {
    assert_eq!(
        SchemaError::OwnerNotParticipant.message(),
        "owner_id must be included in participants"
    );
    assert_eq!(
        SchemaError::OwnerInRemovalSet.message(),
        "provided owner_id must not be included in remove_participants"
    );
    assert_eq!(
        SchemaError::AddRemoveConflict.message(),
        "add_participants and remove_participants contain conflicts"
    );
}

#[test]
fn hashed_email_must_be_43_characters() {
    let valid = SecureEmailAddress {
        encrypted_email_address: String::from("ciphertext"),
        hashed_email_address: "a".repeat(43),
    };
    assert!(valid.is_valid());
    let short = SecureEmailAddress {
        encrypted_email_address: String::from("ciphertext"),
        hashed_email_address: "a".repeat(42),
    };
    assert!(!short.is_valid());
}

#[test]
fn hashed_email_length_counts_characters_not_bytes() {
    let multibyte = SecureEmailAddress {
        encrypted_email_address: String::from("ciphertext"),
        hashed_email_address: "é".repeat(43),
    };
    assert!(multibyte.is_valid());
}

#[test]
fn update_credentials_accepts_absent_email() {
    let update = UpdateCredentials {
        email_address: None,
        hashed_password: Some(String::from("rehashed")),
    };
    assert!(update.is_valid());
    let bad = UpdateCredentials {
        email_address: Some(SecureEmailAddress {
            encrypted_email_address: String::from("ciphertext"),
            hashed_email_address: String::from("short"),
        }),
        hashed_password: None,
    };
    assert!(!bad.is_valid());
}

#[test]
fn message_content_must_be_nonempty() {
    let empty = CreateMessage {
        id: id(1),
        author_id: id(2),
        content: String::new(),
        media: vec![],
    };
    assert!(!empty.is_valid());
    let ok = CreateMessage {
        id: id(1),
        author_id: id(2),
        content: String::from("hi"),
        media: vec![id(3)],
    };
    assert!(ok.is_valid());
}

#[test]
fn update_message_content_is_optional_but_nonempty() {
    let absent = UpdateMessage {
        author_id: None,
        content: None,
        media: None,
    };
    assert!(absent.is_valid());
    let empty = UpdateMessage {
        author_id: None,
        content: Some(String::new()),
        media: None,
    };
    assert!(!empty.is_valid());
}

#[test]
fn default_limit_is_25() {
    assert_eq!(default_limit(), 25);
}

#[test]
fn resolve_keeps_explicit_fields() {
    let q = ListQuery::resolve(
        Some(Timestamp { unix_seconds: 100 }),
        Some(50),
        Timestamp { unix_seconds: 999 },
    );
    assert_eq!(q.before, Timestamp { unix_seconds: 100 });
    assert_eq!(q.limit, 50);
}

#[test]
fn resolve_fills_missing_fields_with_defaults() {
    let q = ListQuery::resolve(None, None, Timestamp { unix_seconds: 999 });
    assert_eq!(q.before, Timestamp { unix_seconds: 999 });
    assert_eq!(q.limit, 25);
}

#[test]
fn from_parts_reads_the_clock_only_when_needed() {
    let q = ListQuery::from_parts(Some(Timestamp { unix_seconds: 7 }), None);
    assert_eq!(q.before, Timestamp { unix_seconds: 7 });
    assert_eq!(q.limit, 25);
    let defaulted = ListQuery::from_parts(None, Some(3));
    // The clock reading itself cannot be pinned down, but it replaces the
    // missing bound while the explicit limit is kept.
    assert_eq!(defaulted.limit, 3);
}

#[test]
fn limit_bounds_are_inclusive() {
    let at = |limit| ListQuery {
        before: Timestamp { unix_seconds: 0 },
        limit,
    };
    assert!(!at(-1).is_valid());
    assert!(at(0).is_valid());
    assert!(at(200).is_valid());
    assert!(!at(201).is_valid());
}

#[test]
fn revoke_reasons_use_snake_case_names() {
    assert_eq!(RevokeReason::Logout.to_string(), "logout");
    assert_eq!(RevokeReason::Expired.to_string(), "expired");
    assert_eq!(RevokeReason::TokenReused.to_string(), "token_reused");
    assert_eq!(RevokeReason::PasswordChanged.to_string(), "password_changed");
    assert_eq!(RevokeReason::AdminLogout.to_string(), "admin_logout");
    assert_eq!(RevokeReason::UserDeleted.to_string(), "user_deleted");
}

#[test]
fn prefix_length_is_bounded_by_address_width() {
    assert!(IpNet::V4 { addr: 0, prefix: 32 }.is_wf());
    assert!(!IpNet::V4 { addr: 0, prefix: 33 }.is_wf());
    assert!(IpNet::V6 { addr: 0, prefix: 128 }.is_wf());
    assert!(!IpNet::V6 { addr: 0, prefix: 129 }.is_wf());
}
