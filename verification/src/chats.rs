//! Chat entity shapes and the cross-field validation rules for their
//! create and update requests.
//!
//! The rules are schema-level: each reads several fields of one request
//! shape and either passes or names the rule that was broken. They are
//! pure predicates over the immutable request, so they may run in any
//! order and may be retried freely. Every failure here is a client error:
//! nothing in these checks can fail for an internal reason.

use vstd::prelude::*;

use crate::enums::NullableField;
use crate::primitives::{Id, Timestamp};
use crate::users::User;

verus! {

/// A stored chat record.
#[derive(Debug, Clone)]
pub struct Chat {
    pub id: Id,
    pub owner_id: Option<Id>,
    pub name: Option<String>,
    pub is_group: bool,
    pub participants: Vec<User>,
    pub created_at: Timestamp,
    pub updated_at: Timestamp,
}

/// The payload that creates a chat.
#[derive(Debug, Clone)]
pub struct CreateChat {
    pub id: Id,
    pub name: Option<String>,
    pub owner_id: Id,
    pub is_group: bool,
    pub participants: Vec<Id>,
}

/// A partial update of a chat. The name may be erased independently of
/// being omitted, so it is tri-state; the membership changes are plain
/// optional collections.
#[derive(Debug, Clone)]
pub struct UpdateChat {
    pub name: NullableField<String>,
    pub owner_id: Option<Id>,
    pub add_participants: Option<Vec<Id>>,
    pub remove_participants: Option<Vec<Id>>,
}

/// A schema-level validation failure: the cross-field rule the request
/// broke.
#[derive(Debug, Clone, Copy, PartialEq, Eq)]
pub enum SchemaError {
    /// A creation request named an owner who is not in the participant
    /// list.
    OwnerNotParticipant,
    /// An update request named a new owner and also listed that owner for
    /// removal.
    OwnerInRemovalSet,
    /// An update request listed the same participant for addition and for
    /// removal.
    AddRemoveConflict,
}

impl SchemaError {
    /// The stable rule identifier of this failure.
    pub fn code(&self) -> (r: String)
        ensures
            self is OwnerNotParticipant ==> r@ == "owner_is_not_participant"@,
            self is OwnerInRemovalSet ==> r@ == "owner_id_in_remove_participants"@,
            self is AddRemoveConflict ==> r@ == "participant_conflicts"@,
    {
        match self {
            SchemaError::OwnerNotParticipant => "owner_is_not_participant".to_owned(),
            SchemaError::OwnerInRemovalSet => "owner_id_in_remove_participants".to_owned(),
            SchemaError::AddRemoveConflict => "participant_conflicts".to_owned(),
        }
    }

    /// The human-readable explanation of this failure.
    pub fn message(&self) -> (r: String)
        ensures
            self is OwnerNotParticipant ==> r@ == "owner_id must be included in participants"@,
            self is OwnerInRemovalSet ==> r@
                == "provided owner_id must not be included in remove_participants"@,
            self is AddRemoveConflict ==> r@
                == "add_participants and remove_participants contain conflicts"@,
    {
        match self {
            SchemaError::OwnerNotParticipant => "owner_id must be included in participants"
                .to_owned(),
            SchemaError::OwnerInRemovalSet =>
                "provided owner_id must not be included in remove_participants".to_owned(),
            SchemaError::AddRemoveConflict =>
                "add_participants and remove_participants contain conflicts".to_owned(),
        }
    }
}

/// The owner named by a creation request is one of its participants.
pub open spec fn owner_is_participant(chat: CreateChat) -> bool {
    chat.participants@.contains(chat.owner_id)
}

/// An update request names a new owner and also lists that owner for
/// removal. The rule only holds when both optional fields are present.
pub open spec fn owner_in_removal_set(chat: UpdateChat) -> bool {
    &&& chat.owner_id is Some
    &&& chat.remove_participants is Some
    &&& chat.remove_participants->0@.contains(chat.owner_id->0)
}

/// An update request lists some participant both for addition and for
/// removal. The rule only holds when both optional collections are
/// present.
pub open spec fn add_remove_conflict(chat: UpdateChat) -> bool {
    &&& chat.add_participants is Some
    &&& chat.remove_participants is Some
    &&& exists|k: Id|
        chat.add_participants->0@.contains(k) && chat.remove_participants->0@.contains(k)
}

fn contains_id(ids: &[Id], target: Id) -> (r: bool)
    ensures
        r == ids@.contains(target),
{
    let mut i: usize = 0;
    while i < ids.len()
        invariant
            0 <= i <= ids@.len(),
            forall|j: int| 0 <= j < i ==> ids@[j] != target,
        decreases ids@.len() - i,
    {
        if ids[i] == target {
            assert(ids@.contains(target)) by {
                assert(ids@[i as int] == target);
            }
            return true;
        }
        i = i + 1;
    }
    false
}

/// Whether the two identifier lists share an element. The check is
/// existential: any single shared identifier suffices.
pub fn has_common(a: &[Id], b: &[Id]) -> (r: bool)
    ensures
        r == exists|k: Id| a@.contains(k) && b@.contains(k),
{
    let mut i: usize = 0;
    while i < b.len()
        invariant
            0 <= i <= b@.len(),
            forall|j: int| 0 <= j < i ==> !a@.contains(#[trigger] b@[j]),
        decreases b@.len() - i,
    {
        if contains_id(a, b[i]) {
            assert(b@.contains(b@[i as int]));
            return true;
        }
        i = i + 1;
    }
    assert(!(exists|k: Id| a@.contains(k) && b@.contains(k))) by {
        if exists|k: Id| a@.contains(k) && b@.contains(k) {
            let k = choose|k: Id| a@.contains(k) && b@.contains(k);
            let j = choose|j: int| 0 <= j < b@.len() && b@[j] == k;
            assert(!a@.contains(b@[j]));
        }
    }
    false
}

/// Rule for creation requests: the designated owner must appear in the
/// supplied participant list.
pub fn validate_owner_is_participant(chat: &CreateChat) -> (r: Result<(), SchemaError>)
    ensures
        r is Ok <==> owner_is_participant(*chat),
        r matches Err(e) ==> e == SchemaError::OwnerNotParticipant,
{
    if !contains_id(chat.participants.as_slice(), chat.owner_id) {
        return Err(SchemaError::OwnerNotParticipant);
    }
    Ok(())
}

/// Rule for update requests: a newly designated owner must not also be
/// listed for removal. Absence of either the owner field or the removal
/// set passes the rule outright.
pub fn validate_owner_is_not_removed(chat: &UpdateChat) -> (r: Result<(), SchemaError>)
    ensures
        r is Ok <==> !owner_in_removal_set(*chat),
        r matches Err(e) ==> e == SchemaError::OwnerInRemovalSet,
{
    if let Some(remove_participants) = &chat.remove_participants {
        if let Some(owner_id) = chat.owner_id {
            if contains_id(remove_participants.as_slice(), owner_id) {
                return Err(SchemaError::OwnerInRemovalSet);
            }
        }
    }
    Ok(())
}

/// Rule for update requests: the additions and the removals must be
/// disjoint. Absence of either collection passes the rule outright.
pub fn validate_no_participant_conflicts(chat: &UpdateChat) -> (r: Result<(), SchemaError>)
    ensures
        r is Ok <==> !add_remove_conflict(*chat),
        r matches Err(e) ==> e == SchemaError::AddRemoveConflict,
{
    if let Some(remove_participants) = &chat.remove_participants {
        if let Some(add_participants) = &chat.add_participants {
            if has_common(add_participants.as_slice(), remove_participants.as_slice()) {
                return Err(SchemaError::AddRemoveConflict);
            }
        }
    }
    Ok(())
}

impl CreateChat {
    /// The field-level minimum on membership: a chat is created with at
    /// least two participants.
    pub fn has_min_participants(&self) -> (r: bool)
        ensures
            r == (self.participants@.len() >= 2),
    {
        self.participants.len() >= 2
    }

    /// Run the schema rule that applies to creation requests. Field-level
    /// checks such as [`Self::has_min_participants`] are independent of
    /// this rule and report their failures separately.
    pub fn validate(&self) -> (r: Result<(), SchemaError>)
        ensures
            r is Ok <==> owner_is_participant(*self),
            r matches Err(e) ==> e == SchemaError::OwnerNotParticipant,
    {
        validate_owner_is_participant(self)
    }
}

impl UpdateChat {
    /// Run both schema rules that apply to update requests. The rules are
    /// independent read-only predicates; when both fail, the owner-removal
    /// rule is the one reported.
    pub fn validate(&self) -> (r: Result<(), SchemaError>)
        ensures
            r is Ok <==> !owner_in_removal_set(*self) && !add_remove_conflict(*self),
            owner_in_removal_set(*self) ==> (r matches Err(e) && e
                == SchemaError::OwnerInRemovalSet),
            !owner_in_removal_set(*self) && add_remove_conflict(*self) ==> (r matches Err(e) && e
                == SchemaError::AddRemoveConflict),
    {
        match validate_owner_is_not_removed(self) {
            Err(e) => Err(e),
            Ok(()) => validate_no_participant_conflicts(self),
        }
    }
}

/// The owner-removal rule only triggers when both the new-owner field and
/// the removal set are present: if either is absent, the rule passes
/// whatever the remaining fields hold.
pub proof fn lemma_owner_rule_short_circuits(chat: UpdateChat)
    requires
        chat.owner_id is None || chat.remove_participants is None,
    ensures
        !owner_in_removal_set(chat),
{
}

} // verus!
