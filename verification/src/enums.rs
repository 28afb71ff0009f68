//! The tri-state optional field used by partial-update request shapes.
//!
//! A `NullableField` distinguishes a field that was absent from the payload
//! (`Missing`) from one that was present but explicitly null (`Null`) and
//! from one that carried a concrete value (`Value`). An ordinary
//! `Option<T>` collapses the first two states, which makes a PATCH-style
//! update unable to tell "leave the stored value alone" from "erase it".

use vstd::prelude::*;

verus! {

/// A field of a partial-update payload that may be absent, explicitly null,
/// or set to a concrete value.
#[derive(Debug, Clone, PartialEq)]
pub enum NullableField<T> {
    /// The field key was absent from the payload.
    Missing,
    /// The field key was present with an explicit null.
    Null,
    /// The field key was present with a concrete value.
    Value(T),
}

/// The instruction a sparse (PATCH-style) update gives the backing store
/// for one field. It is the direct image of [`NullableField`]: a missing
/// field leaves the stored value untouched, an explicit null erases it,
/// and a concrete value replaces it.
#[derive(Debug, Clone, PartialEq)]
pub enum SparseUpdate<T> {
    /// Leave the stored value as it is.
    Unchanged,
    /// Overwrite the stored value with the absent-value marker.
    SetNull,
    /// Overwrite the stored value with the carried value.
    SetValue(T),
}

impl<T> Default for NullableField<T> {
    /// A field defaults to `Missing`: a decoder that never saw the field's
    /// key leaves it in the absent state.
    fn default() -> (r: Self)
        ensures
            r is Missing,
    {
        NullableField::Missing
    }
}

impl<T> NullableField<T> {
    /// The serialized form of this field: `None` when the key is to be
    /// omitted from the payload, `Some(None)` when it is to be emitted with
    /// an explicit null, `Some(Some(v))` when it carries a value.
    pub open spec fn encoded(self) -> Option<Option<T>> {
        match self {
            NullableField::Missing => None,
            NullableField::Null => Some(None),
            NullableField::Value(v) => Some(Some(v)),
        }
    }

    /// The field state a decoder derives from one field of a structured
    /// payload: an absent key yields `Missing`, a key with an explicit null
    /// yields `Null`, a key with a value yields `Value`.
    pub open spec fn decoded(field: Option<Option<T>>) -> NullableField<T> {
        match field {
            None => NullableField::Missing,
            Some(None) => NullableField::Null,
            Some(Some(v)) => NullableField::Value(v),
        }
    }

    /// True exactly when the field was absent from the payload.
    pub fn is_missing(&self) -> (r: bool)
        ensures
            r == (self is Missing),
    {
        matches!(self, NullableField::Missing)
    }

    /// True exactly when the field was present with an explicit null.
    pub fn is_null(&self) -> (r: bool)
        ensures
            r == (self is Null),
    {
        matches!(self, NullableField::Null)
    }

    /// True exactly when the field carried a concrete value.
    pub fn is_value(&self) -> (r: bool)
        ensures
            r == (self is Value),
    {
        matches!(self, NullableField::Value(_))
    }

    /// The contained value, if any. Provenance is discarded: `Missing` and
    /// `Null` both come out as `None`, so this suits only contexts that do
    /// not need to tell the two apart.
    pub fn into_option(self) -> (r: Option<T>)
        ensures
            self is Value ==> r == Some(self->0),
            self !is Value ==> r is None,
    {
        match self {
            NullableField::Value(v) => Some(v),
            _ => None,
        }
    }

    /// A borrowed view of the contained value, if any, with the same loss
    /// of provenance as [`Self::into_option`].
    pub fn as_option(&self) -> (r: Option<&T>)
        ensures
            self is Value ==> (r matches Some(v) && *v == self->0),
            self !is Value ==> r is None,
    {
        match self {
            NullableField::Value(v) => Some(v),
            _ => None,
        }
    }

    /// The nested option a database layer consumes, which is also the
    /// serialized form [`Self::encoded`]: the outer level says whether to
    /// touch the stored value at all, the inner level what to store.
    pub fn to_db_option(self) -> (r: Option<Option<T>>)
        ensures
            r == self.encoded(),
    {
        match self {
            NullableField::Missing => None,
            NullableField::Null => Some(None),
            NullableField::Value(v) => Some(Some(v)),
        }
    }

    /// The canonical conversion into a sparse-update instruction. It is
    /// total and keeps all three states apart: `Missing` maps to
    /// `Unchanged`, `Null` to `SetNull`, and `Value(v)` to `SetValue(v)`.
    pub fn to_sparse_update(self) -> (r: SparseUpdate<T>)
        ensures
            self is Missing <==> r is Unchanged,
            self is Null <==> r is SetNull,
            self is Value <==> r is SetValue,
            self is Value ==> r->0 == self->0,
    {
        match self {
            NullableField::Missing => SparseUpdate::Unchanged,
            NullableField::Null => SparseUpdate::SetNull,
            NullableField::Value(v) => SparseUpdate::SetValue(v),
        }
    }

    /// Decode one field of a structured payload, given as `None` when the
    /// key was absent, `Some(None)` when it was present with an explicit
    /// null, and `Some(Some(v))` when it carried a value.
    pub fn decode_field(field: Option<Option<T>>) -> (r: Self)
        ensures
            r == Self::decoded(field),
    {
        match field {
            None => NullableField::Missing,
            Some(None) => NullableField::Null,
            Some(Some(v)) => NullableField::Value(v),
        }
    }

    /// The mapping a decoder applies to a field whose key is present: an
    /// explicit null becomes `Null`, anything else becomes `Value`. The
    /// `Missing` state never arises here; it is the struct-level default
    /// for keys the decoder did not see (see [`Default`]).
    pub fn from_present(value: Option<T>) -> (r: Self)
        ensures
            r == Self::decoded(Some(value)),
    {
        match value {
            Some(v) => NullableField::Value(v),
            None => NullableField::Null,
        }
    }
}

/// Each field is in exactly one of the three states: the predicates
/// `is_missing`, `is_null` and `is_value` are mutually exclusive and
/// exhaustive.
pub proof fn lemma_exactly_one_state<T>(f: NullableField<T>)
    ensures
        (f is Missing && f !is Null && f !is Value)
            || (f is Null && f !is Missing && f !is Value)
            || (f is Value && f !is Missing && f !is Null),
{
}

/// Round trip through the payload: encoding a field and decoding the
/// result restores the original state, for all three states and every
/// carried value.
pub proof fn lemma_encode_then_decode<T>(f: NullableField<T>)
    ensures
        NullableField::decoded(f.encoded()) == f,
{
}

/// Round trip from the payload side: decoding a field and encoding the
/// result reproduces the serialized form, so the codec loses nothing in
/// either direction.
pub proof fn lemma_decode_then_encode<T>(field: Option<Option<T>>)
    ensures
        NullableField::decoded(field).encoded() == field,
{
}

} // verus!
