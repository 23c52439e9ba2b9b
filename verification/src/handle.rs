//! Opaque, copyable, typed identifiers for stored entries.

use core::marker::PhantomData;
use vstd::prelude::*;

verus! {

/// The raw identifier a handle wraps: a 128-bit value, wide enough that
/// freshly drawn identifiers do not repeat within a process's realistic
/// lifetime.
pub type HandleId = u128;

/// The reserved identifier of the type-wide default slot. A handle carrying
/// this identifier denotes the stable singleton entry of its type rather
/// than a freshly allocated one.
pub const DEFAULT_HANDLE_ID: HandleId = 0;

/// An opaque, copyable, typed identifier for one stored entry.
///
/// Two handles of one type are equal exactly when their identifiers are
/// equal; a handle carries no ownership of, or reference into, the content
/// it names.
#[derive(Debug)]
pub struct Handle<T> {
    id: HandleId,
    marker: PhantomData<T>,
}

impl<T> Handle<T> {
    /// The identifier this handle wraps.
    pub closed spec fn spec_id(&self) -> HandleId {
        self.id
    }

    /// The handle of the given type wrapping the given identifier. A handle
    /// is nothing but its identifier, so this pins the whole value down.
    pub closed spec fn spec_from_id(id: HandleId) -> Handle<T> {
        Handle { id, marker: PhantomData }
    }

    /// The identifier this handle wraps.
    #[verifier::when_used_as_spec(spec_id)]
    pub fn id(&self) -> (id: HandleId)
        ensures
            id == self.spec_id(),
    {
        self.id
    }

    /// Reconstructs a handle from a previously observed raw identifier.
    /// Whether the identifier denotes a live entry is a store-level concern;
    /// no validation happens here.
    pub fn from_id(id: HandleId) -> (handle: Handle<T>)
        ensures
            handle == Handle::<T>::spec_from_id(id),
            handle.spec_id() == id,
    {
        Handle { id, marker: PhantomData }
    }

    /// A handle with a freshly drawn, process-unique identifier. The
    /// identifier comes from a random draw, so little is promised of its
    /// value — only that it never names the reserved default slot.
    pub fn new() -> (handle: Handle<T>)
        ensures
            handle == Handle::<T>::spec_from_id(handle.spec_id()),
            handle.spec_id() != DEFAULT_HANDLE_ID,
    {
        Handle { id: random_handle_id(), marker: PhantomData }
    }
}

/// A handle built from an identifier wraps exactly that identifier.
pub broadcast proof fn lemma_spec_from_id<T>(id: HandleId)
    ensures
        (#[trigger] Handle::<T>::spec_from_id(id)).spec_id() == id,
{
}

/// Relies on `uuid::Uuid::new_v4`, which returns a randomly generated
/// version-4 UUID, here taken as its 128-bit integer value. The draw is
/// random, so nothing is stated of the value except what holds of every
/// version-4 UUID: its fixed version and variant bits are set, so it is
/// never zero.
#[verifier::external_body]
fn random_handle_id() -> (id: HandleId)
    ensures
        id != 0,
{
    uuid::Uuid::new_v4().as_u128()
}

impl<T> Clone for Handle<T> {
    fn clone(&self) -> (result: Self)
        ensures
            result == *self,
    {
        Handle { id: self.id, marker: PhantomData }
    }
}

impl<T> Copy for Handle<T> {

}

impl<T> PartialEq for Handle<T> {
    fn eq(&self, other: &Self) -> (result: bool) {
        self.id == other.id
    }
}

impl<T> Eq for Handle<T> {

}

impl<T> vstd::std_specs::cmp::PartialEqSpecImpl for Handle<T> {
    open spec fn obeys_eq_spec() -> bool {
        true
    }

    open spec fn eq_spec(&self, other: &Self) -> bool {
        self.spec_id() == other.spec_id()
    }
}

impl<T> core::hash::Hash for Handle<T> {
    /// Relies on `u128::hash`: a handle hashes as its identifier alone, in
    /// step with its equality.
    #[verifier::external_body]
    fn hash<H: core::hash::Hasher>(&self, state: &mut H) {
        self.id.hash(state)
    }
}

impl<T> Default for Handle<T> {
    /// The reserved default-slot handle for the type: always the same value.
    fn default() -> (handle: Self)
        ensures
            handle == Handle::<T>::spec_from_id(DEFAULT_HANDLE_ID),
            handle.spec_id() == DEFAULT_HANDLE_ID,
    {
        Handle { id: DEFAULT_HANDLE_ID, marker: PhantomData }
    }
}

} // verus!
