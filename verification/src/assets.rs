//! The owning container: entries behind handles, a path index, and the
//! pending change log.
//!
//! Every entry mutation appends exactly one change record, classified as
//! `Created` or `Modified` by whether the handle was present immediately
//! before the mutation. The records stay queued until the once-per-cycle
//! drain publishes them, in emission order, to the external event stream.

use std::collections::HashMap;
use vstd::prelude::*;

use crate::events::Events;
use crate::handle::{Handle, HandleId, DEFAULT_HANDLE_ID};

verus! {

/// One change observed by a store: an entry came into being, was
/// overwritten, or was deleted.
///
/// Records are immutable once produced. `Removed` completes the taxonomy for
/// downstream consumers, but `remove` itself does not emit it (see the note
/// on `remove`).
#[derive(Debug)]
pub enum AssetEvent<T> {
    Created { handle: Handle<T> },
    Modified { handle: Handle<T> },
    Removed { handle: Handle<T> },
}

impl<T> AssetEvent<T> {
    /// The handle the record speaks of.
    pub open spec fn subject(&self) -> Handle<T> {
        match *self {
            AssetEvent::Created { handle } => handle,
            AssetEvent::Modified { handle } => handle,
            AssetEvent::Removed { handle } => handle,
        }
    }

    /// Whether the record reports a freshly created entry.
    pub open spec fn is_created(&self) -> bool {
        self matches AssetEvent::Created { .. }
    }

    /// Whether the record reports an overwritten entry.
    pub open spec fn is_modified(&self) -> bool {
        self matches AssetEvent::Modified { .. }
    }
}

impl<T> Clone for AssetEvent<T> {
    fn clone(&self) -> (result: Self)
        ensures
            result == *self,
    {
        match self {
            AssetEvent::Created { handle } => AssetEvent::Created { handle: *handle },
            AssetEvent::Modified { handle } => AssetEvent::Modified { handle: *handle },
            AssetEvent::Removed { handle } => AssetEvent::Removed { handle: *handle },
        }
    }
}

impl<T> PartialEq for AssetEvent<T> {
    fn eq(&self, other: &Self) -> (result: bool) {
        match (self, other) {
            (AssetEvent::Created { handle: a }, AssetEvent::Created { handle: b }) => *a == *b,
            (AssetEvent::Modified { handle: a }, AssetEvent::Modified { handle: b }) => *a == *b,
            (AssetEvent::Removed { handle: a }, AssetEvent::Removed { handle: b }) => *a == *b,
            _ => false,
        }
    }
}

impl<T> Eq for AssetEvent<T> {

}

impl<T> vstd::std_specs::cmp::PartialEqSpecImpl for AssetEvent<T> {
    open spec fn obeys_eq_spec() -> bool {
        true
    }

    open spec fn eq_spec(&self, other: &Self) -> bool {
        match (self, other) {
            (AssetEvent::Created { handle: a }, AssetEvent::Created { handle: b }) => a.spec_id()
                == b.spec_id(),
            (AssetEvent::Modified { handle: a }, AssetEvent::Modified { handle: b }) => a.spec_id()
                == b.spec_id(),
            (AssetEvent::Removed { handle: a }, AssetEvent::Removed { handle: b }) => a.spec_id()
                == b.spec_id(),
            _ => false,
        }
    }
}

/// The record an upsert of `handle` appends when the entries immediately
/// before the mutation are `entries`: `Created` exactly when the handle was
/// absent, `Modified` exactly when it was present.
pub open spec fn upsert_event<T>(entries: Map<HandleId, T>, handle: Handle<T>) -> AssetEvent<T> {
    if entries.contains_key(handle.spec_id()) {
        AssetEvent::Modified { handle }
    } else {
        AssetEvent::Created { handle }
    }
}

/// What `get_or_insert_with` leaves in the pending log: unchanged when the
/// handle was present, one `Created` record appended when it was absent.
pub open spec fn get_or_insert_log<T>(
    entries: Map<HandleId, T>,
    log: Seq<AssetEvent<T>>,
    handle: Handle<T>,
) -> Seq<AssetEvent<T>> {
    if entries.contains_key(handle.spec_id()) {
        log
    } else {
        log.push(AssetEvent::Created { handle })
    }
}

/// The generic container: owns entries by handle identifier, a secondary
/// index from logical path to handle identifier, and the queue of change
/// records not yet published.
pub struct Assets<T> {
    assets: HashMap<HandleId, T>,
    paths: vstd::hash_map::StringHashMap<HandleId>,
    events: Events<AssetEvent<T>>,
}

impl<T> Assets<T> {
    /// The stored entries, keyed by handle identifier.
    pub closed spec fn entries(&self) -> Map<HandleId, T> {
        self.assets@
    }

    /// The path index: logical path to handle identifier.
    pub closed spec fn path_index(&self) -> Map<Seq<char>, HandleId> {
        self.paths@
    }

    /// The change records emitted since the last drain, in emission order.
    pub closed spec fn pending(&self) -> Seq<AssetEvent<T>> {
        self.events.queued()
    }

    /// Resolves a logical path to the handle most recently bound to it. The
    /// resolved handle need not denote a live entry: callers re-check via
    /// `get`.
    pub fn get_with_path(&self, path: &str) -> (result: Option<Handle<T>>)
        ensures
            match result {
                Some(handle) => self.path_index().contains_key(path@) && handle
                    == Handle::<T>::spec_from_id(self.path_index()[path@]),
                None => !self.path_index().contains_key(path@),
            },
    {
        match self.paths.get(path) {
            Some(id) => Some(Handle::from_id(*id)),
            None => None,
        }
    }

    /// Inserts a value under a freshly allocated handle and records one
    /// `Created`. The handle's identifier comes from a random draw, so the
    /// contract pins everything but its value; it never names the reserved
    /// default slot.
    pub fn add(&mut self, asset: T) -> (handle: Handle<T>)
        ensures
            final(self).entries() == old(self).entries().insert(handle.spec_id(), asset),
            final(self).pending() == old(self).pending().push(AssetEvent::Created { handle }),
            final(self).path_index() == old(self).path_index(),
            handle == Handle::<T>::spec_from_id(handle.spec_id()),
            handle.spec_id() != DEFAULT_HANDLE_ID,
    {
        let handle = Handle::new();
        self.assets.insert(handle.id(), asset);
        self.events.send(AssetEvent::Created { handle });
        proof {
            assert(final(self).pending() =~= old(self).pending().push(
                AssetEvent::Created { handle },
            ));
        }
        handle
    }

    /// Upserts at an explicit handle: records `Created` when the handle was
    /// absent immediately before the mutation, `Modified` when it was
    /// present. Presence check and mutation are one step; no other actor can
    /// intervene between them.
    pub fn set(&mut self, handle: Handle<T>, asset: T)
        ensures
            final(self).entries() == old(self).entries().insert(handle.spec_id(), asset),
            final(self).pending() == old(self).pending().push(
                upsert_event(old(self).entries(), handle),
            ),
            final(self).path_index() == old(self).path_index(),
    {
        let was_present = self.assets.contains_key(&handle.id());
        self.assets.insert(handle.id(), asset);
        if was_present {
            self.events.send(AssetEvent::Modified { handle });
        } else {
            self.events.send(AssetEvent::Created { handle });
        }
        proof {
            assert(final(self).pending() =~= old(self).pending().push(
                upsert_event(old(self).entries(), handle),
            ));
        }
    }

    /// Upserts at the reserved default slot, with the same record
    /// classification as `set`, and returns the default-slot handle.
    pub fn add_default(&mut self, asset: T) -> (handle: Handle<T>)
        ensures
            handle == Handle::<T>::spec_from_id(DEFAULT_HANDLE_ID),
            final(self).entries() == old(self).entries().insert(DEFAULT_HANDLE_ID, asset),
            final(self).pending() == old(self).pending().push(
                upsert_event(old(self).entries(), handle),
            ),
            final(self).path_index() == old(self).path_index(),
    {
        let handle = Handle::default();
        self.set(handle, asset);
        handle
    }

    /// (Re)binds a logical path to a handle, overwriting any prior binding
    /// for that path. The handle need not denote a live entry (content may
    /// arrive later), and no change record is emitted: only entry mutations
    /// emit records.
    pub fn set_path(&mut self, handle: Handle<T>, path: &str)
        ensures
            final(self).path_index() == old(self).path_index().insert(path@, handle.spec_id()),
            final(self).entries() == old(self).entries(),
            final(self).pending() == old(self).pending(),
    {
        self.paths.insert(path.to_owned(), handle.id());
    }

    /// Looks an entry up by raw identifier, as if a handle had been
    /// reconstructed first.
    pub fn get_id(&self, id: HandleId) -> (result: Option<&T>)
        ensures
            match result {
                Some(value) => self.entries().contains_key(id) && *value == self.entries()[id],
                None => !self.entries().contains_key(id),
            },
    {
        self.assets.get(&id)
    }

    /// Mutable lookup by raw identifier, as if a handle had been
    /// reconstructed first. No change record is emitted.
    pub fn get_id_mut(&mut self, id: HandleId) -> (result: Option<&mut T>)
        ensures
            old(self).entries().contains_key(id) ==> result.is_some() && *result.unwrap() == old(self).entries()[id] && final(self).entries() == old(self).entries().insert(
                id,
                *final(result.unwrap()),
            ),
            !old(self).entries().contains_key(id) ==> result.is_none() && final(self).entries()
                == old(self).entries(),
            final(self).path_index() == old(self).path_index(),
            final(self).pending() == old(self).pending(),
    {
        if self.assets.contains_key(&id) {
            Some(map_get_mut(&mut self.assets, id))
        } else {
            None
        }
    }

    /// Looks an entry up by handle; an absent handle yields `None`, never an
    /// error.
    pub fn get(&self, handle: &Handle<T>) -> (result: Option<&T>)
        ensures
            match result {
                Some(value) => self.entries().contains_key(handle.spec_id()) && *value
                    == self.entries()[handle.spec_id()],
                None => !self.entries().contains_key(handle.spec_id()),
            },
    {
        self.assets.get(&handle.id())
    }

    /// Mutable lookup by handle. Mutation through the returned borrow does
    /// not emit a change record.
    pub fn get_mut(&mut self, handle: &Handle<T>) -> (result: Option<&mut T>)
        ensures
            old(self).entries().contains_key(handle.spec_id()) ==> result.is_some()
                && *result.unwrap() == old(self).entries()[handle.spec_id()] && final(self).entries() == old(self).entries().insert(handle.spec_id(), *final(result.unwrap())),
            !old(self).entries().contains_key(handle.spec_id()) ==> result.is_none() && final(self).entries() == old(self).entries(),
            final(self).path_index() == old(self).path_index(),
            final(self).pending() == old(self).pending(),
    {
        self.get_id_mut(handle.id())
    }

    /// Returns the existing entry when the handle is present; otherwise
    /// invokes the producer — exactly once, and only then — inserts what it
    /// made, and records one `Created`.
    pub fn get_or_insert_with<F: FnOnce() -> T>(&mut self, handle: Handle<T>, insert_fn: F) -> (result:
        &mut T)
        requires
            !old(self).entries().contains_key(handle.spec_id()) ==> call_requires(insert_fn, ()),
        ensures
            old(self).entries().contains_key(handle.spec_id()) ==> *result == old(self).entries()[
                handle.spec_id()],
            !old(self).entries().contains_key(handle.spec_id()) ==> call_ensures(
                insert_fn,
                (),
                *result,
            ),
            final(self).entries() == old(self).entries().insert(handle.spec_id(), *final(result)),
            final(self).pending() == get_or_insert_log(
                old(self).entries(),
                old(self).pending(),
                handle,
            ),
            final(self).path_index() == old(self).path_index(),
    {
        let id = handle.id();
        if !self.assets.contains_key(&id) {
            let value = insert_fn();
            self.assets.insert(id, value);
            self.events.send(AssetEvent::Created { handle });
            proof {
                assert(self.pending() =~= get_or_insert_log(
                    old(self).entries(),
                    old(self).pending(),
                    handle,
                ));
            }
        }
        let ghost entries_before_borrow = self.entries();
        proof {
            assert forall|v: T| #[trigger] entries_before_borrow.insert(handle.spec_id(), v) == old(
                self,
            ).entries().insert(handle.spec_id(), v) by {
                assert(entries_before_borrow.insert(handle.spec_id(), v) =~= old(
                    self,
                ).entries().insert(handle.spec_id(), v));
            }
        }
        map_get_mut(&mut self.assets, id)
    }

    /// Every stored (handle, content) pair, each exactly once, in no
    /// particular order: iteration order is unspecified and must not be
    /// relied on.
    pub fn iter(&self) -> (result: Vec<(Handle<T>, &T)>)
        ensures
            forall|i: int|
                0 <= i < result@.len() ==> #[trigger] self.entries().contains_key(
                    result@[i].0.spec_id(),
                ) && *result@[i].1 == self.entries()[result@[i].0.spec_id()],
            forall|i: int, j: int|
                0 <= i < j < result@.len() ==> result@[i].0.spec_id() != result@[j].0.spec_id(),
            forall|id: HandleId| #[trigger]
                self.entries().contains_key(id) ==> exists|i: int|
                    0 <= i < result@.len() && result@[i].0.spec_id() == id,
    {
        let pairs = map_pairs(&self.assets);
        proof {
            assert forall|i: int|
                0 <= i < pairs@.len() implies #[trigger] self.entries().contains_key(pairs@[i].0)
                && *pairs@[i].1 == self.entries()[pairs@[i].0] by {
                assert(self.assets@.contains_key(pairs@[i].0));
                assert(*pairs@[i].1 == self.assets@[pairs@[i].0]);
            }
        }
        let mut result: Vec<(Handle<T>, &T)> = Vec::new();
        let mut idx: usize = 0;
        while idx < pairs.len()
            invariant
                idx <= pairs.len(),
                result@.len() == idx,
                forall|i: int|
                    0 <= i < pairs@.len() ==> #[trigger] self.entries().contains_key(pairs@[i].0)
                        && *pairs@[i].1 == self.entries()[pairs@[i].0],
                forall|i: int, j: int| 0 <= i < j < pairs@.len() ==> pairs@[i].0 != pairs@[j].0,
                forall|i: int|
                    0 <= i < idx ==> #[trigger] result@[i].0.spec_id() == pairs@[i].0 && result@[i].1
                        == pairs@[i].1,
            decreases pairs.len() - idx,
        {
            let (id, value) = pairs[idx];
            result.push((Handle::from_id(id), value));
            idx += 1;
        }
        proof {
            assert forall|id: HandleId| #[trigger]
                self.entries().contains_key(id) implies exists|i: int|
                0 <= i < result@.len() && result@[i].0.spec_id() == id by {
                assert(self.assets@.contains_key(id));
                let i = choose|i: int| 0 <= i < pairs@.len() && pairs@[i].0 == id;
                assert(0 <= i < result@.len() && result@[i].0.spec_id() == id);
            }
        }
        result
    }

    /// Deletes the entry and returns its prior value when present. Per the
    /// current contract this does not append a `Removed` record to the
    /// change log the other mutations feed — a known asymmetry with the
    /// record taxonomy, kept deliberately rather than silently corrected.
    pub fn remove(&mut self, handle: &Handle<T>) -> (result: Option<T>)
        ensures
            final(self).entries() == old(self).entries().remove(handle.spec_id()),
            match result {
                Some(value) => old(self).entries().contains_key(handle.spec_id()) && value == old(self).entries()[handle.spec_id()],
                None => !old(self).entries().contains_key(handle.spec_id()),
            },
            final(self).path_index() == old(self).path_index(),
            final(self).pending() == old(self).pending(),
    {
        self.assets.remove(&handle.id())
    }

    /// The once-per-cycle publication step: moves every pending change
    /// record, in emission order, into the external event stream, leaving
    /// the pending log empty. One designated caller runs this, once per
    /// cycle, after the dispatch step of the same cycle.
    pub fn asset_event_system(events: &mut Events<AssetEvent<T>>, assets: &mut Assets<T>)
        ensures
            final(events).newer() == old(events).newer() + old(assets).pending(),
            final(events).older() == old(events).older(),
            final(assets).pending() == Seq::<AssetEvent<T>>::empty(),
            final(assets).entries() == old(assets).entries(),
            final(assets).path_index() == old(assets).path_index(),
    {
        let drained = assets.events.drain();
        events.extend(drained);
    }
}

impl<T> Default for Assets<T> {
    /// An empty store: no entries, no path bindings, nothing pending.
    fn default() -> (result: Self)
        ensures
            result.entries() == Map::<HandleId, T>::empty(),
            result.path_index() == Map::<Seq<char>, HandleId>::empty(),
            result.pending() == Seq::<AssetEvent<T>>::empty(),
    {
        let result = Assets {
            assets: HashMap::new(),
            paths: vstd::hash_map::StringHashMap::new(),
            events: Events::new(),
        };
        proof {
            assert(result.pending() =~= Seq::<AssetEvent<T>>::empty());
        }
        result
    }
}

/// Relies on std's `HashMap::get_mut`: a mutable borrow of the value stored
/// under the given key; the map afterwards holds, under that key, whatever
/// the caller leaves behind through the borrow.
#[verifier::external_body]
fn map_get_mut<'a, V>(m: &'a mut HashMap<HandleId, V>, k: HandleId) -> (result: &'a mut V)
    requires
        old(m)@.contains_key(k),
    ensures
        *result == old(m)@[k],
        final(m)@ == old(m)@.insert(k, *final(result)),
{
    m.get_mut(&k).unwrap()
}

/// Relies on std's `HashMap::iter`: visits every key-value pair exactly
/// once, in arbitrary order. No order is stated here, and none may be
/// assumed.
#[verifier::external_body]
fn map_pairs<'a, V>(m: &'a HashMap<HandleId, V>) -> (result: Vec<(HandleId, &'a V)>)
    ensures
        forall|i: int|
            0 <= i < result@.len() ==> #[trigger] m@.contains_key(result@[i].0) && *result@[i].1
                == m@[result@[i].0],
        forall|i: int, j: int| 0 <= i < j < result@.len() ==> result@[i].0 != result@[j].0,
        forall|id: HandleId| #[trigger]
            m@.contains_key(id) ==> exists|i: int| 0 <= i < result@.len() && result@[i].0 == id,
{
    m.iter().map(|pair| (*pair.0, pair.1)).collect()
}

} // verus!
