//! The laws the store keeps, stated once over the models its contracts use
//! and proved for every input.

use vstd::prelude::*;

use crate::assets::{get_or_insert_log, AssetEvent};
use crate::channel::{batch_entries, batch_events};
use crate::events::Events;
use crate::handle::{Handle, HandleId};

verus! {

broadcast use crate::handle::lemma_spec_from_id;

/// How many records of a log report a freshly created entry.
pub open spec fn count_created<T>(log: Seq<AssetEvent<T>>) -> nat
    decreases log.len(),
{
    if log.len() == 0 {
        0
    } else {
        (if log[0].is_created() {
            1nat
        } else {
            0nat
        }) + count_created(log.drop_first())
    }
}

/// How many records of a log report an overwritten entry.
pub open spec fn count_modified<T>(log: Seq<AssetEvent<T>>) -> nat
    decreases log.len(),
{
    if log.len() == 0 {
        0
    } else {
        (if log[0].is_modified() {
            1nat
        } else {
            0nat
        }) + count_modified(log.drop_first())
    }
}

/// Across any sequence of upserts, the number of `Created` records emitted
/// equals the number of distinct handles that were inserted for the first
/// time, and the number of `Modified` records equals the number of upserts
/// that hit an already-present handle — together, one record per upsert.
pub proof fn lemma_created_modified_counts<T>(entries: Map<HandleId, T>, batch: Seq<(HandleId, T)>)
    requires
        entries.dom().finite(),
    ensures
        count_created(batch_events(entries, batch)) + entries.dom().len() == batch_entries(
            entries,
            batch,
        ).dom().len(),
        count_created(batch_events(entries, batch)) + count_modified(batch_events(entries, batch))
            == batch.len(),
    decreases batch.len(),
{
    if batch.len() == 0 {
        assert(count_created(batch_events(entries, batch)) == 0);
        assert(count_modified(batch_events(entries, batch)) == 0);
    } else {
        let id = batch[0].0;
        let grown = entries.insert(id, batch[0].1);
        let rest = batch.drop_first();
        let record = crate::assets::upsert_event(entries, Handle::<T>::spec_from_id(id));
        let log = batch_events(entries, batch);
        assert(log =~= seq![record] + batch_events(grown, rest));
        assert(log.drop_first() =~= batch_events(grown, rest));
        assert(log[0] == record);
        assert(batch_entries(entries, batch) == batch_entries(grown, rest));
        assert(count_created(log) == (if record.is_created() {
            1nat
        } else {
            0nat
        }) + count_created(batch_events(grown, rest)));
        assert(count_modified(log) == (if record.is_modified() {
            1nat
        } else {
            0nat
        }) + count_modified(batch_events(grown, rest)));
        lemma_created_modified_counts(grown, rest);
        if entries.contains_key(id) {
            assert(record.is_modified() && !record.is_created());
            assert(grown.dom() =~= entries.dom());
        } else {
            assert(record.is_created() && !record.is_modified());
            assert(grown.dom() =~= entries.dom().insert(id));
            vstd::set::axiom_set_insert_len(entries.dom(), id);
        }
    }
}

/// Repeated `get_or_insert_with` on one absent handle yields one `Created`
/// record in total, not two: the first call appends it, and the second call,
/// the handle now present, appends nothing and invokes no producer.
pub proof fn lemma_get_or_insert_once<T>(
    entries: Map<HandleId, T>,
    log: Seq<AssetEvent<T>>,
    handle: Handle<T>,
    produced: T,
)
    requires
        !entries.contains_key(handle.spec_id()),
    ensures
        get_or_insert_log(entries, log, handle) == log.push(AssetEvent::Created { handle }),
        get_or_insert_log(
            entries.insert(handle.spec_id(), produced),
            get_or_insert_log(entries, log, handle),
            handle,
        ) == log.push(AssetEvent::Created { handle }),
{
}

/// A path resolves to the handle most recently bound to it: after binding
/// `p` to `h`, `p` resolves to `h`; after rebinding `p` to `h2`, it resolves
/// to `h2` and never to `h` (unless the two coincide).
pub proof fn lemma_path_last_writer_wins<T>(
    paths: Map<Seq<char>, HandleId>,
    p: Seq<char>,
    h: Handle<T>,
    h2: Handle<T>,
)
    ensures
        paths.insert(p, h.spec_id()).contains_key(p),
        paths.insert(p, h.spec_id())[p] == h.spec_id(),
        paths.insert(p, h.spec_id()).insert(p, h2.spec_id())[p] == h2.spec_id(),
{
}

/// Two consecutive drains with no mutation in between: the first hands out
/// everything queued, and the second hands out nothing. The premises are
/// exactly what `drain`'s contract gives for each of the two calls.
pub proof fn lemma_drain_twice<T>(
    before: Events<T>,
    between: Events<T>,
    first_out: Seq<T>,
    second_out: Seq<T>,
)
    requires
        first_out == before.queued(),
        between.older() == Seq::<T>::empty(),
        between.newer() == Seq::<T>::empty(),
        second_out == between.queued(),
    ensures
        first_out == before.queued(),
        second_out == Seq::<T>::empty(),
{
    assert(between.queued() =~= Seq::<T>::empty());
}

/// A dispatch batch emits exactly one record per delivered pair, in
/// delivery order.
pub proof fn lemma_batch_events_len<T>(entries: Map<HandleId, T>, batch: Seq<(HandleId, T)>)
    ensures
        batch_events(entries, batch).len() == batch.len(),
    decreases batch.len(),
{
    if batch.len() > 0 {
        lemma_batch_events_len(entries.insert(batch[0].0, batch[0].1), batch.drop_first());
    }
}

/// Handles that no pair of a batch names are untouched by its dispatch.
pub proof fn lemma_batch_entries_untouched<T>(
    entries: Map<HandleId, T>,
    batch: Seq<(HandleId, T)>,
    id: HandleId,
)
    requires
        forall|j: int| 0 <= j < batch.len() ==> (#[trigger] batch[j]).0 != id,
    ensures
        batch_entries(entries, batch).contains_key(id) == entries.contains_key(id),
        entries.contains_key(id) ==> batch_entries(entries, batch)[id] == entries[id],
    decreases batch.len(),
{
    if batch.len() > 0 {
        lemma_batch_entries_untouched(
            entries.insert(batch[0].0, batch[0].1),
            batch.drop_first(),
            id,
        );
    }
}

/// A pair delivered on the channel before a cycle's dispatch step is
/// visible afterwards — the last delivery for a handle is what lookups then
/// return — and its change record stands in that same cycle's batch of
/// records, at the position of its delivery, so the same cycle's drain
/// publishes it.
pub proof fn lemma_dispatch_visible<T>(
    entries: Map<HandleId, T>,
    batch: Seq<(HandleId, T)>,
    i: int,
)
    requires
        0 <= i < batch.len(),
        forall|j: int| i < j < batch.len() ==> (#[trigger] batch[j]).0 != batch[i].0,
    ensures
        batch_entries(entries, batch).contains_key(batch[i].0),
        batch_entries(entries, batch)[batch[i].0] == batch[i].1,
        batch_events(entries, batch).len() == batch.len(),
        batch_events(entries, batch)[i].subject() == Handle::<T>::spec_from_id(batch[i].0),
    decreases batch.len(),
{
    lemma_batch_events_len(entries, batch);
    let grown = entries.insert(batch[0].0, batch[0].1);
    let rest = batch.drop_first();
    let record = crate::assets::upsert_event(entries, Handle::<T>::spec_from_id(batch[0].0));
    assert(batch_events(entries, batch) =~= seq![record] + batch_events(grown, rest));
    if i == 0 {
        assert(grown.contains_key(batch[0].0));
        assert(forall|j: int| 0 <= j < rest.len() ==> (#[trigger] rest[j]).0 != batch[0].0);
        lemma_batch_entries_untouched(grown, rest, batch[0].0);
        assert(batch_events(entries, batch)[0] == record);
    } else {
        assert(forall|j: int| i - 1 < j < rest.len() ==> (#[trigger] rest[j]).0 != rest[i - 1].0);
        lemma_dispatch_visible(grown, rest, i - 1);
        assert(batch_events(entries, batch)[i] == batch_events(grown, rest)[i - 1]);
    }
}

} // verus!
