//! The dispatch boundary: carries asynchronously decoded content back onto
//! the thread that owns a store.
//!
//! Loading tasks run off-thread and communicate solely through a
//! multi-producer, single-consumer channel; the once-per-cycle dispatch step
//! drains whatever pairs are already waiting, without blocking, and upserts
//! each into the store in send order.

use vstd::prelude::*;

use crate::assets::{upsert_event, AssetEvent, Assets};
use crate::handle::{Handle, HandleId};

verus! {

#[verifier::external_type_specification]
#[verifier::external_body]
#[verifier::reject_recursive_types(T)]
pub struct ExSender<T>(std::sync::mpsc::Sender<T>);

#[verifier::external_type_specification]
#[verifier::external_body]
#[verifier::reject_recursive_types(T)]
pub struct ExReceiver<T>(std::sync::mpsc::Receiver<T>);

/// The per-content-type channel. Every loading task holds a clone of
/// `sender`; the dispatch step, on the store's owning thread, is the only
/// reader of `receiver`.
#[verifier::reject_recursive_types(T)]
pub struct AssetChannel<T> {
    pub sender: std::sync::mpsc::Sender<(HandleId, T)>,
    pub receiver: std::sync::mpsc::Receiver<(HandleId, T)>,
}

impl<T> AssetChannel<T> {
    /// A fresh, empty channel.
    pub fn new() -> Self {
        let (sender, receiver) = mpsc_pair();
        AssetChannel { sender, receiver }
    }
}

/// Relies on std's `mpsc::channel`: a connected sender/receiver pair whose
/// sends from arbitrary threads arrive at the single receiver in send order.
#[verifier::external_body]
fn mpsc_pair<T>() -> (std::sync::mpsc::Sender<(HandleId, T)>, std::sync::mpsc::Receiver<
    (HandleId, T),
>) {
    std::sync::mpsc::channel()
}

/// Relies on std's `Receiver::try_iter`: yields, without blocking, exactly
/// the messages already waiting on the channel, in the order they were sent.
/// What those messages are depends on the loading tasks, so nothing is
/// stated of the result.
#[verifier::external_body]
fn drain_channel<T>(receiver: &std::sync::mpsc::Receiver<(HandleId, T)>) -> (batch: Vec<
    (HandleId, T),
>) {
    receiver.try_iter().collect()
}

/// The entries after upserting each pair of `batch`, first to last, into
/// `entries`.
pub open spec fn batch_entries<T>(entries: Map<HandleId, T>, batch: Seq<(HandleId, T)>) -> Map<
    HandleId,
    T,
>
    decreases batch.len(),
{
    if batch.len() == 0 {
        entries
    } else {
        batch_entries(entries.insert(batch[0].0, batch[0].1), batch.drop_first())
    }
}

/// The change records those same upserts emit, in order: for each pair one
/// record, classified against the entries as they stood just before it.
pub open spec fn batch_events<T>(entries: Map<HandleId, T>, batch: Seq<(HandleId, T)>) -> Seq<
    AssetEvent<T>,
>
    decreases batch.len(),
{
    if batch.len() == 0 {
        Seq::empty()
    } else {
        seq![upsert_event(entries, Handle::spec_from_id(batch[0].0))] + batch_events(
            entries.insert(batch[0].0, batch[0].1),
            batch.drop_first(),
        )
    }
}

/// Upserts every pair of the batch into the store, first to last, exactly as
/// repeated calls of `set` would: each pair overwrites its handle's entry
/// and appends one record, classified by presence just before that upsert.
pub fn apply_batch<T>(assets: &mut Assets<T>, batch: Vec<(HandleId, T)>)
    ensures
        final(assets).entries() == batch_entries(old(assets).entries(), batch@),
        final(assets).pending() == old(assets).pending() + batch_events(
            old(assets).entries(),
            batch@,
        ),
        final(assets).path_index() == old(assets).path_index(),
{
    let ghost orig_batch = batch@;
    let ghost orig_entries = assets.entries();
    let ghost orig_pending = assets.pending();
    let ghost orig_paths = assets.path_index();
    let mut rest = batch;
    while rest.len() > 0
        invariant
            batch_entries(assets.entries(), rest@) == batch_entries(orig_entries, orig_batch),
            assets.pending() + batch_events(assets.entries(), rest@) == orig_pending
                + batch_events(orig_entries, orig_batch),
            assets.path_index() == orig_paths,
        decreases rest.len(),
    {
        let ghost rest_before = rest@;
        let ghost entries_before = assets.entries();
        let ghost pending_before = assets.pending();
        let pair = rest.remove(0);
        let handle = Handle::from_id(pair.0);
        assets.set(handle, pair.1);
        proof {
            assert(rest@ =~= rest_before.drop_first());
            assert(assets.pending() + batch_events(assets.entries(), rest@) =~= pending_before
                + batch_events(entries_before, rest_before));
        }
    }
    proof {
        assert(batch_entries(assets.entries(), rest@) == assets.entries());
        assert(orig_pending + batch_events(orig_entries, orig_batch) =~= assets.pending());
    }
}

/// The dispatch step: drains every pair already delivered on the channel
/// and upserts each into the store, in send order — the only path by which
/// asynchronously produced content enters a store, always run on its owning
/// thread. Which pairs arrive depends on the loading tasks, so the contract
/// says only that the store advanced from its old state by some batch of
/// upserts, each recorded exactly as `set` records one.
pub fn update_asset_storage_system<T>(channel: &AssetChannel<T>, assets: &mut Assets<T>)
    ensures
        exists|batch: Seq<(HandleId, T)>|
            final(assets).entries() == batch_entries(old(assets).entries(), batch)
                && final(assets).pending() == old(assets).pending() + batch_events(
                old(assets).entries(),
                batch,
            ),
        final(assets).path_index() == old(assets).path_index(),
{
    let batch = drain_channel(&channel.receiver);
    apply_batch(assets, batch);
}

} // verus!
