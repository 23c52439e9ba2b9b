//! A generic, typed resource store.
//!
//! The store keeps arbitrary content behind opaque, copyable handles, records
//! which entries were created or modified since the last observation cycle,
//! and publishes that change history through a double-buffered event stream.
//! A loader registry binds one decoding capability per content type, and a
//! channel carries asynchronously decoded content back onto the thread that
//! owns the store.

mod assets;
mod channel;
mod events;
mod handle;
mod laws;
mod loader;

pub use assets::{get_or_insert_log, upsert_event, AssetEvent, Assets};
pub use channel::{apply_batch, batch_entries, batch_events, update_asset_storage_system, AssetChannel};
pub use events::Events;
pub use handle::{Handle, HandleId, DEFAULT_HANDLE_ID};
pub use laws::{
    count_created, count_modified, lemma_batch_entries_untouched, lemma_batch_events_len,
    lemma_created_modified_counts, lemma_dispatch_visible, lemma_drain_twice,
    lemma_get_or_insert_once, lemma_path_last_writer_wins,
};
pub use loader::{AddAsset, AssetLoader, ContentTypeId, DecodeError, LoaderRegistry, RegistrationError};
