//! The loader registry: one decoding capability per content type.
//!
//! A loader turns raw bytes into a decoded value of one content type, off
//! the store's owning thread; it reports its result only through the
//! channel, never by touching a store. The registry binds at most one loader
//! per content type: a second registration for the same type is a
//! configuration error detected at setup, leaving no partial state behind.

use std::collections::HashMap;
use vstd::prelude::*;

verus! {

/// The tag naming one content type in the registry.
pub type ContentTypeId = u64;

/// Why a decode failed. A loader surfaces this to its own caller; it is
/// never propagated into a store (a failed load simply produces no channel
/// message for its handle).
#[derive(Debug)]
pub struct DecodeError {
    pub message: String,
}

/// The configuration error of loader setup.
#[derive(Debug)]
pub enum RegistrationError {
    /// A loader for this content type was already registered.
    DuplicateLoader { content_type: ContentTypeId },
}

impl RegistrationError {
    /// The content type the error speaks of.
    pub open spec fn spec_content_type(&self) -> ContentTypeId {
        match *self {
            RegistrationError::DuplicateLoader { content_type } => content_type,
        }
    }

    /// The content type the error speaks of.
    #[verifier::when_used_as_spec(spec_content_type)]
    pub fn content_type(&self) -> (result: ContentTypeId)
        ensures
            result == self.spec_content_type(),
    {
        match *self {
            RegistrationError::DuplicateLoader { content_type } => content_type,
        }
    }
}

/// The capability of decoding raw bytes into one content type. Implemented
/// by users of the store; invoked off-thread by loading tasks.
pub trait AssetLoader<T> {
    /// Decodes one value from raw bytes, or reports why it cannot.
    fn from_bytes(&self, bytes: &[u8]) -> Result<T, DecodeError>;
}

/// Binds each content type to the one binding registered for it — a loader
/// together with whatever the dispatch wiring needs, packed by the caller.
pub struct LoaderRegistry<L> {
    bindings: HashMap<ContentTypeId, L>,
}

impl<L> LoaderRegistry<L> {
    /// The registered bindings, keyed by content type.
    pub closed spec fn bindings(&self) -> Map<ContentTypeId, L> {
        self.bindings@
    }

    /// An empty registry.
    pub fn new() -> (result: Self)
        ensures
            result.bindings() == Map::<ContentTypeId, L>::empty(),
    {
        LoaderRegistry { bindings: HashMap::new() }
    }

    /// Records the binding for a content type. Fails with the configuration
    /// error — and changes nothing — exactly when a binding for that type is
    /// already registered; every success is therefore the first registration
    /// for its type, the moment to schedule that type's recurring dispatch
    /// step (never twice).
    pub fn register(&mut self, content_type: ContentTypeId, binding: L) -> (result: Result<
        (),
        RegistrationError,
    >)
        ensures
            old(self).bindings().contains_key(content_type) ==> result == Result::<
                (),
                RegistrationError,
            >::Err(RegistrationError::DuplicateLoader { content_type }) && final(self).bindings()
                == old(self).bindings(),
            !old(self).bindings().contains_key(content_type) ==> result == Result::<
                (),
                RegistrationError,
            >::Ok(()) && final(self).bindings() == old(self).bindings().insert(
                content_type,
                binding,
            ),
    {
        if self.bindings.contains_key(&content_type) {
            Err(RegistrationError::DuplicateLoader { content_type })
        } else {
            self.bindings.insert(content_type, binding);
            Ok(())
        }
    }

    /// Whether a binding is registered for the content type.
    pub fn is_registered(&self, content_type: ContentTypeId) -> (result: bool)
        ensures
            result == self.bindings().contains_key(content_type),
    {
        self.bindings.contains_key(&content_type)
    }

    /// The binding registered for the content type, if any.
    pub fn get(&self, content_type: ContentTypeId) -> (result: Option<&L>)
        ensures
            match result {
                Some(binding) => self.bindings().contains_key(content_type) && *binding
                    == self.bindings()[content_type],
                None => !self.bindings().contains_key(content_type),
            },
    {
        self.bindings.get(&content_type)
    }
}

impl<L> Default for LoaderRegistry<L> {
    /// An empty registry.
    fn default() -> (result: Self)
        ensures
            result.bindings() == Map::<ContentTypeId, L>::empty(),
    {
        LoaderRegistry::new()
    }
}

/// What a host's setup surface offers the store: registering one store (and
/// its event stream) per content type, and registering a loader whose
/// decoded output flows back through that type's channel. Implemented by the
/// surrounding application for its own scheduler; the registration decisions
/// themselves live in `LoaderRegistry`.
pub trait AddAsset {
    /// Makes the host own a store and an event stream for one content type,
    /// and schedules the once-per-cycle publication step.
    fn add_asset<T: Send + Sync + 'static>(&mut self) -> &mut Self;

    /// Registers a loader for one content type and, on the first
    /// registration for that type, schedules its recurring dispatch step.
    fn add_asset_loader<TLoader, TAsset>(&mut self, loader: TLoader) -> &mut Self where
        TLoader: AssetLoader<TAsset> + Clone + Send + Sync + 'static,
        TAsset: Send + Sync + 'static;
}

} // verus!
