//! The plugin contract and the registry that finds plugins by identifier.

use crate::error::{PluginError, PluginErrorView};
use crate::model::{
    DownloadModelRequest,
    DownloadModelResponse,
    PluginMetadata,
    PluginMetadataView,
    StartServiceRequest,
    StartServiceResponse,
    StopServiceRequest,
    StopServiceResponse,
};
use crate::trusted::clone_arc;
use std::sync::Arc;
use vstd::prelude::*;

verus! {

/// What every plugin offers. A plugin describes itself and may implement any
/// of the three operations; one that it leaves out answers that the operation
/// is not supported.
pub trait ServerPlugin: Send + Sync {
    /// The plugin's descriptor.
    fn metadata(&self) -> PluginMetadata;

    /// Fetches a model file into local storage.
    fn download_model(&self, request: DownloadModelRequest) -> (answer: Result<
        DownloadModelResponse,
        PluginError,
    >)
        default_ensures
            answer is Err && answer->Err_0@ == PluginErrorView::UnsupportedOperation,
    {
        Err(PluginError::UnsupportedOperation)
    }

    /// Launches the service process of a task category.
    fn start_service(&self, request: StartServiceRequest) -> (answer: Result<
        StartServiceResponse,
        PluginError,
    >)
        default_ensures
            answer is Err && answer->Err_0@ == PluginErrorView::UnsupportedOperation,
    {
        Err(PluginError::UnsupportedOperation)
    }

    /// Terminates the service process of a task category.
    fn stop_service(&self, request: StopServiceRequest) -> (answer: Result<
        StopServiceResponse,
        PluginError,
    >)
        default_ensures
            answer is Err && answer->Err_0@ == PluginErrorView::UnsupportedOperation,
    {
        Err(PluginError::UnsupportedOperation)
    }
}

/// One registered plugin with the descriptor it registered under.
struct Registered<P> {
    metadata: PluginMetadata,
    plugin: P,
}

/// The identifiers of a list of registrations, in order.
spec fn ids_of<P>(entries: Seq<Registered<P>>) -> Seq<Seq<char>> {
    entries.map_values(|e: Registered<P>| e.metadata.id@)
}

/// The descriptors after one more registration: the descriptor takes the
/// place of the one with its identifier, or goes to the end where there is
/// none.
pub open spec fn listing_after_register(
    listing: Seq<PluginMetadataView>,
    metadata: PluginMetadataView,
) -> Seq<PluginMetadataView> {
    if exists|i: int| 0 <= i < listing.len() && (#[trigger] listing[i]).id == metadata.id {
        let i = choose|i: int| 0 <= i < listing.len() && (#[trigger] listing[i]).id == metadata.id;
        listing.update(i, metadata)
    } else {
        listing.push(metadata)
    }
}

/// Whether no two descriptors of a listing share an identifier.
pub open spec fn distinct_ids(listing: Seq<PluginMetadataView>) -> bool {
    forall|i: int, j: int|
        0 <= i < j < listing.len() ==> (#[trigger] listing[i]).id != (#[trigger] listing[j]).id
}

/// Whether a listing holds a descriptor with the identifier `id`.
pub open spec fn lists_id(listing: Seq<PluginMetadataView>, id: Seq<char>) -> bool {
    exists|i: int| 0 <= i < listing.len() && (#[trigger] listing[i]).id == id
}

/// The available plugins, found by identifier, with their descriptors kept at
/// hand for enumeration.
pub struct PluginManager<P> {
    entries: Vec<Registered<P>>,
}

impl<P> PluginManager<P> {
    /// The cached descriptors, in the order in which their identifiers were
    /// first registered.
    pub closed spec fn listing(&self) -> Seq<PluginMetadataView> {
        self.entries@.map_values(|e: Registered<P>| e.metadata@)
    }

    /// The registered plugins by identifier.
    pub closed spec fn plugins(&self) -> Map<Seq<char>, P> {
        Map::new(
            |id: Seq<char>| ids_of(self.entries@).contains(id),
            |id: Seq<char>| self.entries@[ids_of(self.entries@).index_of(id)].plugin,
        )
    }

    #[verifier::type_invariant]
    closed spec fn unique_ids(&self) -> bool {
        ids_of(self.entries@).no_duplicates()
    }

    /// No identifier is listed twice, and the listed identifiers are those
    /// that a plugin is found under.
    proof fn lemma_consistent(&self)
        requires
            self.unique_ids(),
        ensures
            distinct_ids(self.listing()),
            forall|id: Seq<char>| self.plugins().dom().contains(id) <==> lists_id(self.listing(), id),
    {
        let ids = ids_of(self.entries@);
        assert forall|i: int, j: int| 0 <= i < j < self.listing().len() implies (
        #[trigger] self.listing()[i]).id != (#[trigger] self.listing()[j]).id by {
            assert(ids[i] == self.listing()[i].id);
            assert(ids[j] == self.listing()[j].id);
        }
        assert forall|id: Seq<char>| self.plugins().dom().contains(id) <==> lists_id(
            self.listing(),
            id,
        ) by {
            if ids.contains(id) {
                let i = choose|i: int| 0 <= i < ids.len() && ids[i] == id;
                assert(self.listing()[i].id == id);
            }
            if lists_id(self.listing(), id) {
                let i = choose|i: int|
                    0 <= i < self.listing().len() && (#[trigger] self.listing()[i]).id == id;
                assert(ids[i] == id);
            }
        }
    }

    /// A registry without plugins.
    pub fn new() -> (manager: Self)
        ensures
            manager.listing() == Seq::<PluginMetadataView>::empty(),
            manager.plugins() == Map::<Seq<char>, P>::empty(),
    {
        PluginManager { entries: Vec::new() }
    }

    /// The place of the registration with identifier `id`, if there is one.
    fn position(&self, id: &str) -> (found: Option<usize>)
        ensures
            match found {
                Some(i) => i < self.entries@.len() && ids_of(self.entries@)[i as int] == id@,
                None => !ids_of(self.entries@).contains(id@),
            },
    {
        let wanted = id.to_owned();
        let mut i: usize = 0;
        while i < self.entries.len()
            invariant
                i <= self.entries@.len(),
                wanted@ == id@,
                forall|k: int| 0 <= k < i ==> ids_of(self.entries@)[k] != id@,
            decreases self.entries@.len() - i,
        {
            if self.entries[i].metadata.id == wanted {
                return Some(i);
            }
            i = i + 1;
        }
        None
    }

    /// Whether a plugin is registered under `plugin_id`.
    pub fn contains(&self, plugin_id: &str) -> (present: bool)
        ensures
            present == self.plugins().dom().contains(plugin_id@),
    {
        self.position(plugin_id).is_some()
    }

    /// How many plugins are registered.
    pub fn len(&self) -> (count: usize)
        ensures
            count == self.listing().len(),
    {
        self.entries.len()
    }

    /// Registers `plugin` under the identifier of `metadata`. A plugin that
    /// was registered under that identifier before is replaced, and its
    /// descriptor with it.
    pub fn insert(&mut self, metadata: PluginMetadata, plugin: P)
        ensures
            final(self).plugins() == old(self).plugins().insert(metadata.id@, plugin),
            final(self).listing() == listing_after_register(old(self).listing(), metadata@),
            distinct_ids(final(self).listing()),
    {
        proof {
            use_type_invariant(&*self);
            self.lemma_consistent();
        }
        let found = self.position(metadata.id.as_str());
        let ghost before = self.entries@;
        let ghost listing = self.listing();
        let ghost id = metadata.id@;
        let entry = Registered { metadata, plugin };
        let mut entries: Vec<Registered<P>> = Vec::new();
        std::mem::swap(&mut self.entries, &mut entries);
        match found {
            Some(i) => {
                entries[i] = entry;
                proof {
                    assert(ids_of(entries@) =~= ids_of(before));
                    assert(listing[i as int].id == id);
                }
            },
            None => {
                entries.push(entry);
                proof {
                    assert(ids_of(entries@) =~= ids_of(before).push(id));
                    assert forall|k: int| 0 <= k < listing.len() implies (#[trigger] listing[k]).id
                        != id by {
                        assert(ids_of(before)[k] == listing[k].id);
                    }
                }
            },
        }
        let ghost ids = ids_of(entries@);
        std::mem::swap(&mut self.entries, &mut entries);
        proof {
            self.lemma_consistent();
            let wanted = old(self).plugins().insert(id, plugin);
            assert forall|key: Seq<char>| self.plugins().dom().contains(key) implies wanted.dom().contains(
                key,
            ) by {
                let k = ids.index_of(key);
                assert(ids_of(before)[k] == key || key == id);
            }
            assert forall|key: Seq<char>| wanted.dom().contains(key) implies self.plugins().dom().contains(
                key,
            ) by {
                if key == id {
                    assert(ids[if found is Some { found->0 as int } else { ids.len() - 1 }] == id);
                } else {
                    assert(ids[ids_of(before).index_of(key)] == key);
                }
            }
            assert forall|key: Seq<char>| self.plugins().dom().contains(key) implies self.plugins()[key]
                == wanted[key] by {
                let k = ids.index_of(key);
                if key != id {
                    assert(ids_of(before)[k] == key);
                }
            }
        }
    }

    /// The plugin registered under `plugin_id`, if there is one.
    pub fn plugin(&self, plugin_id: &str) -> (found: Option<&P>)
        ensures
            match found {
                Some(plugin) => self.plugins().dom().contains(plugin_id@) && *plugin
                    == self.plugins()[plugin_id@],
                None => !self.plugins().dom().contains(plugin_id@),
            },
    {
        proof {
            use_type_invariant(self);
        }
        match self.position(plugin_id) {
            Some(i) => {
                assert(ids_of(self.entries@)[ids_of(self.entries@).index_of(plugin_id@)] == plugin_id@);
                Some(&self.entries[i].plugin)
            },
            None => None,
        }
    }

    /// The cached descriptors of all registered plugins, each identifier once.
    pub fn all_metadata(&self) -> (all: Vec<PluginMetadata>)
        ensures
            all@.map_values(|m: PluginMetadata| m@) == self.listing(),
            distinct_ids(self.listing()),
            forall|id: Seq<char>| self.plugins().dom().contains(id) <==> lists_id(self.listing(), id),
    {
        proof {
            use_type_invariant(self);
            self.lemma_consistent();
        }
        let mut all: Vec<PluginMetadata> = Vec::new();
        let mut i: usize = 0;
        while i < self.entries.len()
            invariant
                i <= self.entries@.len(),
                all@.map_values(|m: PluginMetadata| m@) == self.listing().take(i as int),
            decreases self.entries@.len() - i,
        {
            let copy = self.entries[i].metadata.clone();
            all.push(copy);
            assert(self.listing().take(i + 1) =~= self.listing().take(i as int).push(copy@));
            i = i + 1;
        }
        all
    }
}

impl<P> Default for PluginManager<P> {
    /// A registry without plugins.
    fn default() -> (manager: Self)
        ensures
            manager.listing() == Seq::<PluginMetadataView>::empty(),
            manager.plugins() == Map::<Seq<char>, P>::empty(),
    {
        PluginManager::new()
    }
}

impl<P: ServerPlugin> PluginManager<P> {
    /// Registers `plugin` under the identifier that its own descriptor
    /// declares; see [`PluginManager::insert`].
    pub fn register(&mut self, plugin: P)
        ensures
            exists|metadata: PluginMetadata|
                P::metadata.ensures((&plugin,), metadata) && #[trigger] registers(
                    old(self).plugins(),
                    old(self).listing(),
                    metadata@,
                    plugin,
                    final(self).plugins(),
                    final(self).listing(),
                ),
            distinct_ids(final(self).listing()),
    {
        let metadata = plugin.metadata();
        let ghost declared = metadata;
        self.insert(metadata, plugin);
        assert(registers(
            old(self).plugins(),
            old(self).listing(),
            declared@,
            plugin,
            self.plugins(),
            self.listing(),
        ));
    }
}

/// Whether a registry goes from one state to the other by registering
/// `plugin` under `metadata`.
pub open spec fn registers<P>(
    plugins: Map<Seq<char>, P>,
    listing: Seq<PluginMetadataView>,
    metadata: PluginMetadataView,
    plugin: P,
    plugins_after: Map<Seq<char>, P>,
    listing_after: Seq<PluginMetadataView>,
) -> bool {
    &&& plugins_after == plugins.insert(metadata.id, plugin)
    &&& listing_after == listing_after_register(listing, metadata)
}

/// Registering under an identifier that is not listed yet makes the listing
/// longer by exactly one, and the new descriptor, with that identifier, is
/// its last entry; everything listed before is still there.
pub proof fn lemma_register_new(listing: Seq<PluginMetadataView>, metadata: PluginMetadataView)
    requires
        !lists_id(listing, metadata.id),
    ensures
        listing_after_register(listing, metadata).len() == listing.len() + 1,
        listing_after_register(listing, metadata).last() == metadata,
        listing_after_register(listing, metadata).drop_last() == listing,
        lists_id(listing_after_register(listing, metadata), metadata.id),
{
}

/// Registering under an identifier that is listed already replaces that one
/// descriptor and leaves the length of the listing as it was.
pub proof fn lemma_register_again(listing: Seq<PluginMetadataView>, metadata: PluginMetadataView)
    requires
        lists_id(listing, metadata.id),
        distinct_ids(listing),
    ensures
        listing_after_register(listing, metadata).len() == listing.len(),
        lists_id(listing_after_register(listing, metadata), metadata.id),
        distinct_ids(listing_after_register(listing, metadata)),
        forall|i: int|
            0 <= i < listing.len() && (#[trigger] listing[i]).id != metadata.id
                ==> listing_after_register(listing, metadata)[i] == listing[i],
{
    let after = listing_after_register(listing, metadata);
    let at = choose|i: int| 0 <= i < listing.len() && (#[trigger] listing[i]).id == metadata.id;
    assert(after[at].id == metadata.id);
}

/// A registry that is shared among callers. Once shared it only answers: it
/// offers no way to register.
pub struct SharedPluginManager<P> {
    inner: Arc<PluginManager<P>>,
}

impl<P> Clone for SharedPluginManager<P> {
    /// Another handle to the same registry.
    fn clone(&self) -> (copy: Self)
        ensures
            copy.listing() == self.listing(),
            copy.plugins() == self.plugins(),
    {
        SharedPluginManager { inner: clone_arc(&self.inner) }
    }
}

impl<P> SharedPluginManager<P> {
    /// The cached descriptors of the shared registry.
    pub closed spec fn listing(&self) -> Seq<PluginMetadataView> {
        self.inner.listing()
    }

    /// The plugins of the shared registry by identifier.
    pub closed spec fn plugins(&self) -> Map<Seq<char>, P> {
        self.inner.plugins()
    }

    /// Shares `manager` as it stands.
    pub fn new(manager: PluginManager<P>) -> (shared: Self)
        ensures
            shared.listing() == manager.listing(),
            shared.plugins() == manager.plugins(),
    {
        SharedPluginManager { inner: Arc::new(manager) }
    }

    /// The cached descriptors of all registered plugins, each identifier once.
    pub fn list_metadata(&self) -> (all: Vec<PluginMetadata>)
        ensures
            all@.map_values(|m: PluginMetadata| m@) == self.listing(),
            distinct_ids(self.listing()),
            forall|id: Seq<char>| self.plugins().dom().contains(id) <==> lists_id(self.listing(), id),
    {
        self.inner.all_metadata()
    }

    /// The plugin registered under `plugin_id`, if there is one.
    pub fn plugin(&self, plugin_id: &str) -> (found: Option<&P>)
        ensures
            match found {
                Some(plugin) => self.plugins().dom().contains(plugin_id@) && *plugin
                    == self.plugins()[plugin_id@],
                None => !self.plugins().dom().contains(plugin_id@),
            },
    {
        self.inner.plugin(plugin_id)
    }
}

} // verus!
