//! The provider registry: a mapping from type identity to registered
//! provider entry.
//!
//! The registry is built once during assembly and then frozen inside the
//! injector; registration rejects a second entry for an identity that is
//! already bound, it never merges or overrides.

use vstd::prelude::*;

use std::collections::HashMap;

use vstd::pervasive::unreached;

use crate::error::Error;
use crate::error::ErrorKind;
use crate::error::msg_provider_already_registered;
use crate::identity::scope_text;
use crate::provider::EntryModel;
use crate::provider::ProviderEntry;

verus! {

broadcast use vstd::std_specs::hash::group_hash_axioms;

/// The mapping from type identity to provider entry. At most one entry per
/// identity; every entry is stored under its own identity's id.
pub struct Registry {
    providers: HashMap<u64, ProviderEntry>,
}

impl View for Registry {
    type V = Map<u64, EntryModel>;

    closed spec fn view(&self) -> Map<u64, EntryModel> {
        self.providers@.map_values(|e: ProviderEntry| e@)
    }
}

impl Registry {
    /// Well-formedness: every entry is keyed by its own identity.
    pub closed spec fn wf(&self) -> bool {
        forall|k: u64|
            self.providers@.contains_key(k) ==> (#[trigger] self.providers@[k])@.identity.id == k
    }

    /// The registry's view keys every entry model by its own identity.
    pub proof fn lemma_wf_view(&self)
        requires
            self.wf(),
        ensures
            forall|k: u64| self@.contains_key(k) ==> (#[trigger] self@[k]).identity.id == k,
    {
    }

    /// The registry holds finitely many providers.
    pub proof fn lemma_finite_dom(&self)
        ensures
            self@.dom().finite(),
    {
        assert(self@.dom() =~= self.providers@.dom());
    }

    /// Creates an empty registry.
    pub fn new() -> (r: Registry)
        ensures
            r@ == Map::<u64, EntryModel>::empty(),
            r.wf(),
    {
        let r = Registry { providers: HashMap::new() };
        proof {
            assert(r@ =~= Map::<u64, EntryModel>::empty());
        }
        r
    }

    /// Whether a provider is registered for `id`.
    pub fn contains(&self, id: u64) -> (r: bool)
        ensures
            r == self@.contains_key(id),
    {
        self.providers.contains_key(&id)
    }

    /// The registered entry for `id`, if any.
    pub fn lookup(&self, id: u64) -> (r: Option<&ProviderEntry>)
        ensures
            match r {
                Some(e) => self@.contains_key(id) && e@ == self@[id],
                None => !self@.contains_key(id),
            },
    {
        self.providers.get(&id)
    }

    /// The diagnostic name of the provider registered for `id`.
    pub fn provider_name(&self, id: u64) -> (r: &String)
        requires
            self@.contains_key(id),
        ensures
            r@ == self@[id].identity.name,
    {
        match self.providers.get(&id) {
            Some(e) => &e.identity.name,
            None => unreached(),
        }
    }

    /// Registers a provider entry. Rejects a second registration for an
    /// identity that is already bound, naming the identity and the scope of
    /// the existing registration; the registry is left unchanged in that
    /// case.
    pub fn register(&mut self, entry: ProviderEntry) -> (r: Result<(), Error>)
        requires
            old(self).wf(),
        ensures
            final(self).wf(),
            match r {
                Ok(()) => {
                    &&& !old(self)@.contains_key(entry@.identity.id)
                    &&& final(self)@ == old(self)@.insert(entry@.identity.id, entry@)
                },
                Err(e) => {
                    &&& old(self)@.contains_key(entry@.identity.id)
                    &&& final(self)@ == old(self)@
                    &&& e@.kind == ErrorKind::ProviderAlreadyRegistered
                    &&& e@.message == msg_provider_already_registered(
                        entry@.identity.name,
                        scope_text(old(self)@[entry@.identity.id].scope),
                    )
                },
            },
    {
        let id = entry.identity.id;
        match self.providers.get(&id) {
            Some(existing) => {
                Err(Error::provider_already_registered(entry.identity.name.as_str(), existing.scope))
            },
            None => {
                self.providers.insert(id, entry);
                proof {
                    assert(self@ =~= old(self)@.insert(id, entry@));
                }
                Ok(())
            },
        }
    }
}

} // verus!
