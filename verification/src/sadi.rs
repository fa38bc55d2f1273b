//! A simple, flexible dependency injection container.
//!
//! Supports both transient and singleton service registration with a
//! builder-style API. Unlike the module-composed [`crate::injector::Injector`],
//! registrations here may not depend on one another: a registered recipe
//! produces its instance from the container's own state alone, so
//! resolution never recurses and never forms a chain.

use vstd::prelude::*;

use std::collections::HashMap;
use std::rc::Rc;

use vstd::pervasive::unreached;

use crate::identity::TypeIdentity;
use crate::provider::Instance;
use crate::provider::clone_handle;
use crate::resolution::bump;
use crate::resolution::count_of;
use crate::sadi_error::ErrorKind;
use crate::sadi_error::SaDiError;
use crate::sadi_error::msg_factory_already_registered;
use crate::sadi_error::msg_service_not_registered;

verus! {

broadcast use vstd::std_specs::hash::group_hash_axioms;

/// The construction recipe of a registered service: what its factory does
/// on each run.
#[derive(Clone, Copy, PartialEq, Eq, Structural, Debug)]
pub enum Recipe {
    /// Produce an instance with this fixed payload.
    Fixed(u64),
    /// Produce the ordinal of this run: 1 on the first run, 2 on the
    /// second, and so on — an observable side effect of each factory run.
    Sequential,
}

/// Mathematical view of a registration.
pub ghost struct RegistrationModel {
    pub name: Seq<char>,
    pub recipe: Recipe,
}

/// One registered service: its diagnostic name and its recipe.
struct Registration {
    name: String,
    recipe: Recipe,
}

impl View for Registration {
    type V = RegistrationModel;

    closed spec fn view(&self) -> RegistrationModel {
        RegistrationModel { name: self.name@, recipe: self.recipe }
    }
}

/// The payload a recipe produces when it runs, given how often the factory
/// has run before.
pub open spec fn recipe_output(recipe: Recipe, runs_before: u64) -> u64 {
    match recipe {
        Recipe::Fixed(v) => v,
        Recipe::Sequential => bump(runs_before),
    }
}

/// A simple dependency injection container with transient and singleton
/// service registration. Transient services are constructed afresh on
/// every `get`; singleton services are constructed once and the cached
/// instance is reused.
pub struct SaDi {
    /// Factories for transient services (new instance each time).
    factories: HashMap<u64, Registration>,
    /// Factories for singleton services (cached instances).
    singletons: HashMap<u64, Registration>,
    /// Cache for singleton instances.
    singleton_cache: HashMap<u64, Rc<Instance>>,
    /// How often each transient factory has run.
    factory_runs: HashMap<u64, u64>,
    /// How often each singleton factory has run.
    singleton_runs: HashMap<u64, u64>,
}

impl SaDi {
    /// The registered transient factories.
    pub closed spec fn transients(&self) -> Map<u64, RegistrationModel> {
        self.factories@.map_values(|e: Registration| e@)
    }

    /// The registered singleton factories.
    pub closed spec fn singletons_model(&self) -> Map<u64, RegistrationModel> {
        self.singletons@.map_values(|e: Registration| e@)
    }

    /// The cached singleton instances.
    pub closed spec fn cache_model(&self) -> Map<u64, Instance> {
        self.singleton_cache@.map_values(|h: Rc<Instance>| *h)
    }

    /// How often each transient factory has run.
    pub closed spec fn factory_runs_model(&self) -> Map<u64, u64> {
        self.factory_runs@
    }

    /// How often each singleton factory has run.
    pub closed spec fn singleton_runs_model(&self) -> Map<u64, u64> {
        self.singleton_runs@
    }

    /// Every cached instance carries the identity it is cached under: a
    /// cached type mismatch cannot arise.
    pub closed spec fn wf(&self) -> bool {
        forall|k: u64|
            self.cache_model().contains_key(k) ==> (#[trigger] self.cache_model()[k]).type_id == k
    }

    /// Create a new DI container.
    pub fn new() -> (r: SaDi)
        ensures
            r.wf(),
            r.transients() == Map::<u64, RegistrationModel>::empty(),
            r.singletons_model() == Map::<u64, RegistrationModel>::empty(),
            r.cache_model() == Map::<u64, Instance>::empty(),
            r.factory_runs_model() == Map::<u64, u64>::empty(),
            r.singleton_runs_model() == Map::<u64, u64>::empty(),
    {
        let r = SaDi {
            factories: HashMap::new(),
            singletons: HashMap::new(),
            singleton_cache: HashMap::new(),
            factory_runs: HashMap::new(),
            singleton_runs: HashMap::new(),
        };
        proof {
            assert(r.transients() =~= Map::<u64, RegistrationModel>::empty());
            assert(r.singletons_model() =~= Map::<u64, RegistrationModel>::empty());
            assert(r.cache_model() =~= Map::<u64, Instance>::empty());
        }
        r
    }

    /// Register a transient factory.
    ///
    /// Creates a new instance every time `get` is called. Registering an
    /// identity that already has a transient factory is a caller error.
    pub fn factory(self, identity: TypeIdentity, recipe: Recipe) -> (r: SaDi)
        requires
            self.wf(),
            !self.transients().contains_key(identity@.id),
        ensures
            r.wf(),
            r.transients() == self.transients().insert(
                identity@.id,
                RegistrationModel { name: identity@.name, recipe },
            ),
            r.singletons_model() == self.singletons_model(),
            r.cache_model() == self.cache_model(),
            r.factory_runs_model() == self.factory_runs_model(),
            r.singleton_runs_model() == self.singleton_runs_model(),
    {
        match self.try_factory(identity, recipe) {
            Ok(c) => c,
            Err(_) => unreached(),
        }
    }

    /// Try to register a transient factory.
    ///
    /// Returns the container with the factory added, or a
    /// `FactoryAlreadyRegistered` error if the identity already has a
    /// transient factory.
    pub fn try_factory(self, identity: TypeIdentity, recipe: Recipe) -> (r: Result<
        SaDi,
        SaDiError,
    >)
        requires
            self.wf(),
        ensures
            match r {
                Ok(c) => {
                    &&& !self.transients().contains_key(identity@.id)
                    &&& c.wf()
                    &&& c.transients() == self.transients().insert(
                        identity@.id,
                        RegistrationModel { name: identity@.name, recipe },
                    )
                    &&& c.singletons_model() == self.singletons_model()
                    &&& c.cache_model() == self.cache_model()
                    &&& c.factory_runs_model() == self.factory_runs_model()
                    &&& c.singleton_runs_model() == self.singleton_runs_model()
                },
                Err(e) => {
                    &&& self.transients().contains_key(identity@.id)
                    &&& e@.kind == ErrorKind::FactoryAlreadyRegistered
                    &&& e@.message == msg_factory_already_registered(identity@.name, "transient"@)
                },
            },
    {
        let mut this = self;
        let id = identity.id;
        if this.factories.contains_key(&id) {
            return Err(SaDiError::factory_already_registered(identity.name.as_str(), "transient"));
        }
        let entry = Registration { name: identity.name, recipe };
        this.factories.insert(id, entry);
        proof {
            assert(self.transients().dom() =~= self.factories@.dom());
            assert(this.transients() =~= self.transients().insert(id, entry@));
            assert(this.cache_model() =~= self.cache_model());
            assert(this.singletons_model() =~= self.singletons_model());
        }
        Ok(this)
    }

    /// Get a transient instance.
    ///
    /// Returns a new instance every time. Requesting an identity with no
    /// transient factory is a caller error.
    pub fn get(&mut self, identity: &TypeIdentity) -> (r: Instance)
        requires
            old(self).wf(),
            old(self).transients().contains_key(identity@.id),
        ensures
            final(self).wf(),
            ({
                let runs = count_of(old(self).factory_runs_model(), identity@.id);
                let recipe = old(self).transients()[identity@.id].recipe;
                &&& r == (Instance { type_id: identity@.id, value: recipe_output(recipe, runs) })
                &&& final(self).factory_runs_model() == old(self).factory_runs_model().insert(
                    identity@.id,
                    bump(runs),
                )
            }),
            final(self).transients() == old(self).transients(),
            final(self).singletons_model() == old(self).singletons_model(),
            final(self).cache_model() == old(self).cache_model(),
            final(self).singleton_runs_model() == old(self).singleton_runs_model(),
    {
        match self.try_get(identity) {
            Ok(inst) => inst,
            Err(_) => unreached(),
        }
    }

    /// Try to get a transient instance.
    ///
    /// Returns a new instance if a transient factory is registered for the
    /// identity, or the error message of a `ServiceNotRegistered` fault.
    pub fn try_get(&mut self, identity: &TypeIdentity) -> (r: Result<Instance, String>)
        requires
            old(self).wf(),
        ensures
            final(self).wf(),
            final(self).transients() == old(self).transients(),
            final(self).singletons_model() == old(self).singletons_model(),
            final(self).cache_model() == old(self).cache_model(),
            final(self).singleton_runs_model() == old(self).singleton_runs_model(),
            match r {
                Ok(inst) => {
                    let runs = count_of(old(self).factory_runs_model(), identity@.id);
                    let recipe = old(self).transients()[identity@.id].recipe;
                    &&& old(self).transients().contains_key(identity@.id)
                    &&& inst == (Instance {
                        type_id: identity@.id,
                        value: recipe_output(recipe, runs),
                    })
                    &&& final(self).factory_runs_model() == old(
                        self,
                    ).factory_runs_model().insert(identity@.id, bump(runs))
                },
                Err(msg) => {
                    &&& !old(self).transients().contains_key(identity@.id)
                    &&& msg@ == msg_service_not_registered(identity@.name, "transient"@)
                    &&& final(self).factory_runs_model() == old(self).factory_runs_model()
                },
            },
    {
        let id = identity.id;
        let recipe = match self.factories.get(&id) {
            Some(entry) => entry.recipe,
            None => {
                let err = SaDiError::service_not_registered(identity.name.as_str(), "transient");
                return Err(err.message);
            },
        };
        let runs = match self.factory_runs.get(&id) {
            Some(c) => *c,
            None => 0,
        };
        let bumped = runs.wrapping_add(1);
        self.factory_runs.insert(id, bumped);
        let value = match recipe {
            Recipe::Fixed(v) => v,
            Recipe::Sequential => bumped,
        };
        proof {
            assert(self.cache_model() =~= old(self).cache_model());
            assert(self.transients() =~= old(self).transients());
            assert(self.singletons_model() =~= old(self).singletons_model());
        }
        Ok(Instance { type_id: id, value })
    }

    /// Register a singleton factory.
    ///
    /// Creates the instance once and caches it for subsequent calls.
    /// Registering an identity that already has a singleton factory is a
    /// caller error.
    pub fn factory_singleton(self, identity: TypeIdentity, recipe: Recipe) -> (r: SaDi)
        requires
            self.wf(),
            !self.singletons_model().contains_key(identity@.id),
        ensures
            r.wf(),
            r.singletons_model() == self.singletons_model().insert(
                identity@.id,
                RegistrationModel { name: identity@.name, recipe },
            ),
            r.transients() == self.transients(),
            r.cache_model() == self.cache_model(),
            r.factory_runs_model() == self.factory_runs_model(),
            r.singleton_runs_model() == self.singleton_runs_model(),
    {
        match self.try_factory_singleton(identity, recipe) {
            Ok(c) => c,
            Err(_) => unreached(),
        }
    }

    /// Try to register a singleton factory.
    ///
    /// Returns the container with the factory added, or a
    /// `FactoryAlreadyRegistered` error if the identity already has a
    /// singleton factory.
    pub fn try_factory_singleton(self, identity: TypeIdentity, recipe: Recipe) -> (r: Result<
        SaDi,
        SaDiError,
    >)
        requires
            self.wf(),
        ensures
            match r {
                Ok(c) => {
                    &&& !self.singletons_model().contains_key(identity@.id)
                    &&& c.wf()
                    &&& c.singletons_model() == self.singletons_model().insert(
                        identity@.id,
                        RegistrationModel { name: identity@.name, recipe },
                    )
                    &&& c.transients() == self.transients()
                    &&& c.cache_model() == self.cache_model()
                    &&& c.factory_runs_model() == self.factory_runs_model()
                    &&& c.singleton_runs_model() == self.singleton_runs_model()
                },
                Err(e) => {
                    &&& self.singletons_model().contains_key(identity@.id)
                    &&& e@.kind == ErrorKind::FactoryAlreadyRegistered
                    &&& e@.message == msg_factory_already_registered(identity@.name, "singleton"@)
                },
            },
    {
        let mut this = self;
        let id = identity.id;
        if this.singletons.contains_key(&id) {
            return Err(SaDiError::factory_already_registered(identity.name.as_str(), "singleton"));
        }
        let entry = Registration { name: identity.name, recipe };
        this.singletons.insert(id, entry);
        proof {
            assert(self.singletons_model().dom() =~= self.singletons@.dom());
            assert(this.singletons_model() =~= self.singletons_model().insert(id, entry@));
            assert(this.cache_model() =~= self.cache_model());
            assert(this.transients() =~= self.transients());
        }
        Ok(this)
    }

    /// Get a singleton instance.
    ///
    /// Returns the same cached instance every time. Requesting an identity
    /// that is neither cached nor registered is a caller error.
    pub fn get_singleton(&mut self, identity: &TypeIdentity) -> (r: Rc<Instance>)
        requires
            old(self).wf(),
            old(self).cache_model().contains_key(identity@.id) || old(
                self,
            ).singletons_model().contains_key(identity@.id),
        ensures
            final(self).wf(),
            final(self).transients() == old(self).transients(),
            final(self).singletons_model() == old(self).singletons_model(),
            final(self).factory_runs_model() == old(self).factory_runs_model(),
            ({
                let id = identity@.id;
                let cached = old(self).cache_model().contains_key(id);
                let runs = count_of(old(self).singleton_runs_model(), id);
                let recipe = old(self).singletons_model()[id].recipe;
                let fresh = Instance { type_id: id, value: recipe_output(recipe, runs) };
                if cached {
                    &&& *r == old(self).cache_model()[id]
                    &&& final(self).cache_model() == old(self).cache_model()
                    &&& final(self).singleton_runs_model() == old(self).singleton_runs_model()
                } else {
                    &&& *r == fresh
                    &&& final(self).cache_model() == old(self).cache_model().insert(id, fresh)
                    &&& final(self).singleton_runs_model() == old(
                        self,
                    ).singleton_runs_model().insert(id, bump(runs))
                }
            }),
    {
        match self.try_get_singleton(identity) {
            Ok(h) => h,
            Err(_) => unreached(),
        }
    }

    /// Try to get a singleton instance.
    ///
    /// Returns the cached instance if one exists; otherwise runs the
    /// registered singleton factory once, caches the result and returns
    /// it; otherwise reports the error message of a `ServiceNotRegistered`
    /// fault.
    pub fn try_get_singleton(&mut self, identity: &TypeIdentity) -> (r: Result<
        Rc<Instance>,
        String,
    >)
        requires
            old(self).wf(),
        ensures
            final(self).wf(),
            final(self).transients() == old(self).transients(),
            final(self).singletons_model() == old(self).singletons_model(),
            final(self).factory_runs_model() == old(self).factory_runs_model(),
            ({
                let id = identity@.id;
                let cached = old(self).cache_model().contains_key(id);
                let registered = old(self).singletons_model().contains_key(id);
                let runs = count_of(old(self).singleton_runs_model(), id);
                let recipe = old(self).singletons_model()[id].recipe;
                let fresh = Instance { type_id: id, value: recipe_output(recipe, runs) };
                match r {
                    Ok(h) => if cached {
                        &&& *h == old(self).cache_model()[id]
                        &&& final(self).cache_model() == old(self).cache_model()
                        &&& final(self).singleton_runs_model() == old(self).singleton_runs_model()
                    } else {
                        &&& registered
                        &&& *h == fresh
                        &&& final(self).cache_model() == old(self).cache_model().insert(id, fresh)
                        &&& final(self).singleton_runs_model() == old(
                            self,
                        ).singleton_runs_model().insert(id, bump(runs))
                    },
                    Err(msg) => {
                        &&& !cached && !registered
                        &&& msg@ == msg_service_not_registered(identity@.name, "singleton"@)
                        &&& final(self).cache_model() == old(self).cache_model()
                        &&& final(self).singleton_runs_model() == old(self).singleton_runs_model()
                    },
                }
            }),
    {
        let id = identity.id;

        // Check cache first.
        if let Some(h) = self.singleton_cache.get(&id) {
            proof {
                assert(self.cache_model().contains_key(id) && self.cache_model()[id] == **h);
            }
            return Ok(clone_handle(h));
        }

        // Create a new instance and cache it.
        let recipe = match self.singletons.get(&id) {
            Some(entry) => entry.recipe,
            None => {
                let err = SaDiError::service_not_registered(identity.name.as_str(), "singleton");
                return Err(err.message);
            },
        };
        let runs = match self.singleton_runs.get(&id) {
            Some(c) => *c,
            None => 0,
        };
        let bumped = runs.wrapping_add(1);
        self.singleton_runs.insert(id, bumped);
        let value = match recipe {
            Recipe::Fixed(v) => v,
            Recipe::Sequential => bumped,
        };
        let inst = Instance { type_id: id, value };
        let ghost cache_before = self.cache_model();
        let h = Rc::new(inst);
        let h2 = clone_handle(&h);
        self.singleton_cache.insert(id, h2);
        proof {
            assert(cache_before =~= old(self).cache_model());
            assert(self.cache_model() =~= cache_before.insert(id, inst));
            assert(self.transients() =~= old(self).transients());
            assert(self.singletons_model() =~= old(self).singletons_model());
            assert forall|k: u64| self.cache_model().contains_key(k) implies (
            #[trigger] self.cache_model()[k]).type_id == k by {
                if k != id {
                    assert(old(self).cache_model().contains_key(k));
                }
            }
        }
        Ok(h)
    }
}

} // verus!
