//! The injector: the frozen registry, the shared-instance cache, and the
//! resolution engine.
//!
//! An injector is produced by composing modules ([`Injector::build`]);
//! after that its registry never changes, and resolution only populates the
//! shared cache and the factory invocation counts. Every operation is
//! proved to follow the mathematical models in [`crate::resolution`] and
//! [`crate::modules`].
//!
//! Resolution takes the injector by exclusive reference, so one execution
//! context uses it at a time; the at-most-one-factory-run guarantee for
//! shared providers is stated and proved for every sequence of resolutions
//! in [`crate::laws`].

use vstd::prelude::*;

use std::collections::HashMap;
use std::rc::Rc;

use vstd::pervasive::unreached;

use crate::error::Error;
use crate::error::ErrorKind;
use crate::error::ErrorModel;
use crate::identity::Scope;
use crate::identity::TypeIdentity;
use crate::modules::Module;
use crate::modules::ModuleModel;
use crate::modules::assemble;
use crate::modules::distinct_entry_ids;
use crate::modules::flatten_modules;
use crate::modules::lemma_assembly_rejects_duplicates;
use crate::provider::EntryModel;
use crate::provider::FactoryRule;
use crate::provider::Instance;
use crate::provider::clone_handle;
use crate::registry::Registry;
use crate::resolution::bump;
use crate::resolution::chain_names;
use crate::resolution::chain_ok;
use crate::resolution::count_of;
use crate::resolution::lemma_chain_len_bound;
use crate::resolution::lemma_chain_push_ok;
use crate::resolution::resolve_model;

verus! {

broadcast use vstd::std_specs::hash::group_hash_axioms;

/// The invocation count recorded for `id`, zero if none was recorded yet.
fn count_get(counts: &HashMap<u64, u64>, id: u64) -> (r: u64)
    ensures
        r == count_of(counts@, id),
{
    match counts.get(&id) {
        Some(c) => *c,
        None => 0,
    }
}

/// Whether `id` is on the in-progress chain.
fn chain_contains(chain: &Vec<u64>, id: u64) -> (r: bool)
    ensures
        r == chain@.contains(id),
{
    let mut i: usize = 0;
    while i < chain.len()
        invariant
            i <= chain@.len(),
            forall|j: int| 0 <= j < i ==> chain@[j] != id,
        decreases chain@.len() - i,
    {
        if chain[i] == id {
            return true;
        }
        i = i + 1;
    }
    false
}

/// The frozen, queryable container produced by composing modules: the
/// runtime resolution entry point. It owns the provider registry (read-only
/// after assembly), the shared-instance cache and the factory invocation
/// counts; the cache and the counts are the only state that resolution may
/// change.
pub struct Injector {
    registry: Registry,
    cache: HashMap<u64, Rc<Instance>>,
    counts: HashMap<u64, u64>,
}

impl Injector {
    /// The frozen provider map.
    pub closed spec fn providers(&self) -> Map<u64, EntryModel> {
        self.registry@
    }

    /// The shared-instance cache, as a map from identity to instance.
    pub closed spec fn cache_model(&self) -> Map<u64, Instance> {
        self.cache@.map_values(|h: Rc<Instance>| *h)
    }

    /// How often each provider's factory has run.
    pub closed spec fn counts_model(&self) -> Map<u64, u64> {
        self.counts@
    }

    /// Well-formedness: the registry keys every entry by its own identity,
    /// and every cached instance carries the identity it is cached under.
    pub closed spec fn wf(&self) -> bool {
        &&& self.registry.wf()
        &&& forall|k: u64|
            self.cache_model().contains_key(k) ==> (#[trigger] self.cache_model()[k]).type_id == k
    }

    /// The provider map of a well-formed injector is finite and keys every
    /// entry by its own identity.
    pub proof fn lemma_wf_providers(&self)
        requires
            self.wf(),
        ensures
            self.providers().dom().finite(),
            forall|k: u64|
                self.providers().contains_key(k) ==> (#[trigger] self.providers()[k]).identity.id
                    == k,
    {
        self.registry.lemma_wf_view();
        self.registry.lemma_finite_dom();
    }

    /// Composes the modules, in order, into one frozen injector.
    ///
    /// Each module's entries register in sequence; an entry for an identity
    /// that an earlier entry already bound fails the whole assembly with
    /// `ProviderAlreadyRegistered`, naming the identity and the scope of
    /// the existing registration. No injector is produced in that case. On
    /// success the injector starts with an empty shared cache and all
    /// invocation counts at zero.
    #[verifier::rlimit(60)]
    #[verifier::loop_isolation(false)]
    pub fn build(modules: Vec<Module>) -> (r: Result<Injector, Error>)
        ensures
            ({
                let all = flatten_modules(modules@.map_values(|m: Module| m@));
                match r {
                    Ok(inj) => {
                        &&& inj.wf()
                        &&& assemble(Map::empty(), all) == Ok::<Map<u64, EntryModel>, ErrorModel>(
                            inj.providers(),
                        )
                        &&& inj.cache_model() == Map::<u64, Instance>::empty()
                        &&& inj.counts_model() == Map::<u64, u64>::empty()
                    },
                    Err(e) => assemble(Map::empty(), all) == Err::<
                        Map<u64, EntryModel>,
                        ErrorModel,
                    >(e@) && e@.kind == ErrorKind::ProviderAlreadyRegistered,
                }
            }),
            r is Ok <==> distinct_entry_ids(flatten_modules(modules@.map_values(|m: Module| m@))),
    {
        let ghost mods: Seq<ModuleModel> = modules@.map_values(|m: Module| m@);
        let ghost all = flatten_modules(mods);
        let mut registry = Registry::new();
        let mut i: usize = 0;
        proof {
            assert(mods.skip(0) =~= mods);
        }
        while i < modules.len()
            invariant
                i <= modules.len(),
                mods == modules@.map_values(|m: Module| m@),
                mods.len() == modules.len(),
                registry.wf(),
                assemble(Map::empty(), all) == assemble(registry@, flatten_modules(mods.skip(i as int))),
            decreases modules.len() - i,
        {
            let ghost rest_mods = flatten_modules(mods.skip(i as int + 1));
            proof {
                let s = mods.skip(i as int);
                assert(s[0] == mods[i as int]);
                assert(s.drop_first() =~= mods.skip(i as int + 1));
                assert(flatten_modules(s) == mods[i as int].entries + rest_mods);
            }
            let module = &modules[i];
            let mut j: usize = 0;
            proof {
                assert(module@.entries.skip(0) =~= module@.entries);
            }
            while j < module.entries.len()
                invariant
                    j <= module.entries.len(),
                    mods == modules@.map_values(|m: Module| m@),
                    mods.len() == modules.len(),
                    i < modules.len(),
                    module == &modules@[i as int],
                    module@ == mods[i as int],
                    rest_mods == flatten_modules(mods.skip(i as int + 1)),
                    registry.wf(),
                    assemble(Map::empty(), all) == assemble(
                        registry@,
                        module@.entries.skip(j as int) + rest_mods,
                    ),
                decreases module.entries.len() - j,
            {
                let ghost remaining = module@.entries.skip(j as int) + rest_mods;
                proof {
                    assert(module@.entries.len() == module.entries@.len());
                    assert(remaining[0] == module@.entries[j as int]);
                    assert(remaining.drop_first() =~= module@.entries.skip(j as int + 1)
                        + rest_mods);
                }
                let entry = module.entries[j].clone();
                proof {
                    assert(entry@ == module@.entries[j as int]);
                }
                match registry.register(entry) {
                    Ok(()) => {},
                    Err(e) => {
                        proof {
                            assert(assemble(registry@, remaining) == Err::<
                                Map<u64, EntryModel>,
                                ErrorModel,
                            >(e@));
                            lemma_assembly_rejects_duplicates(Map::empty(), all);
                        }
                        return Err(e);
                    },
                }
                j = j + 1;
            }
            proof {
                assert(module@.entries.skip(module@.entries.len() as int) =~= Seq::<
                    EntryModel,
                >::empty());
                assert(Seq::<EntryModel>::empty() + rest_mods =~= rest_mods);
            }
            i = i + 1;
        }
        proof {
            assert(mods.skip(mods.len() as int) =~= Seq::<ModuleModel>::empty());
        }
        let inj = Injector { registry, cache: HashMap::new(), counts: HashMap::new() };
        proof {
            assert(inj.cache_model() =~= Map::<u64, Instance>::empty());
            lemma_assembly_rejects_duplicates(Map::empty(), all);
        }
        Ok(inj)
    }

    /// One resolution step: `chain` is the in-progress chain of the
    /// enclosing resolution, inherited by the nested resolutions a factory
    /// triggers. Follows [`resolve_model`] exactly.
    #[verifier::rlimit(100)]
    #[verifier::loop_isolation(false)]
    fn resolve_inner(&mut self, identity: &TypeIdentity, chain: &mut Vec<u64>) -> (r: Result<
        Rc<Instance>,
        Error,
    >)
        requires
            old(self).wf(),
            chain_ok(old(self).providers(), old(chain)@),
        ensures
            final(self).wf(),
            final(self).providers() == old(self).providers(),
            final(chain)@ == old(chain)@,
            ({
                let m = resolve_model(
                    old(self).providers(),
                    old(self).cache_model(),
                    old(self).counts_model(),
                    identity@,
                    old(chain)@,
                );
                &&& final(self).cache_model() == m.cache
                &&& final(self).counts_model() == m.counts
                &&& (match r {
                    Ok(h) => m.outcome is Ok && *h == m.outcome->Ok_0,
                    Err(e) => m.outcome is Err && e@ == m.outcome->Err_0,
                })
            }),
        decreases old(self).providers().dom().len() - old(chain)@.len(),
    {
        let ghost reg = self.providers();
        let ghost cache0 = self.cache_model();
        let ghost counts0 = self.counts_model();
        let ghost chain0 = chain@;
        proof {
            self.lemma_wf_providers();
        }
        let id = identity.id;

        if chain_contains(chain, id) {
            let mut names: Vec<String> = Vec::new();
            let mut k: usize = 0;
            while k < chain.len()
                invariant
                    k <= chain@.len(),
                    names@.len() == k,
                    forall|t: int|
                        0 <= t < k ==> (#[trigger] names@[t])@ == reg[chain0[t]].identity.name,
                decreases chain@.len() - k,
            {
                let cid = chain[k];
                names.push(self.registry.provider_name(cid).clone());
                k = k + 1;
            }
            names.push(identity.name.clone());
            proof {
                assert(names.deep_view() =~= chain_names(reg, chain0).push(identity@.name));
            }
            return Err(Error::circular_dependency(&names));
        }

        let (scope, rule) = match self.registry.lookup(id) {
            None => {
                return Err(Error::service_not_provided(identity.name.as_str()));
            },
            Some(e) => (e.scope, e.rule.clone()),
        };
        proof {
            assert(reg.contains_key(id) && scope == reg[id].scope && rule@ == reg[id].rule);
        }

        if scope == Scope::Shared {
            if let Some(h) = self.cache.get(&id) {
                proof {
                    assert(cache0.contains_key(id) && cache0[id] == **h);
                }
                return Ok(clone_handle(h));
            }
            proof {
                assert(!cache0.contains_key(id));
            }
        }

        // Invoke the factory: record the invocation and push the identity
        // onto the chain so that nested resolutions see it in progress.
        let c = count_get(&self.counts, id);
        let newc = c.wrapping_add(1);
        self.counts.insert(id, newc);
        chain.push(id);
        let ghost counts1 = counts0.insert(id, bump(count_of(counts0, id)));
        let ghost chain1 = chain0.push(id);
        proof {
            assert(self.counts_model() == counts1);
            assert(self.wf());
            lemma_chain_push_ok(reg, chain0, id);
            lemma_chain_len_bound(reg, chain1);
        }
        let built: Result<Instance, Error> = match rule {
            FactoryRule::Value(v) => Ok(Instance { type_id: id, value: v }),
            FactoryRule::Counter => Ok(Instance { type_id: id, value: newc }),
            FactoryRule::Derived { dep, offset } => {
                match self.resolve_inner(&dep, chain) {
                    Ok(h) => Ok(
                        Instance { type_id: id, value: (*h).value.wrapping_add(offset) },
                    ),
                    Err(e) => Err(e),
                }
            },
            FactoryRule::Alias { dep } => {
                match self.resolve_inner(&dep, chain) {
                    Ok(h) => Ok(*h),
                    Err(e) => Err(e),
                }
            },
            FactoryRule::Fail { reason } => Err(
                Error::factory_execution_failed(identity.name.as_str(), reason.as_str()),
            ),
        };
        let _popped = chain.pop();
        proof {
            assert(chain@ =~= chain0);
        }

        match built {
            Err(e) => Err(e),
            Ok(inst) => {
                if inst.type_id != id {
                    Err(Error::type_mismatch(identity.name.as_str()))
                } else {
                    let h = Rc::new(inst);
                    if scope == Scope::Shared {
                        let ghost cache_before = self.cache_model();
                        let h2 = clone_handle(&h);
                        self.cache.insert(id, h2);
                        proof {
                            assert(self.cache_model() =~= cache_before.insert(id, inst));
                            assert(self.wf());
                        }
                    }
                    Ok(h)
                }
            },
        }
    }

    /// Resolves an instance for `identity`, or reports a typed resolution
    /// error.
    ///
    /// The outcome and the way the shared cache and the invocation counts
    /// change are exactly those of [`resolve_model`] started with an empty
    /// chain; in particular an identity with no registered provider always
    /// yields `ServiceNotProvided` naming that identity, and leaves the
    /// injector unchanged.
    pub fn try_resolve(&mut self, identity: &TypeIdentity) -> (r: Result<Rc<Instance>, Error>)
        requires
            old(self).wf(),
        ensures
            final(self).wf(),
            final(self).providers() == old(self).providers(),
            ({
                let m = resolve_model(
                    old(self).providers(),
                    old(self).cache_model(),
                    old(self).counts_model(),
                    identity@,
                    Seq::empty(),
                );
                &&& final(self).cache_model() == m.cache
                &&& final(self).counts_model() == m.counts
                &&& (match r {
                    Ok(h) => m.outcome is Ok && *h == m.outcome->Ok_0,
                    Err(e) => m.outcome is Err && e@ == m.outcome->Err_0,
                })
            }),
            !old(self).providers().contains_key(identity@.id) ==> (r matches Err(e) && e@.kind
                == ErrorKind::ServiceNotProvided && final(self).cache_model() == old(
                self,
            ).cache_model() && final(self).counts_model() == old(self).counts_model()),
    {
        let mut chain: Vec<u64> = Vec::new();
        proof {
            assert(chain_ok(self.providers(), chain@));
        }
        let r = self.resolve_inner(identity, &mut chain);
        proof {
            self.lemma_wf_providers();
            assert(!Seq::<u64>::empty().contains(identity@.id));
        }
        r
    }

    /// Resolves an instance for `identity`, aborting on failure.
    ///
    /// A deliberate fail-fast shortcut for call sites that choose not to
    /// handle resolution errors explicitly: callers must know that the
    /// resolution succeeds, and an unverified caller that breaks that
    /// obligation aborts the process rather than observing a wrong result.
    pub fn resolve(&mut self, identity: &TypeIdentity) -> (r: Rc<Instance>)
        requires
            old(self).wf(),
            resolve_model(
                old(self).providers(),
                old(self).cache_model(),
                old(self).counts_model(),
                identity@,
                Seq::empty(),
            ).outcome is Ok,
        ensures
            final(self).wf(),
            final(self).providers() == old(self).providers(),
            ({
                let m = resolve_model(
                    old(self).providers(),
                    old(self).cache_model(),
                    old(self).counts_model(),
                    identity@,
                    Seq::empty(),
                );
                &&& final(self).cache_model() == m.cache
                &&& final(self).counts_model() == m.counts
                &&& *r == m.outcome->Ok_0
            }),
    {
        match self.try_resolve(identity) {
            Ok(h) => h,
            Err(_) => unreached(),
        }
    }

    /// Whether a provider is registered for `id`.
    pub fn has_provider(&self, id: u64) -> (r: bool)
        ensures
            r == self.providers().contains_key(id),
    {
        self.registry.contains(id)
    }

    /// Whether the shared cache already holds an instance for `id`.
    pub fn is_cached(&self, id: u64) -> (r: bool)
        ensures
            r == self.cache_model().contains_key(id),
    {
        let r = self.cache.contains_key(&id);
        proof {
            assert(self.cache@.contains_key(id) == self.cache_model().contains_key(id));
        }
        r
    }

    /// How many times the factory of `id` has run.
    pub fn invocation_count(&self, id: u64) -> (r: u64)
        ensures
            r == count_of(self.counts_model(), id),
    {
        count_get(&self.counts, id)
    }
}

} // verus!
