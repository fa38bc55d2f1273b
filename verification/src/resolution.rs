//! The mathematical model of the resolution algorithm.
//!
//! [`resolve_model`] says, for a frozen provider map, a shared-instance
//! cache, the per-provider factory invocation counts, a requested identity
//! and the chain of identities currently under construction, exactly which
//! outcome a resolution has and how it changes the cache and the counts.
//! The executable engine in [`crate::injector`] is proved to follow this
//! model step by step, and the container's laws are proved about it.

use vstd::prelude::*;

use vstd::set_lib::lemma_len_subset;
use vstd::wrapping::u64_specs;

use crate::error::ErrorKind;
use crate::error::ErrorModel;
use crate::error::msg_circular_dependency;
use crate::error::msg_factory_execution_failed;
use crate::error::msg_service_not_provided;
use crate::error::msg_type_mismatch;
use crate::identity::IdentityModel;
use crate::identity::Scope;
use crate::provider::EntryModel;
use crate::provider::Instance;
use crate::provider::RuleModel;

verus! {

/// The result of one (possibly nested) resolution step: the outcome handed
/// to the caller, and the shared cache and invocation counts afterwards.
/// The provider map never changes during resolution.
pub ghost struct Resolution {
    pub outcome: Result<Instance, ErrorModel>,
    pub cache: Map<u64, Instance>,
    pub counts: Map<u64, u64>,
}

/// The number of times the factory of `id` has run: counts start at zero
/// for providers that never ran.
pub open spec fn count_of(counts: Map<u64, u64>, id: u64) -> u64 {
    if counts.contains_key(id) {
        counts[id]
    } else {
        0
    }
}

/// One more factory invocation (wrapping at the machine limit).
pub open spec fn bump(c: u64) -> u64 {
    u64_specs::wrapping_add(c, 1)
}

/// The diagnostic names of the identities on the chain, in discovery order.
pub open spec fn chain_names(providers: Map<u64, EntryModel>, chain: Seq<u64>) -> Seq<Seq<char>> {
    chain.map_values(|id: u64| providers[id].identity.name)
}

/// A valid in-progress chain: no identity is under construction twice, and
/// every identity on the chain has a provider (it was looked up before it
/// was pushed).
pub open spec fn chain_ok(providers: Map<u64, EntryModel>, chain: Seq<u64>) -> bool {
    &&& chain.no_duplicates()
    &&& forall|i: int| 0 <= i < chain.len() ==> providers.contains_key(#[trigger] chain[i])
}

/// A valid chain cannot be longer than the provider map itself, since its
/// members are distinct registered identities.
pub proof fn lemma_chain_len_bound(providers: Map<u64, EntryModel>, chain: Seq<u64>)
    requires
        providers.dom().finite(),
        chain_ok(providers, chain),
    ensures
        chain.len() <= providers.dom().len(),
{
    chain.unique_seq_to_set();
    assert forall|x: u64| chain.to_set().contains(x) implies providers.dom().contains(x) by {
        let i = choose|i: int| 0 <= i < chain.len() && chain[i] == x;
        assert(providers.contains_key(chain[i]));
    }
    lemma_len_subset(chain.to_set(), providers.dom());
}

/// Pushing an identity that is registered but not yet under construction
/// keeps a chain valid.
pub proof fn lemma_chain_push_ok(providers: Map<u64, EntryModel>, chain: Seq<u64>, id: u64)
    requires
        chain_ok(providers, chain),
        !chain.contains(id),
        providers.contains_key(id),
    ensures
        chain_ok(providers, chain.push(id)),
{
    let chain1 = chain.push(id);
    assert forall|i: int, j: int|
        0 <= i < chain1.len() && 0 <= j < chain1.len() && i != j implies chain1[i] != chain1[j] by {
        if i < chain.len() && j < chain.len() {
            assert(chain[i] == chain1[i] && chain[j] == chain1[j]);
        } else if i < chain.len() {
            assert(chain.contains(chain[i]));
        } else {
            assert(chain.contains(chain[j]));
        }
    }
}

#[via_fn]
proof fn resolve_model_decreases(
    providers: Map<u64, EntryModel>,
    cache: Map<u64, Instance>,
    counts: Map<u64, u64>,
    ident: IdentityModel,
    chain: Seq<u64>,
) {
    if providers.dom().finite() && chain_ok(providers, chain) && !chain.contains(ident.id)
        && providers.contains_key(ident.id) {
        lemma_chain_push_ok(providers, chain, ident.id);
        lemma_chain_len_bound(providers, chain.push(ident.id));
    }
}

/// The resolution algorithm, as a function of the container state.
///
/// 1. An identity that is already on the chain fails with a circular
///    dependency, reporting the chain (with the repeated identity) in
///    discovery order.
/// 2. An identity with no provider fails with `ServiceNotProvided`.
/// 3. A shared identity whose instance is cached returns it directly: no
///    factory invocation, no chain push, no state change.
/// 4. Otherwise the identity is pushed onto the chain, its invocation count
///    is bumped, and its factory rule runs; nested resolutions inherit the
///    extended chain, and a nested failure propagates unchanged (it is
///    never wrapped a second time).
/// 5. A factory-internal fault is wrapped as `FactoryExecutionFailed`.
/// 6. A constructed instance whose declared type differs from the requested
///    identity is rejected with `TypeMismatch`.
/// 7. A shared identity's successfully constructed instance is cached
///    before it is returned.
pub open spec fn resolve_model(
    providers: Map<u64, EntryModel>,
    cache: Map<u64, Instance>,
    counts: Map<u64, u64>,
    ident: IdentityModel,
    chain: Seq<u64>,
) -> Resolution
    decreases providers.dom().len() - chain.len()
        when providers.dom().finite() && chain_ok(providers, chain)
        via resolve_model_decreases
{
    if chain.contains(ident.id) {
        Resolution {
            outcome: Err(
                ErrorModel {
                    kind: ErrorKind::CircularDependency,
                    message: msg_circular_dependency(
                        chain_names(providers, chain).push(ident.name),
                    ),
                },
            ),
            cache,
            counts,
        }
    } else if !providers.contains_key(ident.id) {
        Resolution {
            outcome: Err(
                ErrorModel {
                    kind: ErrorKind::ServiceNotProvided,
                    message: msg_service_not_provided(ident.name),
                },
            ),
            cache,
            counts,
        }
    } else {
        let entry = providers[ident.id];
        if entry.scope == Scope::Shared && cache.contains_key(ident.id) {
            Resolution { outcome: Ok(cache[ident.id]), cache, counts }
        } else {
            let counts1 = counts.insert(ident.id, bump(count_of(counts, ident.id)));
            let chain1 = chain.push(ident.id);
            let built = match entry.rule {
                RuleModel::Value(v) => Resolution {
                    outcome: Ok(Instance { type_id: ident.id, value: v }),
                    cache,
                    counts: counts1,
                },
                RuleModel::Counter => Resolution {
                    outcome: Ok(
                        Instance { type_id: ident.id, value: bump(count_of(counts, ident.id)) },
                    ),
                    cache,
                    counts: counts1,
                },
                RuleModel::Derived { dep, offset } => {
                    let sub = resolve_model(providers, cache, counts1, dep, chain1);
                    match sub.outcome {
                        Ok(di) => Resolution {
                            outcome: Ok(
                                Instance {
                                    type_id: ident.id,
                                    value: u64_specs::wrapping_add(di.value, offset),
                                },
                            ),
                            cache: sub.cache,
                            counts: sub.counts,
                        },
                        Err(_) => sub,
                    }
                },
                RuleModel::Alias { dep } => resolve_model(providers, cache, counts1, dep, chain1),
                RuleModel::Fail { reason } => Resolution {
                    outcome: Err(
                        ErrorModel {
                            kind: ErrorKind::FactoryExecutionFailed,
                            message: msg_factory_execution_failed(ident.name, reason),
                        },
                    ),
                    cache,
                    counts: counts1,
                },
            };
            match built.outcome {
                Err(_) => built,
                Ok(inst) => if inst.type_id != ident.id {
                    Resolution {
                        outcome: Err(
                            ErrorModel {
                                kind: ErrorKind::TypeMismatch,
                                message: msg_type_mismatch(ident.name),
                            },
                        ),
                        cache: built.cache,
                        counts: built.counts,
                    }
                } else if entry.scope == Scope::Shared {
                    Resolution {
                        outcome: Ok(inst),
                        cache: built.cache.insert(ident.id, inst),
                        counts: built.counts,
                    }
                } else {
                    built
                },
            }
        }
    }
}

} // verus!
