//! Laws of the resolution engine, proved about [`resolve_model`].
//!
//! Together with the contracts of [`crate::injector::Injector`], which tie
//! the executable engine to the model, these laws carry over to every
//! sequence of calls on a well-formed injector.

use vstd::prelude::*;

use crate::error::ErrorKind;
use crate::error::msg_circular_dependency;
use crate::identity::IdentityModel;
use crate::identity::Scope;
use crate::provider::EntryModel;
use crate::provider::Instance;
use crate::provider::RuleModel;
use crate::resolution::count_of;
use crate::resolution::chain_names;
use crate::resolution::resolve_model;

verus! {

/// Law: once a shared identity has been resolved successfully, its instance
/// is in the cache, and every later resolution of it returns that identical
/// instance while changing nothing — no cache update and no further factory
/// run. Applied repeatedly, this says that any number of sequential
/// resolutions of a shared identity observe one single instance and exactly
/// one factory invocation.
pub proof fn lemma_shared_resolution_stable(
    providers: Map<u64, EntryModel>,
    cache: Map<u64, Instance>,
    counts: Map<u64, u64>,
    ident: IdentityModel,
)
    requires
        providers.dom().finite(),
        providers.contains_key(ident.id),
        providers[ident.id].scope == Scope::Shared,
        resolve_model(providers, cache, counts, ident, Seq::empty()).outcome is Ok,
    ensures
        ({
            let m1 = resolve_model(providers, cache, counts, ident, Seq::empty());
            let m2 = resolve_model(providers, m1.cache, m1.counts, ident, Seq::empty());
            &&& m1.cache.contains_key(ident.id)
            &&& Ok::<Instance, crate::error::ErrorModel>(m1.cache[ident.id]) == m1.outcome
            &&& m2.outcome == m1.outcome
            &&& m2.cache == m1.cache
            &&& m2.counts == m1.counts
        }),
{
    let empty = Seq::<u64>::empty();
    assert(!empty.contains(ident.id));
    let m1 = resolve_model(providers, cache, counts, ident, empty);
    let m2 = resolve_model(providers, m1.cache, m1.counts, ident, empty);
    assert(m1.cache.contains_key(ident.id) && m1.cache[ident.id] == m1.outcome->Ok_0);
    assert(m2.outcome == m1.outcome && m2.cache == m1.cache && m2.counts == m1.counts);
}

/// Law: a transient counter provider invokes its factory on every
/// resolution and its observable outputs are pairwise distinct: two
/// successive resolutions yield the two successive count values, and the
/// shared cache is never touched.
pub proof fn lemma_transient_counter_distinct(
    providers: Map<u64, EntryModel>,
    cache: Map<u64, Instance>,
    counts: Map<u64, u64>,
    ident: IdentityModel,
)
    requires
        providers.dom().finite(),
        providers.contains_key(ident.id),
        providers[ident.id].scope == Scope::Transient,
        providers[ident.id].rule == RuleModel::Counter,
        count_of(counts, ident.id) < u64::MAX - 1,
    ensures
        ({
            let m1 = resolve_model(providers, cache, counts, ident, Seq::empty());
            let m2 = resolve_model(providers, m1.cache, m1.counts, ident, Seq::empty());
            &&& m1.outcome is Ok && m2.outcome is Ok
            &&& m1.outcome->Ok_0.value == count_of(counts, ident.id) + 1
            &&& m2.outcome->Ok_0.value == count_of(counts, ident.id) + 2
            &&& m1.outcome->Ok_0.value != m2.outcome->Ok_0.value
            &&& count_of(m1.counts, ident.id) == count_of(counts, ident.id) + 1
            &&& count_of(m2.counts, ident.id) == count_of(counts, ident.id) + 2
            &&& m1.cache == cache && m2.cache == cache
        }),
{
    let empty = Seq::<u64>::empty();
    assert(!empty.contains(ident.id));
}

/// The identity a rule resolves through the injector, if any.
pub open spec fn rule_dependency(r: RuleModel) -> Option<IdentityModel> {
    match r {
        RuleModel::Derived { dep, .. } => Some(dep),
        RuleModel::Alias { dep } => Some(dep),
        _ => None,
    }
}

/// Law: a registration cycle between two identities is detected. When the
/// factory of `a` resolves `b` and the factory of `b` resolves `a`, and
/// neither shared instance is cached yet, resolving `a` fails with
/// `CircularDependency` reporting the chain `a -> b -> a` in discovery
/// order, and nothing is ever cached. The failure is structural: it does
/// not depend on which of the two identities the resolution enters through,
/// since the symmetric instantiation of this law gives `b -> a -> b`.
pub proof fn lemma_circular_dependency_detected(
    providers: Map<u64, EntryModel>,
    cache: Map<u64, Instance>,
    counts: Map<u64, u64>,
    a: IdentityModel,
    b: IdentityModel,
)
    requires
        providers.dom().finite(),
        providers.contains_key(a.id),
        providers.contains_key(b.id),
        providers[a.id].identity == a,
        providers[b.id].identity == b,
        rule_dependency(providers[a.id].rule) == Some(b),
        rule_dependency(providers[b.id].rule) == Some(a),
        a.id != b.id,
        !cache.contains_key(a.id),
        !cache.contains_key(b.id),
    ensures
        ({
            let m = resolve_model(providers, cache, counts, a, Seq::empty());
            &&& m.outcome is Err
            &&& m.outcome->Err_0.kind == ErrorKind::CircularDependency
            &&& m.outcome->Err_0.message == msg_circular_dependency(seq![a.name, b.name, a.name])
            &&& m.cache == cache
        }),
{
    let empty = Seq::<u64>::empty();
    let chain1 = seq![a.id];
    let chain2 = seq![a.id, b.id];
    assert(!empty.contains(a.id));
    assert(empty.push(a.id) =~= chain1);
    assert(chain1.push(b.id) =~= chain2);
    assert(chain1[0] == a.id);
    assert(!chain1.contains(b.id)) by {
        assert(forall|i: int| 0 <= i < chain1.len() ==> chain1[i] == a.id);
    }
    assert(chain2[0] == a.id && chain2[1] == b.id);
    assert(chain2.contains(a.id));
    assert(chain1.no_duplicates());
    assert(chain2.no_duplicates());

    let counts1 = counts.insert(a.id, crate::resolution::bump(count_of(counts, a.id)));
    let counts2 = counts1.insert(b.id, crate::resolution::bump(count_of(counts1, b.id)));

    let m3 = resolve_model(providers, cache, counts2, a, chain2);
    assert(chain_names(providers, chain2) =~= seq![a.name, b.name]);
    assert(chain_names(providers, chain2).push(a.name) =~= seq![a.name, b.name, a.name]);
    assert(m3.outcome is Err && m3.outcome->Err_0.kind == ErrorKind::CircularDependency
        && m3.outcome->Err_0.message == msg_circular_dependency(seq![a.name, b.name, a.name])
        && m3.cache == cache);

    let m2 = resolve_model(providers, cache, counts1, b, chain1);
    assert(m2.outcome == m3.outcome && m2.cache == cache);

    let m1 = resolve_model(providers, cache, counts, a, empty);
    assert(m1.outcome == m2.outcome && m1.cache == cache);
}

} // verus!
