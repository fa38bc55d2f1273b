//! Providers: the construction rules bound to type identities.
//!
//! The registry stores constructors keyed by a stable type identity and, at
//! resolution time, recovers the concrete type via a checked cast that fails
//! explicitly rather than returning a value of the wrong type. Construction
//! logic is represented as data — a [`FactoryRule`] — so that the resolution
//! engine's behaviour is a function of the container state alone.

use vstd::prelude::*;

use std::rc::Rc;

use crate::identity::IdentityModel;
use crate::identity::Scope;
use crate::identity::TypeIdentity;

verus! {

/// A second handle to a shared instance.
///
/// Relies on `Rc::clone`: the returned handle refers to the same allocation
/// as `h` and therefore carries the same instance.
#[verifier::external_body]
pub(crate) fn clone_handle(h: &Rc<Instance>) -> (r: Rc<Instance>)
    ensures
        *r == **h,
{
    Rc::clone(h)
}

/// A constructed service instance.
///
/// `type_id` is the identity the instance was constructed for: the checked
/// cast of the resolution engine compares it against the requested identity
/// and fails with a type mismatch when they differ. `value` is the
/// observable payload of the instance.
#[derive(Clone, Copy, PartialEq, Eq, Structural, Debug)]
pub struct Instance {
    pub type_id: u64,
    pub value: u64,
}

/// Mathematical view of a [`FactoryRule`].
pub ghost enum RuleModel {
    Value(u64),
    Counter,
    Derived { dep: IdentityModel, offset: u64 },
    Alias { dep: IdentityModel },
    Fail { reason: Seq<char> },
}

/// The construction rule of a provider. A factory receives the injector to
/// resolve its own dependencies; here each variant says what the factory
/// does with it.
pub enum FactoryRule {
    /// Produce an instance with a fixed payload; no dependencies.
    Value(u64),
    /// Produce the number of times this provider's factory has run so far —
    /// an observable side effect, distinct on every transient resolution.
    Counter,
    /// Resolve `dep` through the injector, then produce the dependency's
    /// payload plus `offset` (wrapping).
    Derived { dep: TypeIdentity, offset: u64 },
    /// Resolve `dep` and hand its instance through unchanged. Unless `dep`
    /// is the requested identity itself, the checked cast of the engine
    /// rejects the foreign instance with a type mismatch.
    Alias { dep: TypeIdentity },
    /// Fail for a reason internal to the factory (domain validation, a
    /// resource that is not available). Reported as a factory execution
    /// failure naming the identity and this reason.
    Fail { reason: String },
}

impl View for FactoryRule {
    type V = RuleModel;

    open spec fn view(&self) -> RuleModel {
        match self {
            FactoryRule::Value(v) => RuleModel::Value(*v),
            FactoryRule::Counter => RuleModel::Counter,
            FactoryRule::Derived { dep, offset } => RuleModel::Derived { dep: dep@, offset: *offset },
            FactoryRule::Alias { dep } => RuleModel::Alias { dep: dep@ },
            FactoryRule::Fail { reason } => RuleModel::Fail { reason: reason@ },
        }
    }
}

impl Clone for FactoryRule {
    fn clone(&self) -> (r: Self)
        ensures
            r@ == self@,
    {
        match self {
            FactoryRule::Value(v) => FactoryRule::Value(*v),
            FactoryRule::Counter => FactoryRule::Counter,
            FactoryRule::Derived { dep, offset } => FactoryRule::Derived {
                dep: dep.clone(),
                offset: *offset,
            },
            FactoryRule::Alias { dep } => FactoryRule::Alias { dep: dep.clone() },
            FactoryRule::Fail { reason } => FactoryRule::Fail { reason: reason.clone() },
        }
    }
}

/// Mathematical view of a [`ProviderEntry`].
pub ghost struct EntryModel {
    pub identity: IdentityModel,
    pub scope: Scope,
    pub rule: RuleModel,
}

/// One registered provider: the identity it is bound to, its lifetime scope
/// and its construction rule. At most one entry exists per identity.
pub struct ProviderEntry {
    pub identity: TypeIdentity,
    pub scope: Scope,
    pub rule: FactoryRule,
}

impl View for ProviderEntry {
    type V = EntryModel;

    open spec fn view(&self) -> EntryModel {
        EntryModel { identity: self.identity@, scope: self.scope, rule: self.rule@ }
    }
}

impl Clone for ProviderEntry {
    fn clone(&self) -> (r: Self)
        ensures
            r@ == self@,
    {
        ProviderEntry {
            identity: self.identity.clone(),
            scope: self.scope,
            rule: self.rule.clone(),
        }
    }
}

impl ProviderEntry {
    /// Bundles an identity, a scope and a rule into a provider entry.
    pub fn new(identity: TypeIdentity, scope: Scope, rule: FactoryRule) -> (r: ProviderEntry)
        ensures
            r@ == (EntryModel { identity: identity@, scope, rule: rule@ }),
    {
        ProviderEntry { identity, scope, rule }
    }
}

} // verus!
