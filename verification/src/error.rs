//! Error model of the container.
//!
//! Every operation that can fail returns an [`Error`] holding a category
//! (`kind`) for programmatic handling and a human-readable `message`. The
//! constructors below pin the exact message text down, so callers can state
//! in their own contracts precisely which error they return and when.

use vstd::prelude::*;

use crate::identity::Scope;
use crate::identity::scope_text;
use crate::identity::scope_name;

verus! {

/// Error categories for the container.
#[derive(Clone, Copy, PartialEq, Eq, Structural, Debug)]
pub enum ErrorKind {
    /// Service provider not found for the requested type.
    ServiceNotProvided,
    /// Type mismatch during checked cast or resolution.
    TypeMismatch,
    /// Provider already registered for this type.
    ProviderAlreadyRegistered,
    /// Circular dependency detected in the resolution chain.
    CircularDependency,
    /// Factory execution failed for a reason internal to the factory.
    FactoryExecutionFailed,
    /// Invalid scope transition or configuration.
    InvalidScope,
    /// Module initialization or loading failed.
    ModuleLoadFailed,
}

/// Mathematical view of an [`Error`].
pub ghost struct ErrorModel {
    pub kind: ErrorKind,
    pub message: Seq<char>,
}

/// Container error: `kind` enables programmatic handling, `message` is
/// human-readable.
#[derive(Debug)]
pub struct Error {
    pub kind: ErrorKind,
    pub message: String,
}

impl View for Error {
    type V = ErrorModel;

    open spec fn view(&self) -> ErrorModel {
        ErrorModel { kind: self.kind, message: self.message@ }
    }
}

impl Clone for Error {
    fn clone(&self) -> (r: Self)
        ensures
            r@ == self@,
    {
        Error { kind: self.kind, message: self.message.clone() }
    }
}

/// Joins the parts of a dependency chain with `" -> "` between them.
pub open spec fn join_arrow(parts: Seq<Seq<char>>) -> Seq<char>
    decreases parts.len(),
{
    if parts.len() == 0 {
        Seq::empty()
    } else if parts.len() == 1 {
        parts[0]
    } else {
        parts[0] + " -> "@ + join_arrow(parts.drop_first())
    }
}

/// Message reported when no provider is registered for a requested type.
pub open spec fn msg_service_not_provided(name: Seq<char>) -> Seq<char> {
    "No provider registered for type: "@ + name
}

/// Message reported when a checked cast fails during resolution.
pub open spec fn msg_type_mismatch(name: Seq<char>) -> Seq<char> {
    "Type mismatch when resolving: "@ + name
}

/// Message reported when a second provider is registered for one type.
pub open spec fn msg_provider_already_registered(name: Seq<char>, scope: Seq<char>) -> Seq<char> {
    "Provider ("@ + scope + " scope) already registered for type: "@ + name
}

/// Message reported when the resolution chain closes on itself.
pub open spec fn msg_circular_dependency(parts: Seq<Seq<char>>) -> Seq<char> {
    "Circular dependency detected: "@ + join_arrow(parts)
}

/// Message reported when a factory fails for an internal reason.
pub open spec fn msg_factory_execution_failed(name: Seq<char>, reason: Seq<char>) -> Seq<char> {
    "Factory execution failed for "@ + name + ": "@ + reason
}

/// Message reported for an invalid scope configuration.
pub open spec fn msg_invalid_scope(reason: Seq<char>) -> Seq<char> {
    "Invalid scope: "@ + reason
}

/// Message reported when a module fails to load.
pub open spec fn msg_module_load_failed(module_name: Seq<char>, reason: Seq<char>) -> Seq<char> {
    "Module '"@ + module_name + "' failed to load: "@ + reason
}

impl Error {
    /// Creates a new error with the given kind and message.
    pub fn new(kind: ErrorKind, message: String) -> (r: Error)
        ensures
            r.kind == kind,
            r.message == message,
    {
        Error { kind, message }
    }

    /// Service provider not found for the requested type.
    pub fn service_not_provided(name: &str) -> (r: Error)
        ensures
            r.kind == ErrorKind::ServiceNotProvided,
            r.message@ == msg_service_not_provided(name@),
    {
        let mut m = "No provider registered for type: ".to_owned();
        m.append(name);
        Error::new(ErrorKind::ServiceNotProvided, m)
    }

    /// Type mismatch during checked cast or factory execution.
    ///
    /// This covers both immediate type mismatches and cached instance type
    /// mismatches.
    pub fn type_mismatch(name: &str) -> (r: Error)
        ensures
            r.kind == ErrorKind::TypeMismatch,
            r.message@ == msg_type_mismatch(name@),
    {
        let mut m = "Type mismatch when resolving: ".to_owned();
        m.append(name);
        Error::new(ErrorKind::TypeMismatch, m)
    }

    /// Provider already registered for this type.
    pub fn provider_already_registered(name: &str, scope: Scope) -> (r: Error)
        ensures
            r.kind == ErrorKind::ProviderAlreadyRegistered,
            r.message@ == msg_provider_already_registered(name@, scope_text(scope)),
    {
        let mut m = "Provider (".to_owned();
        m.append(scope_name(scope));
        m.append(" scope) already registered for type: ");
        m.append(name);
        Error::new(ErrorKind::ProviderAlreadyRegistered, m)
    }

    /// Circular dependency detected in the resolution chain. The chain is
    /// reported in discovery order, joined with `" -> "`.
    pub fn circular_dependency(dependency_chain: &Vec<String>) -> (r: Error)
        ensures
            r.kind == ErrorKind::CircularDependency,
            r.message@ == msg_circular_dependency(dependency_chain.deep_view()),
    {
        let ghost parts: Seq<Seq<char>> = dependency_chain.deep_view();
        let mut m = "Circular dependency detected: ".to_owned();
        let ghost prefix: Seq<char> = m@;
        proof {
            assert(parts.skip(0) =~= parts);
        }
        let mut i: usize = 0;
        while i < dependency_chain.len()
            invariant
                i <= dependency_chain.len(),
                parts == dependency_chain.deep_view(),
                parts.len() == dependency_chain.len(),
                forall|j: int| 0 <= j < parts.len() ==> parts[j] == dependency_chain@[j]@,
                m@ + join_arrow(parts.skip(i as int)) == prefix + join_arrow(parts),
            decreases dependency_chain.len() - i,
        {
            let ghost before: Seq<char> = m@;
            m.append(dependency_chain[i].as_str());
            if i + 1 < dependency_chain.len() {
                m.append(" -> ");
            }
            proof {
                let rest = parts.skip(i as int);
                assert(rest.len() == parts.len() - i);
                assert(rest[0] == parts[i as int]);
                if i + 1 < dependency_chain.len() {
                    assert(rest.drop_first() =~= parts.skip(i + 1));
                    assert(m@ =~= before + rest[0] + " -> "@);
                    assert(m@ + join_arrow(parts.skip(i + 1)) =~= before + join_arrow(rest));
                } else {
                    assert(parts.skip(i + 1) =~= Seq::<Seq<char>>::empty());
                    assert(m@ + join_arrow(parts.skip(i + 1)) =~= before + join_arrow(rest));
                }
            }
            i = i + 1;
        }
        proof {
            assert(parts.skip(parts.len() as int) =~= Seq::<Seq<char>>::empty());
            assert(m@ =~= prefix + join_arrow(parts));
        }
        Error::new(ErrorKind::CircularDependency, m)
    }

    /// Factory closure execution failed.
    pub fn factory_execution_failed(name: &str, reason: &str) -> (r: Error)
        ensures
            r.kind == ErrorKind::FactoryExecutionFailed,
            r.message@ == msg_factory_execution_failed(name@, reason@),
    {
        let mut m = "Factory execution failed for ".to_owned();
        m.append(name);
        m.append(": ");
        m.append(reason);
        Error::new(ErrorKind::FactoryExecutionFailed, m)
    }

    /// Invalid scope or scope transition.
    pub fn invalid_scope(reason: &str) -> (r: Error)
        ensures
            r.kind == ErrorKind::InvalidScope,
            r.message@ == msg_invalid_scope(reason@),
    {
        let mut m = "Invalid scope: ".to_owned();
        m.append(reason);
        Error::new(ErrorKind::InvalidScope, m)
    }

    /// Module initialization or loading failed.
    pub fn module_load_failed(module_name: &str, reason: &str) -> (r: Error)
        ensures
            r.kind == ErrorKind::ModuleLoadFailed,
            r.message@ == msg_module_load_failed(module_name@, reason@),
    {
        let mut m = "Module '".to_owned();
        m.append(module_name);
        m.append("' failed to load: ");
        m.append(reason);
        Error::new(ErrorKind::ModuleLoadFailed, m)
    }

    /// The human-readable rendering of the error, which is its message.
    pub fn describe(&self) -> (r: String)
        ensures
            r@ == self.message@,
    {
        self.message.clone()
    }
}

} // verus!
