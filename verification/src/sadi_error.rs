//! Error model of the simple [`crate::sadi::SaDi`] container.
//!
//! A lighter taxonomy than [`crate::error::Error`]: the simple container has
//! no modules, no resolution chain and no wrapped factory faults, so only
//! the four categories below can arise.

use vstd::prelude::*;

verus! {

/// Error kinds for the simple container's operations.
#[derive(Clone, Copy, PartialEq, Eq, Structural, Debug)]
pub enum ErrorKind {
    /// Service factory not registered.
    ServiceNotRegistered,
    /// Factory returned wrong type.
    TypeMismatch,
    /// Cached instance has wrong type.
    CachedTypeMismatch,
    /// Factory already registered.
    FactoryAlreadyRegistered,
}

/// Mathematical view of a [`SaDiError`].
pub ghost struct SaDiErrorModel {
    pub kind: ErrorKind,
    pub message: Seq<char>,
}

/// Error structure for the simple container's operations.
#[derive(Debug)]
pub struct SaDiError {
    /// The kind of error that occurred.
    pub kind: ErrorKind,
    /// Human-readable error message.
    pub message: String,
}

impl View for SaDiError {
    type V = SaDiErrorModel;

    open spec fn view(&self) -> SaDiErrorModel {
        SaDiErrorModel { kind: self.kind, message: self.message@ }
    }
}

impl Clone for SaDiError {
    fn clone(&self) -> (r: Self)
        ensures
            r@ == self@,
    {
        SaDiError { kind: self.kind, message: self.message.clone() }
    }
}

/// Message reported when no factory of the named kind is registered.
pub open spec fn msg_service_not_registered(name: Seq<char>, service_kind: Seq<char>) -> Seq<char> {
    "No "@ + service_kind + " factory registered for type: "@ + name
}

/// Message reported when a factory returns a value of the wrong type.
pub open spec fn msg_factory_type_mismatch(name: Seq<char>) -> Seq<char> {
    "Factory returned wrong type for: "@ + name
}

/// Message reported when a cached instance has the wrong type.
pub open spec fn msg_cached_type_mismatch(name: Seq<char>) -> Seq<char> {
    "Cached instance has wrong type for: "@ + name
}

/// Message reported when a factory is registered twice for one type.
pub open spec fn msg_factory_already_registered(name: Seq<char>, service_kind: Seq<char>) -> Seq<char> {
    service_kind + " factory already registered for type: "@ + name
}

impl SaDiError {
    /// Create a new error from a kind and a ready message.
    pub fn new(kind: ErrorKind, message: String) -> (r: SaDiError)
        ensures
            r.kind == kind,
            r.message == message,
    {
        SaDiError { kind, message }
    }

    /// Create a service not registered error. `service_kind` is the kind of
    /// registration that was missing, `"transient"` or `"singleton"`.
    pub fn service_not_registered(name: &str, service_kind: &str) -> (r: SaDiError)
        ensures
            r.kind == ErrorKind::ServiceNotRegistered,
            r.message@ == msg_service_not_registered(name@, service_kind@),
    {
        let mut m = "No ".to_owned();
        m.append(service_kind);
        m.append(" factory registered for type: ");
        m.append(name);
        SaDiError::new(ErrorKind::ServiceNotRegistered, m)
    }

    /// Create a type mismatch error.
    pub fn type_mismatch(name: &str) -> (r: SaDiError)
        ensures
            r.kind == ErrorKind::TypeMismatch,
            r.message@ == msg_factory_type_mismatch(name@),
    {
        let mut m = "Factory returned wrong type for: ".to_owned();
        m.append(name);
        SaDiError::new(ErrorKind::TypeMismatch, m)
    }

    /// Create a cached type mismatch error.
    pub fn cached_type_mismatch(name: &str) -> (r: SaDiError)
        ensures
            r.kind == ErrorKind::CachedTypeMismatch,
            r.message@ == msg_cached_type_mismatch(name@),
    {
        let mut m = "Cached instance has wrong type for: ".to_owned();
        m.append(name);
        SaDiError::new(ErrorKind::CachedTypeMismatch, m)
    }

    /// Create a factory already registered error. `service_kind` is the kind
    /// of the existing registration, `"transient"` or `"singleton"`.
    pub fn factory_already_registered(name: &str, service_kind: &str) -> (r: SaDiError)
        ensures
            r.kind == ErrorKind::FactoryAlreadyRegistered,
            r.message@ == msg_factory_already_registered(name@, service_kind@),
    {
        let mut m = service_kind.to_owned();
        m.append(" factory already registered for type: ");
        m.append(name);
        SaDiError::new(ErrorKind::FactoryAlreadyRegistered, m)
    }

    /// The human-readable rendering of the error, which is its message.
    pub fn describe(&self) -> (r: String)
        ensures
            r@ == self.message@,
    {
        self.message.clone()
    }
}

} // verus!
