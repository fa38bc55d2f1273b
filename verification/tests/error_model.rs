use sadi::error::Error;
use sadi::error::ErrorKind;
use sadi::identity::Scope;

#[test]
fn service_not_provided_error() {
    let err = Error::service_not_provided("MyType");
    assert_eq!(err.kind == ErrorKind::ServiceNotProvided, true);
    assert!(err.message.contains("MyType"));
    assert!(err.message.contains("provider"));
}

#[test]
fn type_mismatch_error() {
    let err = Error::type_mismatch("OtherType");
    assert_eq!(err.kind == ErrorKind::TypeMismatch, true);
    assert!(err.message.contains("OtherType"));
}

#[test]
fn provider_already_registered_error() {
    let err = Error::provider_already_registered("Foo", Scope::Transient);
    assert_eq!(err.kind == ErrorKind::ProviderAlreadyRegistered, true);
    assert!(err.message.contains("Foo"));
    assert!(err.message.contains("transient"));
}

#[test]
fn circular_dependency_error() {
    let chain = vec!["A".to_string(), "B".to_string(), "A".to_string()];
    let err = Error::circular_dependency(&chain);
    assert_eq!(err.kind == ErrorKind::CircularDependency, true);
    assert!(err.message.contains("A -> B -> A"));
}

#[test]
fn factory_execution_failed_error() {
    let err = Error::factory_execution_failed("ServiceX", "out of memory");
    assert_eq!(err.kind == ErrorKind::FactoryExecutionFailed, true);
    assert!(err.message.contains("ServiceX"));
    assert!(err.message.contains("out of memory"));
}

#[test]
fn invalid_scope_error() {
    let err = Error::invalid_scope("Unknown scope type");
    assert_eq!(err.kind == ErrorKind::InvalidScope, true);
    assert!(err.message.contains("Unknown scope type"));
}

#[test]
fn module_load_failed_error() {
    let err = Error::module_load_failed("AuthModule", "missing config");
    assert_eq!(err.kind == ErrorKind::ModuleLoadFailed, true);
    assert!(err.message.contains("AuthModule"));
    assert!(err.message.contains("missing config"));
}

#[test]
fn display_trait() {
    let err = Error::service_not_provided("X");
    let s = err.describe();
    assert!(s.contains("X"));
}

#[test]
fn error_kind_equality() {
    let err1 = Error::type_mismatch("A");
    let err2 = Error::type_mismatch("B");
    assert_eq!(err1.kind == err2.kind, true);
    assert_ne!(err1.message, err2.message);
}

#[test]
fn exact_messages() {
    let err = Error::service_not_provided("Repo");
    assert_eq!(err.message, "No provider registered for type: Repo");
    let err = Error::type_mismatch("Repo");
    assert_eq!(err.message, "Type mismatch when resolving: Repo");
    let err = Error::provider_already_registered("Repo", Scope::Shared);
    assert_eq!(err.message, "Provider (shared scope) already registered for type: Repo");
    let chain = vec!["A".to_string(), "B".to_string(), "A".to_string()];
    let err = Error::circular_dependency(&chain);
    assert_eq!(err.message, "Circular dependency detected: A -> B -> A");
    let err = Error::factory_execution_failed("Repo", "boom");
    assert_eq!(err.message, "Factory execution failed for Repo: boom");
    let err = Error::invalid_scope("bad");
    assert_eq!(err.message, "Invalid scope: bad");
    let err = Error::module_load_failed("Core", "io fault");
    assert_eq!(err.message, "Module 'Core' failed to load: io fault");
}

#[test]
fn circular_dependency_short_chains() {
    let err = Error::circular_dependency(&Vec::new());
    assert_eq!(err.message, "Circular dependency detected: ");
    let err = Error::circular_dependency(&vec!["A".to_string()]);
    assert_eq!(err.message, "Circular dependency detected: A");
    let err = Error::circular_dependency(&vec!["A".to_string(), "A".to_string()]);
    assert_eq!(err.message, "Circular dependency detected: A -> A");
}
