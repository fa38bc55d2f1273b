use std::rc::Rc;

use sadi::error::ErrorKind;
use sadi::identity::Scope;
use sadi::identity::TypeIdentity;
use sadi::injector::Injector;
use sadi::modules::Module;
use sadi::provider::FactoryRule;
use sadi::provider::ProviderEntry;

fn single_module(entries: Vec<ProviderEntry>) -> Vec<Module> {
    let mut module = Module::new("Main");
    for entry in entries {
        module.provide(entry);
    }
    vec![module]
}

#[test]
fn resolving_unregistered_identity_fails() {
    let mut injector = Injector::build(Vec::new()).unwrap();
    let wanted = TypeIdentity::new(7, "Gizmo");
    let err = injector.try_resolve(&wanted).unwrap_err();
    assert_eq!(err.kind, ErrorKind::ServiceNotProvided);
    assert_eq!(err.message, "No provider registered for type: Gizmo");
}

#[test]
fn duplicate_registration_aborts_assembly() {
    let mut first = Module::new("First");
    first.provide(ProviderEntry::new(
        TypeIdentity::new(1, "ConfigStore"),
        Scope::Shared,
        FactoryRule::Value(10),
    ));
    let mut second = Module::new("Second");
    second.provide(ProviderEntry::new(
        TypeIdentity::new(1, "ConfigStore"),
        Scope::Transient,
        FactoryRule::Value(20),
    ));
    let err = match Injector::build(vec![first, second]) {
        Err(e) => e,
        Ok(_) => panic!("assembly should fail"),
    };
    assert_eq!(err.kind, ErrorKind::ProviderAlreadyRegistered);
    assert_eq!(
        err.message,
        "Provider (shared scope) already registered for type: ConfigStore"
    );
}

#[test]
fn duplicate_registration_within_one_module_aborts_assembly() {
    let mut module = Module::new("Main");
    module.provide(ProviderEntry::new(
        TypeIdentity::new(4, "Repo"),
        Scope::Transient,
        FactoryRule::Value(1),
    ));
    module.provide(ProviderEntry::new(
        TypeIdentity::new(4, "Repo"),
        Scope::Transient,
        FactoryRule::Value(2),
    ));
    let err = match Injector::build(vec![module]) {
        Err(e) => e,
        Ok(_) => panic!("assembly should fail"),
    };
    assert_eq!(err.kind, ErrorKind::ProviderAlreadyRegistered);
    assert!(err.message.contains("Repo"));
    assert!(err.message.contains("transient"));
}

#[test]
fn shared_resolutions_return_the_identical_instance() {
    let identity = TypeIdentity::new(2, "ConfigStore");
    let entries = vec![ProviderEntry::new(
        TypeIdentity::new(2, "ConfigStore"),
        Scope::Shared,
        FactoryRule::Counter,
    )];
    let mut injector = Injector::build(single_module(entries)).unwrap();
    let first = injector.resolve(&identity);
    let second = injector.resolve(&identity);
    let third = injector.resolve(&identity);
    assert!(Rc::ptr_eq(&first, &second));
    assert!(Rc::ptr_eq(&first, &third));
    assert_eq!(first.value, 1);
    assert_eq!(injector.invocation_count(2), 1);
    assert!(injector.is_cached(2));
}

#[test]
fn transient_resolutions_run_the_factory_each_time() {
    let identity = TypeIdentity::new(3, "RequestIdGenerator");
    let entries = vec![ProviderEntry::new(
        TypeIdentity::new(3, "RequestIdGenerator"),
        Scope::Transient,
        FactoryRule::Counter,
    )];
    let mut injector = Injector::build(single_module(entries)).unwrap();
    let a = injector.resolve(&identity);
    let b = injector.resolve(&identity);
    let c = injector.resolve(&identity);
    assert_eq!((a.value, b.value, c.value), (1, 2, 3));
    assert_eq!(injector.invocation_count(3), 3);
    assert!(!injector.is_cached(3));
}

#[test]
fn dependent_provider_resolves_its_dependency() {
    let entries = vec![
        ProviderEntry::new(TypeIdentity::new(1, "Config"), Scope::Shared, FactoryRule::Value(40)),
        ProviderEntry::new(
            TypeIdentity::new(2, "Service"),
            Scope::Transient,
            FactoryRule::Derived { dep: TypeIdentity::new(1, "Config"), offset: 2 },
        ),
    ];
    let mut injector = Injector::build(single_module(entries)).unwrap();
    let service = injector.resolve(&TypeIdentity::new(2, "Service"));
    assert_eq!(service.value, 42);
    assert_eq!(service.type_id, 2);
    // Resolving the dependent provider built and cached its shared dependency.
    assert!(injector.is_cached(1));
    assert_eq!(injector.invocation_count(1), 1);
}

#[test]
fn registration_cycle_is_detected_from_either_entry_point() {
    let entries = vec![
        ProviderEntry::new(
            TypeIdentity::new(1, "A"),
            Scope::Transient,
            FactoryRule::Derived { dep: TypeIdentity::new(2, "B"), offset: 0 },
        ),
        ProviderEntry::new(
            TypeIdentity::new(2, "B"),
            Scope::Transient,
            FactoryRule::Derived { dep: TypeIdentity::new(1, "A"), offset: 0 },
        ),
    ];
    let mut injector = Injector::build(single_module(entries)).unwrap();
    let err = injector.try_resolve(&TypeIdentity::new(1, "A")).unwrap_err();
    assert_eq!(err.kind, ErrorKind::CircularDependency);
    assert_eq!(err.message, "Circular dependency detected: A -> B -> A");
    let err = injector.try_resolve(&TypeIdentity::new(2, "B")).unwrap_err();
    assert_eq!(err.kind, ErrorKind::CircularDependency);
    assert_eq!(err.message, "Circular dependency detected: B -> A -> B");
}

#[test]
fn self_cycle_is_detected() {
    let entries = vec![ProviderEntry::new(
        TypeIdentity::new(9, "Selfish"),
        Scope::Transient,
        FactoryRule::Alias { dep: TypeIdentity::new(9, "Selfish") },
    )];
    let mut injector = Injector::build(single_module(entries)).unwrap();
    let err = injector.try_resolve(&TypeIdentity::new(9, "Selfish")).unwrap_err();
    assert_eq!(err.kind, ErrorKind::CircularDependency);
    assert_eq!(err.message, "Circular dependency detected: Selfish -> Selfish");
}

#[test]
fn alias_of_a_foreign_identity_is_a_type_mismatch() {
    let entries = vec![
        ProviderEntry::new(TypeIdentity::new(1, "Real"), Scope::Transient, FactoryRule::Value(5)),
        ProviderEntry::new(
            TypeIdentity::new(2, "Pretender"),
            Scope::Transient,
            FactoryRule::Alias { dep: TypeIdentity::new(1, "Real") },
        ),
    ];
    let mut injector = Injector::build(single_module(entries)).unwrap();
    let err = injector.try_resolve(&TypeIdentity::new(2, "Pretender")).unwrap_err();
    assert_eq!(err.kind, ErrorKind::TypeMismatch);
    assert_eq!(err.message, "Type mismatch when resolving: Pretender");
}

#[test]
fn factory_fault_is_wrapped_once_and_propagated_unchanged() {
    let entries = vec![
        ProviderEntry::new(
            TypeIdentity::new(1, "Flaky"),
            Scope::Transient,
            FactoryRule::Fail { reason: "disk offline".to_string() },
        ),
        ProviderEntry::new(
            TypeIdentity::new(2, "NeedsFlaky"),
            Scope::Transient,
            FactoryRule::Derived { dep: TypeIdentity::new(1, "Flaky"), offset: 0 },
        ),
    ];
    let mut injector = Injector::build(single_module(entries)).unwrap();
    let err = injector.try_resolve(&TypeIdentity::new(1, "Flaky")).unwrap_err();
    assert_eq!(err.kind, ErrorKind::FactoryExecutionFailed);
    assert_eq!(err.message, "Factory execution failed for Flaky: disk offline");
    // The nested failure names the faulty provider, not the outer one.
    let err = injector.try_resolve(&TypeIdentity::new(2, "NeedsFlaky")).unwrap_err();
    assert_eq!(err.kind, ErrorKind::FactoryExecutionFailed);
    assert_eq!(err.message, "Factory execution failed for Flaky: disk offline");
}

#[test]
fn failed_shared_build_does_not_poison_the_identity() {
    let entries = vec![ProviderEntry::new(
        TypeIdentity::new(6, "Fragile"),
        Scope::Shared,
        FactoryRule::Fail { reason: "not ready".to_string() },
    )];
    let mut injector = Injector::build(single_module(entries)).unwrap();
    let identity = TypeIdentity::new(6, "Fragile");
    assert!(injector.try_resolve(&identity).is_err());
    assert!(!injector.is_cached(6));
    // A later resolution retries the construction.
    assert!(injector.try_resolve(&identity).is_err());
    assert_eq!(injector.invocation_count(6), 2);
}

#[test]
fn two_module_end_to_end_scenario() {
    let mut config_module = Module::new("ConfigModule");
    config_module.provide(ProviderEntry::new(
        TypeIdentity::new(1, "ConfigStore"),
        Scope::Shared,
        FactoryRule::Value(8080),
    ));
    let mut request_module = Module::new("RequestModule");
    request_module.provide(ProviderEntry::new(
        TypeIdentity::new(2, "RequestIdGenerator"),
        Scope::Transient,
        FactoryRule::Counter,
    ));
    let mut injector = Injector::build(vec![config_module, request_module]).unwrap();

    let config = TypeIdentity::new(1, "ConfigStore");
    let first = injector.resolve(&config);
    let second = injector.resolve(&config);
    assert!(Rc::ptr_eq(&first, &second));
    assert_eq!(first.value, 8080);
    assert_eq!(injector.invocation_count(1), 1);

    let request_id = TypeIdentity::new(2, "RequestIdGenerator");
    let a = injector.resolve(&request_id);
    let b = injector.resolve(&request_id);
    assert_ne!(a.value, b.value);
    assert!(injector.has_provider(2));
}
