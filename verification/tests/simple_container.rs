use std::rc::Rc;

use sadi::identity::TypeIdentity;
use sadi::sadi::Recipe;
use sadi::sadi::SaDi;
use sadi::sadi_error::ErrorKind;
use sadi::sadi_error::SaDiError;

#[test]
fn transient_get_returns_a_fresh_instance_each_time() {
    let mut di = SaDi::new()
        .factory(TypeIdentity::new(1, "Counter"), Recipe::Sequential)
        .factory(TypeIdentity::new(2, "Answer"), Recipe::Fixed(42));
    let counter = TypeIdentity::new(1, "Counter");
    let answer = TypeIdentity::new(2, "Answer");
    assert_eq!(di.get(&counter).value, 1);
    assert_eq!(di.get(&counter).value, 2);
    assert_eq!(di.get(&counter).value, 3);
    assert_eq!(di.get(&answer).value, 42);
    assert_eq!(di.get(&answer).value, 42);
    assert_eq!(di.get(&answer).type_id, 2);
}

#[test]
fn try_get_reports_missing_transient_factory() {
    let mut di = SaDi::new();
    let missing = TypeIdentity::new(5, "Widget");
    let msg = di.try_get(&missing).unwrap_err();
    assert_eq!(msg, "No transient factory registered for type: Widget");
}

#[test]
fn duplicate_transient_factory_is_rejected() {
    let di = SaDi::new().factory(TypeIdentity::new(1, "Repo"), Recipe::Fixed(1));
    let err = match di.try_factory(TypeIdentity::new(1, "Repo"), Recipe::Fixed(2)) {
        Err(e) => e,
        Ok(_) => panic!("registration should fail"),
    };
    assert_eq!(err.kind, ErrorKind::FactoryAlreadyRegistered);
    assert_eq!(err.message, "transient factory already registered for type: Repo");
}

#[test]
fn singleton_is_constructed_once_and_shared() {
    let mut di = SaDi::new().factory_singleton(TypeIdentity::new(3, "Session"), Recipe::Sequential);
    let session = TypeIdentity::new(3, "Session");
    let first = di.get_singleton(&session);
    let second = di.get_singleton(&session);
    assert!(Rc::ptr_eq(&first, &second));
    // The sequential recipe ran exactly once: both handles show run one.
    assert_eq!(first.value, 1);
    assert_eq!(second.value, 1);
}

#[test]
fn transient_and_singleton_registrations_are_independent() {
    let mut di = SaDi::new()
        .factory(TypeIdentity::new(4, "Clock"), Recipe::Fixed(7))
        .factory_singleton(TypeIdentity::new(4, "Clock"), Recipe::Fixed(9));
    let clock = TypeIdentity::new(4, "Clock");
    assert_eq!(di.get(&clock).value, 7);
    assert_eq!(di.get_singleton(&clock).value, 9);
}

#[test]
fn try_get_singleton_reports_missing_singleton_factory() {
    let mut di = SaDi::new().factory(TypeIdentity::new(6, "OnlyTransient"), Recipe::Fixed(1));
    let identity = TypeIdentity::new(6, "OnlyTransient");
    let msg = di.try_get_singleton(&identity).unwrap_err();
    assert_eq!(msg, "No singleton factory registered for type: OnlyTransient");
}

#[test]
fn duplicate_singleton_factory_is_rejected() {
    let di = SaDi::new().factory_singleton(TypeIdentity::new(1, "Repo"), Recipe::Fixed(1));
    let err = match di.try_factory_singleton(TypeIdentity::new(1, "Repo"), Recipe::Fixed(2)) {
        Err(e) => e,
        Ok(_) => panic!("registration should fail"),
    };
    assert_eq!(err.kind, ErrorKind::FactoryAlreadyRegistered);
    assert_eq!(err.message, "singleton factory already registered for type: Repo");
}

#[test]
fn sadi_error_constructors() {
    let err = SaDiError::service_not_registered("MyType", "transient");
    assert_eq!(err.kind, ErrorKind::ServiceNotRegistered);
    assert_eq!(err.message, "No transient factory registered for type: MyType");

    let err = SaDiError::type_mismatch("MyType");
    assert_eq!(err.kind, ErrorKind::TypeMismatch);
    assert_eq!(err.message, "Factory returned wrong type for: MyType");

    let err = SaDiError::cached_type_mismatch("MyType");
    assert_eq!(err.kind, ErrorKind::CachedTypeMismatch);
    assert_eq!(err.message, "Cached instance has wrong type for: MyType");

    let err = SaDiError::factory_already_registered("MyType", "singleton");
    assert_eq!(err.kind, ErrorKind::FactoryAlreadyRegistered);
    assert_eq!(err.message, "singleton factory already registered for type: MyType");

    let err = SaDiError::new(ErrorKind::TypeMismatch, "custom".to_string());
    assert_eq!(err.kind, ErrorKind::TypeMismatch);
    assert_eq!(err.describe(), "custom");
}
