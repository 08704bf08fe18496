use cosi::registry::{EngineService, Plugin, RegisterError};

#[test]
fn register_fresh_name_succeeds() {
    let mut service = EngineService::new();
    let result = service.register(Plugin { name: String::from("mount") });
    assert!(result.is_ok());
    assert_eq!(service.len(), 1);
}

#[test]
fn register_two_names_both_succeed() {
    let mut service = EngineService::new();
    assert!(service.register(Plugin { name: String::from("mount") }).is_ok());
    assert!(service.register(Plugin { name: String::from("resolver") }).is_ok());
    assert_eq!(service.len(), 2);
}

#[test]
fn duplicate_registration_exactly_one_success() {
    // Two registrations of "x" against an empty registry: exactly one
    // success and one refusal naming "x", whichever call goes first.
    let mut service = EngineService::new();
    let first = service.register(Plugin { name: String::from("x") });
    let second = service.register(Plugin { name: String::from("x") });
    assert!(first.is_ok());
    match second {
        Err(RegisterError::AlreadyExists { message }) => {
            assert_eq!(message, "plugin is already registered: x");
        },
        Ok(_) => panic!("expected the second registration to be refused"),
    }
    assert_eq!(service.len(), 1);
}

#[test]
fn duplicate_is_refused_among_others() {
    let mut service = EngineService::new();
    assert!(service.register(Plugin { name: String::from("a") }).is_ok());
    assert!(service.register(Plugin { name: String::from("b") }).is_ok());
    assert!(service.register(Plugin { name: String::from("c") }).is_ok());
    let again = service.register(Plugin { name: String::from("b") });
    match again {
        Err(RegisterError::AlreadyExists { message }) => {
            assert_eq!(message, "plugin is already registered: b");
        },
        Ok(_) => panic!("expected the repeated registration to be refused"),
    }
    assert_eq!(service.len(), 3);
}
