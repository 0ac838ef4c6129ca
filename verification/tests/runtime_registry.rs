use std::sync::{Arc, Weak};

use oxideterm::x11::error::X11ForwardingError;
use oxideterm::x11::runtime_registry::RuntimeRegistry;

fn not_installed<T>() -> Result<T, X11ForwardingError> {
    Err(X11ForwardingError::ManagedRuntimeUnavailable(String::from(
        "the application runtime owner is not installed",
    )))
}

#[test]
fn an_empty_registry_has_no_runtime() {
    let registry: RuntimeRegistry<Weak<u8>> = RuntimeRegistry::new();
    assert_eq!(registry.installed(Weak::upgrade), not_installed());
}

#[test]
fn the_latest_runtime_is_given() {
    let mut registry = RuntimeRegistry::new();
    let first = Arc::new(1u8);
    registry.install(Arc::downgrade(&first));
    assert_eq!(registry.installed(Weak::upgrade), Ok(Arc::clone(&first)));
    let second = Arc::new(2u8);
    registry.install(Arc::downgrade(&second));
    assert_eq!(registry.installed(Weak::upgrade), Ok(Arc::clone(&second)));
    drop(first);
    assert_eq!(registry.installed(Weak::upgrade), Ok(second));
}

#[test]
fn an_earlier_runtime_does_not_stand_in_for_the_latest() {
    let mut registry = RuntimeRegistry::new();
    let first = Arc::new(1u8);
    registry.install(Arc::downgrade(&first));
    let second = Arc::new(2u8);
    registry.install(Arc::downgrade(&second));
    drop(second);
    assert_eq!(registry.installed(Weak::upgrade), not_installed());
    assert_eq!(*first, 1);
}
