use audio_engine::SessionRegistry;

#[test]
fn create_then_remove_twice() {
    let mut registry: SessionRegistry<String> = SessionRegistry::new();
    assert!(registry.create::<()>(7, Ok("ctx".to_string())).is_ok());
    assert_eq!(registry.remove(7), Some("ctx".to_string()));
    assert_eq!(registry.remove(7), None);
    assert_eq!(registry.len(), 0);
}

#[test]
fn distinct_sessions_are_independent() {
    let mut registry: SessionRegistry<u32> = SessionRegistry::new();
    assert!(registry.create::<()>(1, Ok(10)).is_ok());
    assert!(registry.create::<()>(2, Ok(20)).is_ok());
    assert_eq!(registry.len(), 2);
    assert_eq!(registry.remove(1), Some(10));
    assert!(registry.contains(2));
    assert!(!registry.contains(1));
    assert_eq!(registry.remove(2), Some(20));
}

#[test]
fn duplicate_key_keeps_later_context() {
    let mut registry: SessionRegistry<u32> = SessionRegistry::new();
    assert!(registry.create::<()>(5, Ok(1)).is_ok());
    assert!(registry.create::<()>(5, Ok(2)).is_ok());
    assert_eq!(registry.len(), 1);
    assert_eq!(registry.remove(5), Some(2));
}

#[test]
fn failed_context_is_not_registered() {
    let mut registry: SessionRegistry<u32> = SessionRegistry::new();
    assert_eq!(registry.create(3, Err("no context")), Err("no context"));
    assert!(!registry.contains(3));
    assert_eq!(registry.remove(3), None);
}
