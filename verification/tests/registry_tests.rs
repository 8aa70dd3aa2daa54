use joinsound::registry::SoundRegistry;

#[test]
fn new_registry_is_empty() {
    let registry: SoundRegistry<Vec<u8>> = SoundRegistry::new();
    assert_eq!(registry.len(), 0);
    assert!(!registry.has_sound(1));
    assert_eq!(registry.lookup(1), None);
}

#[test]
fn lookup_returns_registered_artifact_every_time() {
    let mut registry: SoundRegistry<Vec<u8>> = SoundRegistry::new();
    registry.register(7, vec![1, 2, 3]);
    for _ in 0..5 {
        assert_eq!(registry.lookup(7), Some(&vec![1, 2, 3]));
    }
    assert_eq!(registry.len(), 1);
}

#[test]
fn second_registration_replaces_first() {
    let mut registry: SoundRegistry<String> = SoundRegistry::new();
    registry.register(7, String::from("first"));
    registry.register(7, String::from("second"));
    assert_eq!(registry.lookup(7), Some(&String::from("second")));
    assert_ne!(registry.lookup(7), Some(&String::from("first")));
    assert_eq!(registry.len(), 1);
}

#[test]
fn registration_leaves_other_guilds_alone() {
    let mut registry: SoundRegistry<u32> = SoundRegistry::new();
    registry.register(1, 10);
    registry.register(2, 20);
    registry.register(1, 11);
    assert_eq!(registry.lookup(1), Some(&11));
    assert_eq!(registry.lookup(2), Some(&20));
    assert_eq!(registry.lookup(3), None);
    assert!(registry.has_sound(1));
    assert!(registry.has_sound(2));
    assert!(!registry.has_sound(3));
    assert_eq!(registry.len(), 2);
}

#[test]
fn registry_takes_extreme_guild_ids() {
    let mut registry: SoundRegistry<u8> = SoundRegistry::new();
    registry.register(0, 1);
    registry.register(u64::MAX, 2);
    assert_eq!(registry.lookup(0), Some(&1));
    assert_eq!(registry.lookup(u64::MAX), Some(&2));
    assert_eq!(registry.len(), 2);
}
