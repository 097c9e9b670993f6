use soroban_playground::profile_registry::{ProfileError, ProfileRegistry};

const USER: u64 = 7;

fn text(s: &str) -> Vec<u8> {
    s.as_bytes().to_vec()
}

#[test]
fn test_set_and_get_profile() {
    let mut c = ProfileRegistry::new();
    let (name, bio) = (text("Alice"), text("Blockchain Developer"));
    c.set_profile(USER, name.clone(), bio.clone()).unwrap();
    let profile = c.get_profile(USER).unwrap();
    assert_eq!(profile.name, name);
    assert_eq!(profile.bio, bio);
}

#[test]
fn test_get_profile_returns_none_when_missing() {
    let c = ProfileRegistry::new();
    assert!(c.get_profile(USER).is_none());
}

#[test]
fn test_overwrite_existing_profile() {
    let mut c = ProfileRegistry::new();
    c.set_profile(USER, text("Alice"), text("Developer")).unwrap();
    c.set_profile(USER, text("Alice Updated"), text("Senior Developer")).unwrap();
    let profile = c.get_profile(USER).unwrap();
    assert_eq!(profile.name, text("Alice Updated"));
    assert_eq!(profile.bio, text("Senior Developer"));
}

#[test]
fn test_set_profile_rejects_empty_name() {
    let mut c = ProfileRegistry::new();
    assert_eq!(c.set_profile(USER, text(""), text("Developer")), Err(ProfileError::NameEmpty));
}

#[test]
fn test_delete_profile() {
    let mut c = ProfileRegistry::new();
    c.set_profile(USER, text("Alice"), text("Developer")).unwrap();
    assert!(c.has_profile(USER));
    c.delete_profile(USER).unwrap();
    assert!(!c.has_profile(USER));
    assert!(c.get_profile(USER).is_none());
}

#[test]
fn test_delete_nonexistent_profile_returns_error() {
    let mut c = ProfileRegistry::new();
    assert_eq!(c.delete_profile(USER), Err(ProfileError::ProfileNotFound));
}

#[test]
fn test_has_profile() {
    let mut c = ProfileRegistry::new();
    assert!(!c.has_profile(USER));
    c.set_profile(USER, text("Alice"), text("Dev")).unwrap();
    assert!(c.has_profile(USER));
}
