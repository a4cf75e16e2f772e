use workday_debrief::secret_map::SecretMap;

#[test]
fn empty_map_has_nothing() {
    let map = SecretMap::new();
    assert!(map.get("anything").is_none());
}

#[test]
fn insert_then_get() {
    let mut map = SecretMap::new();
    map.insert("smtp_password", "hunter2");
    assert_eq!(map.get("smtp_password").as_deref(), Some("hunter2"));
    assert!(map.get("smtp").is_none());
}

#[test]
fn insert_overwrites() {
    let mut map = SecretMap::new();
    map.insert("token", "first");
    map.insert("token", "second");
    assert_eq!(map.get("token").as_deref(), Some("second"));
}

#[test]
fn remove_deletes_only_its_key() {
    let mut map = SecretMap::new();
    map.insert("a", "1");
    map.insert("b", "2");
    map.remove("a");
    assert!(map.get("a").is_none());
    assert_eq!(map.get("b").as_deref(), Some("2"));
}

#[test]
fn remove_absent_key_is_a_no_op() {
    let mut map = SecretMap::new();
    map.insert("a", "1");
    map.remove("never-stored");
    assert_eq!(map.get("a").as_deref(), Some("1"));
}

#[test]
fn keys_are_case_sensitive() {
    let mut map = SecretMap::new();
    map.insert("Token", "upper");
    map.insert("token", "lower");
    assert_eq!(map.get("Token").as_deref(), Some("upper"));
    assert_eq!(map.get("token").as_deref(), Some("lower"));
}
