use workday_debrief::error::AppError;
use workday_debrief::legacy::derive_legacy_passphrase;
use workday_debrief::secret_map::SecretMap;
use workday_debrief::vault::{
    decrypt_secrets_with_passphrase, delete_secret, encrypt_secrets_with_passphrase, get_secret,
    load_secrets, store_secret,
};

const MK: &str = "unit-test-master-key";
const DIR: &str = "/tmp/workday-debrief-config";

#[test]
fn fresh_store_then_get() {
    // Fresh environment: no secrets file.  Storing creates a blob; reading
    // it back yields the stored value, and an unknown key yields None.
    let blob = store_secret(&None, MK, DIR, "jira_api_token", "abc123").unwrap();
    let (value, rewrite) = get_secret(&Some(blob.clone()), MK, DIR, "jira_api_token").unwrap();
    assert_eq!(value.as_deref(), Some("abc123"));
    assert!(rewrite.is_none());
    let (missing, rewrite) = get_secret(&Some(blob), MK, DIR, "unknown").unwrap();
    assert!(missing.is_none());
    assert!(rewrite.is_none());
}

#[test]
fn get_on_absent_file_has_no_side_effect() {
    let (value, rewrite) = get_secret(&None, MK, DIR, "anything").unwrap();
    assert!(value.is_none());
    assert!(rewrite.is_none());
}

#[test]
fn load_on_absent_file_is_empty() {
    let (map, rewrite) = load_secrets(&None, MK, DIR).unwrap();
    assert!(map.get("whatever").is_none());
    assert!(rewrite.is_none());
}

#[test]
fn delete_removes_the_key() {
    let b1 = store_secret(&None, MK, DIR, "slack_webhook_url", "https://hooks").unwrap();
    let b2 = delete_secret(&Some(b1), MK, DIR, "slack_webhook_url").unwrap();
    let (value, _) = get_secret(&Some(b2), MK, DIR, "slack_webhook_url").unwrap();
    assert!(value.is_none());
}

#[test]
fn delete_on_absent_file_still_writes() {
    // Deleting from an empty vault succeeds and produces a blob that
    // decrypts to the empty mapping.
    let blob = delete_secret(&None, MK, DIR, "nothing").unwrap();
    let (value, rewrite) = get_secret(&Some(blob), MK, DIR, "nothing").unwrap();
    assert!(value.is_none());
    assert!(rewrite.is_none());
}

#[test]
fn overwrite_replaces_and_keeps_other_keys() {
    let b1 = store_secret(&None, MK, DIR, "toggl_api_token", "old-token").unwrap();
    let b2 = store_secret(&Some(b1), MK, DIR, "jira_email", "me@example.com").unwrap();
    let b3 = store_secret(&Some(b2), MK, DIR, "toggl_api_token", "new-token").unwrap();
    let (value, _) = get_secret(&Some(b3.clone()), MK, DIR, "toggl_api_token").unwrap();
    assert_eq!(value.as_deref(), Some("new-token"));
    let (other, _) = get_secret(&Some(b3), MK, DIR, "jira_email").unwrap();
    assert_eq!(other.as_deref(), Some("me@example.com"));
}

#[test]
fn values_round_trip_exactly() {
    let tricky = "quo\"te\\back\nnew ünïcode {}[]";
    let blob = store_secret(&None, MK, DIR, "smtp_password", tricky).unwrap();
    let (value, _) = get_secret(&Some(blob), MK, DIR, "smtp_password").unwrap();
    assert_eq!(value.as_deref(), Some(tricky));
}

#[test]
fn blob_does_not_leak_plaintext() {
    let blob = store_secret(&None, MK, DIR, "jira_api_token", "abc123").unwrap();
    assert!(blob.len() > 6);
    assert!(blob.windows(6).all(|w| w != b"abc123"));
}

#[test]
fn tampering_fails_every_operation() {
    let mut blob = store_secret(&None, MK, DIR, "jira_api_token", "abc123").unwrap();
    let mid = blob.len() / 2;
    blob[mid] ^= 0x01;
    let file = Some(blob);
    assert!(matches!(
        get_secret(&file, MK, DIR, "jira_api_token"),
        Err(AppError::DecryptionError(_))
    ));
    assert!(matches!(
        store_secret(&file, MK, DIR, "jira_api_token", "other"),
        Err(AppError::DecryptionError(_))
    ));
    assert!(matches!(
        delete_secret(&file, MK, DIR, "jira_api_token"),
        Err(AppError::DecryptionError(_))
    ));
}

#[test]
fn data_under_one_key_is_unreadable_under_another() {
    // An override key and a persisted key encrypt independent vaults.
    let blob_x = store_secret(&None, "key-X", DIR, "jira_api_token", "written-under-x").unwrap();
    assert!(matches!(
        get_secret(&Some(blob_x.clone()), "key-Y", DIR, "jira_api_token"),
        Err(AppError::DecryptionError(_))
    ));
    let (value, _) = get_secret(&Some(blob_x), "key-X", DIR, "jira_api_token").unwrap();
    assert_eq!(value.as_deref(), Some("written-under-x"));
}

#[test]
fn undecryptable_blob_is_an_error_not_an_empty_vault() {
    let garbage = vec![0u8; 64];
    assert!(matches!(
        get_secret(&Some(garbage), MK, DIR, "anything"),
        Err(AppError::DecryptionError(_))
    ));
}

#[test]
fn decrypted_non_json_is_a_serialization_error() {
    // Encrypt bytes that are not a JSON object of strings, with age
    // itself, under the vault's own master key.
    let not_json = b"this is not json".to_vec();
    let encryptor = age::Encryptor::with_user_passphrase(age::secrecy::Secret::new(MK.to_string()));
    let mut ciphertext: Vec<u8> = Vec::new();
    let mut writer = encryptor.wrap_output(&mut ciphertext).unwrap();
    std::io::Write::write_all(&mut writer, &not_json).unwrap();
    writer.finish().unwrap();
    assert!(matches!(
        decrypt_secrets_with_passphrase(&ciphertext, MK),
        Err(AppError::SerializationError(_))
    ));
    assert!(matches!(
        get_secret(&Some(ciphertext), MK, DIR, "anything"),
        Err(AppError::SerializationError(_))
    ));
}

#[test]
fn legacy_blob_is_migrated_on_first_read() {
    let config_dir = "/tmp/workday-debrief-migration";
    let legacy = derive_legacy_passphrase(config_dir).unwrap();
    let mut map = SecretMap::new();
    map.insert("google_refresh_token", "legacy-value");
    let legacy_blob = encrypt_secrets_with_passphrase(&map, legacy.as_str());

    // The current master key does not decrypt the legacy blob directly.
    assert!(matches!(
        decrypt_secrets_with_passphrase(&legacy_blob, MK),
        Err(AppError::DecryptionError(_))
    ));

    // The first read succeeds and hands back a re-encrypted blob.
    let (value, rewrite) = get_secret(&Some(legacy_blob), MK, config_dir, "google_refresh_token")
        .unwrap();
    assert_eq!(value.as_deref(), Some("legacy-value"));
    let migrated = rewrite.expect("a legacy blob must be re-encrypted on load");

    // The migrated blob depends on the current master key alone.
    let map = decrypt_secrets_with_passphrase(&migrated, MK).unwrap();
    assert_eq!(map.get("google_refresh_token").as_deref(), Some("legacy-value"));
    let (value, rewrite) = get_secret(&Some(migrated), MK, config_dir, "google_refresh_token")
        .unwrap();
    assert_eq!(value.as_deref(), Some("legacy-value"));
    assert!(rewrite.is_none());
}
