//! The secret vault: CRUD over an encrypted, file-backed mapping.
//!
//! Every operation is self-contained: it decrypts the current blob,
//! mutates the mapping in memory and re-encrypts the whole blob.  The
//! functions here take the raw contents of the secrets file (`None` when
//! the file does not exist) together with the resolved master key and
//! the configuration directory path, and return the result of the
//! operation together with the bytes to persist, so the caller that owns
//! the file handles does nothing but read and write them:
//!
//! * `get_secret` returns the stored value and, only when a legacy blob
//!   was migrated on the way, replacement bytes for the secrets file;
//! * `store_secret` and `delete_secret` return the new blob, which the
//!   caller must write back in full.
//!
//! Decryption is attempted with the current master key first; on failure
//! the deprecated deterministic passphrase is derived and tried once, and
//! a blob recovered that way is immediately re-encrypted under the
//! current key.  When both attempts fail the error of the current-key
//! attempt is the one reported.
//!
//! The contracts pin what a success means — whatever mapping comes back
//! is the mathematical decryption of the blob it came from — but they do
//! not promise success on every mathematically decryptable blob: age
//! caps the scrypt work factor it accepts at decryption by measuring the
//! machine at call time (see `crate::cipher`), so even a well-formed
//! blob can be rejected with a decryption-class error.

use vstd::prelude::*;

use crate::cipher::{age_plaintext_of, passphrase_decrypt, passphrase_encrypt};
use crate::codec::{json_decode_pairs, json_encode_pairs, json_map_of};
use crate::error::AppError;
use crate::legacy::{derive_legacy_passphrase, legacy_passphrase_spec};
use crate::secret_map::SecretMap;

verus! {

/// The mapping that a secrets blob mathematically yields under a
/// passphrase: decrypt, then parse the plaintext as JSON.  `None` when
/// either step fails.
pub open spec fn load_map_of(ciphertext: Seq<u8>, passphrase: Seq<char>) -> Option<
    Map<Seq<char>, Seq<char>>,
> {
    match age_plaintext_of(ciphertext, passphrase) {
        Some(plain) => json_map_of(plain),
        None => None,
    }
}

/// Some passphrase that is the legacy passphrase of this machine for the
/// given configuration directory decrypts the blob to the mapping `m`.
/// The hostname is quantified because only the hostname lookup can say
/// what it is.
pub open spec fn legacy_recovers(ciphertext: Seq<u8>, config_dir: Seq<char>, m: Map<
    Seq<char>,
    Seq<char>,
>) -> bool {
    exists|h: Seq<char>|
        load_map_of(ciphertext, #[trigger] legacy_passphrase_spec(h, config_dir)) == Some(m)
}

/// Decrypt a secrets blob under one passphrase and parse it.
///
/// A success hands back exactly the blob's mathematical decryption,
/// parsed; a blob with no mathematical decryption always fails with
/// `DecryptionError`.  `SerializationError` is reported exactly when the
/// decryption succeeded and its plaintext is not a JSON object of
/// strings.  A mathematically decryptable blob may still fail with
/// `DecryptionError` when its embedded work factor is above the cap age
/// measures at call time.
pub fn decrypt_secrets_with_passphrase(encrypted_data: &Vec<u8>, passphrase: &str) -> (r: Result<
    SecretMap,
    AppError,
>)
    ensures
        r matches Ok(m) ==> m.wf() && load_map_of(encrypted_data@, passphrase@) == Some(m@),
        load_map_of(encrypted_data@, passphrase@) is None ==> r is Err,
        r matches Err(e) ==> e is DecryptionError || e is SerializationError,
        r matches Err(e) ==> (e is SerializationError ==> (age_plaintext_of(
            encrypted_data@,
            passphrase@,
        ) matches Some(plain) && json_map_of(plain) is None)),
        age_plaintext_of(encrypted_data@, passphrase@) is None ==> (r matches Err(e)
            && e is DecryptionError),
{
    match passphrase_decrypt(encrypted_data, passphrase) {
        Ok(plain) => match json_decode_pairs(&plain) {
            Ok(pairs) => Ok(SecretMap::from_pairs(pairs)),
            Err(msg) => {
                let mut m = String::from_str("Cannot parse secrets JSON: ");
                m.append(msg.as_str());
                Err(AppError::SerializationError(m))
            }
        },
        Err(msg) => {
            let mut m = String::from_str("Cannot decrypt secrets: ");
            m.append(msg.as_str());
            Err(AppError::DecryptionError(m))
        }
    }
}

/// Serialize a mapping to JSON and encrypt it under a passphrase.
pub fn encrypt_secrets_with_passphrase(secrets: &SecretMap, passphrase: &str) -> (r: Vec<u8>)
    requires
        secrets.wf(),
    ensures
        load_map_of(r@, passphrase@) == Some(secrets@),
{
    let json = json_encode_pairs(secrets.as_pairs());
    passphrase_encrypt(&json, passphrase)
}

/// Load the secret mapping from the secrets file's contents.
///
/// A missing file is an empty vault, and nothing is written.  Otherwise
/// a success is one of exactly two shapes: the current master key
/// decrypted the blob to the returned mapping and there is nothing to
/// write, or a legacy passphrase of this machine did, and the returned
/// bytes — which the caller must persist — are that mapping re-encrypted
/// under the current key.  Plaintext that is not a JSON object of
/// strings is a fatal `SerializationError`, never retried against the
/// legacy passphrase.  When both decryption attempts fail the
/// current-key error is the one reported, and when the legacy passphrase
/// cannot even be derived, the configuration error is.  No failure ever
/// yields an empty mapping in place of an error.
pub fn load_secrets(file: &Option<Vec<u8>>, master_key: &str, config_dir: &str) -> (r: Result<
    (SecretMap, Option<Vec<u8>>),
    AppError,
>)
    ensures
        r matches Ok(p) ==> p.0.wf(),
        match *file {
            None => (r matches Ok(p) && p.0@ == Map::<Seq<char>, Seq<char>>::empty()
                && p.1 is None),
            Some(c) => match r {
                Ok(p) => match p.1 {
                    None => load_map_of(c@, master_key@) == Some(p.0@),
                    Some(b) => (load_map_of(b@, master_key@) == Some(p.0@) && legacy_recovers(
                        c@,
                        config_dir@,
                        p.0@,
                    )),
                },
                Err(e) => ((e is DecryptionError || e is SerializationError
                    || e is NotConfigured) && (e is SerializationError ==> (age_plaintext_of(
                    c@,
                    master_key@,
                ) matches Some(plain) && json_map_of(plain) is None))),
            },
        },
{
    match file {
        None => Ok((SecretMap::new(), None)),
        Some(encrypted) => {
            match decrypt_secrets_with_passphrase(encrypted, master_key) {
                Ok(secrets) => Ok((secrets, None)),
                Err(primary_err) => {
                    if matches!(primary_err, AppError::SerializationError(_)) {
                        return Err(primary_err);
                    }
                    let legacy = match derive_legacy_passphrase(config_dir) {
                        Ok(p) => p,
                        Err(e) => {
                            return Err(e);
                        }
                    };
                    match decrypt_secrets_with_passphrase(encrypted, legacy.as_str()) {
                        Ok(recovered) => {
                            let reencrypted = encrypt_secrets_with_passphrase(
                                &recovered,
                                master_key,
                            );
                            proof {
                                let h0 = choose|h: Seq<char>|
                                    legacy@ == legacy_passphrase_spec(h, config_dir@);
                                assert(load_map_of(
                                    encrypted@,
                                    legacy_passphrase_spec(h0, config_dir@),
                                ) == Some(recovered@));
                            }
                            Ok((recovered, Some(reencrypted)))
                        }
                        Err(_) => Err(primary_err),
                    }
                }
            }
        }
    }
}

/// Retrieve the value stored under `key`.
///
/// Never creates a secrets file: when the file is absent the result is
/// `None` and there is nothing to write.  Only a legacy migration makes
/// a read return bytes to persist, and then the returned value is read
/// from the migrated mapping.
pub fn get_secret(file: &Option<Vec<u8>>, master_key: &str, config_dir: &str, key: &str) -> (r:
    Result<(Option<String>, Option<Vec<u8>>), AppError>)
    ensures
        match *file {
            None => (r matches Ok(p) && p.0 is None && p.1 is None),
            Some(c) => match r {
                Ok(p) => match p.1 {
                    None => (load_map_of(c@, master_key@) matches Some(m) && (match p.0 {
                        Some(v) => m.contains_key(key@) && v@ == m[key@],
                        None => !m.contains_key(key@),
                    })),
                    Some(b) => (load_map_of(b@, master_key@) matches Some(m2) && legacy_recovers(
                        c@,
                        config_dir@,
                        m2,
                    ) && (match p.0 {
                        Some(v) => m2.contains_key(key@) && v@ == m2[key@],
                        None => !m2.contains_key(key@),
                    })),
                },
                Err(e) => ((e is DecryptionError || e is SerializationError
                    || e is NotConfigured) && (e is SerializationError ==> (age_plaintext_of(
                    c@,
                    master_key@,
                ) matches Some(plain) && json_map_of(plain) is None))),
            },
        },
{
    match load_secrets(file, master_key, config_dir) {
        Ok((secrets, rewrite)) => Ok((secrets.get(key), rewrite)),
        Err(e) => Err(e),
    }
}

/// Store `value` under `key`, replacing any previous value.
///
/// On success the returned bytes are the vault's new blob: they decrypt
/// under the current master key to the loaded mapping — read with the
/// current key, or recovered by a legacy passphrase of this machine —
/// with `key` bound to `value`.  On a fresh vault (no file) the store
/// always succeeds.
pub fn store_secret(
    file: &Option<Vec<u8>>,
    master_key: &str,
    config_dir: &str,
    key: &str,
    value: &str,
) -> (r: Result<Vec<u8>, AppError>)
    ensures
        match *file {
            None => (r matches Ok(b) && load_map_of(b@, master_key@) == Some(
                Map::<Seq<char>, Seq<char>>::empty().insert(key@, value@),
            )),
            Some(c) => match r {
                Ok(b) => exists|m0: Map<Seq<char>, Seq<char>>|
                    #![trigger m0.insert(key@, value@)]
                    ((load_map_of(c@, master_key@) == Some(m0) || legacy_recovers(
                        c@,
                        config_dir@,
                        m0,
                    )) && load_map_of(b@, master_key@) == Some(m0.insert(key@, value@))),
                Err(e) => ((e is DecryptionError || e is SerializationError
                    || e is NotConfigured) && (e is SerializationError ==> (age_plaintext_of(
                    c@,
                    master_key@,
                ) matches Some(plain) && json_map_of(plain) is None))),
            },
        },
{
    match load_secrets(file, master_key, config_dir) {
        Ok((mut secrets, _migrated)) => {
            let ghost loaded = secrets@;
            secrets.insert(key, value);
            let blob = encrypt_secrets_with_passphrase(&secrets, master_key);
            proof {
                assert(load_map_of(blob@, master_key@) == Some(loaded.insert(key@, value@)));
            }
            Ok(blob)
        }
        Err(e) => Err(e),
    }
}

/// Delete the value stored under `key`.
///
/// Deleting an absent key succeeds as a no-op that still rewrites the
/// file: on success the returned bytes are always the vault's new blob,
/// the loaded mapping without `key`.  On a fresh vault (no file) the
/// delete always succeeds.
pub fn delete_secret(file: &Option<Vec<u8>>, master_key: &str, config_dir: &str, key: &str) -> (r:
    Result<Vec<u8>, AppError>)
    ensures
        match *file {
            None => (r matches Ok(b) && load_map_of(b@, master_key@) == Some(
                Map::<Seq<char>, Seq<char>>::empty().remove(key@),
            )),
            Some(c) => match r {
                Ok(b) => exists|m0: Map<Seq<char>, Seq<char>>|
                    #![trigger m0.remove(key@)]
                    ((load_map_of(c@, master_key@) == Some(m0) || legacy_recovers(
                        c@,
                        config_dir@,
                        m0,
                    )) && load_map_of(b@, master_key@) == Some(m0.remove(key@))),
                Err(e) => ((e is DecryptionError || e is SerializationError
                    || e is NotConfigured) && (e is SerializationError ==> (age_plaintext_of(
                    c@,
                    master_key@,
                ) matches Some(plain) && json_map_of(plain) is None))),
            },
        },
{
    match load_secrets(file, master_key, config_dir) {
        Ok((mut secrets, _migrated)) => {
            let ghost loaded = secrets@;
            secrets.remove(key);
            let blob = encrypt_secrets_with_passphrase(&secrets, master_key);
            proof {
                assert(load_map_of(blob@, master_key@) == Some(loaded.remove(key@)));
            }
            Ok(blob)
        }
        Err(e) => Err(e),
    }
}

/// Round trip: after a store of `value` under `name` produced the blob
/// `b` from the prior mapping, loading `b` under the same master key
/// yields a mapping that holds `value` under `name`.
pub proof fn lemma_store_then_get(
    prior: Map<Seq<char>, Seq<char>>,
    name: Seq<char>,
    value: Seq<char>,
    master_key: Seq<char>,
    b: Seq<u8>,
)
    requires
        load_map_of(b, master_key) == Some(prior.insert(name, value)),
    ensures
        load_map_of(b, master_key) matches Some(m) && m.contains_key(name) && m[name] == value,
{
}

/// Deletion: after a store of `value` under `name` and then a delete of
/// `name`, loading the resulting blob yields a mapping without `name`.
pub proof fn lemma_store_delete_get(
    prior: Map<Seq<char>, Seq<char>>,
    name: Seq<char>,
    value: Seq<char>,
    master_key: Seq<char>,
    b: Seq<u8>,
)
    requires
        load_map_of(b, master_key) == Some(prior.insert(name, value).remove(name)),
    ensures
        load_map_of(b, master_key) matches Some(m) && !m.contains_key(name),
{
}

/// Idempotent overwrite: after two stores under the same name, the
/// second value wins and every other previously stored name keeps its
/// previous value.
pub proof fn lemma_overwrite(
    prior: Map<Seq<char>, Seq<char>>,
    name: Seq<char>,
    first_value: Seq<char>,
    second_value: Seq<char>,
    master_key: Seq<char>,
    b: Seq<u8>,
)
    requires
        load_map_of(b, master_key) == Some(
            prior.insert(name, first_value).insert(name, second_value),
        ),
    ensures
        load_map_of(b, master_key) matches Some(m) && m.contains_key(name) && m[name]
            == second_value && (forall|other: Seq<char>|
            other != name && prior.contains_key(other) ==> #[trigger] m.contains_key(other)
                && m[other] == prior[other]),
{
}

/// Legacy migration leaves no dependence on the legacy passphrase: a
/// blob that a load re-encrypted under the current master key decrypts
/// mathematically under that key alone, so a later load may take the
/// current-key path and rewrite nothing.
pub proof fn lemma_migrated_blob_is_current(
    m: Map<Seq<char>, Seq<char>>,
    master_key: Seq<char>,
    b: Seq<u8>,
)
    requires
        load_map_of(b, master_key) == Some(m),
    ensures
        age_plaintext_of(b, master_key) is Some,
        load_map_of(b, master_key) matches Some(m2) && m2 == m,
{
}

/// Tamper detection and key independence, relative to age's
/// authentication: a blob whose mathematical decryption exists under
/// neither the current master key nor any legacy passphrase for the
/// given configuration directory can never load.  With the contracts of
/// `load_secrets`, `get_secret`, `store_secret` and `delete_secret`,
/// every vault operation on such a blob must report an error — never a
/// silently empty or recovered mapping.  This covers both a tampered
/// blob and one written under a different master key; that one flipped
/// byte, or a changed key, destroys the mathematical decryption itself
/// is age's cryptographic guarantee, which no contract here states.
pub proof fn lemma_undecryptable_blob_never_loads(
    c: Seq<u8>,
    master_key: Seq<char>,
    config_dir: Seq<char>,
)
    requires
        age_plaintext_of(c, master_key) is None,
        forall|h: Seq<char>|
            age_plaintext_of(c, #[trigger] legacy_passphrase_spec(h, config_dir)) is None,
    ensures
        load_map_of(c, master_key) is None,
        forall|m: Map<Seq<char>, Seq<char>>| !legacy_recovers(c, config_dir, m),
{
    assert forall|m: Map<Seq<char>, Seq<char>>| !legacy_recovers(c, config_dir, m) by {
        if legacy_recovers(c, config_dir, m) {
            let h = choose|h: Seq<char>|
                load_map_of(c, #[trigger] legacy_passphrase_spec(h, config_dir)) == Some(m);
            assert(age_plaintext_of(c, legacy_passphrase_spec(h, config_dir)) is None);
        }
    }
}

} // verus!
