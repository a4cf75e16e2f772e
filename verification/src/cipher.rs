//! Passphrase-based authenticated encryption of the secrets blob.
//!
//! The on-disk secrets file is an age file in its single-recipient
//! passphrase mode: the blob embeds its own salt, scrypt work factor and
//! format marker, so decryption needs nothing but the ciphertext and the
//! passphrase.  What a ciphertext decrypts to mathematically is named by
//! `age_plaintext_of`; encryption is specified by the promise that its
//! output decrypts back to the plaintext that went in.
//!
//! One caution runs through every contract here: age caps the scrypt
//! work factor it will accept at decryption, and when no explicit cap is
//! given it measures the machine at call time to pick one.  A decryption
//! call may therefore fail on a blob whose mathematical decryption
//! exists, if the blob's embedded work factor is above the cap of the
//! moment.  So the wrappers promise that whatever comes back is the
//! mathematical decryption, and that a blob with no mathematical
//! decryption is always rejected — but not that every mathematically
//! decryptable blob is accepted.

use vstd::prelude::*;

verus! {

/// The plaintext that age passphrase decryption mathematically recovers
/// from a ciphertext under a passphrase, if any: `None` when the bytes
/// are not an age file, use any method other than a passphrase, or fail
/// authentication — regardless of any work-factor cap.
pub uninterp spec fn age_plaintext_of(ciphertext: Seq<u8>, passphrase: Seq<char>) -> Option<Seq<u8>>;

/// Relies on age::Encryptor::with_user_passphrase and its stream writer:
/// decrypting the output with the same passphrase yields the input again,
/// and writing to an in-memory buffer cannot fail.
#[verifier::external_body]
pub(crate) fn passphrase_encrypt(plaintext: &Vec<u8>, passphrase: &str) -> (r: Vec<u8>)
    ensures
        age_plaintext_of(r@, passphrase@) == Some(plaintext@),
{
    let encryptor =
        age::Encryptor::with_user_passphrase(age::secrecy::Secret::new(passphrase.to_string()));
    let mut ciphertext: Vec<u8> = Vec::new();
    let mut writer = encryptor
        .wrap_output(&mut ciphertext)
        .expect("writing the header to a byte buffer cannot fail");
    std::io::Write::write_all(&mut writer, plaintext)
        .expect("writing a chunk to a byte buffer cannot fail");
    writer.finish().expect("flushing the last chunk to a byte buffer cannot fail");
    ciphertext
}

/// Relies on age::Decryptor in its passphrase mode: a success hands back
/// the mathematical decryption, and a blob with no mathematical
/// decryption under the passphrase is always rejected.  The converse is
/// not promised: age also rejects a blob whose embedded scrypt work
/// factor is above the cap it measures from the machine at call time,
/// so a call may fail where the mathematical decryption exists.
#[verifier::external_body]
pub(crate) fn passphrase_decrypt(ciphertext: &Vec<u8>, passphrase: &str) -> (r: Result<
    Vec<u8>,
    String,
>)
    ensures
        r matches Ok(p) ==> Some(p@) == age_plaintext_of(ciphertext@, passphrase@),
        age_plaintext_of(ciphertext@, passphrase@) is None ==> r is Err,
{
    let decryptor = match age::Decryptor::new(&ciphertext[..]).map_err(|e| e.to_string())? {
        age::Decryptor::Passphrase(d) => d,
        _ => return Err("unexpected encryption method".to_string()),
    };
    let mut reader = decryptor
        .decrypt(&age::secrecy::Secret::new(passphrase.to_string()), None)
        .map_err(|e| e.to_string())?;
    let mut plaintext: Vec<u8> = Vec::new();
    std::io::Read::read_to_end(&mut reader, &mut plaintext).map_err(|e| e.to_string())?;
    Ok(plaintext)
}

} // verus!
