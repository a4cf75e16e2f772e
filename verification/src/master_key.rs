//! Resolution and creation of the master key.
//!
//! The master key is the single passphrase under which the secrets blob
//! is encrypted: 256 bits of randomness, base64-encoded.  It comes from
//! one of three sources, in priority order: an explicit override value
//! supplied at process start, the persisted key file, or fresh generation
//! on first use.  Creation is race-safe by exclusive file creation: the
//! caller that owns the file handle attempts to create the key file
//! exclusively and, on losing that race, reads back the winner's file
//! through [`read_back_master_key`].

use vstd::prelude::*;

use crate::error::AppError;

verus! {

/// What str::trim leaves of a string: the characters with leading and
/// trailing whitespace removed.
pub uninterp spec fn trimmed(s: Seq<char>) -> Seq<char>;

/// The base64 standard alphabet, in index order.
pub open spec fn base64_alphabet() -> Seq<char> {
    seq![
        'A', 'B', 'C', 'D', 'E', 'F', 'G', 'H', 'I', 'J', 'K', 'L', 'M', 'N', 'O', 'P', 'Q', 'R',
        'S', 'T', 'U', 'V', 'W', 'X', 'Y', 'Z', 'a', 'b', 'c', 'd', 'e', 'f', 'g', 'h', 'i', 'j',
        'k', 'l', 'm', 'n', 'o', 'p', 'q', 'r', 's', 't', 'u', 'v', 'w', 'x', 'y', 'z', '0', '1',
        '2', '3', '4', '5', '6', '7', '8', '9', '+', '/',
    ]
}

/// Base64 of a byte string under the standard alphabet, with `=`
/// padding: each group of three bytes becomes four characters of six
/// bits each, and a final group of one or two bytes is zero-padded into
/// two or three characters followed by `=`.
pub open spec fn base64_std(bytes: Seq<u8>) -> Seq<char>
    decreases bytes.len(),
{
    let a = base64_alphabet();
    if bytes.len() == 0 {
        Seq::<char>::empty()
    } else if bytes.len() == 1 {
        let b0 = bytes[0] as int;
        seq![a[b0 / 4], a[(b0 % 4) * 16], '=', '=']
    } else if bytes.len() == 2 {
        let b0 = bytes[0] as int;
        let b1 = bytes[1] as int;
        seq![a[b0 / 4], a[(b0 % 4) * 16 + b1 / 16], a[(b1 % 16) * 4], '=']
    } else {
        let b0 = bytes[0] as int;
        let b1 = bytes[1] as int;
        let b2 = bytes[2] as int;
        seq![
            a[b0 / 4],
            a[(b0 % 4) * 16 + b1 / 16],
            a[(b1 % 16) * 4 + b2 / 64],
            a[b2 % 64],
        ] + base64_std(bytes.skip(3))
    }
}

/// The encoding's length: four characters for every started group of
/// three bytes.
pub proof fn lemma_base64_std_len(bytes: Seq<u8>)
    ensures
        base64_std(bytes).len() == 4 * ((bytes.len() + 2) / 3),
    decreases bytes.len(),
{
    if bytes.len() > 2 {
        lemma_base64_std_len(bytes.skip(3));
        assert(bytes.skip(3).len() == bytes.len() - 3);
        assert((bytes.len() + 2) / 3 == (bytes.len() - 3 + 2) / 3 + 1);
    }
}

/// Relies on str::trim: removes leading and trailing whitespace; the
/// result is a pure function of the characters.
#[verifier::external_body]
pub(crate) fn trim_to_string(s: &str) -> (r: String)
    ensures
        r@ == trimmed(s@),
{
    s.trim().to_string()
}

/// Relies on base64's standard-alphabet engine: the output is exactly
/// the encoding that `base64_std` states, and no character of the
/// alphabet or of the padding is whitespace, so trimming leaves the
/// output unchanged.
#[verifier::external_body]
pub(crate) fn base64_encode(bytes: &Vec<u8>) -> (r: String)
    ensures
        r@ == base64_std(bytes@),
        trimmed(r@) == r@,
{
    base64::Engine::encode(&base64::engine::general_purpose::STANDARD, bytes)
}

/// Relies on rand's OsRng: fills a buffer from the operating system's
/// entropy source; nothing is promised of the values.
#[verifier::external_body]
pub(crate) fn random_key_bytes() -> (r: Vec<u8>)
    ensures
        r@.len() == 32,
{
    let mut buf = [0u8; 32];
    rand::RngCore::fill_bytes(&mut rand::rngs::OsRng, &mut buf);
    buf.to_vec()
}

/// A string is blank when nothing but whitespace is in it.
pub open spec fn blank(s: Seq<char>) -> bool {
    trimmed(s).len() == 0
}

/// The view of an optional string.
pub open spec fn opt_view(o: Option<String>) -> Option<Seq<char>> {
    match o {
        Some(s) => Some(s@),
        None => None,
    }
}

/// The trimmed value of an optional string, when it is present and not blank.
pub open spec fn nonblank_trim(s: Option<Seq<char>>) -> Option<Seq<char>> {
    match s {
        Some(x) => if blank(x) {
            None
        } else {
            Some(trimmed(x))
        },
        None => None,
    }
}

/// The master key that an override value and the key file's contents
/// resolve to, if either yields one: a non-blank override value takes
/// absolute precedence; otherwise a non-blank key file decides; otherwise
/// a fresh key must be created.
pub open spec fn resolved_key_spec(
    override_value: Option<Seq<char>>,
    key_file: Option<Seq<char>>,
) -> Option<Seq<char>> {
    if nonblank_trim(override_value) is Some {
        nonblank_trim(override_value)
    } else {
        nonblank_trim(key_file)
    }
}

/// What the loser of the key-creation race accepts from the winner's key
/// file: its trimmed contents, unless they are blank.
pub open spec fn read_back_key_spec(contents: Seq<char>) -> Option<Seq<char>> {
    if blank(contents) {
        None
    } else {
        Some(trimmed(contents))
    }
}

/// Resolve the master key from the explicit override value and the key
/// file's contents, without creating anything: `None` means a fresh key
/// must be generated and persisted.
pub fn resolve_master_key(override_value: &Option<String>, key_file: &Option<String>) -> (r:
    Option<String>)
    ensures
        r is Some <==> resolved_key_spec(opt_view(*override_value), opt_view(*key_file)) is Some,
        r matches Some(k) ==> resolved_key_spec(opt_view(*override_value), opt_view(*key_file))
            == Some(k@),
{
    match override_value {
        Some(o) => {
            let t = trim_to_string(o.as_str());
            if !t.as_str().is_empty() {
                return Some(t);
            }
        }
        None => {}
    }
    match key_file {
        Some(f) => {
            let t = trim_to_string(f.as_str());
            if !t.as_str().is_empty() {
                return Some(t);
            }
        }
        None => {}
    }
    None
}

/// Generate a fresh master key: 32 cryptographically random bytes,
/// base64-encoded.  The result is never blank and trimming leaves it
/// unchanged, so a first run that persists it verbatim will resolve the
/// same key on every later run.
pub fn generate_master_key() -> (r: String)
    ensures
        r@.len() == 44,
        trimmed(r@) == r@,
        exists|b: Seq<u8>| b.len() == 32 && r@ == base64_std(b),
{
    let bytes = random_key_bytes();
    let key = base64_encode(&bytes);
    proof {
        lemma_base64_std_len(bytes@);
        assert(key@ == base64_std(bytes@));
        assert(key@.len() == 4 * ((32nat + 2) / 3));
    }
    key
}

/// Accept the key that the winner of the creation race persisted: its
/// trimmed contents, or a configuration error when the winner's file is
/// unexpectedly blank.
pub fn read_back_master_key(contents: &String) -> (r: Result<String, AppError>)
    ensures
        r matches Ok(k) ==> read_back_key_spec(contents@) == Some(k@),
        r is Err <==> read_back_key_spec(contents@) is None,
        r matches Err(e) ==> e is NotConfigured,
{
    let t = trim_to_string(contents.as_str());
    if t.as_str().is_empty() {
        Err(AppError::NotConfigured(String::from_str("Master key file exists but is empty")))
    } else {
        Ok(t)
    }
}

/// Race-safety of key creation: when one first run wins the exclusive
/// creation of the key file with a freshly generated key and the other
/// run loses and reads the winner's file back, both observe the same key.
pub proof fn lemma_key_creation_race(generated: Seq<char>)
    requires
        trimmed(generated) == generated,
        generated.len() > 0,
    ensures
        read_back_key_spec(generated) == Some(generated),
{
}

/// Override precedence: a non-blank override value decides the master
/// key, whatever the key file holds.
pub proof fn lemma_override_precedence(override_value: Seq<char>, key_file: Option<Seq<char>>)
    requires
        !blank(override_value),
    ensures
        resolved_key_spec(Some(override_value), key_file) == Some(trimmed(override_value)),
{
}

} // verus!
