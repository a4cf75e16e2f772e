//! The deprecated deterministic passphrase.
//!
//! Older releases encrypted the secrets blob under a passphrase derived
//! from a fixed application identifier, the machine's hostname and the
//! configuration directory path.  The derivation is kept only so that
//! such a blob can still be decrypted once and re-encrypted under the
//! random master key; it is never used to encrypt new data.

use vstd::prelude::*;

use crate::error::AppError;

verus! {

/// The deterministic legacy passphrase for a hostname and a
/// configuration directory path.
pub open spec fn legacy_passphrase_spec(host: Seq<char>, config_dir: Seq<char>) -> Seq<char> {
    "WorkdayDebrief-"@ + host + "-"@ + config_dir
}

/// Relies on hostname::get: the machine's hostname, converted lossily to
/// a string; nothing is promised of the value.
#[verifier::external_body]
pub(crate) fn current_hostname() -> (r: Result<String, String>)
{
    match hostname::get() {
        Ok(h) => Ok(h.to_string_lossy().to_string()),
        Err(e) => Err(e.to_string()),
    }
}

/// The legacy passphrase for a given hostname and configuration
/// directory path.
pub fn derive_legacy_passphrase_from(host: &str, config_dir: &str) -> (r: String)
    ensures
        r@ == legacy_passphrase_spec(host@, config_dir@),
{
    let mut s = String::from_str("WorkdayDebrief-");
    s.append(host);
    s.append("-");
    s.append(config_dir);
    s
}

/// The legacy passphrase for this machine: derived from the machine's
/// hostname, which only the hostname lookup can supply, so the exact
/// value is pinned only relative to some hostname.
pub fn derive_legacy_passphrase(config_dir: &str) -> (r: Result<String, AppError>)
    ensures
        r matches Ok(p) ==> exists|h: Seq<char>| p@ == legacy_passphrase_spec(h, config_dir@),
        r matches Err(e) ==> e is NotConfigured,
{
    match current_hostname() {
        Ok(host) => {
            let p = derive_legacy_passphrase_from(host.as_str(), config_dir);
            proof {
                assert(p@ == legacy_passphrase_spec(host@, config_dir@));
            }
            Ok(p)
        }
        Err(msg) => {
            let mut m = String::from_str("Cannot get hostname: ");
            m.append(msg.as_str());
            Err(AppError::NotConfigured(m))
        }
    }
}

} // verus!
