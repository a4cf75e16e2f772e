//! JSON encoding of the secret mapping.
//!
//! The vault serializes the mapping to JSON before encrypting it and
//! parses JSON after decrypting.  Both directions are done by serde_json
//! through the trusted wrappers below; what a byte string parses to is
//! named by `json_map_of`, and encoding is specified by the promise that
//! its output parses back to the map that went in.

use std::collections::HashMap;

use vstd::prelude::*;

use crate::secret_map::{pairs_map, unique_keys};

verus! {

/// The string-to-string mapping that a byte string holds as JSON, if it
/// holds one: the result of parsing it as a JSON object of strings.
pub uninterp spec fn json_map_of(bytes: Seq<u8>) -> Option<Map<Seq<char>, Seq<char>>>;

/// Relies on serde_json::to_vec: a map with string keys and string values
/// always serializes (writing to a byte buffer cannot fail), and
/// serde_json::from_slice parses the output back to the same map.
#[verifier::external_body]
pub(crate) fn json_encode_pairs(pairs: &Vec<(String, String)>) -> (r: Vec<u8>)
    requires
        unique_keys(pairs@),
    ensures
        json_map_of(r@) == Some(pairs_map(pairs@)),
{
    let mut map: HashMap<&str, &str> = HashMap::new();
    for e in pairs.iter() {
        map.insert(e.0.as_str(), e.1.as_str());
    }
    serde_json::to_vec(&map).expect("a map of strings always serializes")
}

/// Relies on serde_json::from_slice: parses a byte string as a JSON object
/// of strings; the outcome is a pure function of the bytes.  The order of
/// the returned pairs is arbitrary.
#[verifier::external_body]
pub(crate) fn json_decode_pairs(bytes: &Vec<u8>) -> (r: Result<Vec<(String, String)>, String>)
    ensures
        r is Ok <==> json_map_of(bytes@) is Some,
        r matches Ok(v) ==> unique_keys(v@) && Some(pairs_map(v@)) == json_map_of(bytes@),
{
    match serde_json::from_slice::<HashMap<String, String>>(bytes) {
        Ok(map) => Ok(map.into_iter().collect()),
        Err(e) => Err(e.to_string()),
    }
}

} // verus!
