//! The file through which the address goes from the tool that makes it to
//! the tool that mines for it: the address as one JSON string.

use iota_sdk::types::block::address::Bech32Address;
use vstd::prelude::*;

verus! {

/// The name of the file that holds the address.
pub const ADDRESS_FILE_NAME: &'static str = "address.json";

/// The error type of `serde_json`.
#[verifier::external_type_specification]
#[verifier::external_body]
pub struct ExJsonError(serde_json::Error);

/// Why the text of an address file could not be made or read.
#[derive(Debug)]
pub enum AddressFileError {
    /// `serde_json` refused, with the error `source`.
    Json { source: serde_json::Error },
}

/// The address that the JSON text `json` holds, as `serde_json::from_str`
/// reads the SDK's `Bech32Address`; `None` where `serde_json` gives an
/// error.
pub uninterp spec fn parsed_address(json: Seq<char>) -> Option<Bech32Address>;

/// The JSON text of `address`, as `serde_json::to_string_pretty` writes
/// the SDK's `Bech32Address`; `None` where `serde_json` gives an error.
pub uninterp spec fn address_json(address: Bech32Address) -> Option<Seq<char>>;

/// The bytes of the network prefix of `address`, as the SDK writes the
/// prefix out.
pub uninterp spec fn prefix_of(address: Bech32Address) -> Seq<u8>;

/// Whether `json` is the JSON text of an address.
pub open spec fn holds_address(json: Seq<char>) -> bool {
    parsed_address(json) is Some
}

/// Whether `byte` is a lower-case letter.
pub open spec fn is_lower(byte: u8) -> bool {
    97 <= byte <= 122
}

/// Whether `byte` is an upper-case letter.
pub open spec fn is_upper(byte: u8) -> bool {
    65 <= byte <= 90
}

/// Whether a lower-case letter stands before position `k` of `prefix`.
pub open spec fn lower_before(prefix: Seq<u8>, k: int) -> bool {
    exists|i: int| 0 <= i < k && is_lower(#[trigger] prefix[i])
}

/// Whether an upper-case letter stands before position `k` of `prefix`.
pub open spec fn upper_before(prefix: Seq<u8>, k: int) -> bool {
    exists|i: int| 0 <= i < k && is_upper(#[trigger] prefix[i])
}

/// Whether an address with the network prefix `prefix` can be written in
/// Bech32: the prefix has 1 to 83 bytes, each of them a printable ASCII
/// character, and does not mix lower-case and upper-case letters.
pub open spec fn encodable_prefix(prefix: Seq<u8>) -> bool {
    &&& 1 <= prefix.len() <= 83
    &&& forall|i: int| 0 <= i < prefix.len() ==> 33 <= #[trigger] prefix[i] <= 126
    &&& !(lower_before(prefix, prefix.len() as int) && upper_before(prefix, prefix.len() as int))
}

/// Calls `serde_json::from_str` for a `Bech32Address`.  The outcome
/// depends on the text alone, and the contract gives it its name.
#[verifier::external_body]
fn address_from_json(json: &str) -> (r: Result<Bech32Address, serde_json::Error>)
    ensures
        r is Ok <==> parsed_address(json@) is Some,
        r matches Ok(address) ==> parsed_address(json@) == Some(address),
{
    serde_json::from_str(json)
}

/// Calls `serde_json::to_string_pretty` on a `Bech32Address`.  The SDK
/// writes the address in Bech32 on the way and panics where the prefix
/// cannot be encoded, so such an address is left out.  The outcome depends
/// on the address alone, and the contract gives it its name.
#[verifier::external_body]
fn address_to_json(address: &Bech32Address) -> (r: Result<String, serde_json::Error>)
    requires
        encodable_prefix(prefix_of(*address)),
    ensures
        r is Ok <==> address_json(*address) is Some,
        r matches Ok(json) ==> address_json(*address) == Some(json@),
{
    serde_json::to_string_pretty(address)
}

/// Writes out the network prefix of an address with the SDK's `Display`
/// for `Hrp`, and hands out its bytes.  The bytes depend on the address
/// alone, and the contract gives them their name.
#[verifier::external_body]
fn prefix_bytes(address: &Bech32Address) -> (r: Vec<u8>)
    ensures
        r@ == prefix_of(*address),
{
    address.hrp().to_string().into_bytes()
}

/// Whether an address with the network prefix `prefix` can be written in
/// Bech32.
pub fn prefix_is_encodable(prefix: &[u8]) -> (r: bool)
    ensures
        r == encodable_prefix(prefix@),
{
    if prefix.len() == 0 || prefix.len() > 83 {
        return false;
    }
    let mut has_lower = false;
    let mut has_upper = false;
    let mut i: usize = 0;
    while i < prefix.len()
        invariant
            i <= prefix@.len(),
            forall|j: int| 0 <= j < i ==> 33 <= #[trigger] prefix@[j] <= 126,
            has_lower == lower_before(prefix@, i as int),
            has_upper == upper_before(prefix@, i as int),
        decreases prefix@.len() - i,
    {
        let byte = prefix[i];
        if byte < 33 || byte > 126 {
            return false;
        }
        proof {
            let p = prefix@;
            if is_lower(byte) {
                assert(is_lower(p[i as int]));
            } else if lower_before(p, i + 1) {
                let w = choose|w: int| 0 <= w < i + 1 && is_lower(#[trigger] p[w]);
                assert(w < i);
            }
            if is_upper(byte) {
                assert(is_upper(p[i as int]));
            } else if upper_before(p, i + 1) {
                let w = choose|w: int| 0 <= w < i + 1 && is_upper(#[trigger] p[w]);
                assert(w < i);
            }
        }
        if 97 <= byte && byte <= 122 {
            has_lower = true;
        }
        if 65 <= byte && byte <= 90 {
            has_upper = true;
        }
        i = i + 1;
    }
    !(has_lower && has_upper)
}

/// Whether `address` can be written: its network prefix can be encoded.
pub fn can_encode(address: &Bech32Address) -> (r: bool)
    ensures
        r == encodable_prefix(prefix_of(*address)),
{
    let prefix = prefix_bytes(address);
    prefix_is_encodable(prefix.as_slice())
}

/// The address that the text of an address file holds; an error where the
/// text holds none.
pub fn decode_address(json: &str) -> (r: Result<Bech32Address, AddressFileError>)
    ensures
        r is Ok <==> holds_address(json@),
        r matches Ok(address) ==> parsed_address(json@) == Some(address),
{
    match address_from_json(json) {
        Ok(address) => Ok(address),
        Err(source) => Err(AddressFileError::Json { source }),
    }
}

/// The text of the address file for `address`, which can be written: the
/// address as JSON; an error where `serde_json` refuses it.
pub fn encode_address(address: &Bech32Address) -> (r: Result<String, AddressFileError>)
    requires
        encodable_prefix(prefix_of(*address)),
    ensures
        r is Ok <==> address_json(*address) is Some,
        r matches Ok(json) ==> address_json(*address) == Some(json@),
{
    match address_to_json(address) {
        Ok(json) => Ok(json),
        Err(source) => Err(AddressFileError::Json { source }),
    }
}

/// The text of the address file for `address`, as `encode_address` gives
/// it; `None` where the address cannot be written.
pub fn try_encode_address(address: &Bech32Address) -> (r: Option<Result<String, AddressFileError>>)
    ensures
        r is Some <==> encodable_prefix(prefix_of(*address)),
        r matches Some(outcome) ==> {
            &&& outcome is Ok <==> address_json(*address) is Some
            &&& outcome matches Ok(json) ==> address_json(*address) == Some(json@)
        },
{
    if can_encode(address) {
        Some(encode_address(address))
    } else {
        None
    }
}

} // verus!
