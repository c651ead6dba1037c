//! Base58 and base64 text codecs used by every other component.
//!
//! Both decoders are total: malformed text yields `None`, never a panic.
//! The encodings themselves are named by uninterpreted spec functions; the
//! trusted wrappers state that encoding and decoding are mutually inverse,
//! which is what the rest of the library builds on.

use vstd::prelude::*;

verus! {

/// The base58 text (Bitcoin alphabet, no checksum) of a byte string.
pub uninterp spec fn b58_of(bytes: Seq<u8>) -> Seq<char>;

/// The base64 text (standard alphabet, with padding) of a byte string.
pub uninterp spec fn b64_of(bytes: Seq<u8>) -> Seq<char>;

/// Relies on bs58::encode with the default (Bitcoin) alphabet: the canonical
/// base58 text of the input bytes.
#[verifier::external_body]
fn b58_encode_raw(bytes: &Vec<u8>) -> (r: String)
    ensures
        r@ == b58_of(bytes@),
{
    bs58::encode(bytes.as_slice()).into_string()
}

/// Relies on bs58::decode with the default (Bitcoin) alphabet: succeeds on
/// exactly the strings that base58-encode some byte string, and inverts the
/// encoding on them.
#[verifier::external_body]
fn b58_decode_raw(text: &str) -> (r: Option<Vec<u8>>)
    ensures
        r matches Some(v) ==> text@ == b58_of(v@),
        r matches Some(v) ==> forall|x: Seq<u8>| text@ == b58_of(x) ==> x == v@,
        (exists|x: Seq<u8>| text@ == b58_of(x)) ==> r is Some,
{
    bs58::decode(text).into_vec().ok()
}

/// Relies on base64's STANDARD engine (padding required, canonical): the
/// base64 text of the input bytes.
#[verifier::external_body]
fn b64_encode_raw(bytes: &Vec<u8>) -> (r: String)
    ensures
        r@ == b64_of(bytes@),
{
    base64::Engine::encode(&base64::engine::general_purpose::STANDARD, bytes.as_slice())
}

/// Relies on base64's STANDARD engine, which accepts exactly the canonical
/// padded encodings and inverts the encoding on them.
#[verifier::external_body]
fn b64_decode_raw(text: &str) -> (r: Option<Vec<u8>>)
    ensures
        r matches Some(v) ==> text@ == b64_of(v@),
        r matches Some(v) ==> forall|x: Seq<u8>| text@ == b64_of(x) ==> x == v@,
        (exists|x: Seq<u8>| text@ == b64_of(x)) ==> r is Some,
{
    base64::Engine::decode(&base64::engine::general_purpose::STANDARD, text).ok()
}

/// The base58 text of the input bytes.
pub fn base58_encode(bytes: &Vec<u8>) -> (r: String)
    ensures
        r@ == b58_of(bytes@),
{
    b58_encode_raw(bytes)
}

/// Decodes base58 text; `None` exactly when no byte string encodes to it.
pub fn base58_decode(text: &str) -> (r: Option<Vec<u8>>)
    ensures
        r matches Some(v) ==> text@ == b58_of(v@),
        r matches Some(v) ==> forall|x: Seq<u8>| text@ == b58_of(x) ==> x == v@,
        (exists|x: Seq<u8>| text@ == b58_of(x)) <==> r is Some,
{
    b58_decode_raw(text)
}

/// The base64 text of the input bytes.
pub fn base64_encode(bytes: &Vec<u8>) -> (r: String)
    ensures
        r@ == b64_of(bytes@),
{
    b64_encode_raw(bytes)
}

/// Decodes base64 text; `None` exactly when no byte string encodes to it.
pub fn base64_decode(text: &str) -> (r: Option<Vec<u8>>)
    ensures
        r matches Some(v) ==> text@ == b64_of(v@),
        r matches Some(v) ==> forall|x: Seq<u8>| text@ == b64_of(x) ==> x == v@,
        (exists|x: Seq<u8>| text@ == b64_of(x)) <==> r is Some,
{
    b64_decode_raw(text)
}

/// Law: decoding an encoded byte string gives the bytes back unchanged,
/// for every byte string.
pub fn base58_round_trip(bytes: &Vec<u8>) -> (r: Vec<u8>)
    ensures
        r@ == bytes@,
{
    let text = base58_encode(bytes);
    let decoded = base58_decode(text.as_str());
    match decoded {
        Some(v) => v,
        None => {
            // unreachable: the encoding of `bytes` always decodes
            proof {
                assert(exists|x: Seq<u8>| text@ == b58_of(x));
                assert(false);
            }
            Vec::new()
        },
    }
}

/// Law: decoding an encoded byte string gives the bytes back unchanged,
/// for every byte string.
pub fn base64_round_trip(bytes: &Vec<u8>) -> (r: Vec<u8>)
    ensures
        r@ == bytes@,
{
    let text = base64_encode(bytes);
    let decoded = base64_decode(text.as_str());
    match decoded {
        Some(v) => v,
        None => {
            // unreachable: the encoding of `bytes` always decodes
            proof {
                assert(exists|x: Seq<u8>| text@ == b64_of(x));
                assert(false);
            }
            Vec::new()
        },
    }
}

} // verus!
