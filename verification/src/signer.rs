//! Ed25519 signing and verification over raw message bytes.

use vstd::prelude::*;
use vstd::string::StringExecFns;
use vstd::utf8::encode_utf8;
use crate::codec::{b58_of, b64_of, base64_encode, base64_decode};
use crate::keys::{ed25519_pubkey_of, PublicKey, KeypairMaterial, parse_keypair, parse_public_key,
    generate_keypair};
use crate::response::ApiError;

verus! {

/// The deterministic Ed25519 signature over a message under a 32-byte secret
/// seed: a function of the seed and the message alone.
pub uninterp spec fn ed25519_sig_of(seed: Seq<u8>, message: Seq<u8>) -> Seq<u8>;

/// Whether 64 signature bytes verify over a message under 32 public-key
/// bytes, by strict Ed25519 verification: a function of the three byte
/// strings alone.
pub uninterp spec fn ed25519_verifies(pubkey: Seq<u8>, message: Seq<u8>, signature: Seq<u8>) -> bool;

/// Relies on solana_sdk's Keypair::try_from and Signer::sign_message:
/// deterministic Ed25519 signing over the raw message bytes, whose result
/// verifies under the derived public key.
#[verifier::external_body]
fn sign_bytes(secret: &Vec<u8>, message: &Vec<u8>) -> (r: Vec<u8>)
    requires
        secret@.len() == 64,
        secret@.subrange(32, 64) == ed25519_pubkey_of(secret@.subrange(0, 32)),
    ensures
        r@ == ed25519_sig_of(secret@.subrange(0, 32), message@),
        r@.len() == 64,
        ed25519_verifies(ed25519_pubkey_of(secret@.subrange(0, 32)), message@, r@),
{
    let kp = solana_sdk::signature::Keypair::try_from(secret.as_slice())
        .expect("consistent 64-byte keypair material");
    let sig = solana_sdk::signature::Signer::sign_message(&kp, message.as_slice());
    sig.as_ref().to_vec()
}

/// Relies on solana_sdk's Signature::verify: strict Ed25519 verification of
/// a 64-byte signature over a message under public-key bytes; false whenever
/// the key is unparsable or the signature does not match.
#[verifier::external_body]
fn verify_sig_bytes(pubkey: &Vec<u8>, message: &Vec<u8>, signature: &Vec<u8>) -> (r: bool)
    requires
        signature@.len() == 64,
    ensures
        r == ed25519_verifies(pubkey@, message@, signature@),
{
    let arr: [u8; 64] = signature.as_slice().try_into().expect("64-byte signature");
    let sig = solana_sdk::signature::Signature::from(arr);
    sig.verify(pubkey.as_slice(), message.as_slice())
}

/// Signs the raw message bytes (the empty message included) with the secret
/// half of well-formed keypair material, returning the 64-byte signature.
pub fn sign(message: &Vec<u8>, secret: &KeypairMaterial) -> (r: Vec<u8>)
    requires
        secret.wf(),
    ensures
        r@ == ed25519_sig_of(secret@.subrange(0, 32), message@),
        r@.len() == 64,
        ed25519_verifies(secret@.subrange(32, 64), message@, r@),
{
    sign_bytes(&secret.bytes, message)
}

/// Returns true iff `signature` is a valid Ed25519 signature over `message`
/// under `public_key`; a well-formed but mismatched signature gives false,
/// never an error.
pub fn verify(message: &Vec<u8>, signature: &Vec<u8>, public_key: &PublicKey) -> (r: bool)
    requires
        signature@.len() == 64,
    ensures
        r == ed25519_verifies(public_key@, message@, signature@),
{
    verify_sig_bytes(&public_key.bytes, message, signature)
}

/// The parsed fields of a signing request.
pub struct SignMessageRequest {
    pub message: String,
    pub secret: String,
}

/// The signing result: the base64 signature, the signer's base58 public key,
/// and the message signed.
pub struct SignMessageData {
    pub signature: String,
    pub public_key: String,
    pub message: String,
}

/// Signs a message with base58-encoded secret material.
///
/// Fails with `MissingField` iff a field is empty, and otherwise forwards
/// the keypair-parsing errors; on success the signature is the base64 text
/// of the deterministic Ed25519 signature over the message's UTF-8 bytes.
pub fn sign_message(req: &SignMessageRequest) -> (r: Result<SignMessageData, ApiError>)
    ensures
        r == Err::<SignMessageData, ApiError>(ApiError::MissingField) <==> (req.message@.len() == 0
            || req.secret@.len() == 0),
        r matches Ok(d) ==> exists|s: Seq<u8>|
            req.secret@ == b58_of(s) && s.len() == 64 && s.subrange(32, 64) == ed25519_pubkey_of(
                s.subrange(0, 32),
            ) && d.signature@ == b64_of(
                ed25519_sig_of(s.subrange(0, 32), encode_utf8(req.message@)),
            ) && d.public_key@ == b58_of(s.subrange(32, 64)) && d.message@ == req.message@,
        r is Ok <==> (req.message@.len() > 0 && req.secret@.len() > 0 && exists|x: Seq<u8>|
            req.secret@ == b58_of(x) && x.len() == 64 && x.subrange(32, 64) == ed25519_pubkey_of(
                x.subrange(0, 32),
            )),
        r matches Err(e) ==> ((e == ApiError::MissingField && (req.message@.len() == 0
            || req.secret@.len() == 0)) || (e == ApiError::InvalidEncoding && (forall|x: Seq<u8>|
            req.secret@ != b58_of(x)
        )) || (e == ApiError::InvalidLength && (exists|x: Seq<u8>|
            req.secret@ == b58_of(x) && x.len() != 64
        )) || (e == ApiError::InvalidKeypair && (exists|x: Seq<u8>|
            req.secret@ == b58_of(x) && x.len() == 64 && x.subrange(32, 64) != ed25519_pubkey_of(
                x.subrange(0, 32),
            )
        ))),
{
    if req.message.as_str().is_empty() || req.secret.as_str().is_empty() {
        return Err(ApiError::MissingField);
    }
    let material = match parse_keypair(req.secret.as_str()) {
        Ok(k) => k,
        Err(e) => {
            return Err(e);
        },
    };
    let message_bytes = req.message.as_str().as_bytes_vec();
    let signature_bytes = sign(&message_bytes, &material);
    let signature = base64_encode(&signature_bytes);
    let public_key = material.public_key().to_base58();
    let message = String::from_str(req.message.as_str());
    Ok(SignMessageData { signature, public_key, message })
}

/// The parsed fields of a verification request.
pub struct VerifyMessageRequest {
    pub message: String,
    pub signature: String,
    pub pubkey: String,
}

/// The verification result, echoing the inputs.
pub struct VerifyMessageData {
    pub valid: bool,
    pub message: String,
    pub pubkey: String,
}

/// Verifies a base64 signature over a message under a base58 public key.
///
/// Fails with `MissingField` iff a field is empty; a malformed key or
/// signature encoding is an error, while a well-formed but mismatched
/// signature gives `valid == false`.
pub fn verify_message(req: &VerifyMessageRequest) -> (r: Result<VerifyMessageData, ApiError>)
    ensures
        r == Err::<VerifyMessageData, ApiError>(ApiError::MissingField) <==> (req.message@.len()
            == 0 || req.signature@.len() == 0 || req.pubkey@.len() == 0),
        r matches Ok(d) ==> d.message@ == req.message@ && d.pubkey@ == req.pubkey@
            && exists|pk: Seq<u8>, sg: Seq<u8>|
            req.pubkey@ == b58_of(pk) && pk.len() == 32 && req.signature@ == b64_of(sg) && sg.len()
                == 64 && d.valid == ed25519_verifies(pk, encode_utf8(req.message@), sg),
        r is Ok <==> (req.message@.len() > 0 && req.signature@.len() > 0 && req.pubkey@.len() > 0
            && (exists|pk: Seq<u8>| req.pubkey@ == b58_of(pk) && pk.len() == 32) && (exists|
            sg: Seq<u8>,
        |
            req.signature@ == b64_of(sg) && sg.len() == 64)),
        r matches Err(e) ==> ((e == ApiError::MissingField && (req.message@.len() == 0
            || req.signature@.len() == 0 || req.pubkey@.len() == 0)) || (e
            == ApiError::InvalidEncoding && ((forall|x: Seq<u8>| req.pubkey@ != b58_of(x)) || (
        forall|x: Seq<u8>|
            req.signature@ != b64_of(x)
        ))) || (e == ApiError::InvalidLength && ((exists|x: Seq<u8>|
            req.pubkey@ == b58_of(x) && x.len() != 32
        ) || (exists|x: Seq<u8>| req.signature@ == b64_of(x) && x.len() != 64)))),
{
    if req.message.as_str().is_empty() || req.signature.as_str().is_empty()
        || req.pubkey.as_str().is_empty() {
        return Err(ApiError::MissingField);
    }
    let public_key = match parse_public_key(req.pubkey.as_str()) {
        Ok(k) => k,
        Err(e) => {
            return Err(e);
        },
    };
    let signature_bytes = match base64_decode(req.signature.as_str()) {
        Some(v) => v,
        None => {
            return Err(ApiError::InvalidEncoding);
        },
    };
    if signature_bytes.len() != 64 {
        return Err(ApiError::InvalidLength);
    }
    let message_bytes = req.message.as_str().as_bytes_vec();
    let valid = verify(&message_bytes, &signature_bytes, &public_key);
    let message = String::from_str(req.message.as_str());
    let pubkey = String::from_str(req.pubkey.as_str());
    Ok(VerifyMessageData { valid, message, pubkey })
}

/// Law: signing is deterministic — two signatures over the same message
/// with the same freshly generated secret material are identical.
pub fn sign_deterministic(message: &Vec<u8>) -> (r: (Vec<u8>, Vec<u8>))
    ensures
        r.0@ == r.1@,
{
    let generated = generate_keypair();
    let material = match parse_keypair(generated.secret.as_str()) {
        Ok(k) => k,
        Err(_) => {
            // unreachable: generated secret material always parses
            proof {
                assert(false);
            }
            return (Vec::new(), Vec::new());
        },
    };
    let first = sign(message, &material);
    let second = sign(message, &material);
    (first, second)
}

/// Law: for every message (the empty one included), a signature produced
/// with a freshly generated keypair verifies under that keypair's public
/// key.
pub fn sign_verify_round_trip(message: &Vec<u8>) -> (valid: bool)
    ensures
        valid,
{
    let generated = generate_keypair();
    let material = match parse_keypair(generated.secret.as_str()) {
        Ok(k) => k,
        Err(_) => {
            // unreachable: generated secret material always parses
            proof {
                assert(false);
            }
            return false;
        },
    };
    let signature = sign(message, &material);
    let public_key = material.public_key();
    verify(message, &signature, &public_key)
}

} // verus!
