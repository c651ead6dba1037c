//! Keypair generation and public-key / secret-key parsing and validation.

use vstd::prelude::*;
use vstd::slice::{slice_to_vec, slice_subrange, slice_index_get};
use crate::codec::{b58_of, base58_encode, base58_decode};
use crate::response::ApiError;

verus! {

/// The 32-byte Ed25519 public key deterministically derived from a 32-byte
/// secret seed.
pub uninterp spec fn ed25519_pubkey_of(seed: Seq<u8>) -> Seq<u8>;

/// A 32-byte account address. Canonical text form is base58.
pub struct PublicKey {
    pub bytes: Vec<u8>,
}

impl View for PublicKey {
    type V = Seq<u8>;

    open spec fn view(&self) -> Seq<u8> {
        self.bytes@
    }
}

impl PublicKey {
    /// A well-formed public key holds exactly 32 bytes.
    pub open spec fn wf(&self) -> bool {
        self@.len() == 32
    }

    /// The canonical base58 text of this key.
    pub fn to_base58(&self) -> (r: String)
        ensures
            r@ == b58_of(self@),
    {
        base58_encode(&self.bytes)
    }

    /// A copy of this key.
    pub fn dup(&self) -> (r: PublicKey)
        ensures
            r@ == self@,
    {
        PublicKey { bytes: slice_to_vec(self.bytes.as_slice()) }
    }
}

/// 64-byte secret material: the 32-byte seed followed by the 32-byte public
/// key derived from it.
pub struct KeypairMaterial {
    pub bytes: Vec<u8>,
}

impl View for KeypairMaterial {
    type V = Seq<u8>;

    open spec fn view(&self) -> Seq<u8> {
        self.bytes@
    }
}

impl KeypairMaterial {
    /// Well-formed secret material holds 64 bytes whose second half is the
    /// public key derived from the first half.
    pub open spec fn wf(&self) -> bool {
        &&& self@.len() == 64
        &&& self@.subrange(32, 64) == ed25519_pubkey_of(self@.subrange(0, 32))
    }

    /// The embedded public key (the second half of the material).
    pub fn public_key(&self) -> (r: PublicKey)
        requires
            self@.len() == 64,
        ensures
            r@ == self@.subrange(32, 64),
            r.wf(),
    {
        PublicKey { bytes: slice_to_vec(slice_subrange(self.bytes.as_slice(), 32, 64)) }
    }
}

/// The generated keypair, in its canonical text forms.
pub struct KeypairData {
    pub pubkey: String,
    pub secret: String,
}

/// Relies on solana_sdk's Keypair::new and Keypair::to_bytes: a freshly drawn
/// 32-byte secret seed followed by the public key derived from it.
#[verifier::external_body]
fn keypair_new_bytes() -> (r: Vec<u8>)
    ensures
        r@.len() == 64,
        r@.subrange(32, 64) == ed25519_pubkey_of(r@.subrange(0, 32)),
{
    solana_sdk::signature::Keypair::new().to_bytes().to_vec()
}

/// Relies on solana_sdk's Keypair::new_from_array and Signer::pubkey: the
/// public key derived from a 32-byte seed, a function of the seed alone.
#[verifier::external_body]
pub(crate) fn derive_pubkey(seed: &[u8]) -> (r: Vec<u8>)
    requires
        seed@.len() == 32,
    ensures
        r@ == ed25519_pubkey_of(seed@),
        r@.len() == 32,
{
    let arr: [u8; 32] = seed.try_into().expect("seed length");
    let kp = solana_sdk::signature::Keypair::new_from_array(arr);
    solana_sdk::signature::Signer::pubkey(&kp).to_bytes().to_vec()
}

/// Byte-wise equality of two byte slices.
fn bytes_eq(a: &[u8], b: &[u8]) -> (r: bool)
    ensures
        r == (a@ == b@),
{
    if a.len() != b.len() {
        proof {
            assert(a@.len() != b@.len());
        }
        return false;
    }
    let n: usize = a.len();
    let mut i: usize = 0;
    while i < n
        invariant
            n == a@.len() == b@.len(),
            0 <= i <= n,
            forall|j: int| 0 <= j < i ==> a@[j] == b@[j],
        decreases n - i,
    {
        if *slice_index_get(a, i) != *slice_index_get(b, i) {
            proof {
                assert(a@[i as int] != b@[i as int]);
                assert(a@ != b@);
            }
            return false;
        }
        i = i + 1;
    }
    proof {
        assert(a@ =~= b@);
    }
    true
}

/// Draws fresh secure randomness and returns a new keypair in text form:
/// the public key and the full 64-byte secret material, both base58.
pub fn generate_keypair() -> (r: KeypairData)
    ensures
        exists|s: Seq<u8>|
            s.len() == 64 && s.subrange(32, 64) == ed25519_pubkey_of(s.subrange(0, 32))
                && r.secret@ == b58_of(s) && r.pubkey@ == b58_of(s.subrange(32, 64)),
{
    let material = keypair_new_bytes();
    let pubkey_bytes = slice_to_vec(slice_subrange(material.as_slice(), 32, 64));
    let pubkey = base58_encode(&pubkey_bytes);
    let secret = base58_encode(&material);
    proof {
        assert(material@.len() == 64 && material@.subrange(32, 64) == ed25519_pubkey_of(
            material@.subrange(0, 32),
        ) && secret@ == b58_of(material@) && pubkey@ == b58_of(material@.subrange(32, 64)));
    }
    KeypairData { pubkey, secret }
}

/// Parses base58 text into a 32-byte public key.
///
/// Succeeds exactly on the base58 encodings of 32-byte strings; malformed
/// text fails with `InvalidEncoding` and a wrong decoded length with
/// `InvalidLength`.
pub fn parse_public_key(text: &str) -> (r: Result<PublicKey, ApiError>)
    ensures
        r matches Ok(pk) ==> pk.wf() && text@ == b58_of(pk@),
        r matches Ok(pk) ==> forall|x: Seq<u8>| text@ == b58_of(x) ==> x == pk@,
        r is Ok <==> exists|x: Seq<u8>| text@ == b58_of(x) && x.len() == 32,
        r matches Err(e) ==> ((e == ApiError::InvalidEncoding && (forall|x: Seq<u8>|
            text@ != b58_of(x)
        )) || (e == ApiError::InvalidLength && (exists|x: Seq<u8>|
            text@ == b58_of(x) && x.len() != 32
        ))),
{
    match base58_decode(text) {
        None => Err(ApiError::InvalidEncoding),
        Some(v) => {
            if v.len() == 32 {
                Ok(PublicKey { bytes: v })
            } else {
                Err(ApiError::InvalidLength)
            }
        },
    }
}

/// Parses base58 text into 64-byte keypair material.
///
/// Succeeds exactly on the base58 encodings of 64-byte strings whose second
/// half is the public key derived from the first half. Malformed text fails
/// with `InvalidEncoding`, a wrong decoded length with `InvalidLength`, and
/// a mismatched public half with `InvalidKeypair`.
pub fn parse_keypair(text: &str) -> (r: Result<KeypairMaterial, ApiError>)
    ensures
        r matches Ok(kp) ==> kp.wf() && text@ == b58_of(kp@),
        r matches Ok(kp) ==> forall|x: Seq<u8>| text@ == b58_of(x) ==> x == kp@,
        r is Ok <==> exists|x: Seq<u8>|
            text@ == b58_of(x) && x.len() == 64 && x.subrange(32, 64) == ed25519_pubkey_of(
                x.subrange(0, 32),
            ),
        r matches Err(e) ==> ((e == ApiError::InvalidEncoding && (forall|x: Seq<u8>|
            text@ != b58_of(x)
        )) || (e == ApiError::InvalidLength && (exists|x: Seq<u8>|
            text@ == b58_of(x) && x.len() != 64
        )) || (e == ApiError::InvalidKeypair && (exists|x: Seq<u8>|
            text@ == b58_of(x) && x.len() == 64 && x.subrange(32, 64) != ed25519_pubkey_of(
                x.subrange(0, 32),
            )
        ))),
{
    match base58_decode(text) {
        None => Err(ApiError::InvalidEncoding),
        Some(v) => {
            if v.len() != 64 {
                return Err(ApiError::InvalidLength);
            }
            let seed = slice_subrange(v.as_slice(), 0, 32);
            let embedded = slice_subrange(v.as_slice(), 32, 64);
            let derived = derive_pubkey(seed);
            if bytes_eq(embedded, derived.as_slice()) {
                Ok(KeypairMaterial { bytes: v })
            } else {
                Err(ApiError::InvalidKeypair)
            }
        },
    }
}

/// Law: for every generated keypair, the public-key text decodes to exactly
/// 32 bytes, the secret text to exactly 64 bytes, and the embedded public
/// half equals a fresh derivation from the secret half.
pub fn generated_keypair_well_formed() -> (r: (PublicKey, KeypairMaterial))
    ensures
        r.0.wf(),
        r.1.wf(),
        r.0@ == r.1@.subrange(32, 64),
{
    let generated = generate_keypair();
    let pk = match parse_public_key(generated.pubkey.as_str()) {
        Ok(k) => k,
        Err(_) => {
            // unreachable: a generated public key is 32 bytes of base58
            proof {
                assert(false);
            }
            PublicKey { bytes: Vec::new() }
        },
    };
    let kp = match parse_keypair(generated.secret.as_str()) {
        Ok(k) => k,
        Err(_) => {
            // unreachable: generated secret material is consistent
            proof {
                assert(false);
            }
            KeypairMaterial { bytes: Vec::new() }
        },
    };
    (pk, kp)
}

} // verus!
