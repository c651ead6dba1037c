//! Deterministic derivation of program-owned (associated) addresses.
//!
//! A candidate address for bump `b` is the SHA-256 digest of the seed bytes
//! `owner ++ tokenProgram ++ mint ++ [b] ++ derivingProgram ++ marker`; the
//! search walks `b` downward from 255 and returns the first candidate that is
//! not a valid curve point.

use vstd::prelude::*;
use vstd::slice::slice_index_get;
use crate::keys::PublicKey;
use crate::response::ApiError;

verus! {

/// The SHA-256 digest (32 bytes) of a byte string.
pub uninterp spec fn sha256_of(data: Seq<u8>) -> Seq<u8>;

/// Whether 32 bytes decompress to a valid point of the Ed25519 curve.
pub uninterp spec fn on_curve(bytes: Seq<u8>) -> bool;

/// Relies on solana_sdk::hash::hash: the SHA-256 digest of the input, a
/// function of the input bytes alone.
#[verifier::external_body]
fn sha256(data: &Vec<u8>) -> (r: Vec<u8>)
    ensures
        r@ == sha256_of(data@),
        r@.len() == 32,
{
    solana_sdk::hash::hash(data.as_slice()).as_ref().to_vec()
}

/// Relies on solana_address::bytes_are_curve_point: whether the bytes are a
/// valid compressed curve point, a function of the bytes alone.
#[verifier::external_body]
fn is_on_curve(bytes: &Vec<u8>) -> (r: bool)
    ensures
        r == on_curve(bytes@),
{
    solana_address::bytes_are_curve_point(bytes.as_slice())
}

/// The marker bytes (the ASCII text "ProgramDerivedAddress") appended to the
/// hashed seeds of every derived address.
pub const PDA_MARKER: [u8; 21] = [
    80,
    114,
    111,
    103,
    114,
    97,
    109,
    68,
    101,
    114,
    105,
    118,
    101,
    100,
    65,
    100,
    100,
    114,
    101,
    115,
    115,
];

/// Appends all of `src` to `dst`.
pub fn push_all(dst: &mut Vec<u8>, src: &[u8])
    ensures
        final(dst)@ == old(dst)@ + src@,
{
    let n: usize = src.len();
    let mut i: usize = 0;
    proof {
        assert(dst@ =~= old(dst)@ + src@.subrange(0, 0));
    }
    while i < n
        invariant
            n == src@.len(),
            0 <= i <= n,
            dst@ == old(dst)@ + src@.subrange(0, i as int),
        decreases n - i,
    {
        dst.push(*slice_index_get(src, i));
        proof {
            assert(dst@ =~= old(dst)@ + src@.subrange(0, i + 1));
        }
        i = i + 1;
    }
    proof {
        assert(src@.subrange(0, n as int) =~= src@);
    }
}

/// The seed bytes hashed for the candidate address at one bump value.
pub open spec fn pda_seed_bytes(
    owner: Seq<u8>,
    token_program: Seq<u8>,
    mint: Seq<u8>,
    bump: u8,
    program: Seq<u8>,
) -> Seq<u8> {
    owner + token_program + mint + seq![bump] + program + PDA_MARKER@
}

/// The candidate address at one bump value.
pub open spec fn pda_candidate(
    owner: Seq<u8>,
    token_program: Seq<u8>,
    mint: Seq<u8>,
    bump: u8,
    program: Seq<u8>,
) -> Seq<u8> {
    sha256_of(pda_seed_bytes(owner, token_program, mint, bump, program))
}

/// The first off-curve candidate found walking bumps from `bump` down to 0,
/// together with its bump, or `None` if every candidate is on the curve.
pub open spec fn pda_search(
    owner: Seq<u8>,
    token_program: Seq<u8>,
    mint: Seq<u8>,
    program: Seq<u8>,
    bump: int,
) -> Option<(Seq<u8>, u8)>
    decreases bump + 1,
{
    if bump < 0 {
        None
    } else if !on_curve(pda_candidate(owner, token_program, mint, bump as u8, program)) {
        Some((pda_candidate(owner, token_program, mint, bump as u8, program), bump as u8))
    } else {
        pda_search(owner, token_program, mint, program, bump - 1)
    }
}

/// Builds the seed bytes for one bump value.
fn pda_seeds(
    owner: &PublicKey,
    token_program: &PublicKey,
    mint: &PublicKey,
    bump: u8,
    program: &PublicKey,
) -> (r: Vec<u8>)
    ensures
        r@ == pda_seed_bytes(owner@, token_program@, mint@, bump, program@),
{
    let mut data: Vec<u8> = Vec::new();
    push_all(&mut data, owner.bytes.as_slice());
    push_all(&mut data, token_program.bytes.as_slice());
    push_all(&mut data, mint.bytes.as_slice());
    data.push(bump);
    push_all(&mut data, program.bytes.as_slice());
    push_all(&mut data, PDA_MARKER.as_slice());
    proof {
        assert(data@ =~= pda_seed_bytes(owner@, token_program@, mint@, bump, program@));
    }
    data
}

/// Finds the associated address for `(owner, mint)` under the deriving
/// program: the first off-curve candidate digest, searching bumps downward
/// from 255. Identical inputs always give the identical address and bump;
/// if every bump yields an on-curve digest the search fails with
/// `DerivationExhausted`.
pub fn derive_associated_address(
    owner: &PublicKey,
    mint: &PublicKey,
    token_program: &PublicKey,
    program: &PublicKey,
) -> (r: Result<(PublicKey, u8), ApiError>)
    requires
        owner.wf(),
        mint.wf(),
        token_program.wf(),
        program.wf(),
    ensures
        r matches Ok(p) ==> pda_search(owner@, token_program@, mint@, program@, 255) == Some(
            (p.0@, p.1),
        ) && p.0.wf(),
        r is Ok <==> pda_search(owner@, token_program@, mint@, program@, 255) is Some,
        r matches Err(e) ==> e == ApiError::DerivationExhausted,
{
    let mut i: u16 = 256;
    while i > 0
        invariant
            owner.wf(),
            mint.wf(),
            token_program.wf(),
            program.wf(),
            i <= 256,
            pda_search(owner@, token_program@, mint@, program@, 255) == pda_search(
                owner@,
                token_program@,
                mint@,
                program@,
                i as int - 1,
            ),
        decreases i,
    {
        i = i - 1;
        let bump: u8 = i as u8;
        proof {
            assert(bump as int == i as int);
        }
        let seeds = pda_seeds(owner, token_program, mint, bump, program);
        let digest = sha256(&seeds);
        if !is_on_curve(&digest) {
            proof {
                assert(pda_search(owner@, token_program@, mint@, program@, i as int) == Some(
                    (digest@, bump),
                ));
            }
            return Ok((PublicKey { bytes: digest }, bump));
        }
        proof {
            assert(pda_search(owner@, token_program@, mint@, program@, i as int) == pda_search(
                owner@,
                token_program@,
                mint@,
                program@,
                i as int - 1,
            ));
        }
    }
    Err(ApiError::DerivationExhausted)
}

/// Law: the associated-address search is deterministic — two runs on
/// identical inputs yield the identical address and bump, or fail alike.
pub fn derive_deterministic(
    owner: &PublicKey,
    mint: &PublicKey,
    token_program: &PublicKey,
    program: &PublicKey,
) -> (r: (Result<(PublicKey, u8), ApiError>, Result<(PublicKey, u8), ApiError>))
    requires
        owner.wf(),
        mint.wf(),
        token_program.wf(),
        program.wf(),
    ensures
        r.0 is Ok <==> r.1 is Ok,
        r.0 matches Ok(p) ==> (r.1 matches Ok(q) && p.0@ == q.0@ && p.1 == q.1),
        r.0 matches Err(e) ==> (r.1 matches Err(f) && e == f),
{
    let first = derive_associated_address(owner, mint, token_program, program);
    let second = derive_associated_address(owner, mint, token_program, program);
    (first, second)
}

} // verus!
