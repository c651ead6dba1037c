//! The operation layer: validates the text fields of a parsed request,
//! invokes one instruction builder, and serializes the result (program id
//! and accounts as base58 text, data as base64 text).

use vstd::prelude::*;
use crate::codec::{b58_of, b64_of, base64_encode};
use crate::derive::pda_search;
use crate::instructions::{build_native_transfer, build_initialize_mint, build_mint_to,
    build_token_transfer, native_transfer_data, initialize_mint_data, mint_to_data,
    token_transfer_data, SYSTEM_PROGRAM_ID, TOKEN_PROGRAM_ID, ATA_PROGRAM_ID, RENT_SYSVAR_ID,
    rent_sysvar_key};
use crate::keys::parse_public_key;
use crate::response::ApiError;

verus! {

/// The parsed fields of a native-transfer request.
pub struct SendSolRequest {
    pub from: String,
    pub to: String,
    pub lamports: u64,
}

/// A built native transfer: program id and accounts as base58 text, data as
/// base64 text.
pub struct SendSolData {
    pub program_id: String,
    pub accounts: Vec<String>,
    pub instruction_data: String,
}

/// The parsed fields of a token-transfer request.
pub struct SendTokenRequest {
    pub destination: String,
    pub mint: String,
    pub owner: String,
    pub amount: u64,
}

/// An account reference of a built token transfer: base58 key and signer
/// flag.
#[allow(non_snake_case)]
pub struct SendTokenAccountMeta {
    pub pubkey: String,
    pub isSigner: bool,
}

/// A built token transfer in text form.
pub struct SendTokenData {
    pub program_id: String,
    pub accounts: Vec<SendTokenAccountMeta>,
    pub instruction_data: String,
}

/// The parsed fields of a mint-initialization request.
#[allow(non_snake_case)]
pub struct CreateTokenRequest {
    pub mintAuthority: String,
    pub mint: String,
    pub decimals: u8,
}

/// An account reference in text form with both access flags.
pub struct AccountMetaJson {
    pub pubkey: String,
    pub is_signer: bool,
    pub is_writable: bool,
}

/// A built token instruction in text form.
pub struct TokenInstructionData {
    pub program_id: String,
    pub accounts: Vec<AccountMetaJson>,
    pub instruction_data: String,
}

/// The parsed fields of a mint-to request.
pub struct MintTokenRequest {
    pub mint: String,
    pub destination: String,
    pub authority: String,
    pub amount: u64,
}

/// A built mint-to instruction in text form.
pub struct MintTokenData {
    pub program_id: String,
    pub accounts: Vec<AccountMetaJson>,
    pub instruction_data: String,
}

/// Builds a native transfer from text inputs.
///
/// Fails with `InvalidPublicKey` iff a key field is not the base58 text of
/// 32 bytes, then with `InvalidAmount` iff the amount is zero; on success
/// the data payload is the base64 text of `opcode 2 ++ amount`, and the
/// account list holds the sender then the recipient.
pub fn send_sol(req: &SendSolRequest) -> (r: Result<SendSolData, ApiError>)
    ensures
        r is Ok <==> ((exists|f: Seq<u8>| req.from@ == b58_of(f) && f.len() == 32) && (exists|
            t: Seq<u8>,
        |
            req.to@ == b58_of(t) && t.len() == 32) && req.lamports > 0),
        r matches Ok(d) ==> exists|f: Seq<u8>, t: Seq<u8>|
            #![trigger b58_of(f), b58_of(t)]
            req.from@ == b58_of(f) && f.len() == 32 && req.to@ == b58_of(t) && t.len() == 32
                && d.program_id@ == b58_of(SYSTEM_PROGRAM_ID@) && d.accounts@.len() == 2
                && d.accounts@[0]@ == b58_of(f) && d.accounts@[1]@ == b58_of(t)
                && d.instruction_data@ == b64_of(native_transfer_data(req.lamports)),
        r matches Err(e) ==> ((e == ApiError::InvalidPublicKey && ((forall|x: Seq<u8>|
            !(req.from@ == b58_of(x) && x.len() == 32)
        ) || (forall|x: Seq<u8>| !(req.to@ == b58_of(x) && x.len() == 32)))) || (e
            == ApiError::InvalidAmount && req.lamports == 0)),
{
    let from = match parse_public_key(req.from.as_str()) {
        Ok(k) => k,
        Err(_) => {
            return Err(ApiError::InvalidPublicKey);
        },
    };
    let to = match parse_public_key(req.to.as_str()) {
        Ok(k) => k,
        Err(_) => {
            return Err(ApiError::InvalidPublicKey);
        },
    };
    let ix = match build_native_transfer(&from, &to, req.lamports) {
        Ok(ix) => ix,
        Err(e) => {
            return Err(e);
        },
    };
    let program_id = ix.program_id.to_base58();
    let mut accounts: Vec<String> = Vec::new();
    accounts.push(from.to_base58());
    accounts.push(to.to_base58());
    let instruction_data = base64_encode(&ix.data);
    Ok(SendSolData { program_id, accounts, instruction_data })
}

/// Builds a token transfer from text inputs.
///
/// Fails with `InvalidPublicKey` iff a key field is malformed, then with
/// `InvalidAmount` iff the amount is zero, then with `DerivationExhausted`
/// iff an associated-address search fails; on success the account list
/// holds the two derived associated accounts and then the owner, the owner
/// alone marked as signer.
pub fn send_token(req: &SendTokenRequest) -> (r: Result<SendTokenData, ApiError>)
    ensures
        r is Ok <==> (exists|d0: Seq<u8>, m: Seq<u8>, o: Seq<u8>|
            #![trigger b58_of(d0), b58_of(m), b58_of(o)]
            req.destination@ == b58_of(d0) && d0.len() == 32 && req.mint@ == b58_of(m) && m.len()
                == 32 && req.owner@ == b58_of(o) && o.len() == 32 && req.amount > 0 && pda_search(
                o,
                TOKEN_PROGRAM_ID@,
                m,
                ATA_PROGRAM_ID@,
                255,
            ) is Some && pda_search(d0, TOKEN_PROGRAM_ID@, m, ATA_PROGRAM_ID@, 255) is Some),
        r matches Ok(d) ==> exists|d0: Seq<u8>, m: Seq<u8>, o: Seq<u8>|
            #![trigger b58_of(d0), b58_of(m), b58_of(o)]
            req.destination@ == b58_of(d0) && d0.len() == 32 && req.mint@ == b58_of(m) && m.len()
                == 32 && req.owner@ == b58_of(o) && o.len() == 32 && d.program_id@ == b58_of(
                TOKEN_PROGRAM_ID@,
            ) && d.accounts@.len() == 3 && d.accounts@[0].pubkey@ == b58_of(
                pda_search(o, TOKEN_PROGRAM_ID@, m, ATA_PROGRAM_ID@, 255).unwrap().0,
            ) && !d.accounts@[0].isSigner && d.accounts@[1].pubkey@ == b58_of(
                pda_search(d0, TOKEN_PROGRAM_ID@, m, ATA_PROGRAM_ID@, 255).unwrap().0,
            ) && !d.accounts@[1].isSigner && d.accounts@[2].pubkey@ == b58_of(o)
                && d.accounts@[2].isSigner && d.instruction_data@ == b64_of(
                token_transfer_data(req.amount),
            ),
        r matches Err(e) ==> ((e == ApiError::InvalidPublicKey && ((forall|x: Seq<u8>|
            !(req.destination@ == b58_of(x) && x.len() == 32)
        ) || (forall|x: Seq<u8>| !(req.mint@ == b58_of(x) && x.len() == 32)) || (forall|x: Seq<u8>|
            !(req.owner@ == b58_of(x) && x.len() == 32)
        ))) || (e == ApiError::InvalidAmount && req.amount == 0) || (e
            == ApiError::DerivationExhausted && req.amount > 0)),
{
    let destination_owner = match parse_public_key(req.destination.as_str()) {
        Ok(k) => k,
        Err(_) => {
            return Err(ApiError::InvalidPublicKey);
        },
    };
    let mint = match parse_public_key(req.mint.as_str()) {
        Ok(k) => k,
        Err(_) => {
            return Err(ApiError::InvalidPublicKey);
        },
    };
    let owner = match parse_public_key(req.owner.as_str()) {
        Ok(k) => k,
        Err(_) => {
            return Err(ApiError::InvalidPublicKey);
        },
    };
    let ix = match build_token_transfer(&destination_owner, &mint, &owner, req.amount) {
        Ok(ix) => ix,
        Err(e) => {
            return Err(e);
        },
    };
    let program_id = ix.program_id.to_base58();
    let source_text = ix.accounts[0].pubkey.to_base58();
    let destination_text = ix.accounts[1].pubkey.to_base58();
    let owner_text = owner.to_base58();
    let mut accounts: Vec<SendTokenAccountMeta> = Vec::new();
    accounts.push(SendTokenAccountMeta { pubkey: source_text, isSigner: false });
    accounts.push(SendTokenAccountMeta { pubkey: destination_text, isSigner: false });
    accounts.push(SendTokenAccountMeta { pubkey: owner_text, isSigner: true });
    let instruction_data = base64_encode(&ix.data);
    Ok(SendTokenData { program_id, accounts, instruction_data })
}

/// Builds a mint initialization from text inputs.
///
/// Fails with `InvalidPublicKey` iff a key field is malformed; on success
/// the data payload is the base64 text of
/// `opcode 0 ++ decimals ++ authority ++ 0`, and the account list holds the
/// mint (writable) then the rent sysvar (readonly).
pub fn create_token(req: &CreateTokenRequest) -> (r: Result<TokenInstructionData, ApiError>)
    ensures
        r is Ok <==> ((exists|m: Seq<u8>| req.mint@ == b58_of(m) && m.len() == 32) && (exists|
            a: Seq<u8>,
        |
            req.mintAuthority@ == b58_of(a) && a.len() == 32)),
        r matches Ok(d) ==> exists|m: Seq<u8>, a: Seq<u8>|
            #![trigger b58_of(m), b58_of(a)]
            req.mint@ == b58_of(m) && m.len() == 32 && req.mintAuthority@ == b58_of(a) && a.len()
                == 32 && d.program_id@ == b58_of(TOKEN_PROGRAM_ID@) && d.accounts@.len() == 2
                && d.accounts@[0].pubkey@ == b58_of(m) && !d.accounts@[0].is_signer
                && d.accounts@[0].is_writable && d.accounts@[1].pubkey@ == b58_of(RENT_SYSVAR_ID@)
                && !d.accounts@[1].is_signer && !d.accounts@[1].is_writable
                && d.instruction_data@ == b64_of(initialize_mint_data(req.decimals, a)),
        r matches Err(e) ==> (e == ApiError::InvalidPublicKey && ((forall|x: Seq<u8>|
            !(req.mint@ == b58_of(x) && x.len() == 32)
        ) || (forall|x: Seq<u8>| !(req.mintAuthority@ == b58_of(x) && x.len() == 32)))),
{
    let mint = match parse_public_key(req.mint.as_str()) {
        Ok(k) => k,
        Err(_) => {
            return Err(ApiError::InvalidPublicKey);
        },
    };
    let authority = match parse_public_key(req.mintAuthority.as_str()) {
        Ok(k) => k,
        Err(_) => {
            return Err(ApiError::InvalidPublicKey);
        },
    };
    let ix = build_initialize_mint(&mint, &authority, req.decimals);
    let program_id = ix.program_id.to_base58();
    let rent = rent_sysvar_key();
    let mut accounts: Vec<AccountMetaJson> = Vec::new();
    accounts.push(
        AccountMetaJson { pubkey: mint.to_base58(), is_signer: false, is_writable: true },
    );
    accounts.push(
        AccountMetaJson { pubkey: rent.to_base58(), is_signer: false, is_writable: false },
    );
    let instruction_data = base64_encode(&ix.data);
    Ok(TokenInstructionData { program_id, accounts, instruction_data })
}

/// Builds a mint-to from text inputs.
///
/// Fails with `InvalidPublicKey` iff a key field is malformed, then with
/// `InvalidAmount` iff the amount is zero; on success the data payload is
/// the base64 text of `opcode 7 ++ amount`, and the account list holds the
/// mint, the destination, and the authority as the only signer.
pub fn mint_token(req: &MintTokenRequest) -> (r: Result<MintTokenData, ApiError>)
    ensures
        r is Ok <==> ((exists|m: Seq<u8>| req.mint@ == b58_of(m) && m.len() == 32) && (exists|
            d0: Seq<u8>,
        |
            req.destination@ == b58_of(d0) && d0.len() == 32) && (exists|a: Seq<u8>|
            req.authority@ == b58_of(a) && a.len() == 32
        ) && req.amount > 0),
        r matches Ok(d) ==> exists|m: Seq<u8>, d0: Seq<u8>, a: Seq<u8>|
            #![trigger b58_of(m), b58_of(d0), b58_of(a)]
            req.mint@ == b58_of(m) && m.len() == 32 && req.destination@ == b58_of(d0) && d0.len()
                == 32 && req.authority@ == b58_of(a) && a.len() == 32 && d.program_id@ == b58_of(
                TOKEN_PROGRAM_ID@,
            ) && d.accounts@.len() == 3 && d.accounts@[0].pubkey@ == b58_of(m)
                && !d.accounts@[0].is_signer && d.accounts@[0].is_writable
                && d.accounts@[1].pubkey@ == b58_of(d0) && !d.accounts@[1].is_signer
                && d.accounts@[1].is_writable && d.accounts@[2].pubkey@ == b58_of(a)
                && d.accounts@[2].is_signer && !d.accounts@[2].is_writable
                && d.instruction_data@ == b64_of(mint_to_data(req.amount)),
        r matches Err(e) ==> ((e == ApiError::InvalidPublicKey && ((forall|x: Seq<u8>|
            !(req.mint@ == b58_of(x) && x.len() == 32)
        ) || (forall|x: Seq<u8>| !(req.destination@ == b58_of(x) && x.len() == 32)) || (forall|
            x: Seq<u8>,
        |
            !(req.authority@ == b58_of(x) && x.len() == 32)))) || (e == ApiError::InvalidAmount
            && req.amount == 0)),
{
    let mint = match parse_public_key(req.mint.as_str()) {
        Ok(k) => k,
        Err(_) => {
            return Err(ApiError::InvalidPublicKey);
        },
    };
    let destination = match parse_public_key(req.destination.as_str()) {
        Ok(k) => k,
        Err(_) => {
            return Err(ApiError::InvalidPublicKey);
        },
    };
    let authority = match parse_public_key(req.authority.as_str()) {
        Ok(k) => k,
        Err(_) => {
            return Err(ApiError::InvalidPublicKey);
        },
    };
    let ix = match build_mint_to(&mint, &destination, &authority, req.amount) {
        Ok(ix) => ix,
        Err(e) => {
            return Err(e);
        },
    };
    let program_id = ix.program_id.to_base58();
    let mut accounts: Vec<AccountMetaJson> = Vec::new();
    accounts.push(
        AccountMetaJson { pubkey: mint.to_base58(), is_signer: false, is_writable: true },
    );
    accounts.push(
        AccountMetaJson { pubkey: destination.to_base58(), is_signer: false, is_writable: true },
    );
    accounts.push(
        AccountMetaJson { pubkey: authority.to_base58(), is_signer: true, is_writable: false },
    );
    let instruction_data = base64_encode(&ix.data);
    Ok(MintTokenData { program_id, accounts, instruction_data })
}

} // verus!
