//! Byte-exact construction of the four wire-format instructions.
//!
//! Each builder assembles a fixed program id, an ordered account-reference
//! list and an opcode-prefixed, little-endian-argument data payload. The
//! opcode values and program ids are fixed protocol constants.

use vstd::prelude::*;
use vstd::slice::slice_to_vec;
use crate::derive::{pda_search, derive_associated_address};
use crate::keys::PublicKey;
use crate::response::ApiError;

verus! {

/// The fixed system-program address (32 zero bytes).
pub const SYSTEM_PROGRAM_ID: [u8; 32] = [
    0,
    0,
    0,
    0,
    0,
    0,
    0,
    0,
    0,
    0,
    0,
    0,
    0,
    0,
    0,
    0,
    0,
    0,
    0,
    0,
    0,
    0,
    0,
    0,
    0,
    0,
    0,
    0,
    0,
    0,
    0,
    0,
];

/// The fixed token-program address.
pub const TOKEN_PROGRAM_ID: [u8; 32] = [
    6,
    221,
    246,
    225,
    215,
    101,
    161,
    147,
    217,
    203,
    225,
    70,
    206,
    235,
    121,
    172,
    28,
    180,
    133,
    237,
    95,
    91,
    55,
    145,
    58,
    140,
    245,
    133,
    126,
    255,
    0,
    169,
];

/// The fixed associated-token-program address, under which associated
/// addresses are derived.
pub const ATA_PROGRAM_ID: [u8; 32] = [
    140,
    151,
    37,
    143,
    78,
    36,
    137,
    241,
    187,
    61,
    16,
    41,
    20,
    142,
    13,
    131,
    11,
    90,
    19,
    153,
    218,
    255,
    16,
    132,
    4,
    142,
    123,
    216,
    219,
    233,
    248,
    89,
];

/// The fixed rent-sysvar address named by the mint-initialization
/// instruction.
pub const RENT_SYSVAR_ID: [u8; 32] = [
    6,
    167,
    213,
    23,
    25,
    44,
    92,
    81,
    33,
    140,
    201,
    76,
    61,
    74,
    241,
    127,
    88,
    218,
    238,
    8,
    155,
    161,
    253,
    68,
    227,
    219,
    217,
    138,
    0,
    0,
    0,
    0,
];

/// An ordered reference to an account inside an instruction. The position
/// in the list is semantically significant.
pub struct AccountReference {
    pub pubkey: PublicKey,
    pub is_signer: bool,
    pub is_writable: bool,
}

/// A constructed instruction: program id, ordered account references and the
/// opaque data payload.
pub struct Instruction {
    pub program_id: PublicKey,
    pub accounts: Vec<AccountReference>,
    pub data: Vec<u8>,
}

impl Instruction {
    /// Every key held by the instruction is a well-formed 32-byte key.
    pub open spec fn wf(&self) -> bool {
        &&& self.program_id.wf()
        &&& forall|i: int| 0 <= i < self.accounts@.len() ==> self.accounts@[i].pubkey.wf()
    }
}

/// The eight little-endian base-256 digits of a 64-bit value.
pub open spec fn u64_le_bytes(v: u64) -> Seq<u8> {
    seq![
        (v % 256) as u8,
        ((v / 256) % 256) as u8,
        ((v / 65536) % 256) as u8,
        ((v / 16777216) % 256) as u8,
        ((v / 4294967296) % 256) as u8,
        ((v / 1099511627776) % 256) as u8,
        ((v / 281474976710656) % 256) as u8,
        ((v / 72057594037927936) % 256) as u8,
    ]
}

/// Writes a 64-bit value as eight little-endian bytes.
pub fn u64_to_le(v: u64) -> (r: Vec<u8>)
    ensures
        r@ == u64_le_bytes(v),
{
    let mut out: Vec<u8> = Vec::new();
    out.push((v % 256) as u8);
    out.push(((v / 256) % 256) as u8);
    out.push(((v / 65536) % 256) as u8);
    out.push(((v / 16777216) % 256) as u8);
    out.push(((v / 4294967296) % 256) as u8);
    out.push(((v / 1099511627776) % 256) as u8);
    out.push(((v / 281474976710656) % 256) as u8);
    out.push(((v / 72057594037927936) % 256) as u8);
    proof {
        assert(out@ =~= u64_le_bytes(v));
    }
    out
}

/// Data payload of a native transfer: 4-byte little-endian opcode 2, then
/// the amount.
pub open spec fn native_transfer_data(amount: u64) -> Seq<u8> {
    seq![2u8, 0u8, 0u8, 0u8] + u64_le_bytes(amount)
}

/// Data payload of a token transfer: opcode byte 3, then the amount.
pub open spec fn token_transfer_data(amount: u64) -> Seq<u8> {
    seq![3u8] + u64_le_bytes(amount)
}

/// Data payload of a mint-to: opcode byte 7, then the amount.
pub open spec fn mint_to_data(amount: u64) -> Seq<u8> {
    seq![7u8] + u64_le_bytes(amount)
}

/// Data payload of a mint initialization: opcode byte 0, the decimals byte,
/// the mint authority, and a zero byte for "no freeze authority".
pub open spec fn initialize_mint_data(decimals: u8, authority: Seq<u8>) -> Seq<u8> {
    seq![0u8, decimals] + authority + seq![0u8]
}

/// A key holding the fixed system-program address.
pub fn system_program_key() -> (r: PublicKey)
    ensures
        r@ == SYSTEM_PROGRAM_ID@,
        r.wf(),
{
    PublicKey { bytes: slice_to_vec(SYSTEM_PROGRAM_ID.as_slice()) }
}

/// A key holding the fixed token-program address.
pub fn token_program_key() -> (r: PublicKey)
    ensures
        r@ == TOKEN_PROGRAM_ID@,
        r.wf(),
{
    PublicKey { bytes: slice_to_vec(TOKEN_PROGRAM_ID.as_slice()) }
}

/// A key holding the fixed associated-token-program address.
pub fn ata_program_key() -> (r: PublicKey)
    ensures
        r@ == ATA_PROGRAM_ID@,
        r.wf(),
{
    PublicKey { bytes: slice_to_vec(ATA_PROGRAM_ID.as_slice()) }
}

/// A key holding the fixed rent-sysvar address.
pub fn rent_sysvar_key() -> (r: PublicKey)
    ensures
        r@ == RENT_SYSVAR_ID@,
        r.wf(),
{
    PublicKey { bytes: slice_to_vec(RENT_SYSVAR_ID.as_slice()) }
}

/// Builds the native-currency transfer instruction.
///
/// Fails with `InvalidAmount` iff the amount is zero; otherwise the
/// instruction carries the system program id, the accounts
/// `[from (signer, writable), to (writable)]` and the 12-byte payload
/// `opcode 2 (little-endian, 4 bytes) ++ amount (little-endian, 8 bytes)`.
pub fn build_native_transfer(from: &PublicKey, to: &PublicKey, amount: u64) -> (r: Result<
    Instruction,
    ApiError,
>)
    requires
        from.wf(),
        to.wf(),
    ensures
        r is Ok <==> amount > 0,
        amount == 0 ==> r == Err::<Instruction, ApiError>(ApiError::InvalidAmount),
        r matches Ok(ix) ==> ix.wf() && ix.program_id@ == SYSTEM_PROGRAM_ID@ && ix.accounts@.len()
            == 2 && ix.accounts@[0].pubkey@ == from@ && ix.accounts@[0].is_signer
            && ix.accounts@[0].is_writable && ix.accounts@[1].pubkey@ == to@
            && !ix.accounts@[1].is_signer && ix.accounts@[1].is_writable && ix.data@
            == native_transfer_data(amount),
{
    if amount == 0 {
        return Err(ApiError::InvalidAmount);
    }
    let mut data: Vec<u8> = Vec::new();
    data.push(2);
    data.push(0);
    data.push(0);
    data.push(0);
    let mut amount_bytes = u64_to_le(amount);
    data.append(&mut amount_bytes);
    proof {
        assert(data@ =~= native_transfer_data(amount));
    }
    let mut accounts: Vec<AccountReference> = Vec::new();
    accounts.push(AccountReference { pubkey: from.dup(), is_signer: true, is_writable: true });
    accounts.push(AccountReference { pubkey: to.dup(), is_signer: false, is_writable: true });
    Ok(Instruction { program_id: system_program_key(), accounts, data })
}

/// Builds the mint-initialization instruction.
///
/// The instruction carries the token program id, the accounts
/// `[mint (writable), rent sysvar (readonly)]` and the 35-byte payload
/// `opcode 0 ++ decimals ++ authority ++ 0 (no freeze authority)`.
pub fn build_initialize_mint(mint: &PublicKey, authority: &PublicKey, decimals: u8) -> (r:
    Instruction)
    requires
        mint.wf(),
        authority.wf(),
    ensures
        r.wf(),
        r.program_id@ == TOKEN_PROGRAM_ID@,
        r.accounts@.len() == 2,
        r.accounts@[0].pubkey@ == mint@ && !r.accounts@[0].is_signer
            && r.accounts@[0].is_writable,
        r.accounts@[1].pubkey@ == RENT_SYSVAR_ID@ && !r.accounts@[1].is_signer
            && !r.accounts@[1].is_writable,
        r.data@ == initialize_mint_data(decimals, authority@),
{
    let mut data: Vec<u8> = Vec::new();
    data.push(0);
    data.push(decimals);
    let mut authority_bytes = slice_to_vec(authority.bytes.as_slice());
    data.append(&mut authority_bytes);
    data.push(0);
    proof {
        assert(data@ =~= initialize_mint_data(decimals, authority@));
    }
    let mut accounts: Vec<AccountReference> = Vec::new();
    accounts.push(AccountReference { pubkey: mint.dup(), is_signer: false, is_writable: true });
    accounts.push(
        AccountReference { pubkey: rent_sysvar_key(), is_signer: false, is_writable: false },
    );
    Instruction { program_id: token_program_key(), accounts, data }
}

/// Builds the mint-to instruction.
///
/// Fails with `InvalidAmount` iff the amount is zero; otherwise the
/// instruction carries the token program id, the accounts
/// `[mint (writable), destination (writable), authority (signer)]` and the
/// 9-byte payload `opcode 7 ++ amount (little-endian)`.
pub fn build_mint_to(
    mint: &PublicKey,
    destination: &PublicKey,
    authority: &PublicKey,
    amount: u64,
) -> (r: Result<Instruction, ApiError>)
    requires
        mint.wf(),
        destination.wf(),
        authority.wf(),
    ensures
        r is Ok <==> amount > 0,
        amount == 0 ==> r == Err::<Instruction, ApiError>(ApiError::InvalidAmount),
        r matches Ok(ix) ==> ix.wf() && ix.program_id@ == TOKEN_PROGRAM_ID@ && ix.accounts@.len()
            == 3 && ix.accounts@[0].pubkey@ == mint@ && !ix.accounts@[0].is_signer
            && ix.accounts@[0].is_writable && ix.accounts@[1].pubkey@ == destination@
            && !ix.accounts@[1].is_signer && ix.accounts@[1].is_writable
            && ix.accounts@[2].pubkey@ == authority@ && ix.accounts@[2].is_signer
            && !ix.accounts@[2].is_writable && ix.data@ == mint_to_data(amount),
{
    if amount == 0 {
        return Err(ApiError::InvalidAmount);
    }
    let mut data: Vec<u8> = Vec::new();
    data.push(7);
    let mut amount_bytes = u64_to_le(amount);
    data.append(&mut amount_bytes);
    proof {
        assert(data@ =~= mint_to_data(amount));
    }
    let mut accounts: Vec<AccountReference> = Vec::new();
    accounts.push(AccountReference { pubkey: mint.dup(), is_signer: false, is_writable: true });
    accounts.push(
        AccountReference { pubkey: destination.dup(), is_signer: false, is_writable: true },
    );
    accounts.push(
        AccountReference { pubkey: authority.dup(), is_signer: true, is_writable: false },
    );
    Ok(Instruction { program_id: token_program_key(), accounts, data })
}

/// Builds the token-transfer instruction between the associated accounts of
/// the owner and of the destination owner for one mint.
///
/// Fails with `InvalidAmount` iff the amount is zero, and with
/// `DerivationExhausted` iff an associated-address search fails; otherwise
/// the instruction carries the token program id, the accounts
/// `[source associated account (writable), destination associated account
/// (writable), owner (signer)]` and the 9-byte payload
/// `opcode 3 ++ amount (little-endian)`.
pub fn build_token_transfer(
    destination_owner: &PublicKey,
    mint: &PublicKey,
    owner: &PublicKey,
    amount: u64,
) -> (r: Result<Instruction, ApiError>)
    requires
        destination_owner.wf(),
        mint.wf(),
        owner.wf(),
    ensures
        amount == 0 ==> r == Err::<Instruction, ApiError>(ApiError::InvalidAmount),
        r is Ok <==> (amount > 0 && pda_search(owner@, TOKEN_PROGRAM_ID@, mint@, ATA_PROGRAM_ID@, 255) is Some
            && pda_search(destination_owner@, TOKEN_PROGRAM_ID@, mint@, ATA_PROGRAM_ID@, 255) is Some),
        r matches Ok(ix) ==> ix.wf() && ix.program_id@ == TOKEN_PROGRAM_ID@ && ix.accounts@.len()
            == 3 && ix.accounts@[0].pubkey@ == pda_search(
            owner@,
            TOKEN_PROGRAM_ID@,
            mint@,
            ATA_PROGRAM_ID@,
            255,
        ).unwrap().0 && !ix.accounts@[0].is_signer && ix.accounts@[0].is_writable
            && ix.accounts@[1].pubkey@ == pda_search(
            destination_owner@,
            TOKEN_PROGRAM_ID@,
            mint@,
            ATA_PROGRAM_ID@,
            255,
        ).unwrap().0 && !ix.accounts@[1].is_signer && ix.accounts@[1].is_writable
            && ix.accounts@[2].pubkey@ == owner@ && ix.accounts@[2].is_signer
            && !ix.accounts@[2].is_writable && ix.data@ == token_transfer_data(amount),
        r matches Err(e) ==> ((e == ApiError::InvalidAmount && amount == 0) || (e
            == ApiError::DerivationExhausted && amount > 0)),
{
    if amount == 0 {
        return Err(ApiError::InvalidAmount);
    }
    let token_program = token_program_key();
    let ata_program = ata_program_key();
    let source = match derive_associated_address(owner, mint, &token_program, &ata_program) {
        Ok(p) => p.0,
        Err(e) => {
            return Err(e);
        },
    };
    let destination = match derive_associated_address(
        destination_owner,
        mint,
        &token_program,
        &ata_program,
    ) {
        Ok(p) => p.0,
        Err(e) => {
            return Err(e);
        },
    };
    let mut data: Vec<u8> = Vec::new();
    data.push(3);
    let mut amount_bytes = u64_to_le(amount);
    data.append(&mut amount_bytes);
    proof {
        assert(data@ =~= token_transfer_data(amount));
    }
    let mut accounts: Vec<AccountReference> = Vec::new();
    accounts.push(AccountReference { pubkey: source, is_signer: false, is_writable: true });
    accounts.push(AccountReference { pubkey: destination, is_signer: false, is_writable: true });
    accounts.push(AccountReference { pubkey: owner.dup(), is_signer: true, is_writable: false });
    Ok(Instruction { program_id: token_program_key(), accounts, data })
}

} // verus!
