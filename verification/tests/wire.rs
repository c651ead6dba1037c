use std::str::FromStr;

use solkit::codec::base64_decode;
use solkit::derive::{derive_associated_address, derive_deterministic};
use solkit::instructions::{ata_program_key, token_program_key, ATA_PROGRAM_ID, TOKEN_PROGRAM_ID};
use solkit::keys::generate_keypair;
use solkit::keys::parse_public_key;
use solkit::response::ApiError;
use solkit::service::{create_token, mint_token, send_sol, send_token, CreateTokenRequest,
    MintTokenRequest, SendSolRequest, SendTokenRequest};

use spl_token::solana_program::pubkey::Pubkey;

const SYSTEM_PROGRAM_TEXT: &str = "11111111111111111111111111111111";
const TOKEN_PROGRAM_TEXT: &str = "TokenkegQfeZyiNwAJbNbGKPFXCWuBvf9Ss623VQ5DA";
const RENT_SYSVAR_TEXT: &str = "SysvarRent111111111111111111111111111111111";

#[test]
fn program_id_constants_match_their_text_forms() {
    assert_eq!(token_program_key().to_base58(), TOKEN_PROGRAM_TEXT);
    assert_eq!(
        ata_program_key().to_base58(),
        "ATokenGPvbdGVxr1b2hvZbsiqW5xWH25efTNsLJA8knL"
    );
    assert_eq!(TOKEN_PROGRAM_ID, Pubkey::from_str(TOKEN_PROGRAM_TEXT).unwrap().to_bytes());
    assert_eq!(
        ATA_PROGRAM_ID,
        Pubkey::from_str("ATokenGPvbdGVxr1b2hvZbsiqW5xWH25efTNsLJA8knL").unwrap().to_bytes()
    );
}

#[test]
fn send_sol_builds_exact_payload() {
    let from = generate_keypair().pubkey;
    let to = generate_keypair().pubkey;
    let data = send_sol(&SendSolRequest { from: from.clone(), to: to.clone(), lamports: 1000 })
        .expect("valid transfer builds");
    assert_eq!(data.program_id, SYSTEM_PROGRAM_TEXT);
    assert_eq!(data.accounts, vec![from.clone(), to.clone()]);
    assert_eq!(data.instruction_data, "AgAAAOgDAAAAAAAA");
    let bytes = base64_decode(&data.instruction_data).unwrap();
    assert_eq!(bytes, vec![2, 0, 0, 0, 232, 3, 0, 0, 0, 0, 0, 0]);
    let max = send_sol(&SendSolRequest { from, to, lamports: u64::MAX }).unwrap();
    let max_bytes = base64_decode(&max.instruction_data).unwrap();
    assert_eq!(max_bytes, vec![2, 0, 0, 0, 255, 255, 255, 255, 255, 255, 255, 255]);
}

#[test]
fn send_sol_rejects_zero_amount() {
    let from = generate_keypair().pubkey;
    let to = generate_keypair().pubkey;
    assert!(matches!(
        send_sol(&SendSolRequest { from, to, lamports: 0 }),
        Err(ApiError::InvalidAmount)
    ));
}

#[test]
fn send_sol_rejects_malformed_keys() {
    let to = generate_keypair().pubkey;
    assert!(matches!(
        send_sol(&SendSolRequest { from: "0bad".to_string(), to: to.clone(), lamports: 5 }),
        Err(ApiError::InvalidPublicKey)
    ));
    assert!(matches!(
        send_sol(&SendSolRequest { from: to, to: "abc".to_string(), lamports: 5 }),
        Err(ApiError::InvalidPublicKey)
    ));
}

#[test]
fn derivation_is_deterministic() {
    let owner = parse_public_key(&generate_keypair().pubkey).unwrap();
    let mint = parse_public_key(&generate_keypair().pubkey).unwrap();
    let token_program = token_program_key();
    let ata_program = ata_program_key();
    let first = derive_associated_address(&owner, &mint, &token_program, &ata_program).unwrap();
    let second = derive_associated_address(&owner, &mint, &token_program, &ata_program).unwrap();
    assert_eq!(first.0.bytes, second.0.bytes);
    assert_eq!(first.1, second.1);
    let (a, b) = derive_deterministic(&owner, &mint, &token_program, &ata_program);
    let a = a.unwrap();
    let b = b.unwrap();
    assert_eq!(a.0.bytes, b.0.bytes);
    assert_eq!(a.1, b.1);
}

#[test]
fn derivation_matches_the_associated_token_address() {
    let owner_text = generate_keypair().pubkey;
    let mint_text = generate_keypair().pubkey;
    let owner = parse_public_key(&owner_text).unwrap();
    let mint = parse_public_key(&mint_text).unwrap();
    let derived =
        derive_associated_address(&owner, &mint, &token_program_key(), &ata_program_key())
            .unwrap();
    let expected = spl_associated_token_account::get_associated_token_address(
        &Pubkey::from_str(&owner_text).unwrap(),
        &Pubkey::from_str(&mint_text).unwrap(),
    );
    assert_eq!(derived.0.to_base58(), expected.to_string());
}

#[test]
fn send_token_rejects_zero_amount() {
    let destination = generate_keypair().pubkey;
    let mint = generate_keypair().pubkey;
    let owner = generate_keypair().pubkey;
    assert!(matches!(
        send_token(&SendTokenRequest { destination, mint, owner, amount: 0 }),
        Err(ApiError::InvalidAmount)
    ));
}

#[test]
fn send_token_accounts_and_payload() {
    let destination = generate_keypair().pubkey;
    let mint = generate_keypair().pubkey;
    let owner = generate_keypair().pubkey;
    let data = send_token(&SendTokenRequest {
        destination: destination.clone(),
        mint: mint.clone(),
        owner: owner.clone(),
        amount: 5,
    })
    .expect("valid token transfer builds");
    assert_eq!(data.program_id, TOKEN_PROGRAM_TEXT);
    assert_eq!(data.accounts.len(), 3);
    let source_ata = spl_associated_token_account::get_associated_token_address(
        &Pubkey::from_str(&owner).unwrap(),
        &Pubkey::from_str(&mint).unwrap(),
    );
    let destination_ata = spl_associated_token_account::get_associated_token_address(
        &Pubkey::from_str(&destination).unwrap(),
        &Pubkey::from_str(&mint).unwrap(),
    );
    assert_eq!(data.accounts[0].pubkey, source_ata.to_string());
    assert!(!data.accounts[0].isSigner);
    assert_eq!(data.accounts[1].pubkey, destination_ata.to_string());
    assert!(!data.accounts[1].isSigner);
    assert_eq!(data.accounts[2].pubkey, owner);
    assert!(data.accounts[2].isSigner);
    let bytes = base64_decode(&data.instruction_data).unwrap();
    assert_eq!(bytes, vec![3, 5, 0, 0, 0, 0, 0, 0, 0]);
    // spl-token's own builder produces the same payload and account order
    let expected = spl_token::instruction::transfer(
        &spl_token::ID,
        &source_ata,
        &destination_ata,
        &Pubkey::from_str(&owner).unwrap(),
        &[],
        5,
    )
    .unwrap();
    assert_eq!(bytes, expected.data);
    for (mine, theirs) in data.accounts.iter().zip(expected.accounts.iter()) {
        assert_eq!(mine.pubkey, theirs.pubkey.to_string());
        assert_eq!(mine.isSigner, theirs.is_signer);
    }
}

#[test]
fn create_token_matches_spl_token() {
    let mint = generate_keypair().pubkey;
    let authority = generate_keypair().pubkey;
    let data = create_token(&CreateTokenRequest {
        mintAuthority: authority.clone(),
        mint: mint.clone(),
        decimals: 9,
    })
    .expect("valid mint initialization builds");
    assert_eq!(data.program_id, TOKEN_PROGRAM_TEXT);
    assert_eq!(data.accounts.len(), 2);
    assert_eq!(data.accounts[0].pubkey, mint);
    assert!(!data.accounts[0].is_signer);
    assert!(data.accounts[0].is_writable);
    assert_eq!(data.accounts[1].pubkey, RENT_SYSVAR_TEXT);
    assert!(!data.accounts[1].is_signer);
    assert!(!data.accounts[1].is_writable);
    let bytes = base64_decode(&data.instruction_data).unwrap();
    let expected = spl_token::instruction::initialize_mint(
        &spl_token::ID,
        &Pubkey::from_str(&mint).unwrap(),
        &Pubkey::from_str(&authority).unwrap(),
        None,
        9,
    )
    .unwrap();
    assert_eq!(bytes, expected.data);
    assert_eq!(bytes[0], 0);
    assert_eq!(bytes[1], 9);
    assert_eq!(bytes.len(), 35);
    for (mine, theirs) in data.accounts.iter().zip(expected.accounts.iter()) {
        assert_eq!(mine.pubkey, theirs.pubkey.to_string());
        assert_eq!(mine.is_signer, theirs.is_signer);
        assert_eq!(mine.is_writable, theirs.is_writable);
    }
}

#[test]
fn create_token_rejects_malformed_keys() {
    let mint = generate_keypair().pubkey;
    assert!(matches!(
        create_token(&CreateTokenRequest {
            mintAuthority: "0".to_string(),
            mint,
            decimals: 0,
        }),
        Err(ApiError::InvalidPublicKey)
    ));
}

#[test]
fn mint_token_matches_spl_token() {
    let mint = generate_keypair().pubkey;
    let destination = generate_keypair().pubkey;
    let authority = generate_keypair().pubkey;
    let data = mint_token(&MintTokenRequest {
        mint: mint.clone(),
        destination: destination.clone(),
        authority: authority.clone(),
        amount: 12345,
    })
    .expect("valid mint-to builds");
    assert_eq!(data.program_id, TOKEN_PROGRAM_TEXT);
    assert_eq!(data.accounts.len(), 3);
    assert_eq!(data.accounts[0].pubkey, mint);
    assert!(data.accounts[0].is_writable);
    assert_eq!(data.accounts[1].pubkey, destination);
    assert!(data.accounts[1].is_writable);
    assert_eq!(data.accounts[2].pubkey, authority);
    assert!(data.accounts[2].is_signer);
    assert!(!data.accounts[2].is_writable);
    let bytes = base64_decode(&data.instruction_data).unwrap();
    assert_eq!(bytes, vec![7, 57, 48, 0, 0, 0, 0, 0, 0]);
    let expected = spl_token::instruction::mint_to(
        &spl_token::ID,
        &Pubkey::from_str(&mint).unwrap(),
        &Pubkey::from_str(&destination).unwrap(),
        &Pubkey::from_str(&authority).unwrap(),
        &[],
        12345,
    )
    .unwrap();
    assert_eq!(bytes, expected.data);
    for (mine, theirs) in data.accounts.iter().zip(expected.accounts.iter()) {
        assert_eq!(mine.pubkey, theirs.pubkey.to_string());
        assert_eq!(mine.is_signer, theirs.is_signer);
        assert_eq!(mine.is_writable, theirs.is_writable);
    }
}

#[test]
fn mint_token_rejects_zero_amount() {
    let mint = generate_keypair().pubkey;
    let destination = generate_keypair().pubkey;
    let authority = generate_keypair().pubkey;
    assert!(matches!(
        mint_token(&MintTokenRequest { mint, destination, authority, amount: 0 }),
        Err(ApiError::InvalidAmount)
    ));
}
