use std::str::FromStr;

use anchor_lang::prelude::Pubkey;
use metaid_nft::address::{derive_record_slot, Address};
use metaid_nft::error::MetaIdError;
use metaid_nft::ledger::{Ledger, MintError, TokenError};
use metaid_nft::record::{
    validate_metadata_uri, MetaIdData, MetadataArgs, EDITION_MAX_SUPPLY, MAX_URI_LEN, MINT_AMOUNT, TOKEN_NAME,
    TOKEN_SYMBOL,
};

fn program_id() -> Address {
    Address { bytes: Pubkey::from_str("HqfRUQe2y18NCem7JLRmP1d3nudXzQXDc7uaWLXtrjTV").unwrap().to_bytes() }
}

fn key(b: u8) -> Address {
    Address { bytes: [b; 32] }
}

fn uri_of_len(n: usize) -> String {
    "a".repeat(n)
}

#[test]
fn empty_uri_is_invalid() {
    assert_eq!(validate_metadata_uri(""), Err(MetaIdError::InvalidMetadataUri));
}

#[test]
fn uri_of_201_bytes_is_too_long() {
    assert_eq!(validate_metadata_uri(&uri_of_len(201)), Err(MetaIdError::MetadataUriTooLong));
}

#[test]
fn uri_of_200_bytes_is_accepted() {
    assert_eq!(validate_metadata_uri(&uri_of_len(200)), Ok(()));
    assert_eq!(validate_metadata_uri("a"), Ok(()));
    assert_eq!(MAX_URI_LEN, 200);
}

#[test]
fn uri_length_counts_bytes() {
    let ok = "é".repeat(100);
    let long = "é".repeat(101);
    assert_eq!(validate_metadata_uri(&ok), Ok(()));
    assert_eq!(validate_metadata_uri(&long), Err(MetaIdError::MetadataUriTooLong));
}

#[test]
fn error_messages() {
    assert_eq!(MetaIdError::InvalidMetadataUri.message(), "Metadata URI cannot be empty");
    assert_eq!(MetaIdError::MetadataUriTooLong.message(), "Metadata URI is too long (max 200 characters)");
}

#[test]
fn record_space() {
    assert_eq!(MetaIdData::LEN, 285);
    let d = MetaIdData::new(key(1), "ipfs://x".to_string(), 42, key(2), 254);
    assert_eq!(d.owner, key(1));
    assert_eq!(d.metadata_uri, "ipfs://x");
    assert_eq!(d.created_at, 42);
    assert_eq!(d.mint, key(2));
    assert_eq!(d.bump, 254);
}

#[test]
fn metadata_args_for_owner() {
    let m = MetadataArgs::for_owner(key(7), "ipfs://meta".to_string());
    assert_eq!(m.name, "Synelar MetaID");
    assert_eq!(m.symbol, "METAID");
    assert_eq!(TOKEN_NAME, "Synelar MetaID");
    assert_eq!(TOKEN_SYMBOL, "METAID");
    assert_eq!(m.uri, "ipfs://meta");
    assert_eq!(m.seller_fee_basis_points, 0);
    assert_eq!(m.creators.len(), 1);
    assert_eq!(m.creators[0].address, key(7));
    assert!(!m.creators[0].verified);
    assert_eq!(m.creators[0].share, 100);
}

#[test]
fn record_slot_matches_pda_derivation() {
    let owner = key(3);
    let (slot, bump) = derive_record_slot(&program_id(), &owner).unwrap();
    let pid = Pubkey::new_from_array(program_id().bytes);
    let (expected, expected_bump) = Pubkey::find_program_address(&[b"metaid", &owner.bytes], &pid);
    assert_eq!(slot.bytes, expected.to_bytes());
    assert_eq!(bump, expected_bump);
    assert_ne!(slot, owner);
    let (again, again_bump) = derive_record_slot(&program_id(), &owner).unwrap();
    assert_eq!(again, slot);
    assert_eq!(again_bump, bump);
}

#[test]
fn record_slots_differ_between_owners() {
    let (a, _) = derive_record_slot(&program_id(), &key(1)).unwrap();
    let (b, _) = derive_record_slot(&program_id(), &key(2)).unwrap();
    assert_ne!(a, b);
}

#[test]
fn first_mint_creates_record_token_and_metadata() {
    let mut l = Ledger::new(program_id());
    let owner = key(1);
    let mint = key(100);
    assert_eq!(l.mint_metaid(owner, "ipfs://one".to_string(), mint, 1_700_000_000), Ok(()));
    let (slot, bump) = derive_record_slot(&program_id(), &owner).unwrap();
    assert_eq!(l.records().len(), 1);
    let rec = &l.records()[0];
    assert_eq!(rec.slot, slot);
    assert_eq!(rec.data.owner, owner);
    assert_eq!(rec.data.metadata_uri, "ipfs://one");
    assert_eq!(rec.data.created_at, 1_700_000_000);
    assert_eq!(rec.data.mint, mint);
    assert_eq!(rec.data.bump, bump);
    assert_eq!(l.mints().len(), 1);
    let t = &l.mints()[0];
    assert_eq!(t.address, mint);
    assert_eq!(t.decimals, 0);
    assert_eq!(t.supply, MINT_AMOUNT);
    assert_eq!(t.holder, owner);
    assert_eq!(t.holder_amount, 1);
    assert_eq!(t.mint_authority, None);
    let md = &l.metadata()[0];
    assert_eq!(md.mint, mint);
    assert_eq!(md.args.uri, "ipfs://one");
    assert_eq!(md.args.name, "Synelar MetaID");
    assert_eq!(md.edition_max_supply, Some(EDITION_MAX_SUPPLY));
}

#[test]
fn mint_with_empty_uri_changes_nothing() {
    let mut l = Ledger::new(program_id());
    assert_eq!(
        l.mint_metaid(key(1), String::new(), key(100), 5),
        Err(MintError::Invalid(MetaIdError::InvalidMetadataUri))
    );
    assert_eq!(l.records().len(), 0);
    assert_eq!(l.mints().len(), 0);
    assert_eq!(l.metadata().len(), 0);
}

#[test]
fn mint_with_201_byte_uri_changes_nothing() {
    let mut l = Ledger::new(program_id());
    assert_eq!(
        l.mint_metaid(key(1), uri_of_len(201), key(100), 5),
        Err(MintError::Invalid(MetaIdError::MetadataUriTooLong))
    );
    assert_eq!(l.records().len(), 0);
    assert_eq!(l.mints().len(), 0);
    assert_eq!(l.metadata().len(), 0);
}

#[test]
fn mint_with_200_byte_uri_succeeds() {
    let mut l = Ledger::new(program_id());
    assert_eq!(l.mint_metaid(key(1), uri_of_len(200), key(100), 5), Ok(()));
    assert_eq!(l.records()[0].data.metadata_uri.len(), 200);
}

#[test]
fn second_mint_by_same_owner_fails() {
    let mut l = Ledger::new(program_id());
    let owner = key(1);
    assert_eq!(l.mint_metaid(owner, "ipfs://one".to_string(), key(100), 10), Ok(()));
    assert_eq!(l.mint_metaid(owner, "ipfs://two".to_string(), key(101), 20), Err(MintError::AccountInUse));
    assert_eq!(l.records().len(), 1);
    assert_eq!(l.records()[0].data.metadata_uri, "ipfs://one");
    assert_eq!(l.records()[0].data.created_at, 10);
    assert_eq!(l.records()[0].data.mint, key(100));
    assert_eq!(l.mints().len(), 1);
    assert_eq!(l.metadata().len(), 1);
}

#[test]
fn reused_mint_address_fails() {
    let mut l = Ledger::new(program_id());
    assert_eq!(l.mint_metaid(key(1), "ipfs://one".to_string(), key(100), 10), Ok(()));
    assert_eq!(l.mint_metaid(key(2), "ipfs://two".to_string(), key(100), 20), Err(MintError::AccountInUse));
    assert_eq!(l.records().len(), 1);
}

#[test]
fn minted_token_cannot_be_minted_again() {
    let mut l = Ledger::new(program_id());
    let owner = key(1);
    let mint = key(100);
    assert_eq!(l.mint_metaid(owner, "ipfs://one".to_string(), mint, 10), Ok(()));
    assert_eq!(l.mint_to(&mint, &owner, 1), Err(TokenError::MintAuthorityMismatch));
    assert_eq!(l.mint_to(&mint, &key(9), 5), Err(TokenError::MintAuthorityMismatch));
    assert_eq!(l.mints()[0].supply, 1);
    assert_eq!(l.mints()[0].holder_amount, 1);
}

#[test]
fn mint_to_unknown_mint_fails() {
    let mut l = Ledger::new(program_id());
    assert_eq!(l.mint_to(&key(100), &key(1), 1), Err(TokenError::UnknownMint));
}

#[test]
fn two_owners_mint_independently() {
    let mut l = Ledger::new(program_id());
    assert_eq!(l.mint_metaid(key(1), "ipfs://a".to_string(), key(100), 10), Ok(()));
    assert_eq!(l.mint_metaid(key(2), "ipfs://b".to_string(), key(101), 10), Ok(()));
    assert_eq!(l.records().len(), 2);
    assert_eq!(l.records()[0].data.owner, key(1));
    assert_eq!(l.records()[1].data.owner, key(2));
    assert_ne!(l.records()[0].slot, l.records()[1].slot);
    assert_eq!(l.mints()[0].holder_amount, 1);
    assert_eq!(l.mints()[1].holder_amount, 1);
    assert_eq!(*l.program_id(), program_id());
}
