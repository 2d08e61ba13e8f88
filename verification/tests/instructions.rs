use anchor_lang::prelude::Pubkey;
use metaplex_budget::service::{
    AccountMeta, CollectionTag, CreateMasterEdition, CreateMetadata, TokenData,
    TOKEN_METADATA_PROGRAM,
};
use metaplex_budget::Address;
use mpl_token_metadata::instructions::{
    CreateMasterEditionV3, CreateMasterEditionV3InstructionArgs, CreateMetadataAccountV3,
    CreateMetadataAccountV3InstructionArgs,
};
use mpl_token_metadata::types::{Collection, DataV2};

fn address(fill: u8) -> Address {
    Address::new([fill; 32])
}

fn key(fill: u8) -> Pubkey {
    Pubkey::new_from_array([fill; 32])
}

fn meta(fill: u8, is_signer: bool, is_writable: bool) -> AccountMeta {
    AccountMeta { pubkey: address(fill), is_signer, is_writable }
}

fn metadata(rent: Option<Address>, collection: Option<CollectionTag>) -> CreateMetadata {
    CreateMetadata {
        metadata: address(1),
        mint: address(2),
        mint_authority: address(3),
        payer: address(4),
        update_authority: address(5),
        update_authority_is_signer: true,
        system_program: address(6),
        rent,
        data: TokenData {
            name: "Travel Q1".to_string(),
            symbol: "travel-and".to_string(),
            uri: "https://example.org/t.json".to_string(),
            seller_fee_basis_points: 0,
            collection,
        },
        is_mutable: true,
    }
}

fn master_edition(rent: Option<Address>, max_supply: Option<u64>) -> CreateMasterEdition {
    CreateMasterEdition {
        edition: address(1),
        mint: address(2),
        update_authority: address(3),
        mint_authority: address(4),
        payer: address(5),
        metadata: address(6),
        token_program: address(7),
        system_program: address(8),
        rent,
        max_supply,
    }
}

#[test]
fn metadata_program_is_pinned() {
    assert_eq!(TOKEN_METADATA_PROGRAM, mpl_token_metadata::ID.to_bytes());
    let built = metadata(None, None).instruction().unwrap();
    assert_eq!(built.program_id, Address::new(TOKEN_METADATA_PROGRAM));
    assert_eq!(master_edition(None, None).instruction().program_id.bytes, TOKEN_METADATA_PROGRAM);
}

#[test]
fn metadata_instruction_lists_its_accounts_in_order() {
    let built = metadata(Some(address(7)), None).instruction().unwrap();
    assert_eq!(
        built.accounts,
        vec![
            meta(1, false, true),
            meta(2, false, false),
            meta(3, true, false),
            meta(4, true, true),
            meta(5, true, false),
            meta(6, false, false),
            meta(7, false, false),
        ]
    );
    let without_rent = metadata(None, None).instruction().unwrap();
    assert_eq!(without_rent.accounts.len(), 6);
    assert_eq!(without_rent.accounts[..], built.accounts[..6]);
    let mut unsigned = metadata(None, None);
    unsigned.update_authority_is_signer = false;
    assert_eq!(unsigned.instruction().unwrap().accounts[4], meta(5, false, false));
}

#[test]
fn metadata_instruction_is_what_the_metadata_crate_builds() {
    let tag = CollectionTag { verified: false, key: address(9) };
    let built = metadata(Some(address(7)), Some(tag)).instruction().unwrap();
    let expected = CreateMetadataAccountV3 {
        metadata: key(1),
        mint: key(2),
        mint_authority: key(3),
        payer: key(4),
        update_authority: (key(5), true),
        system_program: key(6),
        rent: Some(key(7)),
    }
    .instruction(CreateMetadataAccountV3InstructionArgs {
        data: DataV2 {
            name: "Travel Q1".to_string(),
            symbol: "travel-and".to_string(),
            uri: "https://example.org/t.json".to_string(),
            seller_fee_basis_points: 0,
            creators: None,
            collection: Some(Collection { verified: false, key: key(9) }),
            uses: None,
        },
        is_mutable: true,
        collection_details: None,
    });
    assert_eq!(built.program_id.bytes, expected.program_id.to_bytes());
    assert_eq!(built.data, expected.data);
    assert_eq!(built.accounts.len(), expected.accounts.len());
    for (ours, theirs) in built.accounts.iter().zip(expected.accounts.iter()) {
        assert_eq!(ours.pubkey.bytes, theirs.pubkey.to_bytes());
        assert_eq!(ours.is_signer, theirs.is_signer);
        assert_eq!(ours.is_writable, theirs.is_writable);
    }
}

#[test]
fn metadata_data_carries_the_description() {
    let tag = CollectionTag { verified: false, key: address(9) };
    let data = metadata(None, Some(tag)).instruction().unwrap().data;
    let mut expected = vec![33u8];
    for text in ["Travel Q1", "travel-and", "https://example.org/t.json"] {
        expected.extend_from_slice(&(text.len() as u32).to_le_bytes());
        expected.extend_from_slice(text.as_bytes());
    }
    expected.extend_from_slice(&[0, 0]);
    expected.push(0);
    expected.push(1);
    expected.push(0);
    expected.extend_from_slice(&[9u8; 32]);
    expected.push(0);
    expected.push(1);
    expected.push(0);
    assert_eq!(data, expected);
    let untagged = metadata(None, None).instruction().unwrap().data;
    assert_ne!(untagged, data);
    let mut renamed = metadata(None, Some(tag));
    renamed.data.name = "Travel Q2".to_string();
    assert_ne!(renamed.instruction().unwrap().data, data);
}

#[test]
fn master_edition_instruction_lists_its_accounts_in_order() {
    let built = master_edition(Some(address(9)), Some(0)).instruction();
    assert_eq!(
        built.accounts,
        vec![
            meta(1, false, true),
            meta(2, false, true),
            meta(3, true, false),
            meta(4, true, false),
            meta(5, true, true),
            meta(6, false, true),
            meta(7, false, false),
            meta(8, false, false),
            meta(9, false, false),
        ]
    );
    assert_eq!(master_edition(None, Some(0)).instruction().accounts.len(), 8);
}

#[test]
fn master_edition_instruction_is_what_the_metadata_crate_builds() {
    let built = master_edition(Some(address(9)), Some(0)).instruction();
    let expected = CreateMasterEditionV3 {
        edition: key(1),
        mint: key(2),
        update_authority: key(3),
        mint_authority: key(4),
        payer: key(5),
        metadata: key(6),
        token_program: key(7),
        system_program: key(8),
        rent: Some(key(9)),
    }
    .instruction(CreateMasterEditionV3InstructionArgs { max_supply: Some(0) });
    assert_eq!(built.program_id.bytes, expected.program_id.to_bytes());
    assert_eq!(built.data, expected.data);
    assert_eq!(built.accounts.len(), expected.accounts.len());
    for (ours, theirs) in built.accounts.iter().zip(expected.accounts.iter()) {
        assert_eq!(ours.pubkey.bytes, theirs.pubkey.to_bytes());
        assert_eq!(ours.is_signer, theirs.is_signer);
        assert_eq!(ours.is_writable, theirs.is_writable);
    }
}

#[test]
fn master_edition_data_carries_the_print_limit() {
    assert_eq!(
        master_edition(None, Some(0)).instruction().data,
        vec![17u8, 1, 0, 0, 0, 0, 0, 0, 0, 0]
    );
    assert_eq!(
        master_edition(None, Some(0x0102)).instruction().data,
        vec![17u8, 1, 2, 1, 0, 0, 0, 0, 0, 0]
    );
    assert_eq!(master_edition(None, None).instruction().data, vec![17u8, 0]);
}
