use borsh::BorshSerialize;
use nft_market::action::{Action, SignerSeeds};
use nft_market::address::Address;
use nft_market::error::TransitionError;
use nft_market::instruction::{encode, AccountMeta, Instruction};
use nft_market::listing::unpaid_creators;
use nft_market::records::{unpaid_copy, Creator, Metadata};
use nft_market::registry::MetadataRecord;
use spl_token::solana_program::pubkey::Pubkey;

fn key(n: u8) -> Address {
    Address::new([n; 32])
}

fn pubkey(n: u8) -> Pubkey {
    Pubkey::new_from_array([n; 32])
}

fn token_program() -> Address {
    Address::new(spl_token::id().to_bytes())
}

fn same(ours: &Instruction, theirs: &spl_token::solana_program::instruction::Instruction) {
    assert_eq!(ours.program_id.bytes, theirs.program_id.to_bytes());
    assert_eq!(ours.data, theirs.data);
    assert_eq!(ours.accounts.len(), theirs.accounts.len());
    for (a, b) in ours.accounts.iter().zip(theirs.accounts.iter()) {
        assert_eq!(a.pubkey.bytes, b.pubkey.to_bytes());
        assert_eq!(a.is_signer, b.is_signer);
        assert_eq!(a.is_writable, b.is_writable);
    }
}

fn entry(
    first: u8,
    primary_sale_happened: bool,
    fee: u16,
    creators: Option<Vec<(u8, bool, u8)>>,
) -> Vec<u8> {
    let entry = metaplex_token_metadata::state::Metadata {
        key: metaplex_token_metadata::state::Key::MetadataV1,
        update_authority: pubkey(1),
        mint: pubkey(2),
        data: metaplex_token_metadata::state::Data {
            name: String::from("Rain"),
            symbol: String::from("RN"),
            uri: String::from("https://example.org/rain.json"),
            seller_fee_basis_points: fee,
            creators: creators.map(|list| {
                list.into_iter()
                    .map(|(who, verified, share)| metaplex_token_metadata::state::Creator {
                        address: pubkey(who),
                        verified,
                        share,
                    })
                    .collect()
            }),
        },
        primary_sale_happened,
        is_mutable: false,
        edition_nonce: None,
    };
    let mut data = entry.try_to_vec().unwrap();
    data.resize(metaplex_token_metadata::state::MAX_METADATA_LEN, 0);
    data[0] = first;
    data
}

#[test]
fn registry_entry_is_read_from_its_bytes() {
    let data = entry(4, true, 725, Some(vec![(5, true, 90), (6, false, 10)]));
    assert_eq!(
        MetadataRecord::decode(&data),
        Ok(MetadataRecord {
            primary_sale_happened: true,
            seller_fee_basis_points: 725,
            creators: Some(vec![
                Creator { address: key(5), verified: true, share: 90 },
                Creator { address: key(6), verified: false, share: 10 },
            ]),
        })
    );
    let data = entry(4, false, 0, None);
    assert_eq!(
        MetadataRecord::decode(&data),
        Ok(MetadataRecord {
            primary_sale_happened: false,
            seller_fee_basis_points: 0,
            creators: None,
        })
    );
}

#[test]
fn registry_entry_of_another_kind_or_length_is_refused() {
    assert_eq!(
        MetadataRecord::decode(&entry(6, false, 0, None)),
        Err(TransitionError::InvalidAccountData)
    );
    let mut data = entry(4, false, 0, None);
    data.pop();
    assert_eq!(MetadataRecord::decode(&data), Err(TransitionError::InvalidAccountData));
    assert_eq!(MetadataRecord::decode(&[]), Err(TransitionError::InvalidAccountData));
    assert_eq!(MetadataRecord::decode(&[4]), Err(TransitionError::InvalidAccountData));
}

#[test]
fn listing_copies_recipients_unpaid() {
    let record = MetadataRecord {
        primary_sale_happened: false,
        seller_fee_basis_points: 0,
        creators: Some(vec![
            Creator { address: key(5), verified: true, share: 90 },
            Creator { address: key(6), verified: false, share: 10 },
        ]),
    };
    let expected = vec![
        Creator { address: key(5), verified: false, share: 90 },
        Creator { address: key(6), verified: false, share: 10 },
    ];
    assert_eq!(unpaid_creators(&record), expected);
    assert_eq!(unpaid_copy(record.creators.as_ref().unwrap()), expected);
    let none = MetadataRecord {
        primary_sale_happened: false,
        seller_fee_basis_points: 0,
        creators: None,
    };
    assert!(unpaid_creators(&none).is_empty());
}

#[test]
fn transfer_is_encoded_for_the_token_program() {
    let action = Action::Transfer {
        program: token_program(),
        source: key(1),
        destination: key(2),
        authority: key(3),
        amount: 0x0102_0304_0506_0708,
        seeds: Some(SignerSeeds { pool: key(4), nft_mint: key(5), bump: 6 }),
    };
    let ix = encode(&action).unwrap();
    assert_eq!(ix.program_id, token_program());
    assert_eq!(
        ix.accounts,
        vec![
            AccountMeta { pubkey: key(1), is_signer: false, is_writable: true },
            AccountMeta { pubkey: key(2), is_signer: false, is_writable: true },
            AccountMeta { pubkey: key(3), is_signer: true, is_writable: false },
        ]
    );
    assert_eq!(ix.data, vec![3, 8, 7, 6, 5, 4, 3, 2, 1]);
    let theirs = spl_token::instruction::transfer(
        &spl_token::id(),
        &pubkey(1),
        &pubkey(2),
        &pubkey(3),
        &[],
        0x0102_0304_0506_0708,
    )
    .unwrap();
    same(&ix, &theirs);
}

#[test]
fn mint_to_is_encoded_for_the_token_program() {
    let action = Action::MintTo {
        program: token_program(),
        mint: key(1),
        account: key(2),
        owner: key(3),
        amount: 1,
    };
    let ix = encode(&action).unwrap();
    assert_eq!(ix.program_id, token_program());
    assert_eq!(
        ix.accounts,
        vec![
            AccountMeta { pubkey: key(1), is_signer: false, is_writable: true },
            AccountMeta { pubkey: key(2), is_signer: false, is_writable: true },
            AccountMeta { pubkey: key(3), is_signer: true, is_writable: false },
        ]
    );
    assert_eq!(ix.data, vec![7, 1, 0, 0, 0, 0, 0, 0, 0]);
}

#[test]
fn token_requests_to_another_program_are_not_encoded() {
    let action = Action::Transfer {
        program: key(9),
        source: key(1),
        destination: key(2),
        authority: key(3),
        amount: 1,
        seeds: None,
    };
    assert_eq!(encode(&action), None);
    let action = Action::MintTo {
        program: key(9),
        mint: key(1),
        account: key(2),
        owner: key(3),
        amount: 1,
    };
    assert_eq!(encode(&action), None);
}

#[test]
fn update_authority_is_encoded_for_the_registry() {
    let action = Action::UpdateAuthority {
        program: key(9),
        metadata: key(1),
        update_authority: key(2),
        new_update_authority: key(3),
        seeds: None,
    };
    let ix = encode(&action).unwrap();
    assert_eq!(ix.program_id, key(9));
    assert_eq!(
        ix.accounts,
        vec![
            AccountMeta { pubkey: key(1), is_signer: false, is_writable: true },
            AccountMeta { pubkey: key(2), is_signer: true, is_writable: false },
        ]
    );
    let mut data = vec![1u8, 0, 1];
    data.extend_from_slice(&[3u8; 32]);
    data.push(0);
    assert_eq!(ix.data, data);
}

#[test]
fn mark_primary_sale_is_encoded_for_the_registry() {
    let action = Action::MarkPrimarySale {
        program: key(9),
        metadata: key(1),
        owner: key(2),
        token: key(3),
        seeds: Some(SignerSeeds { pool: key(4), nft_mint: key(5), bump: 6 }),
    };
    let ix = encode(&action).unwrap();
    assert_eq!(ix.program_id, key(9));
    assert_eq!(
        ix.accounts,
        vec![
            AccountMeta { pubkey: key(1), is_signer: false, is_writable: true },
            AccountMeta { pubkey: key(2), is_signer: true, is_writable: false },
            AccountMeta { pubkey: key(3), is_signer: false, is_writable: false },
        ]
    );
    assert_eq!(ix.data, vec![4]);
}

#[test]
fn create_master_edition_is_encoded_for_the_registry() {
    let rent = Address::new(spl_token::solana_program::sysvar::rent::id().to_bytes());
    let system = Address::new(spl_token::solana_program::system_program::id().to_bytes());
    for (max_supply, data) in [
        (None, vec![10u8, 0]),
        (Some(0x0102u64), vec![10u8, 1, 2, 1, 0, 0, 0, 0, 0, 0]),
    ] {
        let action = Action::CreateMasterEdition {
            program: key(9),
            edition: key(1),
            mint: key(2),
            update_authority: key(3),
            mint_authority: key(4),
            metadata: key(5),
            payer: key(6),
            max_supply,
        };
        let ix = encode(&action).unwrap();
        assert_eq!(ix.program_id, key(9));
        assert_eq!(
            ix.accounts,
            vec![
                AccountMeta { pubkey: key(1), is_signer: false, is_writable: true },
                AccountMeta { pubkey: key(2), is_signer: false, is_writable: true },
                AccountMeta { pubkey: key(3), is_signer: true, is_writable: false },
                AccountMeta { pubkey: key(4), is_signer: true, is_writable: false },
                AccountMeta { pubkey: key(6), is_signer: true, is_writable: true },
                AccountMeta { pubkey: key(5), is_signer: false, is_writable: false },
                AccountMeta { pubkey: token_program(), is_signer: false, is_writable: false },
                AccountMeta { pubkey: system, is_signer: false, is_writable: false },
                AccountMeta { pubkey: rent, is_signer: false, is_writable: false },
            ]
        );
        assert_eq!(ix.data, data);
    }
    assert_eq!(system, Address::zero());
}

#[test]
fn create_metadata_is_encoded_for_the_registry() {
    let rent = Address::new(spl_token::solana_program::sysvar::rent::id().to_bytes());
    let data = Metadata {
        name: String::from("Rain"),
        symbol: String::from("RN"),
        uri: String::from("https://example.org/rain.json"),
        seller_fee_basis_points: 300,
        creators: vec![Creator { address: key(7), verified: false, share: 100 }],
        is_mutable: true,
    };
    for signs in [true, false] {
        let action = Action::CreateMetadata {
            program: key(9),
            metadata: key(1),
            mint: key(2),
            mint_authority: key(3),
            payer: key(4),
            update_authority: key(5),
            data: data.clone(),
            update_authority_is_signer: signs,
        };
        let ix = encode(&action).unwrap();
        assert_eq!(ix.program_id, key(9));
        assert_eq!(
            ix.accounts,
            vec![
                AccountMeta { pubkey: key(1), is_signer: false, is_writable: true },
                AccountMeta { pubkey: key(2), is_signer: false, is_writable: false },
                AccountMeta { pubkey: key(3), is_signer: true, is_writable: false },
                AccountMeta { pubkey: key(4), is_signer: true, is_writable: true },
                AccountMeta { pubkey: key(5), is_signer: signs, is_writable: false },
                AccountMeta { pubkey: Address::zero(), is_signer: false, is_writable: false },
                AccountMeta { pubkey: rent, is_signer: false, is_writable: false },
            ]
        );
        let theirs = metaplex_token_metadata::instruction::create_metadata_accounts(
            pubkey(9),
            pubkey(1),
            pubkey(2),
            pubkey(3),
            pubkey(4),
            pubkey(5),
            String::from("Rain"),
            String::from("RN"),
            String::from("https://example.org/rain.json"),
            Some(vec![metaplex_token_metadata::state::Creator {
                address: pubkey(7),
                verified: false,
                share: 100,
            }]),
            300,
            signs,
            true,
        );
        same(&ix, &theirs);
        assert_eq!(ix.data[0], 0);
        assert_eq!(&ix.data[1..9], &[4, 0, 0, 0, b'R', b'a', b'i', b'n']);
    }
}

#[test]
fn registry_decoding_agrees_with_the_metadata_program_on_changed_bytes() {
    let base = entry(4, true, 725, Some(vec![(5, true, 90), (6, false, 10)]));
    for at in 0..200 {
        for value in [0u8, 1, 2, 4, 0x7f, 0xff] {
            let mut data = base.clone();
            data[at] = value;
            let theirs: Result<metaplex_token_metadata::state::Metadata, _> =
                metaplex_token_metadata::utils::try_from_slice_checked(
                    &data,
                    metaplex_token_metadata::state::Key::MetadataV1,
                    metaplex_token_metadata::state::MAX_METADATA_LEN,
                );
            match (MetadataRecord::decode(&data), theirs) {
                (Ok(ours), Ok(theirs)) => {
                    assert_eq!(ours.primary_sale_happened, theirs.primary_sale_happened);
                    assert_eq!(ours.seller_fee_basis_points, theirs.data.seller_fee_basis_points);
                    let theirs: Option<Vec<Creator>> = theirs.data.creators.map(|list| {
                        list.iter()
                            .map(|c| Creator {
                                address: Address::new(c.address.to_bytes()),
                                verified: c.verified,
                                share: c.share,
                            })
                            .collect()
                    });
                    assert_eq!(ours.creators, theirs);
                }
                (Err(e), Err(_)) => assert_eq!(e, TransitionError::InvalidAccountData),
                (ours, theirs) => panic!("at {}: {:?} but {:?}", at, ours, theirs.is_ok()),
            }
        }
    }
}

#[test]
fn registry_requests_agree_with_the_metadata_program() {
    let action = Action::UpdateAuthority {
        program: key(9),
        metadata: key(1),
        update_authority: key(2),
        new_update_authority: key(3),
        seeds: None,
    };
    same(
        &encode(&action).unwrap(),
        &metaplex_token_metadata::instruction::update_metadata_accounts(
            pubkey(9),
            pubkey(1),
            pubkey(2),
            Some(pubkey(3)),
            None,
            None,
        ),
    );
    let action = Action::MarkPrimarySale {
        program: key(9),
        metadata: key(1),
        owner: key(2),
        token: key(3),
        seeds: None,
    };
    same(
        &encode(&action).unwrap(),
        &metaplex_token_metadata::instruction::update_primary_sale_happened_via_token(
            pubkey(9),
            pubkey(1),
            pubkey(2),
            pubkey(3),
        ),
    );
    let action = Action::CreateMasterEdition {
        program: key(9),
        edition: key(1),
        mint: key(2),
        update_authority: key(3),
        mint_authority: key(4),
        metadata: key(5),
        payer: key(6),
        max_supply: Some(77),
    };
    same(
        &encode(&action).unwrap(),
        &metaplex_token_metadata::instruction::create_master_edition(
            pubkey(9),
            pubkey(1),
            pubkey(2),
            pubkey(3),
            pubkey(4),
            pubkey(5),
            pubkey(6),
            Some(77),
        ),
    );
    let action = Action::MintTo {
        program: token_program(),
        mint: key(1),
        account: key(2),
        owner: key(3),
        amount: u64::MAX,
    };
    same(
        &encode(&action).unwrap(),
        &spl_token::instruction::mint_to(
            &spl_token::id(),
            &pubkey(1),
            &pubkey(2),
            &pubkey(3),
            &[],
            u64::MAX,
        )
        .unwrap(),
    );
}

#[test]
fn create_metadata_data_is_written_field_by_field() {
    let data = Metadata {
        name: String::from("Caf\u{e9} \u{2600}"),
        symbol: String::new(),
        uri: String::from("u"),
        seller_fee_basis_points: 0x0102,
        creators: vec![
            Creator { address: key(7), verified: true, share: 60 },
            Creator { address: key(8), verified: false, share: 40 },
        ],
        is_mutable: false,
    };
    let action = Action::CreateMetadata {
        program: key(9),
        metadata: key(1),
        mint: key(2),
        mint_authority: key(3),
        payer: key(4),
        update_authority: key(5),
        data,
        update_authority_is_signer: true,
    };
    let mut expected = vec![0u8];
    // "Café ☀": 'é' takes 2 bytes and '☀' takes 3, so 9 bytes in all
    expected.extend_from_slice(&[9, 0, 0, 0]);
    expected.extend_from_slice(&[b'C', b'a', b'f', 0xc3, 0xa9, b' ', 0xe2, 0x98, 0x80]);
    expected.extend_from_slice(&[0, 0, 0, 0]);
    expected.extend_from_slice(&[1, 0, 0, 0, b'u']);
    expected.extend_from_slice(&[2, 1]);
    expected.extend_from_slice(&[1, 2, 0, 0, 0]);
    expected.extend_from_slice(&[7u8; 32]);
    expected.extend_from_slice(&[1, 60]);
    expected.extend_from_slice(&[8u8; 32]);
    expected.extend_from_slice(&[0, 40]);
    expected.push(0);
    assert_eq!(encode(&action).unwrap().data, expected);
}

#[test]
fn create_metadata_without_recipients_writes_an_empty_list() {
    let action = Action::CreateMetadata {
        program: key(9),
        metadata: key(1),
        mint: key(2),
        mint_authority: key(3),
        payer: key(4),
        update_authority: key(5),
        data: Metadata {
            name: String::new(),
            symbol: String::new(),
            uri: String::new(),
            seller_fee_basis_points: 0,
            creators: Vec::new(),
            is_mutable: true,
        },
        update_authority_is_signer: false,
    };
    assert_eq!(
        encode(&action).unwrap().data,
        vec![0, 0, 0, 0, 0, 0, 0, 0, 0, 0, 0, 0, 0, 0, 0, 1, 0, 0, 0, 0, 1]
    );
}
