use vstd::prelude::*;
use crate::action::{Action, ActionView};
use crate::address::{same_bytes_same_address, Address};
use crate::records::{Creator, Metadata, MetadataView};
use metaplex_token_metadata::instruction::{
    create_master_edition, create_metadata_accounts, update_metadata_accounts,
    update_primary_sale_happened_via_token,
};
use metaplex_token_metadata::state::Creator as RegistryCreator;
use spl_token::solana_program::program_error::ProgramError;
use spl_token::solana_program::pubkey::Pubkey;

verus! {

/// One account that an instruction names, and how it uses it.
#[derive(Clone, Copy, Debug, PartialEq, Eq)]
pub struct AccountMeta {
    pub pubkey: Address,
    pub is_signer: bool,
    pub is_writable: bool,
}

/// A request in the form in which a program of the ledger receives it.
#[derive(Clone, Debug, PartialEq, Eq)]
pub struct Instruction {
    pub program_id: Address,
    pub accounts: Vec<AccountMeta>,
    pub data: Vec<u8>,
}

impl AccountMeta {
    pub fn new(bytes: [u8; 32], is_signer: bool, is_writable: bool) -> (m: AccountMeta)
        ensures
            m.pubkey.bytes == bytes,
            m.is_signer == is_signer,
            m.is_writable == is_writable,
    {
        AccountMeta { pubkey: Address { bytes }, is_signer, is_writable }
    }
}

/// The address of the token program.
pub open spec fn token_program_id() -> Seq<u8> {
    seq![
        6u8, 221u8, 246u8, 225u8, 215u8, 101u8, 161u8, 147u8, 217u8, 203u8, 225u8, 70u8, 206u8,
        235u8, 121u8, 172u8, 28u8, 180u8, 133u8, 237u8, 95u8, 91u8, 55u8, 145u8, 58u8, 140u8,
        245u8, 133u8, 126u8, 255u8, 0u8, 169u8,
    ]
}

/// The address of the system program.
pub open spec fn system_program_id() -> Seq<u8> {
    Seq::new(32, |i: int| 0u8)
}

/// The address of the rent sysvar.
pub open spec fn rent_sysvar_id() -> Seq<u8> {
    seq![
        6u8, 167u8, 213u8, 23u8, 25u8, 44u8, 92u8, 81u8, 33u8, 140u8, 201u8, 76u8, 61u8, 74u8,
        241u8, 127u8, 88u8, 218u8, 238u8, 8u8, 155u8, 161u8, 253u8, 68u8, 227u8, 219u8, 217u8,
        138u8, 0u8, 0u8, 0u8, 0u8,
    ]
}

/// The 8 bytes that write `x` little-endian.
pub open spec fn le_bytes(x: u64) -> Seq<u8> {
    seq![
        (x % 0x100) as u8,
        (x / 0x100 % 0x100) as u8,
        (x / 0x1_0000 % 0x100) as u8,
        (x / 0x100_0000 % 0x100) as u8,
        (x / 0x1_0000_0000 % 0x100) as u8,
        (x / 0x100_0000_0000 % 0x100) as u8,
        (x / 0x1_0000_0000_0000 % 0x100) as u8,
        (x / 0x100_0000_0000_0000 % 0x100) as u8,
    ]
}

/// `m` names the account with the bytes `key`, used as said.
pub open spec fn names(m: AccountMeta, key: Seq<u8>, is_signer: bool, is_writable: bool) -> bool {
    m.pubkey@ == key && m.is_signer == is_signer && m.is_writable == is_writable
}

/// The 4 bytes that write `x` little-endian.
pub open spec fn le_bytes_u32(x: int) -> Seq<u8> {
    seq![
        (x % 0x100) as u8,
        (x / 0x100 % 0x100) as u8,
        (x / 0x1_0000 % 0x100) as u8,
        (x / 0x100_0000 % 0x100) as u8,
    ]
}

/// A flag as one byte.
pub open spec fn flag_byte(flag: bool) -> u8 {
    if flag {
        1u8
    } else {
        0u8
    }
}

/// A text as the registry writes it: the number of its UTF-8 bytes, then the bytes.
pub open spec fn text_bytes(text: Seq<char>) -> Seq<u8> {
    le_bytes_u32(vstd::utf8::encode_utf8(text).len() as int) + vstd::utf8::encode_utf8(text)
}

/// A recipient as the registry writes it: the address, the confirmation flag, the
/// percentage.
pub open spec fn creator_bytes(creator: Creator) -> Seq<u8> {
    creator.address@ + seq![flag_byte(creator.verified), creator.share]
}

/// The recipients of a list as the registry writes them, one after the other.
pub open spec fn creators_bytes(creators: Seq<Creator>) -> Seq<u8>
    decreases creators.len(),
{
    if creators.len() == 0 {
        Seq::empty()
    } else {
        creators_bytes(creators.drop_last()) + creator_bytes(creators.last())
    }
}

/// The instruction data with which metadata is registered: the byte 0, the name, the
/// symbol and the address of the content as texts, the royalty fee in 2 little-endian
/// bytes, a 1 for a list of recipients that is given, their number and the
/// recipients, and the flag that allows later changes.
pub open spec fn create_metadata_data(
    name: Seq<char>,
    symbol: Seq<char>,
    uri: Seq<char>,
    seller_fee_basis_points: u16,
    creators: Seq<Creator>,
    is_mutable: bool,
) -> Seq<u8> {
    seq![0u8] + text_bytes(name) + text_bytes(symbol) + text_bytes(uri) + seq![
        (seller_fee_basis_points % 0x100) as u8,
        (seller_fee_basis_points / 0x100) as u8,
        1u8,
    ] + le_bytes_u32(creators.len() as int) + creators_bytes(creators) + seq![
        flag_byte(is_mutable),
    ]
}

/// Each of the three texts takes at most `u32::MAX` bytes, and there are at most
/// `u32::MAX` recipients: what the registry's encoding can express.
pub open spec fn fits_encoding(data: MetadataView) -> bool {
    &&& vstd::utf8::encode_utf8(data.name).len() <= u32::MAX
    &&& vstd::utf8::encode_utf8(data.symbol).len() <= u32::MAX
    &&& vstd::utf8::encode_utf8(data.uri).len() <= u32::MAX
    &&& data.creators.len() <= u32::MAX
}

/// `ix` is the instruction that carries out `action`.
pub open spec fn carries_out(ix: Instruction, action: ActionView) -> bool {
    match action {
        ActionView::MintTo { program, mint, account, owner, amount } => {
            &&& ix.program_id == program
            &&& ix.accounts@.len() == 3
            &&& names(ix.accounts@[0], mint@, false, true)
            &&& names(ix.accounts@[1], account@, false, true)
            &&& names(ix.accounts@[2], owner@, true, false)
            &&& ix.data@ == seq![7u8] + le_bytes(amount)
        },
        ActionView::Transfer { program, source, destination, authority, amount, .. } => {
            &&& ix.program_id == program
            &&& ix.accounts@.len() == 3
            &&& names(ix.accounts@[0], source@, false, true)
            &&& names(ix.accounts@[1], destination@, false, true)
            &&& names(ix.accounts@[2], authority@, true, false)
            &&& ix.data@ == seq![3u8] + le_bytes(amount)
        },
        ActionView::CreateMetadata {
            program,
            metadata,
            mint,
            mint_authority,
            payer,
            update_authority,
            data,
            update_authority_is_signer,
        } => {
            &&& ix.program_id == program
            &&& ix.accounts@.len() == 7
            &&& names(ix.accounts@[0], metadata@, false, true)
            &&& names(ix.accounts@[1], mint@, false, false)
            &&& names(ix.accounts@[2], mint_authority@, true, false)
            &&& names(ix.accounts@[3], payer@, true, true)
            &&& names(ix.accounts@[4], update_authority@, update_authority_is_signer, false)
            &&& names(ix.accounts@[5], system_program_id(), false, false)
            &&& names(ix.accounts@[6], rent_sysvar_id(), false, false)
            &&& ix.data@ == create_metadata_data(
                data.name,
                data.symbol,
                data.uri,
                data.seller_fee_basis_points,
                data.creators,
                data.is_mutable,
            )
        },
        ActionView::CreateMasterEdition {
            program,
            edition,
            mint,
            update_authority,
            mint_authority,
            metadata,
            payer,
            max_supply,
        } => {
            &&& ix.program_id == program
            &&& ix.accounts@.len() == 9
            &&& names(ix.accounts@[0], edition@, false, true)
            &&& names(ix.accounts@[1], mint@, false, true)
            &&& names(ix.accounts@[2], update_authority@, true, false)
            &&& names(ix.accounts@[3], mint_authority@, true, false)
            &&& names(ix.accounts@[4], payer@, true, true)
            &&& names(ix.accounts@[5], metadata@, false, false)
            &&& names(ix.accounts@[6], token_program_id(), false, false)
            &&& names(ix.accounts@[7], system_program_id(), false, false)
            &&& names(ix.accounts@[8], rent_sysvar_id(), false, false)
            &&& ix.data@ == match max_supply {
                Some(limit) => seq![10u8, 1u8] + le_bytes(limit),
                None => seq![10u8, 0u8],
            }
        },
        ActionView::UpdateAuthority {
            program,
            metadata,
            update_authority,
            new_update_authority,
            ..
        } => {
            &&& ix.program_id == program
            &&& ix.accounts@.len() == 2
            &&& names(ix.accounts@[0], metadata@, false, true)
            &&& names(ix.accounts@[1], update_authority@, true, false)
            &&& ix.data@ == seq![1u8, 0u8, 1u8] + new_update_authority@ + seq![0u8]
        },
        ActionView::MarkPrimarySale { program, metadata, owner, token, .. } => {
            &&& ix.program_id == program
            &&& ix.accounts@.len() == 3
            &&& names(ix.accounts@[0], metadata@, false, true)
            &&& names(ix.accounts@[1], owner@, true, false)
            &&& names(ix.accounts@[2], token@, false, false)
            &&& ix.data@ == seq![4u8]
        },
    }
}

/// An instruction can be made of `action`: a request to the token ledger must go to
/// the token program, and metadata must fit the registry's encoding.
pub open spec fn can_encode(action: ActionView) -> bool {
    match action {
        ActionView::MintTo { program, .. } => program@ == token_program_id(),
        ActionView::Transfer { program, .. } => program@ == token_program_id(),
        ActionView::CreateMetadata { data, .. } => fits_encoding(data),
        _ => true,
    }
}

/// Calls `spl_token::instruction::mint_to` without further signers. It refuses a
/// program other than the token program. The instruction names the mint and the
/// receiving account as writable and the owner as signer, and its data is the byte 7
/// and the amount in 8 little-endian bytes.
#[verifier::external_body]
fn build_mint_to(program: &Address, mint: &Address, account: &Address, owner: &Address, amount: u64) -> (r:
    Result<Instruction, ProgramError>)
    ensures
        r is Ok <==> program@ == token_program_id(),
        r matches Ok(ix) ==> carries_out(
            ix,
            ActionView::MintTo { program: *program, mint: *mint, account: *account, owner: *owner, amount },
        ),
{
    let k = |a: &Address| Pubkey::new_from_array(a.bytes);
    let ix = spl_token::instruction::mint_to(&k(program), &k(mint), &k(account), &k(owner), &[], amount)?;
    let accounts = ix.accounts.iter().map(|m| AccountMeta::new(m.pubkey.to_bytes(), m.is_signer, m.is_writable)).collect();
    Ok(Instruction { program_id: Address::new(ix.program_id.to_bytes()), accounts, data: ix.data })
}

/// Calls `spl_token::instruction::transfer` without further signers. It refuses a
/// program other than the token program. The instruction names the source and the
/// destination as writable and the authority as signer, and its data is the byte 3
/// and the amount in 8 little-endian bytes.
#[verifier::external_body]
fn build_transfer(program: &Address, source: &Address, destination: &Address, authority: &Address, amount: u64) -> (r:
    Result<Instruction, ProgramError>)
    ensures
        r is Ok <==> program@ == token_program_id(),
        r matches Ok(ix) ==> carries_out(
            ix,
            ActionView::Transfer {
                program: *program,
                source: *source,
                destination: *destination,
                authority: *authority,
                amount,
                seeds: None,
            },
        ),
{
    let k = |a: &Address| Pubkey::new_from_array(a.bytes);
    let ix = spl_token::instruction::transfer(&k(program), &k(source), &k(destination), &k(authority), &[], amount)?;
    let accounts = ix.accounts.iter().map(|m| AccountMeta::new(m.pubkey.to_bytes(), m.is_signer, m.is_writable)).collect();
    Ok(Instruction { program_id: Address::new(ix.program_id.to_bytes()), accounts, data: ix.data })
}

/// Calls `metaplex_token_metadata::instruction::create_metadata_accounts` with the
/// recipients given. The instruction goes to `program` and names, in this order, the
/// metadata (writable), the mint, the mint authority (signer), the payer (writable
/// signer), the update authority (signer if so said), the system program and the
/// rent sysvar. Its data is what `create_metadata_data` writes out: the byte 0, then
/// the six parts of the description in the registry's encoding. The encoding cannot
/// express longer texts or lists than `fits_encoding` allows, and the call panics on
/// them, so those are excluded.
#[verifier::external_body]
fn build_create_metadata(
    program: &Address,
    metadata: &Address,
    mint: &Address,
    mint_authority: &Address,
    payer: &Address,
    update_authority: &Address,
    name: String,
    symbol: String,
    uri: String,
    fee: u16,
    creators: &Vec<Creator>,
    is_mutable: bool,
    signs: bool,
) -> (ix: Instruction)
    requires
        fits_encoding(
            MetadataView {
                name: name@,
                symbol: symbol@,
                uri: uri@,
                seller_fee_basis_points: fee,
                creators: creators@,
                is_mutable,
            },
        ),
    ensures
        carries_out(
            ix,
            ActionView::CreateMetadata {
                program: *program,
                metadata: *metadata,
                mint: *mint,
                mint_authority: *mint_authority,
                payer: *payer,
                update_authority: *update_authority,
                data: MetadataView {
                    name: name@,
                    symbol: symbol@,
                    uri: uri@,
                    seller_fee_basis_points: fee,
                    creators: creators@,
                    is_mutable,
                },
                update_authority_is_signer: signs,
            },
        ),
{
    let k = |a: &Address| Pubkey::new_from_array(a.bytes);
    let list = creators.iter().map(|c| RegistryCreator { address: k(&c.address), verified: c.verified, share: c.share }).collect();
    let ix = create_metadata_accounts(k(program), k(metadata), k(mint), k(mint_authority), k(payer), k(update_authority),
        name, symbol, uri, Some(list), fee, signs, is_mutable);
    let accounts = ix.accounts.iter().map(|m| AccountMeta::new(m.pubkey.to_bytes(), m.is_signer, m.is_writable)).collect();
    Instruction { program_id: Address::new(ix.program_id.to_bytes()), accounts, data: ix.data }
}

/// Calls `metaplex_token_metadata::instruction::create_master_edition`. The
/// instruction goes to `program` and names, in this order, the edition and the mint
/// (writable), the update authority and the mint authority (signers), the payer
/// (writable signer), the metadata, the token program, the system program and the
/// rent sysvar. Its data is the byte 10 and the optional limit: 0, or 1 and the limit
/// in 8 little-endian bytes.
#[verifier::external_body]
fn build_create_master_edition(
    program: &Address,
    edition: &Address,
    mint: &Address,
    update_authority: &Address,
    mint_authority: &Address,
    metadata: &Address,
    payer: &Address,
    max_supply: Option<u64>,
) -> (ix: Instruction)
    ensures
        carries_out(
            ix,
            ActionView::CreateMasterEdition {
                program: *program,
                edition: *edition,
                mint: *mint,
                update_authority: *update_authority,
                mint_authority: *mint_authority,
                metadata: *metadata,
                payer: *payer,
                max_supply,
            },
        ),
{
    let k = |a: &Address| Pubkey::new_from_array(a.bytes);
    let ix = create_master_edition(k(program), k(edition), k(mint), k(update_authority), k(mint_authority), k(metadata), k(payer), max_supply);
    let accounts = ix.accounts.iter().map(|m| AccountMeta::new(m.pubkey.to_bytes(), m.is_signer, m.is_writable)).collect();
    Instruction { program_id: Address::new(ix.program_id.to_bytes()), accounts, data: ix.data }
}

/// Calls `metaplex_token_metadata::instruction::update_metadata_accounts` with a new
/// update authority and nothing else to change. The instruction goes to `program`
/// and names the metadata (writable) and the update authority (signer). Its data is
/// the byte 1, a 0 for no new content, a 1 and the 32 bytes of the new authority, and
/// a 0 for no new sale flag.
#[verifier::external_body]
fn build_update_authority(
    program: &Address,
    metadata: &Address,
    update_authority: &Address,
    new_update_authority: &Address,
) -> (ix: Instruction)
    ensures
        carries_out(
            ix,
            ActionView::UpdateAuthority {
                program: *program,
                metadata: *metadata,
                update_authority: *update_authority,
                new_update_authority: *new_update_authority,
                seeds: None,
            },
        ),
{
    let k = |a: &Address| Pubkey::new_from_array(a.bytes);
    let ix = update_metadata_accounts(k(program), k(metadata), k(update_authority), Some(k(new_update_authority)), None, None);
    let accounts = ix.accounts.iter().map(|m| AccountMeta::new(m.pubkey.to_bytes(), m.is_signer, m.is_writable)).collect();
    Instruction { program_id: Address::new(ix.program_id.to_bytes()), accounts, data: ix.data }
}

/// Calls `metaplex_token_metadata::instruction::update_primary_sale_happened_via_token`.
/// The instruction goes to `program` and names the metadata (writable), the owner
/// (signer) and the holding account. Its data is the byte 4.
#[verifier::external_body]
fn build_mark_primary_sale(program: &Address, metadata: &Address, owner: &Address, token: &Address) -> (ix:
    Instruction)
    ensures
        carries_out(
            ix,
            ActionView::MarkPrimarySale {
                program: *program,
                metadata: *metadata,
                owner: *owner,
                token: *token,
                seeds: None,
            },
        ),
{
    let k = |a: &Address| Pubkey::new_from_array(a.bytes);
    let ix = update_primary_sale_happened_via_token(k(program), k(metadata), k(owner), k(token));
    let accounts = ix.accounts.iter().map(|m| AccountMeta::new(m.pubkey.to_bytes(), m.is_signer, m.is_writable)).collect();
    Instruction { program_id: Address::new(ix.program_id.to_bytes()), accounts, data: ix.data }
}

/// Whether `program` is the token program.
fn is_token_program(program: &Address) -> (r: bool)
    ensures
        r == (program@ == token_program_id()),
{
    let id: [u8; 32] = [
        6, 221, 246, 225, 215, 101, 161, 147, 217, 203, 225, 70, 206, 235, 121, 172, 28, 180, 133,
        237, 95, 91, 55, 145, 58, 140, 245, 133, 126, 255, 0, 169,
    ];
    let same = *program == Address { bytes: id };
    proof {
        assert(id@ =~= token_program_id());
        if program@ == token_program_id() {
            same_bytes_same_address(*program, Address { bytes: id });
        }
    }
    same
}

/// Whether metadata fits the registry's encoding.
fn fits(data: &Metadata) -> (r: bool)
    ensures
        r == fits_encoding(data@),
{
    let limit: usize = 0xffff_ffff;
    data.name.as_str().as_bytes().len() <= limit && data.symbol.as_str().as_bytes().len() <= limit
        && data.uri.as_str().as_bytes().len() <= limit && data.creators.len() <= limit
}

/// Makes the instruction that carries out `action`, where one can be made.
pub fn encode(action: &Action) -> (r: Option<Instruction>)
    ensures
        r is Some <==> can_encode(action@),
        r matches Some(ix) ==> carries_out(ix, action@),
{
    match action {
        Action::MintTo { program, mint, account, owner, amount } => {
            if !is_token_program(program) {
                return None;
            }
            match build_mint_to(program, mint, account, owner, *amount) {
                Ok(ix) => Some(ix),
                Err(_) => None,
            }
        },
        Action::Transfer { program, source, destination, authority, amount, seeds } => {
            if !is_token_program(program) {
                return None;
            }
            match build_transfer(program, source, destination, authority, *amount) {
                Ok(ix) => Some(ix),
                Err(_) => None,
            }
        },
        Action::CreateMetadata {
            program,
            metadata,
            mint,
            mint_authority,
            payer,
            update_authority,
            data,
            update_authority_is_signer,
        } => {
            if !fits(data) {
                return None;
            }
            Some(
                build_create_metadata(
                    program,
                    metadata,
                    mint,
                    mint_authority,
                    payer,
                    update_authority,
                    data.name.clone(),
                    data.symbol.clone(),
                    data.uri.clone(),
                    data.seller_fee_basis_points,
                    &data.creators,
                    data.is_mutable,
                    *update_authority_is_signer,
                ),
            )
        },
        Action::CreateMasterEdition {
            program,
            edition,
            mint,
            update_authority,
            mint_authority,
            metadata,
            payer,
            max_supply,
        } => Some(
            build_create_master_edition(
                program,
                edition,
                mint,
                update_authority,
                mint_authority,
                metadata,
                payer,
                *max_supply,
            ),
        ),
        Action::UpdateAuthority {
            program,
            metadata,
            update_authority,
            new_update_authority,
            seeds,
        } => Some(build_update_authority(program, metadata, update_authority, new_update_authority)),
        Action::MarkPrimarySale { program, metadata, owner, token, seeds } => Some(
            build_mark_primary_sale(program, metadata, owner, token),
        ),
    }
}

} // verus!
