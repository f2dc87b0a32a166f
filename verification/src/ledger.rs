use vstd::prelude::*;
use crate::address::{address_at, address_at_holds, same_bytes_same_address, Address};
use crate::error::TransitionError;
use spl_token::solana_program::program_error::ProgramError;
use spl_token::solana_program::program_pack::Pack;

verus! {

/// The error of the ledger's programs, `solana_program::program_error::ProgramError`.
/// It is carried from a call to the place that turns it into a refusal, and never
/// looked into.
#[verifier::external_type_specification]
#[verifier::external_body]
pub struct ExProgramError(spl_token::solana_program::program_error::ProgramError);

/// Number of bytes the token ledger keeps for one holding account.
pub const TOKEN_ACCOUNT_LEN: usize = 165;

/// Number of bytes the token ledger keeps for one mint.
pub const MINT_LEN: usize = 82;

/// An account as the runtime hands it over: where it lives and what it holds.
#[derive(Clone, Debug, PartialEq, Eq)]
pub struct RawAccount {
    pub key: Address,
    pub data: Vec<u8>,
}

/// What the marketplace reads of a holding account of the token ledger.
#[derive(Clone, Copy, Debug, PartialEq, Eq)]
pub struct TokenAccount {
    pub mint: Address,
    pub owner: Address,
    pub amount: u64,
}

/// What the marketplace reads of a mint of the token ledger.
#[derive(Clone, Copy, Debug, PartialEq, Eq)]
pub struct MintState {
    pub supply: u64,
    pub decimals: u8,
}

/// The unsigned number written little-endian in the 8 bytes of `s` from `at`.
pub open spec fn le_u64_at(s: Seq<u8>, at: int) -> int {
    s[at] as int + 0x100 * (s[at + 1] as int) + 0x1_0000 * (s[at + 2] as int) + 0x100_0000 * (s[at
        + 3] as int) + 0x1_0000_0000 * (s[at + 4] as int) + 0x100_0000_0000 * (s[at + 5] as int)
        + 0x1_0000_0000_0000 * (s[at + 6] as int) + 0x100_0000_0000_0000 * (s[at + 7] as int)
}

/// The 4 bytes of `s` from `at` are the mark of an absent or of a present optional field.
pub open spec fn option_tag_ok(s: Seq<u8>, at: int) -> bool {
    &&& s[at] == 0 || s[at] == 1
    &&& s[at + 1] == 0
    &&& s[at + 2] == 0
    &&& s[at + 3] == 0
}

/// `data` starts with a well-formed holding account: mint, owner, amount, optional
/// delegate, state, optional native reserve, delegated amount, optional close authority.
pub open spec fn token_account_decodes(data: Seq<u8>) -> bool {
    &&& data.len() >= TOKEN_ACCOUNT_LEN
    &&& option_tag_ok(data, 72)
    &&& data[108] <= 2
    &&& option_tag_ok(data, 109)
    &&& option_tag_ok(data, 129)
}

/// The holding account written at the start of `data`.
pub open spec fn token_account_of(data: Seq<u8>) -> TokenAccount {
    TokenAccount {
        mint: address_at(data, 0),
        owner: address_at(data, 32),
        amount: le_u64_at(data, 64) as u64,
    }
}

/// `data` starts with a well-formed mint: optional mint authority, supply, decimals,
/// initialisation flag, optional freeze authority.
pub open spec fn mint_decodes(data: Seq<u8>) -> bool {
    &&& data.len() >= MINT_LEN
    &&& option_tag_ok(data, 0)
    &&& data[45] <= 1
    &&& option_tag_ok(data, 46)
}

/// The mint written at the start of `data`.
pub open spec fn mint_of(data: Seq<u8>) -> MintState {
    MintState { supply: le_u64_at(data, 36) as u64, decimals: data[44] }
}

/// What a transition learns from the bytes of a holding account.
pub open spec fn read_token_account(data: Seq<u8>) -> Result<TokenAccount, TransitionError> {
    if token_account_decodes(data) {
        Ok(token_account_of(data))
    } else {
        Err(TransitionError::InvalidAccountData)
    }
}

/// What a transition learns from the bytes of a mint.
pub open spec fn read_mint(data: Seq<u8>) -> Result<MintState, TransitionError> {
    if mint_decodes(data) {
        Ok(mint_of(data))
    } else {
        Err(TransitionError::InvalidAccountData)
    }
}

/// Calls `spl_token::state::Account::unpack_from_slice`, which reads the first 165
/// bytes: the mint at 0, the owner at 32, the amount as a little-endian number at 64.
/// It fails when an optional field's 4-byte mark (at 72, 109, 129) is neither
/// `[0,0,0,0]` nor `[1,0,0,0]`, or when the state byte at 108 is above 2. On fewer
/// than 165 bytes it panics, so those are excluded.
#[verifier::external_body]
fn unpack_token_account(data: &[u8]) -> (r: Result<TokenAccount, ProgramError>)
    requires
        data@.len() >= TOKEN_ACCOUNT_LEN,
    ensures
        r is Ok <==> token_account_decodes(data@),
        r matches Ok(t) ==> t.mint@ == data@.subrange(0, 32) && t.owner@ == data@.subrange(32, 64)
            && t.amount == le_u64_at(data@, 64),
{
    match spl_token::state::Account::unpack_from_slice(data) {
        Ok(a) => Ok(
            TokenAccount {
                mint: Address { bytes: a.mint.to_bytes() },
                owner: Address { bytes: a.owner.to_bytes() },
                amount: a.amount,
            },
        ),
        Err(e) => Err(e),
    }
}

/// Calls `spl_token::state::Mint::unpack_from_slice`, which reads the first 82 bytes:
/// the supply as a little-endian number at 36 and the decimals at 44. It fails when
/// an optional authority's 4-byte mark (at 0, 46) is neither `[0,0,0,0]` nor
/// `[1,0,0,0]`, or when the initialisation byte at 45 is above 1. On fewer than 82
/// bytes it panics, so those are excluded.
#[verifier::external_body]
fn unpack_mint(data: &[u8]) -> (r: Result<MintState, ProgramError>)
    requires
        data@.len() >= MINT_LEN,
    ensures
        r is Ok <==> mint_decodes(data@),
        r matches Ok(m) ==> m.supply == le_u64_at(data@, 36) && m.decimals == data@[44],
{
    match spl_token::state::Mint::unpack_from_slice(data) {
        Ok(m) => Ok(MintState { supply: m.supply, decimals: m.decimals }),
        Err(e) => Err(e),
    }
}

impl TokenAccount {
    /// Reads a holding account from the bytes of its account. Bytes that are too few
    /// or malformed are refused.
    pub fn decode(data: &[u8]) -> (r: Result<TokenAccount, TransitionError>)
        ensures
            r == read_token_account(data@),
    {
        if data.len() < TOKEN_ACCOUNT_LEN {
            return Err(TransitionError::InvalidAccountData);
        }
        match unpack_token_account(data) {
            Ok(t) => {
                proof {
                    address_at_holds(data@, 0);
                    address_at_holds(data@, 32);
                    same_bytes_same_address(t.mint, address_at(data@, 0));
                    same_bytes_same_address(t.owner, address_at(data@, 32));
                }
                Ok(t)
            },
            Err(_) => Err(TransitionError::InvalidAccountData),
        }
    }
}

impl MintState {
    /// Reads a mint from the bytes of its account. Bytes that are too few or
    /// malformed are refused.
    pub fn decode(data: &[u8]) -> (r: Result<MintState, TransitionError>)
        ensures
            r == read_mint(data@),
    {
        if data.len() < MINT_LEN {
            return Err(TransitionError::InvalidAccountData);
        }
        match unpack_mint(data) {
            Ok(m) => Ok(m),
            Err(_) => Err(TransitionError::InvalidAccountData),
        }
    }
}

} // verus!
