use vstd::prelude::*;
use crate::address::Address;
use crate::error::TransitionError;
use crate::records::Creator;
use metaplex_token_metadata::state::{Key, Metadata, MAX_METADATA_LEN};
use metaplex_token_metadata::utils::try_from_slice_checked;
use spl_token::solana_program::program_error::ProgramError;

verus! {

/// Number of bytes the metadata registry keeps for one token.
pub const METADATA_LEN: usize = 679;

/// What a listing reads of a token's entry in the metadata registry.
#[derive(Clone, Debug, PartialEq, Eq)]
pub struct MetadataRecord {
    pub primary_sale_happened: bool,
    pub seller_fee_basis_points: u16,
    pub creators: Option<Vec<Creator>>,
}

/// The mathematical content of a `MetadataRecord`.
pub struct MetadataRecordView {
    pub primary_sale_happened: bool,
    pub seller_fee_basis_points: u16,
    pub creators: Option<Seq<Creator>>,
}

impl View for MetadataRecord {
    type V = MetadataRecordView;

    open spec fn view(&self) -> MetadataRecordView {
        MetadataRecordView {
            primary_sale_happened: self.primary_sale_happened,
            seller_fee_basis_points: self.seller_fee_basis_points,
            creators: match self.creators {
                Some(v) => Some(v@),
                None => None,
            },
        }
    }
}

/// The registry entry that `data` encodes, if it encodes one.
pub uninterp spec fn registry_entry(data: Seq<u8>) -> Option<MetadataRecordView>;

/// Calls `metaplex_token_metadata::utils::try_from_slice_checked` for a `Metadata`
/// with key `MetadataV1` and the registry's entry length, which is what
/// `Metadata::from_account_info` does with an account's bytes. The outcome depends on
/// the bytes alone. It fails unless there are exactly 679 bytes and the first is 4 or
/// 0; of a decoded entry the primary-sale flag, the royalty fee and the recipients are
/// handed on. It reads the first byte before anything else, so empty input is excluded.
#[verifier::external_body]
fn decode_registry_entry(data: &[u8]) -> (r: Result<MetadataRecord, ProgramError>)
    requires
        data@.len() > 0,
    ensures
        match r {
            Ok(m) => registry_entry(data@) == Some(m@),
            Err(_) => registry_entry(data@) is None,
        },
        r is Ok ==> data@.len() == METADATA_LEN && (data@[0] == 4 || data@[0] == 0),
{
    let md: Metadata = try_from_slice_checked(data, Key::MetadataV1, MAX_METADATA_LEN)?;
    let creators = md.data.creators.map(
        |v| v.iter().map(|c| Creator { address: Address { bytes: c.address.to_bytes() }, verified: c.verified, share: c.share }).collect(),
    );
    Ok(
        MetadataRecord {
            primary_sale_happened: md.primary_sale_happened,
            seller_fee_basis_points: md.data.seller_fee_basis_points,
            creators,
        },
    )
}

/// What a transition learns from the bytes of a registry entry.
pub open spec fn read_registry_entry(data: Seq<u8>) -> Result<
    MetadataRecordView,
    TransitionError,
> {
    match registry_entry(data) {
        Some(m) if data.len() > 0 => Ok(m),
        _ => Err(TransitionError::InvalidAccountData),
    }
}

impl MetadataRecord {
    /// Reads a registry entry from the bytes of its account.
    pub fn decode(data: &[u8]) -> (r: Result<MetadataRecord, TransitionError>)
        ensures
            match r {
                Ok(m) => read_registry_entry(data@) == Ok::<MetadataRecordView, TransitionError>(m@),
                Err(e) => read_registry_entry(data@) == Err::<MetadataRecordView, TransitionError>(e),
            },
    {
        if data.len() == 0 {
            return Err(TransitionError::InvalidAccountData);
        }
        match decode_registry_entry(data) {
            Ok(m) => Ok(m),
            Err(_) => Err(TransitionError::InvalidAccountData),
        }
    }
}

} // verus!
