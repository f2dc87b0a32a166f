use vstd::prelude::*;

verus! {

/// The marketplace's own rejections.
#[derive(Clone, Copy, Debug, PartialEq, Eq, Structural)]
pub enum PoolError {
    TokenMintToFailed,
    TokenSetAuthorityFailed,
    TokenTransferFailed,
    InvalidMintAccount,
    InvalidTokenAccount,
    InvalidPoolAccount,
    NotWhitelisted,
    MintAmountIsZero,
    AlreadyTrading,
    InvalidPrice,
    InvalidSaleState,
    NotEnoughTokenAmount,
    InvalidBidder,
    InvalidAmount,
    InvalidSeller,
    InvalidAuctionMode,
    NotEnoughTokenAmountForGapTick,
    InvalidPrevBidderToken,
    EndedAuction,
    NotAllowedWithdrawFund,
    InvalidAuctionDataAccount,
    InvalidAuctionState,
}

impl PoolError {
    /// The text shown to a caller for each rejection.
    pub open spec fn spec_message(self) -> Seq<char> {
        match self {
            PoolError::TokenMintToFailed => "Token mint to failed"@,
            PoolError::TokenSetAuthorityFailed => "Token set authority failed"@,
            PoolError::TokenTransferFailed => "Token transfer failed"@,
            PoolError::InvalidMintAccount => "Invalid mint account"@,
            PoolError::InvalidTokenAccount => "Invalid token account"@,
            PoolError::InvalidPoolAccount => "Invalid pool account"@,
            PoolError::NotWhitelisted => "Not whitelisted"@,
            PoolError::MintAmountIsZero => "Mint amount is zero"@,
            PoolError::AlreadyTrading => "Already on sale"@,
            PoolError::InvalidPrice => "Invalid price"@,
            PoolError::InvalidSaleState => "Invalid sale state"@,
            PoolError::NotEnoughTokenAmount => "Not enough token amount"@,
            PoolError::InvalidBidder => "Invalid bidder"@,
            PoolError::InvalidAmount => "Invalid amount"@,
            PoolError::InvalidSeller => "InvalidSeller"@,
            PoolError::InvalidAuctionMode => "InvalidAuctionMode"@,
            PoolError::NotEnoughTokenAmountForGapTick => "Not enough token amount for gap tick"@,
            PoolError::InvalidPrevBidderToken => "Invalid prev bidder token"@,
            PoolError::EndedAuction => "Ended auction"@,
            PoolError::NotAllowedWithdrawFund => "Not allowed to withdraw fund"@,
            PoolError::InvalidAuctionDataAccount => "Invalid auction data account"@,
            PoolError::InvalidAuctionState => "Invalid auction state"@,
        }
    }

    pub fn message(&self) -> (text: &'static str)
        ensures
            text@ == self.spec_message(),
    {
        match self {
            PoolError::TokenMintToFailed => "Token mint to failed",
            PoolError::TokenSetAuthorityFailed => "Token set authority failed",
            PoolError::TokenTransferFailed => "Token transfer failed",
            PoolError::InvalidMintAccount => "Invalid mint account",
            PoolError::InvalidTokenAccount => "Invalid token account",
            PoolError::InvalidPoolAccount => "Invalid pool account",
            PoolError::NotWhitelisted => "Not whitelisted",
            PoolError::MintAmountIsZero => "Mint amount is zero",
            PoolError::AlreadyTrading => "Already on sale",
            PoolError::InvalidPrice => "Invalid price",
            PoolError::InvalidSaleState => "Invalid sale state",
            PoolError::NotEnoughTokenAmount => "Not enough token amount",
            PoolError::InvalidBidder => "Invalid bidder",
            PoolError::InvalidAmount => "Invalid amount",
            PoolError::InvalidSeller => "InvalidSeller",
            PoolError::InvalidAuctionMode => "InvalidAuctionMode",
            PoolError::NotEnoughTokenAmountForGapTick => "Not enough token amount for gap tick",
            PoolError::InvalidPrevBidderToken => "Invalid prev bidder token",
            PoolError::EndedAuction => "Ended auction",
            PoolError::NotAllowedWithdrawFund => "Not allowed to withdraw fund",
            PoolError::InvalidAuctionDataAccount => "Invalid auction data account",
            PoolError::InvalidAuctionState => "Invalid auction state",
        }
    }
}

/// Why a transition was refused.
#[derive(Clone, Copy, Debug, PartialEq, Eq, Structural)]
pub enum TransitionError {
    /// A rule of the marketplace was broken.
    Rule(PoolError),
    /// The bytes of a supplied account are not a record of the kind the
    /// transition reads from it.
    InvalidAccountData,
    /// The caller is not the owner recorded in the pool.
    NotPoolOwner,
}

} // verus!
