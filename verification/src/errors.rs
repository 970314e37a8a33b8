//! Error taxonomy for the pool engine.
//!
//! Every operation either succeeds or fails with one of these codes; there is
//! no partial commit.

use vstd::prelude::*;

verus! {

/// All the ways an operation on the pool can fail.
#[derive(Clone, Copy, Debug, PartialEq, Eq, Structural)]
pub enum ErrorCode {
    // Arithmetic
    LiquidityOverflow,
    LiquidityUnderflow,
    LiquidityNetError,
    LiquidityTooHigh,
    LiquidityZero,
    NumberCastError,
    AmountRemainingOverflow,
    AmountCalcOverflow,
    MulDivOverflow,
    DivideByZero,
    // Bounds & shape
    SqrtPriceOutOfBounds,
    InvalidSqrtPriceLimitDirection,
    InvalidTickIndex,
    InvalidTickSpacing,
    InvalidStartTick,
    TickNotFound,
    InvalidTickArraySequence,
    FullRangeOnlyPool,
    InvalidTokenMintOrder,
    // Policy
    FeeRateMaxExceeded,
    ProtocolFeeRateMaxExceeded,
    InvalidFeeTierIndex,
    InvalidAdaptiveFeeConstants,
    TradeIsNotEnabled,
    InvalidTradeEnableTimestamp,
    OperationNotAllowedOnLockedPosition,
    ClosePositionNotEmpty,
    SameTickRangeNotAllowed,
    // Slippage
    AmountOutBelowMinimum,
    AmountInAboveMaximum,
    PartialFillError,
    TokenMinSubceeded,
    TokenMaxExceeded,
    // Multi-hop
    DuplicateTwoHopPool,
    InvalidIntermediaryMint,
    IntermediateTokenAmountMismatch,
    // Tokens & rewards
    InvalidRewardIndex,
    RewardVaultAmountInsufficient,
    ZeroTradableAmount,
    UnsupportedTokenMint,
    TransferFeeCalculationError,
    NoExtraAccountsForTransferHook,
    // Oracle & bundles
    InvalidTimestamp,
    InvalidBundleIndex,
    BundledPositionAlreadyOpened,
    BundledPositionAlreadyClosed,
}

} // verus!
