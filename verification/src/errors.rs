use vstd::prelude::*;

verus! {

/// Error surface of the escrow program. New variants are only ever appended,
/// so the position of an existing variant (its on-chain code) never changes.
#[derive(Clone, Copy, PartialEq, Eq, Structural, Debug)]
pub enum TendaError {
    // ---- platform config ----
    /// platform fee bps exceeds MAX_PLATFORM_FEE_BPS
    PlatformFeeTooHigh,
    /// seeker_fee_bps must not exceed fee_bps
    SeekerFeeExceedsStandardFee,
    /// approval_window_seconds out of allowed range
    ApprovalWindowOutOfRange,
    /// grace_period_seconds out of allowed range
    GracePeriodOutOfRange,
    /// caller is not the protocol admin
    NotProtocolAdmin,
    /// caller is not the dispute admin
    NotDisputeAdmin,
    // ---- escrow validation ----
    /// amount below MIN_ESCROW_AMOUNT
    AmountTooLow,
    /// completion_duration_seconds out of allowed range
    CompletionDurationOutOfRange,
    /// accept_deadline must be in the future
    AcceptDeadlineInPast,
    /// invalid asset for this instruction
    InvalidAssetForInstruction,
    /// supplied mint does not match escrow.asset
    MintMismatch,
    /// supplied vault does not match escrow
    VaultMismatch,
    /// supplied token account does not match escrow
    TokenAccountMismatch,
    /// supplied treasury account does not match platform state
    TreasuryMismatch,
    // ---- state machine ----
    /// escrow status disallows this operation
    InvalidEscrowStatus,
    /// caller is not the escrow creator
    NotCreator,
    /// caller is not the escrow counterparty
    NotCounterparty,
    /// creator cannot accept their own escrow
    CreatorCannotAccept,
    /// escrow has an assigned counterparty; only that wallet may accept
    NotAssignedCounterparty,
    /// declining requires an assigned counterparty
    NoAssignedCounterparty,
    /// accept_deadline has passed
    AcceptDeadlinePassed,
    /// accept_deadline has not yet passed
    AcceptDeadlineNotPassed,
    /// submission window (completion_deadline + grace) has closed
    SubmissionWindowClosed,
    /// approval_deadline has not yet passed; counterparty cannot claim stalled
    ApprovalDeadlineNotPassed,
    /// reclaim requires completion_deadline + grace to have elapsed
    ReclaimWindowNotOpen,
    // ---- dispute ----
    /// caller is not creator or counterparty
    NotDisputeParty,
    /// escrow has no counterparty yet
    NoCounterpartyForDispute,
    /// supplied dispute bond does not match escrow.dispute_bond
    DisputeBondMismatch,
    // ---- arithmetic ----
    /// arithmetic overflow
    ArithmeticOverflow,
    /// arithmetic underflow
    ArithmeticUnderflow,
    // ---- vault accounting ----
    /// escrow vault balance is below the amount being settled
    VaultUnderfunded,
    /// SOL escrow amount below the vault rent-exempt minimum
    AmountBelowVaultRentMinimum,
    // ---- platform account maintenance ----
    /// the platform account has the current layout and cannot be closed
    PlatformLayoutCurrent,
    // ---- user ledger ----
    /// withdrawal exceeds the withdrawable balance
    InsufficientBalance,
    /// the airdrop stays locked until a gig is completed
    AirdropStillLocked,
    // ---- gas-subsidy airdrop ----
    /// the user already received the airdrop
    AlreadyReceivedAirdrop,
    /// airdrop amount is zero (in a batch) or above the maximum
    AirdropAmountTooHigh,
    /// a batch airdrop needs at least one amount
    EmptyBatch,
    /// the batch accounts are not treasury, system program and one
    /// (ledger, wallet) pair per amount
    InvalidBatchLength,
    /// the treasury must sign the batch
    TreasuryMustSign,
    /// an account that the airdrop writes is not writable
    AccountNotWritable,
    /// the system program account is not the system program
    InvalidSystemProgram,
    /// the treasury cannot cover the whole batch
    InsufficientTreasuryBalance,
    /// the ledger account is not this program's ledger of the wallet
    InvalidUserAccount,
    /// the recipient is not a plain wallet
    InvalidRecipient,
}

} // verus!
