use vstd::prelude::*;

verus! {

/// Every failure the community, governance, treasury and token logic can report.
#[derive(Debug, Clone, Copy, PartialEq, Eq, Structural)]
pub enum SocialChainError {
    Unauthorized,
    InvalidCommunityName,
    CommunityAlreadyExists,
    InvalidGovernanceThreshold,
    InvalidTransferFee,
    MemberAlreadyRegistered,
    MemberNotFound,
    InvalidMemberName,
    InvalidMetadataUri,
    InsufficientTokens,
    InvalidTokenAmount,
    TokenTransferFailed,
    TokenMintFailed,
    TokenBurnFailed,
    InvalidDecimals,
    BatchTransferMismatch,
    InvalidNfcCard,
    NfcCardAlreadyExists,
    NfcCardNotActive,
    NfcCardNotFound,
    InvalidCardId,
    NfcAuthenticationFailed,
    CannotTransferToSameOwner,
    VotingPeriodEnded,
    ProposalNotApproved,
    ProposalAlreadyExecuted,
    ProposalNotActive,
    AlreadyVoted,
    InvalidVotingPeriod,
    InvalidProposalTitle,
    InvalidProposalDescription,
    CannotCancelExecutedProposal,
    VotingPeriodNotEnded,
    EventClosed,
    EventNotStarted,
    EventEnded,
    MaxAttendeesReached,
    AlreadyRegistered,
    InvalidEventTime,
    EventNotFound,
    InvalidEventName,
    EventCancelled,
    InvalidConnection,
    ConnectionAlreadyExists,
    CannotConnectToSelf,
    ConnectionNotFound,
    InvalidConnectionMetadata,
    PaymentFailed,
    InvalidPaymentAmount,
    PaymentRequestExpired,
    PaymentRequestNotFound,
    PaymentRequestAlreadySettled,
    InvalidPaymentMemo,
    CannotPaySelf,
    InsufficientTreasuryBalance,
    InvalidWithdrawalAmount,
    WithdrawalRequiresProposal,
    InvalidDepositAmount,
    InvalidReputationDelta,
    ReputationReasonRequired,
    ArithmeticOverflow,
    ArithmeticUnderflow,
    InvalidTimestamp,
    StringTooLong,
    InvalidInput,
    OperationNotAllowed,
    AccountMismatch,
    InvalidSigner,
}

} // verus!
