use vstd::prelude::*;

verus! {

/// Every way an engine operation can fail.
#[derive(Clone, Copy, Debug, PartialEq, Eq, Structural)]
pub enum Error {
    /// Caller is not the owner.
    NotOwner,
    /// No issue has the given id.
    IssueNotFound,
    /// An issue with the same URL is already registered.
    IssueAlreadyExists,
    /// Target bounty is below the minimum.
    BountyTooLow,
    /// Issue is neither Registered nor Active.
    CannotCancel,
    /// Repository name is not of the form `owner/repo`.
    InvalidRepositoryName,
    /// Issue number is zero.
    InvalidIssueNumber,
    /// Issue is not Active.
    IssueNotActive,
    /// A proposed miner is already in an active competition.
    MinerAlreadyInCompetition,
    /// No competition has the given id.
    CompetitionNotFound,
    /// Competition is not Active.
    CompetitionNotActive,
    /// Proposed winner is not one of the competition's miners.
    InvalidWinner,
    /// Proposed solver is not a valid miner.
    InvalidSolver,
    /// The submission window has not ended yet.
    SubmissionWindowNotEnded,
    /// The competition deadline has not passed yet.
    DeadlineNotPassed,
    /// No pairing proposal exists for the issue.
    ProposalNotFound,
    /// Caller already voted on this subject.
    AlreadyVoted,
    /// The pairing proposal outlived its expiry window.
    ProposalExpired,
    /// Caller's queried stake is zero.
    InsufficientStake,
    /// A pairing proposal names the same miner twice.
    SameMiners,
    /// No bounty exists for the given id.
    BountyNotFound,
    /// The bounty has not been completed.
    BountyNotCompleted,
    /// The bounty has no funds to pay out.
    BountyNotFunded,
    /// The host chain refused a stake transfer.
    TransferFailed,
    /// The host chain's extension call failed.
    ChainExtensionFailed,
    /// Recycling failed.
    RecyclingFailed,
    /// Issue cannot be funded in its current state.
    IssueNotFundable,
    /// Bounty is already fully funded.
    BountyAlreadyFunded,
    /// Issue is Completed or Cancelled.
    IssueAlreadyFinalized,
    /// A completed issue has no recorded solver.
    NoSolverSet,
    /// A completed issue's escrow was already paid out.
    BountyAlreadyPaid,
    /// Validator is already on the allow-list.
    ValidatorAlreadyWhitelisted,
    /// Validator is not on the allow-list.
    ValidatorNotWhitelisted,
}

} // verus!
