use vstd::prelude::*;
use crate::types::AccountId;

verus! {

/// A new issue was registered.
#[derive(Debug, PartialEq, Eq)]
pub struct IssueRegistered {
    pub issue_id: u64,
    pub github_url_hash: [u8; 32],
    pub repository_full_name: String,
    pub issue_number: u32,
    pub target_bounty: u128,
}

/// An issue was cancelled; its escrow went back.
#[derive(Clone, Copy, Debug, PartialEq, Eq)]
pub struct IssueCancelled {
    pub issue_id: u64,
    pub returned_bounty: u128,
}

/// Funds were deposited into the pool.
#[derive(Clone, Copy, Debug, PartialEq, Eq)]
pub struct PoolDeposit {
    pub depositor: AccountId,
    pub amount: u128,
}

/// A head-to-head competition started.
#[derive(Clone, Copy, Debug, PartialEq, Eq)]
pub struct CompetitionStarted {
    pub competition_id: u64,
    pub issue_id: u64,
    pub miner1_hotkey: AccountId,
    pub miner2_hotkey: AccountId,
    pub deadline_block: u32,
}

/// A competition completed with a winner.
#[derive(Clone, Copy, Debug, PartialEq, Eq)]
pub struct CompetitionCompleted {
    pub competition_id: u64,
    pub issue_id: u64,
    pub winner_hotkey: AccountId,
    pub payout: u128,
    pub pr_url_hash: [u8; 32],
}

/// A competition ended without a winner: status 2 timed out, 3 cancelled.
#[derive(Clone, Copy, Debug, PartialEq, Eq)]
pub struct CompetitionEnded {
    pub competition_id: u64,
    pub issue_id: u64,
    pub status: u8,
    pub reason_hash: [u8; 32],
}

/// A validator voted on a pairing proposal.
#[derive(Clone, Copy, Debug, PartialEq, Eq)]
pub struct PairVoteCast {
    pub issue_id: u64,
    pub voter: AccountId,
    pub stake: u128,
}

/// A harvest completed.
#[derive(Clone, Copy, Debug, PartialEq, Eq)]
pub struct EmissionsHarvested {
    pub amount: u128,
    pub bounties_filled: u32,
    pub recycled: u128,
}

/// A bounty was filled from emissions.
#[derive(Clone, Copy, Debug, PartialEq, Eq)]
pub struct BountyFilled {
    pub issue_id: u64,
    pub amount: u128,
}

/// Stake was recycled; `destination` names the hotkey it was taken from.
#[derive(Clone, Copy, Debug, PartialEq, Eq)]
pub struct EmissionsRecycled {
    pub amount: u128,
    pub destination: AccountId,
}

/// A bounty was paid out.
#[derive(Clone, Copy, Debug, PartialEq, Eq)]
pub struct BountyPaidOut {
    pub issue_id: u64,
    pub miner: AccountId,
    pub amount: u128,
}

/// The recycling step of a harvest failed; the amount stays in the pool.
#[derive(Clone, Copy, Debug, PartialEq, Eq)]
pub struct HarvestFailed {
    pub reason: u8,
    pub amount: u128,
}

/// Recycling a cancelled issue's escrow failed; the amount went back to the pool.
#[derive(Clone, Copy, Debug, PartialEq, Eq)]
pub struct RecycleFailed {
    pub amount: u128,
}

/// Bounty funds were moved to the validator hotkey.
#[derive(Clone, Copy, Debug, PartialEq, Eq)]
pub struct StakeMovedToValidator {
    pub amount: u128,
    pub validator: AccountId,
}

/// Moving bounty funds to the validator hotkey failed; they stay on the treasury.
#[derive(Clone, Copy, Debug, PartialEq, Eq)]
pub struct StakeMoveFailedWarning {
    pub amount: u128,
    pub validator: AccountId,
}

/// The treasury hotkey was reassigned and outstanding escrow reset.
#[derive(Clone, Copy, Debug, PartialEq, Eq)]
pub struct TreasuryHotkeyChanged {
    pub old_hotkey: AccountId,
    pub new_hotkey: AccountId,
    pub bounties_reset: u128,
    pub issues_affected: u32,
}

/// A validator joined the voting allow-list.
#[derive(Clone, Copy, Debug, PartialEq, Eq)]
pub struct ValidatorAdded {
    pub hotkey: AccountId,
}

/// A validator left the voting allow-list.
#[derive(Clone, Copy, Debug, PartialEq, Eq)]
pub struct ValidatorRemoved {
    pub hotkey: AccountId,
}

/// Every notification an engine records, in the order it happened.
#[derive(Debug, PartialEq, Eq)]
pub enum Event {
    IssueRegistered(IssueRegistered),
    IssueCancelled(IssueCancelled),
    PoolDeposit(PoolDeposit),
    CompetitionStarted(CompetitionStarted),
    CompetitionCompleted(CompetitionCompleted),
    CompetitionEnded(CompetitionEnded),
    PairVoteCast(PairVoteCast),
    EmissionsHarvested(EmissionsHarvested),
    BountyFilled(BountyFilled),
    EmissionsRecycled(EmissionsRecycled),
    BountyPaidOut(BountyPaidOut),
    HarvestFailed(HarvestFailed),
    RecycleFailed(RecycleFailed),
    StakeMovedToValidator(StakeMovedToValidator),
    StakeMoveFailedWarning(StakeMoveFailedWarning),
    TreasuryHotkeyChanged(TreasuryHotkeyChanged),
    ValidatorAdded(ValidatorAdded),
    ValidatorRemoved(ValidatorRemoved),
}

/// Status code of a competition that timed out.
pub const ENDED_TIMED_OUT: u8 = 2;

/// Status code of a competition that was cancelled.
pub const ENDED_CANCELLED: u8 = 3;

/// Reason code of a failed recycling step, which reports no finer cause.
pub const RECYCLE_FAILURE_REASON: u8 = 255;

/// The events a settled harvest records: the outcome of the move (when there
/// was something to move and `validator` is `Some`), the outcome of the
/// recycling (when there was something to recycle), then the summary.
pub open spec fn harvest_events(
    harvested: u128,
    bounties_filled: u32,
    to_move: u128,
    to_recycle: u128,
    moved: bool,
    recycled: bool,
    validator: Option<AccountId>,
    treasury: AccountId,
) -> Seq<Event> {
    if harvested == 0 {
        Seq::empty()
    } else {
        let move_events = match validator {
            Some(v) => if to_move > 0 {
                if moved {
                    seq![Event::StakeMovedToValidator(StakeMovedToValidator { amount: to_move, validator: v })]
                } else {
                    seq![Event::StakeMoveFailedWarning(StakeMoveFailedWarning { amount: to_move, validator: v })]
                }
            } else {
                Seq::empty()
            },
            None => Seq::empty(),
        };
        let recycle_events = if to_recycle > 0 {
            if recycled {
                seq![Event::EmissionsRecycled(EmissionsRecycled { amount: to_recycle, destination: treasury })]
            } else {
                seq![Event::HarvestFailed(HarvestFailed { reason: RECYCLE_FAILURE_REASON, amount: to_recycle })]
            }
        } else {
            Seq::empty()
        };
        move_events + recycle_events + seq![
            Event::EmissionsHarvested(
                EmissionsHarvested {
                    amount: harvested,
                    bounties_filled,
                    recycled: if to_recycle > 0 && recycled { to_recycle } else { 0 },
                },
            ),
        ]
    }
}

/// Appends the events of a settled harvest to `log`.
pub fn push_harvest_events(
    log: &mut Vec<Event>,
    harvested: u128,
    bounties_filled: u32,
    to_move: u128,
    to_recycle: u128,
    moved: bool,
    recycled: bool,
    validator: Option<AccountId>,
    treasury: AccountId,
)
    ensures
        final(log)@ == old(log)@ + harvest_events(
            harvested,
            bounties_filled,
            to_move,
            to_recycle,
            moved,
            recycled,
            validator,
            treasury,
        ),
{
    let ghost start = log@;
    if harvested == 0 {
        assert(log@ =~= start + Seq::empty());
        return;
    }
    match validator {
        Some(v) => {
            if to_move > 0 {
                if moved {
                    log.push(Event::StakeMovedToValidator(StakeMovedToValidator { amount: to_move, validator: v }));
                } else {
                    log.push(Event::StakeMoveFailedWarning(StakeMoveFailedWarning { amount: to_move, validator: v }));
                }
            }
        },
        None => {},
    }
    let ghost mid = log@;
    if to_recycle > 0 {
        if recycled {
            log.push(Event::EmissionsRecycled(EmissionsRecycled { amount: to_recycle, destination: treasury }));
        } else {
            log.push(Event::HarvestFailed(HarvestFailed { reason: RECYCLE_FAILURE_REASON, amount: to_recycle }));
        }
    }
    let r = if to_recycle > 0 && recycled { to_recycle } else { 0 };
    log.push(Event::EmissionsHarvested(EmissionsHarvested { amount: harvested, bounties_filled, recycled: r }));
    assert(log@ =~= start + harvest_events(
        harvested,
        bounties_filled,
        to_move,
        to_recycle,
        moved,
        recycled,
        validator,
        treasury,
    ));
}

} // verus!
