use vstd::prelude::*;

verus! {

/// Minimum target bounty of an issue: 10 units at 9 decimals.
pub const MIN_BOUNTY: u128 = 10_000_000_000;

/// Default length of a competition's submission window, in blocks.
pub const DEFAULT_SUBMISSION_WINDOW_BLOCKS: u32 = 14400;

/// Default offset of a competition's deadline from its start, in blocks.
pub const DEFAULT_COMPETITION_DEADLINE_BLOCKS: u32 = 50400;

/// Default lifetime of a pairing proposal, in blocks.
pub const DEFAULT_PROPOSAL_EXPIRY_BLOCKS: u32 = 1000;

/// Cumulative distinct-voter stake at which a head-to-head vote passes:
/// 100 units at 9 decimals.
pub const MIN_CONSENSUS_STAKE: u128 = 100_000_000_000_000;

/// Number of votes at which an issue-level vote passes.
pub const REQUIRED_VALIDATOR_VOTES: u32 = 1;

/// Thirty-two zero bytes: the placeholder of an unset account or hash.
pub open spec fn zero_bytes() -> [u8; 32] {
    vstd::array::spec_array_fill_for_copy_type::<u8, 32>(0u8)
}

/// A 32-byte account identifier of the host chain.
#[derive(Clone, Copy, Debug)]
pub struct AccountId {
    pub bytes: [u8; 32],
}

/// Compares two 32-byte arrays element by element.
pub fn bytes32_eq(a: &[u8; 32], b: &[u8; 32]) -> (r: bool)
    ensures
        r == (*a == *b),
        r == (a@ == b@),
{
    let mut i: usize = 0;
    while i < 32
        invariant
            i <= 32,
            forall|k: int| 0 <= k < i ==> a@[k] == b@[k],
        decreases 32 - i,
    {
        if a[i] != b[i] {
            proof {
                assert(a@[i as int] != b@[i as int]);
            }
            return false;
        }
        i = i + 1;
    }
    proof {
        broadcast use vstd::array::group_array_axioms;

        assert(*a =~= *b);
        assert(a@ =~= b@);
    }
    true
}

impl PartialEq for AccountId {
    fn eq(&self, o: &AccountId) -> bool {
        bytes32_eq(&self.bytes, &o.bytes)
    }
}

impl Eq for AccountId {}

impl vstd::std_specs::cmp::PartialEqSpecImpl for AccountId {
    open spec fn obeys_eq_spec() -> bool {
        true
    }

    open spec fn eq_spec(&self, o: &AccountId) -> bool {
        *self == *o
    }
}

impl AccountId {
    /// The account whose identifier is the given 32 bytes.
    pub fn new(bytes: [u8; 32]) -> (r: AccountId)
        ensures
            r.bytes == bytes,
    {
        AccountId { bytes }
    }
}

/// The account whose 32 bytes all equal `byte`.
pub fn account(byte: u8) -> (r: AccountId)
    ensures
        r.bytes@ == Seq::new(32, |i: int| byte),
{
    let r = AccountId { bytes: [byte; 32] };
    proof {
        broadcast use vstd::array::group_array_axioms;

        assert(r.bytes@ =~= Seq::new(32, |i: int| byte));
    }
    r
}

/// Lifecycle of an issue.
#[derive(Clone, Copy, Debug, PartialEq, Eq, Structural)]
pub enum IssueStatus {
    /// Registered, waiting for its bounty to be filled.
    Registered,
    /// Fully funded and open for work.
    Active,
    /// Under a head-to-head competition.
    InCompetition,
    /// Resolved; terminal.
    Completed,
    /// Withdrawn; terminal.
    Cancelled,
}

/// Registered and Active issues may still be funded or cancelled.
pub open spec fn modifiable(s: IssueStatus) -> bool {
    s == IssueStatus::Registered || s == IssueStatus::Active
}

/// Whether an issue in status `status` may still be funded or cancelled.
pub fn is_modifiable(status: IssueStatus) -> (r: bool)
    ensures
        r == modifiable(status),
{
    match status {
        IssueStatus::Registered | IssueStatus::Active => true,
        _ => false,
    }
}

/// Lifecycle of a head-to-head competition.
#[derive(Clone, Copy, Debug, PartialEq, Eq, Structural)]
pub enum CompetitionStatus {
    /// Running; votes act on it.
    Active,
    /// Resolved with a winner.
    Completed,
    /// Deadline passed without a solution.
    TimedOut,
    /// Called off by vote.
    Cancelled,
}

/// A registered unit of work.
#[derive(Debug, PartialEq, Eq)]
pub struct Issue {
    /// 1-based, assigned in registration order.
    pub id: u64,
    /// Keccak-256 of the issue URL, used for deduplication.
    pub github_url_hash: [u8; 32],
    /// Repository in `owner/repo` form.
    pub repository_full_name: String,
    /// Issue number within the repository; never zero.
    pub issue_number: u32,
    /// Funds escrowed toward this issue.
    pub bounty_amount: u128,
    /// Funds required before the issue becomes workable.
    pub target_bounty: u128,
    pub status: IssueStatus,
    pub registered_at_block: u32,
    /// Accepted solver's coldkey, recorded at consensus by the issue-level engine.
    pub solver_coldkey: Option<AccountId>,
}

impl Issue {
    /// A field-by-field copy.
    pub fn copied(&self) -> (r: Issue)
        ensures
            r == *self,
    {
        Issue {
            id: self.id,
            github_url_hash: self.github_url_hash,
            repository_full_name: self.repository_full_name.clone(),
            issue_number: self.issue_number,
            bounty_amount: self.bounty_amount,
            target_bounty: self.target_bounty,
            status: self.status,
            registered_at_block: self.registered_at_block,
            solver_coldkey: self.solver_coldkey,
        }
    }
}

/// A head-to-head pairing of two candidate solvers for one issue.
#[derive(Clone, Copy, Debug, PartialEq, Eq)]
pub struct Competition {
    pub id: u64,
    pub issue_id: u64,
    pub miner1_hotkey: AccountId,
    pub miner2_hotkey: AccountId,
    pub start_block: u32,
    pub submission_window_end_block: u32,
    pub deadline_block: u32,
    pub status: CompetitionStatus,
    /// Set on completion.
    pub winner_hotkey: AccountId,
    /// Set on completion.
    pub winning_pr_url_hash: [u8; 32],
    /// The issue's escrow at completion.
    pub payout_amount: u128,
}

/// An outstanding proposal to pair two miners on an issue.
#[derive(Clone, Copy, Debug, PartialEq, Eq)]
pub struct PairProposal {
    pub issue_id: u64,
    pub miner1_hotkey: AccountId,
    pub miner2_hotkey: AccountId,
    pub proposer: AccountId,
    pub proposed_at_block: u32,
    pub total_stake_voted: u128,
    pub votes_count: u64,
}

/// Accumulated votes for the winner of a competition.
#[derive(Clone, Copy, Debug, PartialEq, Eq)]
pub struct SolutionVote {
    pub competition_id: u64,
    pub winner_hotkey: AccountId,
    pub pr_url_hash: [u8; 32],
    pub total_stake_voted: u128,
    pub votes_count: u64,
}

/// Accumulated votes to time out or cancel a competition.
#[derive(Clone, Copy, Debug, PartialEq, Eq)]
pub struct CancelVote {
    pub competition_id: u64,
    pub reason_hash: [u8; 32],
    pub total_stake_voted: u128,
    pub votes_count: u64,
}

/// Accumulated votes naming the solver of an issue.
#[derive(Clone, Copy, Debug, PartialEq, Eq)]
pub struct IssueSolutionVote {
    pub issue_id: u64,
    pub solver_hotkey: AccountId,
    pub solver_coldkey: AccountId,
    pub pr_number: u32,
    pub total_stake_voted: u128,
    pub votes_count: u32,
}

/// Accumulated votes to cancel an issue.
#[derive(Clone, Copy, Debug, PartialEq, Eq)]
pub struct IssueCancelVote {
    pub issue_id: u64,
    pub reason_hash: [u8; 32],
    pub total_stake_voted: u128,
    pub votes_count: u32,
}

/// What one harvest recognised, reported and destroyed.
#[derive(Clone, Copy, Debug, PartialEq, Eq)]
pub struct HarvestResult {
    /// Newly recognised emissions.
    pub harvested: u128,
    /// Queue entries found funded after the fill pass.
    pub bounties_filled: u32,
    /// Amount destroyed by recycling.
    pub recycled: u128,
}

/// Read-only view of the issue-level engine's constants.
#[derive(Clone, Copy, Debug, PartialEq, Eq)]
pub struct ContractConfig {
    pub required_validator_votes: u32,
    pub netuid: u16,
}

/// The host chain's answer to a stake query, with its compact fields widened.
#[derive(Clone, Copy, Debug, PartialEq, Eq)]
pub struct StakeInfo {
    pub hotkey: AccountId,
    pub coldkey: AccountId,
    pub netuid: u16,
    pub stake: u64,
    pub locked: u64,
    pub emission: u64,
    pub tao_emission: u64,
    pub drain: u64,
    pub is_registered: bool,
}

/// Stake carried by a stake-query answer: zero when there is none.
pub fn stake_of(info: Option<StakeInfo>) -> (r: u128)
    ensures
        r == match info {
            Some(i) => i.stake as u128,
            None => 0u128,
        },
{
    match info {
        Some(i) => i.stake as u128,
        None => 0,
    }
}

/// `v` as a 64-bit amount, clamped to the largest one.
pub open spec fn clamped(v: u128) -> u64 {
    if v <= u64::MAX as u128 { v as u64 } else { u64::MAX }
}

/// `v` as a 64-bit amount, clamped to the largest one.
pub fn clamp_to_u64(v: u128) -> (r: u64)
    ensures
        r == clamped(v),
{
    if v <= u64::MAX as u128 {
        v as u64
    } else {
        u64::MAX
    }
}

} // verus!
