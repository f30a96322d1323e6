use vstd::prelude::*;
use crate::encoding::{
    move_stake_call, proxy_prefix, recycle_alpha_call, transfer_stake_call, RawCall,
    PROXY_TYPE_NON_CRITICAL, PROXY_TYPE_STAKING, PROXY_TYPE_TRANSFER,
};
use crate::errors::Error;
use crate::events::{
    harvest_events, push_harvest_events, BountyPaidOut, CompetitionCompleted, CompetitionEnded,
    CompetitionStarted, Event, IssueCancelled, IssueRegistered, PairVoteCast, PoolDeposit,
    ENDED_CANCELLED, ENDED_TIMED_OUT,
};
use crate::registry::{
    has_issue, hash_string, keccak256_of, lemma_fill_keeps_settled, HarvestPlan, QueueRemoval,
    Registry, RegistryModel,
};
use crate::types::{
    clamp_to_u64, clamped, AccountId, CancelVote, Competition, CompetitionStatus, HarvestResult, Issue,
    IssueStatus, PairProposal, SolutionVote, zero_bytes, DEFAULT_COMPETITION_DEADLINE_BLOCKS,
    DEFAULT_PROPOSAL_EXPIRY_BLOCKS, DEFAULT_SUBMISSION_WINDOW_BLOCKS, MIN_CONSENSUS_STAKE,
};
use vstd::string::StringSliceAdditionalSpecFns;

verus! {

/// Whether accumulated stake `total` reaches the absolute consensus threshold.
pub open spec fn consensus(total: u128) -> bool {
    total >= MIN_CONSENSUS_STAKE
}

/// Whether accumulated distinct-voter stake reaches consensus.
pub fn check_consensus(total_voted: u128) -> (r: bool)
    ensures
        r == consensus(total_voted),
{
    total_voted >= MIN_CONSENSUS_STAKE
}

/// Whether `(subject, voter)` was recorded in `voters`.
fn has_voted(voters: &Vec<(u64, AccountId)>, subject: u64, voter: AccountId) -> (r: bool)
    ensures
        r == voters@.contains((subject, voter)),
{
    let mut j: usize = 0;
    while j < voters.len()
        invariant
            j <= voters.len(),
            forall|k: int| 0 <= k < j ==> voters@[k] != (subject, voter),
        decreases voters.len() - j,
    {
        if voters[j].0 == subject && voters[j].1 == voter {
            assert(voters@[j as int] == (subject, voter));
            return true;
        }
        j = j + 1;
    }
    false
}

/// State of the head-to-head engine.
pub struct ManagerModel {
    pub owner: AccountId,
    pub treasury_hotkey: AccountId,
    pub validator_hotkey: AccountId,
    pub netuid: u16,
    pub registry: RegistryModel,
    pub submission_window_blocks: u32,
    pub competition_deadline_blocks: u32,
    pub proposal_expiry_blocks: u32,
    /// Competition `k + 1` at index `k`.
    pub competitions: Seq<Competition>,
    /// Outstanding pairing proposal of issue `k + 1` at index `k`.
    pub proposals: Seq<Option<PairProposal>>,
    pub pair_voters: Seq<(u64, AccountId)>,
    /// Vote records of competition `k + 1` at index `k`.
    pub solution_votes: Seq<Option<SolutionVote>>,
    pub solution_voters: Seq<(u64, AccountId)>,
    pub timeout_votes: Seq<Option<CancelVote>>,
    pub timeout_voters: Seq<(u64, AccountId)>,
    pub cancel_votes: Seq<Option<CancelVote>>,
    pub cancel_voters: Seq<(u64, AccountId)>,
    /// Events recorded and not yet taken.
    pub events: Seq<Event>,
}

/// Competition index `k` carries id `k + 1`, names a registered issue, and
/// holds that issue InCompetition while it is Active.
pub open spec fn comp_ok(issues: Seq<Issue>, c: Competition, k: int) -> bool {
    &&& c.id == k + 1
    &&& has_issue(issues, c.issue_id)
    &&& c.status == CompetitionStatus::Active ==> issues[c.issue_id - 1].status
        == IssueStatus::InCompetition
}

pub open spec fn has_comp(comps: Seq<Competition>, id: u64) -> bool {
    1 <= id <= comps.len()
}

/// Whether competition index `k` is Active with `h` as one of its miners.
pub open spec fn occupies(comps: Seq<Competition>, k: int, h: AccountId) -> bool {
    &&& 0 <= k < comps.len()
    &&& comps[k].status == CompetitionStatus::Active
    &&& (comps[k].miner1_hotkey == h || comps[k].miner2_hotkey == h)
}

impl ManagerModel {
    pub open spec fn wf(self) -> bool {
        &&& self.registry.wf()
        &&& self.registry.removal == QueueRemoval::SwapRemove
        &&& self.proposals.len() == self.registry.issues.len()
        &&& self.competitions.len() < u64::MAX
        &&& self.solution_votes.len() == self.competitions.len()
        &&& self.timeout_votes.len() == self.competitions.len()
        &&& self.cancel_votes.len() == self.competitions.len()
        &&& forall|k: int|
            0 <= k < self.competitions.len() ==> comp_ok(
                self.registry.issues,
                #[trigger] self.competitions[k],
                k,
            )
        &&& forall|k1: int, k2: int|
            0 <= k1 < self.competitions.len() && 0 <= k2 < self.competitions.len() && k1 != k2
                && self.competitions[k1].status == CompetitionStatus::Active
                && self.competitions[k2].status == CompetitionStatus::Active
                ==> self.competitions[k1].issue_id != self.competitions[k2].issue_id
    }

    pub open spec fn competition(self, id: u64) -> Option<Competition> {
        if has_comp(self.competitions, id) {
            Some(self.competitions[id - 1])
        } else {
            None
        }
    }

    /// Whether `h` is a miner of some Active competition.
    pub open spec fn occupied(self, h: AccountId) -> bool {
        exists|k: int| occupies(self.competitions, k, h)
    }

    /// The latest Active competition with `h` as a miner, or 0.
    pub open spec fn miner_competition(self, h: AccountId) -> u64 {
        if self.occupied(h) {
            let k = choose|k: int|
                occupies(self.competitions, k, h) && forall|k2: int|
                    k < k2 < self.competitions.len() ==> !occupies(self.competitions, k2, h);
            (k + 1) as u64
        } else {
            0
        }
    }

    pub open spec fn with_registry(self, r: RegistryModel) -> ManagerModel {
        ManagerModel { registry: r, ..self }
    }

    pub open spec fn with_proposals(self, p: Seq<Option<PairProposal>>) -> ManagerModel {
        ManagerModel { proposals: p, ..self }
    }

    pub open spec fn with_events(self, es: Seq<Event>) -> ManagerModel {
        ManagerModel { events: es, ..self }
    }

    pub open spec fn with_event(self, e: Event) -> ManagerModel {
        ManagerModel { events: self.events.push(e), ..self }
    }

    /// The state after a competition between `m1` and `m2` starts on issue
    /// `issue_id` at block `block`.
    pub open spec fn started(self, issue_id: u64, m1: AccountId, m2: AccountId, block: u32) -> ManagerModel {
        let iss = self.registry.issues[issue_id - 1];
        let c = Competition {
            id: (self.competitions.len() + 1) as u64,
            issue_id,
            miner1_hotkey: m1,
            miner2_hotkey: m2,
            start_block: block,
            submission_window_end_block: block.saturating_add(self.submission_window_blocks),
            deadline_block: block.saturating_add(self.competition_deadline_blocks),
            status: CompetitionStatus::Active,
            winner_hotkey: AccountId { bytes: zero_bytes() },
            winning_pr_url_hash: zero_bytes(),
            payout_amount: 0,
        };
        ManagerModel {
            competitions: self.competitions.push(c),
            solution_votes: self.solution_votes.push(None),
            timeout_votes: self.timeout_votes.push(None),
            cancel_votes: self.cancel_votes.push(None),
            registry: self.registry.with_issue(
                issue_id,
                Issue { status: IssueStatus::InCompetition, ..iss },
            ),
            events: self.events.push(
                Event::CompetitionStarted(
                    CompetitionStarted {
                        competition_id: c.id,
                        issue_id,
                        miner1_hotkey: m1,
                        miner2_hotkey: m2,
                        deadline_block: c.deadline_block,
                    },
                ),
            ),
            ..self
        }
    }

    /// The state after competition `id` completes with `winner`: the payout is
    /// the issue's escrow, which is zeroed.
    pub open spec fn completed(self, id: u64, winner: AccountId, pr_hash: [u8; 32]) -> ManagerModel {
        let c = self.competitions[id - 1];
        let iss = self.registry.issues[c.issue_id - 1];
        ManagerModel {
            competitions: self.competitions.update(
                id - 1,
                Competition {
                    status: CompetitionStatus::Completed,
                    winner_hotkey: winner,
                    winning_pr_url_hash: pr_hash,
                    payout_amount: iss.bounty_amount,
                    ..c
                },
            ),
            registry: self.registry.with_issue(
                c.issue_id,
                Issue { status: IssueStatus::Completed, bounty_amount: 0, ..iss },
            ),
            events: self.events.push(
                Event::CompetitionCompleted(
                    CompetitionCompleted {
                        competition_id: id,
                        issue_id: c.issue_id,
                        winner_hotkey: winner,
                        payout: iss.bounty_amount,
                        pr_url_hash: pr_hash,
                    },
                ),
            ),
            ..self
        }
    }

    /// The state after competition `id` times out: the issue is Active again
    /// and keeps its escrow.
    pub open spec fn timed_out(self, id: u64) -> ManagerModel {
        let c = self.competitions[id - 1];
        let iss = self.registry.issues[c.issue_id - 1];
        ManagerModel {
            competitions: self.competitions.update(
                id - 1,
                Competition { status: CompetitionStatus::TimedOut, ..c },
            ),
            registry: self.registry.with_issue(
                c.issue_id,
                Issue { status: IssueStatus::Active, ..iss },
            ),
            events: self.events.push(
                Event::CompetitionEnded(
                    CompetitionEnded {
                        competition_id: id,
                        issue_id: c.issue_id,
                        status: ENDED_TIMED_OUT,
                        reason_hash: zero_bytes(),
                    },
                ),
            ),
            ..self
        }
    }

    /// The state after competition `id` is cancelled: the issue is Completed
    /// and its escrow returns to the pool.
    pub open spec fn called_off(self, id: u64, reason: [u8; 32]) -> ManagerModel {
        let c = self.competitions[id - 1];
        let iss = self.registry.issues[c.issue_id - 1];
        let r = self.registry.with_issue(
            c.issue_id,
            Issue { status: IssueStatus::Completed, bounty_amount: 0, ..iss },
        );
        ManagerModel {
            competitions: self.competitions.update(
                id - 1,
                Competition { status: CompetitionStatus::Cancelled, ..c },
            ),
            registry: RegistryModel {
                pool: crate::registry::sat_add(self.registry.pool, iss.bounty_amount),
                ..r
            },
            events: self.events.push(
                Event::CompetitionEnded(
                    CompetitionEnded {
                        competition_id: id,
                        issue_id: c.issue_id,
                        status: ENDED_CANCELLED,
                        reason_hash: reason,
                    },
                ),
            ),
            ..self
        }
    }
    /// The Active competition on issue `issue_id`, or 0.
    pub open spec fn issue_competition(self, issue_id: u64) -> u64 {
        if exists|k: int|
            0 <= k < self.competitions.len() && self.competitions[k].status
                == CompetitionStatus::Active && self.competitions[k].issue_id == issue_id {
            let k = choose|k: int|
                0 <= k < self.competitions.len() && self.competitions[k].status
                    == CompetitionStatus::Active && self.competitions[k].issue_id == issue_id;
            (k + 1) as u64
        } else {
            0
        }
    }

    /// The outstanding pairing proposal of issue `issue_id`.
    pub open spec fn proposal(self, issue_id: u64) -> Option<PairProposal> {
        if has_issue(self.registry.issues, issue_id) {
            self.proposals[issue_id - 1]
        } else {
            None
        }
    }

    /// Which check, if any, refuses a pairing proposal.
    pub open spec fn propose_check(
        self,
        stake: u128,
        issue_id: u64,
        m1: AccountId,
        m2: AccountId,
    ) -> Result<(), Error> {
        if m1 == m2 {
            Err(Error::SameMiners)
        } else if !has_issue(self.registry.issues, issue_id) {
            Err(Error::IssueNotFound)
        } else if self.registry.issues[issue_id - 1].status != IssueStatus::Active {
            Err(Error::IssueNotActive)
        } else if self.occupied(m1) || self.occupied(m2) {
            Err(Error::MinerAlreadyInCompetition)
        } else if stake == 0 {
            Err(Error::InsufficientStake)
        } else {
            Ok(())
        }
    }

    /// The state after an accepted pairing proposal: the proposer's stake is
    /// its first vote, and the competition starts at once on consensus.
    pub open spec fn proposed(
        self,
        caller: AccountId,
        stake: u128,
        block: u32,
        issue_id: u64,
        m1: AccountId,
        m2: AccountId,
    ) -> ManagerModel {
        let p = PairProposal {
            issue_id,
            miner1_hotkey: m1,
            miner2_hotkey: m2,
            proposer: caller,
            proposed_at_block: block,
            total_stake_voted: stake,
            votes_count: 1,
        };
        let m = ManagerModel {
            pair_voters: self.pair_voters.push((issue_id, caller)),
            events: self.events.push(
                Event::PairVoteCast(PairVoteCast { issue_id, voter: caller, stake }),
            ),
            ..self
        };
        if consensus(stake) {
            m.with_proposals(m.proposals.update(issue_id - 1, None)).started(issue_id, m1, m2, block)
        } else {
            m.with_proposals(m.proposals.update(issue_id - 1, Some(p)))
        }
    }

    /// Which check, if any, refuses a vote on a pairing proposal.
    pub open spec fn pair_vote_check(self, caller: AccountId, stake: u128, block: u32, issue_id: u64) -> Result<(), Error> {
        match self.proposal(issue_id) {
            None => Err(Error::ProposalNotFound),
            Some(p) => if block > p.proposed_at_block.saturating_add(self.proposal_expiry_blocks) {
                Err(Error::ProposalExpired)
            } else if self.pair_voters.contains((issue_id, caller)) {
                Err(Error::AlreadyVoted)
            } else if self.registry.issues[issue_id - 1].status != IssueStatus::Active {
                Err(Error::IssueNotActive)
            } else if stake == 0 {
                Err(Error::InsufficientStake)
            } else {
                Ok(())
            },
        }
    }

    /// The state after an accepted vote on the pairing proposal of `issue_id`.
    pub open spec fn pair_voted(self, caller: AccountId, stake: u128, block: u32, issue_id: u64) -> ManagerModel {
        let prev = self.proposals[issue_id - 1]->Some_0;
        let p = PairProposal {
            total_stake_voted: crate::registry::sat_add(prev.total_stake_voted, stake),
            votes_count: prev.votes_count.saturating_add(1),
            ..prev
        };
        let m = ManagerModel {
            pair_voters: self.pair_voters.push((issue_id, caller)),
            events: self.events.push(
                Event::PairVoteCast(PairVoteCast { issue_id, voter: caller, stake }),
            ),
            ..self
        };
        if consensus(p.total_stake_voted) {
            m.with_proposals(m.proposals.update(issue_id - 1, None)).started(
                issue_id,
                p.miner1_hotkey,
                p.miner2_hotkey,
                block,
            )
        } else {
            m.with_proposals(m.proposals.update(issue_id - 1, Some(p)))
        }
    }

    /// Competition `id`, when it exists and is Active.
    pub open spec fn active_check(self, id: u64) -> Result<Competition, Error> {
        match self.competition(id) {
            None => Err(Error::CompetitionNotFound),
            Some(c) => if c.status != CompetitionStatus::Active {
                Err(Error::CompetitionNotActive)
            } else {
                Ok(c)
            },
        }
    }

    /// Which check, if any, refuses a solution vote.
    pub open spec fn solution_check(
        self,
        caller: AccountId,
        stake: u128,
        block: u32,
        id: u64,
        winner: AccountId,
    ) -> Result<(), Error> {
        match self.active_check(id) {
            Err(e) => Err(e),
            Ok(c) => if winner != c.miner1_hotkey && winner != c.miner2_hotkey {
                Err(Error::InvalidWinner)
            } else if block <= c.submission_window_end_block {
                Err(Error::SubmissionWindowNotEnded)
            } else if self.solution_voters.contains((id, caller)) {
                Err(Error::AlreadyVoted)
            } else if stake == 0 {
                Err(Error::InsufficientStake)
            } else {
                Ok(())
            },
        }
    }

    /// The state after an accepted solution vote. The first vote fixes the
    /// winner and the PR hash; on consensus the competition completes with them.
    pub open spec fn solution_voted(
        self,
        caller: AccountId,
        stake: u128,
        id: u64,
        winner: AccountId,
        pr_hash: [u8; 32],
    ) -> ManagerModel {
        let v0 = match self.solution_votes[id - 1] {
            Some(v) => v,
            None => SolutionVote {
                competition_id: id,
                winner_hotkey: winner,
                pr_url_hash: pr_hash,
                total_stake_voted: 0,
                votes_count: 0,
            },
        };
        let v = SolutionVote {
            total_stake_voted: crate::registry::sat_add(v0.total_stake_voted, stake),
            votes_count: v0.votes_count.saturating_add(1),
            ..v0
        };
        let m = ManagerModel { solution_voters: self.solution_voters.push((id, caller)), ..self };
        if consensus(v.total_stake_voted) {
            ManagerModel {
                solution_votes: m.solution_votes.update(id - 1, None),
                ..m
            }.completed(id, v.winner_hotkey, v.pr_url_hash)
        } else {
            ManagerModel { solution_votes: m.solution_votes.update(id - 1, Some(v)), ..m }
        }
    }

    /// Which check, if any, refuses a timeout vote.
    pub open spec fn timeout_check(self, caller: AccountId, stake: u128, block: u32, id: u64) -> Result<(), Error> {
        match self.active_check(id) {
            Err(e) => Err(e),
            Ok(c) => if block <= c.deadline_block {
                Err(Error::DeadlineNotPassed)
            } else if self.timeout_voters.contains((id, caller)) {
                Err(Error::AlreadyVoted)
            } else if stake == 0 {
                Err(Error::InsufficientStake)
            } else {
                Ok(())
            },
        }
    }

    /// The state after an accepted timeout vote.
    pub open spec fn timeout_voted(self, caller: AccountId, stake: u128, id: u64) -> ManagerModel {
        let v0 = match self.timeout_votes[id - 1] {
            Some(v) => v,
            None => CancelVote {
                competition_id: id,
                reason_hash: zero_bytes(),
                total_stake_voted: 0,
                votes_count: 0,
            },
        };
        let v = CancelVote {
            total_stake_voted: crate::registry::sat_add(v0.total_stake_voted, stake),
            votes_count: v0.votes_count.saturating_add(1),
            ..v0
        };
        let m = ManagerModel { timeout_voters: self.timeout_voters.push((id, caller)), ..self };
        if consensus(v.total_stake_voted) {
            ManagerModel { timeout_votes: m.timeout_votes.update(id - 1, None), ..m }.timed_out(id)
        } else {
            ManagerModel { timeout_votes: m.timeout_votes.update(id - 1, Some(v)), ..m }
        }
    }

    /// Which check, if any, refuses a cancellation vote.
    pub open spec fn cancel_check(self, caller: AccountId, stake: u128, id: u64) -> Result<(), Error> {
        match self.active_check(id) {
            Err(e) => Err(e),
            Ok(c) => if self.cancel_voters.contains((id, caller)) {
                Err(Error::AlreadyVoted)
            } else if stake == 0 {
                Err(Error::InsufficientStake)
            } else {
                Ok(())
            },
        }
    }

    /// The state after an accepted cancellation vote. The first vote fixes the reason.
    pub open spec fn cancel_voted(self, caller: AccountId, stake: u128, id: u64, reason: [u8; 32]) -> ManagerModel {
        let v0 = match self.cancel_votes[id - 1] {
            Some(v) => v,
            None => CancelVote {
                competition_id: id,
                reason_hash: reason,
                total_stake_voted: 0,
                votes_count: 0,
            },
        };
        let v = CancelVote {
            total_stake_voted: crate::registry::sat_add(v0.total_stake_voted, stake),
            votes_count: v0.votes_count.saturating_add(1),
            ..v0
        };
        let m = ManagerModel { cancel_voters: self.cancel_voters.push((id, caller)), ..self };
        if consensus(v.total_stake_voted) {
            ManagerModel { cancel_votes: m.cancel_votes.update(id - 1, None), ..m }.called_off(id, v.reason_hash)
        } else {
            ManagerModel { cancel_votes: m.cancel_votes.update(id - 1, Some(v)), ..m }
        }
    }
}

impl ManagerModel {
    /// The amount a payout of competition `id` would move, or why it is refused.
    pub open spec fn payout_check(self, caller: AccountId, id: u64) -> Result<u128, Error> {
        if caller != self.owner {
            Err(Error::NotOwner)
        } else {
            match self.competition(id) {
                None => Err(Error::CompetitionNotFound),
                Some(c) => if c.status != CompetitionStatus::Completed {
                    Err(Error::BountyNotCompleted)
                } else if c.payout_amount == 0 {
                    Err(Error::BountyNotFunded)
                } else {
                    Ok(c.payout_amount)
                },
            }
        }
    }
}

/// A payout that the owner asked for: the amount, and the call that moves it.
#[derive(Debug, PartialEq, Eq)]
pub struct Payout {
    pub amount: u128,
    pub call: RawCall,
}


/// The head-to-head competition engine: issues are funded from the pool,
/// validators pair two miners on an issue, and stake-weighted votes decide the
/// winner, a timeout or a cancellation.
pub struct IssueBountyManager {
    owner: AccountId,
    treasury_hotkey: AccountId,
    validator_hotkey: AccountId,
    netuid: u16,
    registry: Registry,
    submission_window_blocks: u32,
    competition_deadline_blocks: u32,
    proposal_expiry_blocks: u32,
    competitions: Vec<Competition>,
    proposals: Vec<Option<PairProposal>>,
    pair_voters: Vec<(u64, AccountId)>,
    solution_votes: Vec<Option<SolutionVote>>,
    solution_voters: Vec<(u64, AccountId)>,
    timeout_votes: Vec<Option<CancelVote>>,
    timeout_voters: Vec<(u64, AccountId)>,
    cancel_votes: Vec<Option<CancelVote>>,
    cancel_voters: Vec<(u64, AccountId)>,
    events: Vec<Event>,
}

impl View for IssueBountyManager {
    type V = ManagerModel;

    closed spec fn view(&self) -> ManagerModel {
        ManagerModel {
            owner: self.owner,
            treasury_hotkey: self.treasury_hotkey,
            validator_hotkey: self.validator_hotkey,
            netuid: self.netuid,
            registry: self.registry@,
            submission_window_blocks: self.submission_window_blocks,
            competition_deadline_blocks: self.competition_deadline_blocks,
            proposal_expiry_blocks: self.proposal_expiry_blocks,
            competitions: self.competitions@,
            proposals: self.proposals@,
            pair_voters: self.pair_voters@,
            solution_votes: self.solution_votes@,
            solution_voters: self.solution_voters@,
            timeout_votes: self.timeout_votes@,
            timeout_voters: self.timeout_voters@,
            cancel_votes: self.cancel_votes@,
            cancel_voters: self.cancel_voters@,
            events: self.events@,
        }
    }
}

impl IssueBountyManager {
    /// A fresh engine with default timing, an empty registry and an empty pool.
    pub fn new(owner: AccountId, treasury_hotkey: AccountId, validator_hotkey: AccountId, netuid: u16) -> (r:
        IssueBountyManager)
        ensures
            r@.wf(),
            r@.owner == owner,
            r@.treasury_hotkey == treasury_hotkey,
            r@.validator_hotkey == validator_hotkey,
            r@.netuid == netuid,
            r@.registry.issues.len() == 0,
            r@.registry.queue.len() == 0,
            r@.registry.pool == 0,
            r@.registry.last_known_stake == 0,
            r@.registry.last_harvest_block == 0,
            r@.competitions.len() == 0,
            r@.pair_voters.len() == 0,
            r@.solution_voters.len() == 0,
            r@.timeout_voters.len() == 0,
            r@.cancel_voters.len() == 0,
            r@.events.len() == 0,
            r@.submission_window_blocks == DEFAULT_SUBMISSION_WINDOW_BLOCKS,
            r@.competition_deadline_blocks == DEFAULT_COMPETITION_DEADLINE_BLOCKS,
            r@.proposal_expiry_blocks == DEFAULT_PROPOSAL_EXPIRY_BLOCKS,
    {
        IssueBountyManager {
            owner,
            treasury_hotkey,
            validator_hotkey,
            netuid,
            registry: Registry::new(QueueRemoval::SwapRemove),
            submission_window_blocks: DEFAULT_SUBMISSION_WINDOW_BLOCKS,
            competition_deadline_blocks: DEFAULT_COMPETITION_DEADLINE_BLOCKS,
            proposal_expiry_blocks: DEFAULT_PROPOSAL_EXPIRY_BLOCKS,
            competitions: Vec::new(),
            proposals: Vec::new(),
            pair_voters: Vec::new(),
            solution_votes: Vec::new(),
            solution_voters: Vec::new(),
            timeout_votes: Vec::new(),
            timeout_voters: Vec::new(),
            cancel_votes: Vec::new(),
            cancel_voters: Vec::new(),
            events: Vec::new(),
        }
    }

    /// Registers an issue (owner only). It enters the bounty queue as
    /// Registered and is not funded here, even when the pool holds funds.
    pub fn register_issue(
        &mut self,
        caller: AccountId,
        github_url: String,
        repository_full_name: String,
        issue_number: u32,
        target_bounty: u128,
        block: u32,
    ) -> (r: Result<u64, Error>)
        requires
            old(self)@.wf(),
            old(self)@.registry.issues.len() + 1 < u64::MAX,
        ensures
            final(self)@.wf(),
            caller != old(self)@.owner ==> r == Err::<u64, Error>(Error::NotOwner),
            caller == old(self)@.owner ==> r == old(self)@.registry.register(
                keccak256_of(vstd::utf8::encode_utf8(github_url@)),
                repository_full_name,
                issue_number,
                target_bounty,
                block,
            ),
            r is Err ==> final(self)@ == old(self)@,
            r is Ok ==> exists|h: [u8; 32]|
                h@ == keccak256_of(vstd::utf8::encode_utf8(github_url@)) && final(self)@ == (
                old(self)@.with_registry(
                    old(self)@.registry.registered(
                        h,
                        repository_full_name,
                        issue_number,
                        target_bounty,
                        block,
                    ),
                ).with_proposals(old(self)@.proposals.push(None)).with_event(
                    Event::IssueRegistered(
                        IssueRegistered {
                            issue_id: (old(self)@.registry.issues.len() + 1) as u64,
                            github_url_hash: h,
                            repository_full_name,
                            issue_number,
                            target_bounty,
                        },
                    ),
                )),
    {
        if caller != self.owner {
            return Err(Error::NotOwner);
        }
        let url_hash = hash_string(github_url.as_str());
        let name = repository_full_name.clone();
        let r = self.registry.register(
            url_hash,
            repository_full_name,
            issue_number,
            target_bounty,
            block,
        );
        if let Ok(issue_id) = r {
            self.proposals.push(None);
            self.events.push(
                Event::IssueRegistered(
                    IssueRegistered {
                        issue_id,
                        github_url_hash: url_hash,
                        repository_full_name: name,
                        issue_number,
                        target_bounty,
                    },
                ),
            );
            proof {
                let m = self@;
                assert forall|k: int| 0 <= k < m.competitions.len() implies comp_ok(m.registry.issues, #[trigger] m.competitions[k], k) by {
                    let c = m.competitions[k];
                    assert(m.registry.issues[c.issue_id - 1] == old(self)@.registry.issues[c.issue_id
                        - 1]);
                }
            }
        }
        r
    }

    /// Cancels a Registered or Active issue (owner only): its escrow returns to
    /// the pool and it leaves the bounty queue.
    pub fn cancel_issue(&mut self, caller: AccountId, issue_id: u64) -> (r: Result<(), Error>)
        requires
            old(self)@.wf(),
        ensures
            final(self)@.wf(),
            caller != old(self)@.owner ==> r == Err::<(), Error>(Error::NotOwner),
            caller == old(self)@.owner ==> match old(self)@.registry.cancel(issue_id) {
                Ok(returned) => r is Ok && final(self)@ == old(self)@.with_registry(
                    old(self)@.registry.cancelled(issue_id),
                ).with_event(
                    Event::IssueCancelled(IssueCancelled { issue_id, returned_bounty: returned }),
                ),
                Err(e) => r == Err::<(), Error>(e),
            },
            r is Err ==> final(self)@ == old(self)@,
    {
        if caller != self.owner {
            return Err(Error::NotOwner);
        }
        let ghost old_m = self@;
        match self.registry.cancel(issue_id) {
            Ok(returned) => {
                self.events.push(
                    Event::IssueCancelled(IssueCancelled { issue_id, returned_bounty: returned }),
                );
                proof {
                    let m = self@;
                    assert forall|k: int| 0 <= k < m.competitions.len() implies comp_ok(m.registry.issues, #[trigger] m.competitions[k], k) by {
                        let c = m.competitions[k];
                        if c.issue_id != issue_id {
                            assert(m.registry.issues[c.issue_id - 1]
                                == old_m.registry.issues[c.issue_id - 1]);
                        }
                    }
                }
                Ok(())
            },
            Err(e) => Err(e),
        }
    }

    /// Adds a deposit to the pool and fills bounties; a zero deposit does nothing.
    pub fn deposit_to_pool(&mut self, depositor: AccountId, amount: u128)
        requires
            old(self)@.wf(),
        ensures
            final(self)@.wf(),
            amount == 0 ==> final(self)@ == old(self)@,
            amount > 0 ==> final(self)@ == old(self)@.with_registry(
                RegistryModel {
                    pool: crate::registry::sat_add(old(self)@.registry.pool, amount),
                    ..old(self)@.registry
                }.filled(),
            ).with_event(Event::PoolDeposit(PoolDeposit { depositor, amount })),
    {
        if amount == 0 {
            return;
        }
        self.registry.add_to_pool(amount);
        self.events.push(Event::PoolDeposit(PoolDeposit { depositor, amount }));
        self.fill_bounties();
    }

    /// Runs the fill pass.
    pub fn fill_bounties(&mut self)
        requires
            old(self)@.wf(),
        ensures
            final(self)@.wf(),
            final(self)@ == old(self)@.with_registry(old(self)@.registry.filled()),
    {
        let ghost old_m = self@;
        self.registry.fill_bounties();
        proof {
            let m = self@;
            crate::registry::lemma_fill_len(
                old_m.registry.issues,
                old_m.registry.queue,
                old_m.registry.pool,
                0,
                old_m.registry.removal,
            );
            assert forall|k: int| 0 <= k < m.competitions.len() implies comp_ok(m.registry.issues, #[trigger] m.competitions[k], k) by {
                let c = m.competitions[k];
                if c.status == CompetitionStatus::Active {
                    lemma_fill_keeps_settled(
                        old_m.registry.issues,
                        old_m.registry.queue,
                        old_m.registry.pool,
                        0,
                        old_m.registry.removal,
                        c.issue_id,
                    );
                }
            }
        }
    }

    fn start_competition(&mut self, issue_id: u64, miner1_hotkey: AccountId, miner2_hotkey: AccountId, block: u32) -> (r: u64)
        requires
            old(self)@.wf(),
            has_issue(old(self)@.registry.issues, issue_id),
            old(self)@.registry.issues[issue_id - 1].status == IssueStatus::Active,
            old(self)@.competitions.len() + 1 < u64::MAX,
        ensures
            final(self)@ == old(self)@.started(issue_id, miner1_hotkey, miner2_hotkey, block),
            final(self)@.wf(),
            r == old(self)@.competitions.len() + 1,
    {
        let ghost old_m = self@;
        let id = self.competitions.len() as u64 + 1;
        let c = Competition {
            id,
            issue_id,
            miner1_hotkey,
            miner2_hotkey,
            start_block: block,
            submission_window_end_block: block.saturating_add(self.submission_window_blocks),
            deadline_block: block.saturating_add(self.competition_deadline_blocks),
            status: CompetitionStatus::Active,
            winner_hotkey: AccountId { bytes: [0u8; 32] },
            winning_pr_url_hash: [0u8; 32],
            payout_amount: 0,
        };
        self.competitions.push(c);
        self.solution_votes.push(None);
        self.timeout_votes.push(None);
        self.cancel_votes.push(None);
        let bounty = self.registry.issue_bounty(issue_id);
        let solver = self.registry.issue_solver(issue_id);
        proof {
            if self@.registry.queue.contains(issue_id) {
                let j = choose|j: int|
                    0 <= j < self@.registry.queue.len() && self@.registry.queue[j] == issue_id;
                assert(crate::registry::queued_ok(self@.registry.issues, self@.registry.queue[j]));
            }
        }
        self.registry.set_issue(issue_id, IssueStatus::InCompetition, bounty, solver);
        self.events.push(
            Event::CompetitionStarted(
                CompetitionStarted {
                    competition_id: id,
                    issue_id,
                    miner1_hotkey,
                    miner2_hotkey,
                    deadline_block: c.deadline_block,
                },
            ),
        );
        proof {
            let m = self@;
            assert(m == old_m.started(issue_id, miner1_hotkey, miner2_hotkey, block));
            assert forall|k: int| 0 <= k < m.competitions.len() implies comp_ok(
                m.registry.issues,
                #[trigger] m.competitions[k],
                k,
            ) by {
                if k < old_m.competitions.len() {
                    assert(comp_ok(old_m.registry.issues, old_m.competitions[k], k));
                }
            }
            assert forall|k1: int, k2: int|
                0 <= k1 < m.competitions.len() && 0 <= k2 < m.competitions.len() && k1 != k2
                    && m.competitions[k1].status == CompetitionStatus::Active
                    && m.competitions[k2].status == CompetitionStatus::Active implies m.competitions[k1].issue_id
                != m.competitions[k2].issue_id by {
                if k1 < old_m.competitions.len() {
                    assert(comp_ok(old_m.registry.issues, old_m.competitions[k1], k1));
                }
                if k2 < old_m.competitions.len() {
                    assert(comp_ok(old_m.registry.issues, old_m.competitions[k2], k2));
                }
            }
        }
        id
    }

    /// Shared proof step: replacing competition `id`'s Active record by a
    /// non-Active one and changing only its issue keeps the engine well formed.
    proof fn lemma_end_keeps_wf(old_m: ManagerModel, m: ManagerModel, id: u64)
        requires
            old_m.wf(),
            has_comp(old_m.competitions, id),
            old_m.competitions[id - 1].status == CompetitionStatus::Active,
            m.registry.wf(),
            m.registry.removal == old_m.registry.removal,
            m.registry.issues.len() == old_m.registry.issues.len(),
            forall|i: u64|
                has_issue(old_m.registry.issues, i) && i != old_m.competitions[id - 1].issue_id
                    ==> m.registry.issues[i - 1] == old_m.registry.issues[i - 1],
            m.competitions.len() == old_m.competitions.len(),
            m.competitions[id - 1].status != CompetitionStatus::Active,
            m.competitions[id - 1].id == id,
            m.competitions[id - 1].issue_id == old_m.competitions[id - 1].issue_id,
            forall|k: int|
                0 <= k < m.competitions.len() && k != id - 1 ==> m.competitions[k]
                    == old_m.competitions[k],
            m.proposals.len() == old_m.proposals.len(),
            m.solution_votes.len() == old_m.solution_votes.len(),
            m.timeout_votes.len() == old_m.timeout_votes.len(),
            m.cancel_votes.len() == old_m.cancel_votes.len(),
        ensures
            m.wf(),
    {
        let cid = old_m.competitions[id - 1].issue_id;
        assert forall|k: int| 0 <= k < m.competitions.len() implies comp_ok(
            m.registry.issues,
            #[trigger] m.competitions[k],
            k,
        ) by {
            assert(comp_ok(old_m.registry.issues, old_m.competitions[k], k));
            if k != id - 1 && m.competitions[k].status == CompetitionStatus::Active {
                assert(old_m.competitions[k].issue_id != cid);
            }
        }
    }

    fn complete_competition(&mut self, competition_id: u64, winner: AccountId, pr_hash: [u8; 32])
        requires
            old(self)@.wf(),
            has_comp(old(self)@.competitions, competition_id),
            old(self)@.competitions[competition_id - 1].status == CompetitionStatus::Active,
        ensures
            final(self)@ == old(self)@.completed(competition_id, winner, pr_hash),
            final(self)@.wf(),
    {
        let ghost old_m = self@;
        let n = self.competitions.len();
        let k = (competition_id - 1) as usize;
        let c = self.competitions[k];
        proof {
            assert(comp_ok(old_m.registry.issues, old_m.competitions[k as int], k as int));
        }
        let bounty = self.registry.issue_bounty(c.issue_id);
        let solver = self.registry.issue_solver(c.issue_id);
        self.competitions.set(
            k,
            Competition {
                status: CompetitionStatus::Completed,
                winner_hotkey: winner,
                winning_pr_url_hash: pr_hash,
                payout_amount: bounty,
                ..c
            },
        );
        proof {
            if self@.registry.queue.contains(c.issue_id) {
                let j = choose|j: int|
                    0 <= j < self@.registry.queue.len() && self@.registry.queue[j] == c.issue_id;
                assert(crate::registry::queued_ok(self@.registry.issues, self@.registry.queue[j]));
            }
        }
        self.registry.set_issue(c.issue_id, IssueStatus::Completed, 0, solver);
        self.events.push(
            Event::CompetitionCompleted(
                CompetitionCompleted {
                    competition_id,
                    issue_id: c.issue_id,
                    winner_hotkey: winner,
                    payout: bounty,
                    pr_url_hash: pr_hash,
                },
            ),
        );
        proof {
            Self::lemma_end_keeps_wf(old_m, self@, competition_id);
            assert(self@ == old_m.completed(competition_id, winner, pr_hash));
        }
    }

    fn timeout_competition(&mut self, competition_id: u64)
        requires
            old(self)@.wf(),
            has_comp(old(self)@.competitions, competition_id),
            old(self)@.competitions[competition_id - 1].status == CompetitionStatus::Active,
        ensures
            final(self)@ == old(self)@.timed_out(competition_id),
            final(self)@.wf(),
    {
        let ghost old_m = self@;
        let n = self.competitions.len();
        let k = (competition_id - 1) as usize;
        let c = self.competitions[k];
        proof {
            assert(comp_ok(old_m.registry.issues, old_m.competitions[k as int], k as int));
        }
        let bounty = self.registry.issue_bounty(c.issue_id);
        let solver = self.registry.issue_solver(c.issue_id);
        self.competitions.set(k, Competition { status: CompetitionStatus::TimedOut, ..c });
        proof {
            if self@.registry.queue.contains(c.issue_id) {
                let j = choose|j: int|
                    0 <= j < self@.registry.queue.len() && self@.registry.queue[j] == c.issue_id;
                assert(crate::registry::queued_ok(self@.registry.issues, self@.registry.queue[j]));
            }
        }
        self.registry.set_issue(c.issue_id, IssueStatus::Active, bounty, solver);
        self.events.push(
            Event::CompetitionEnded(
                CompetitionEnded {
                    competition_id,
                    issue_id: c.issue_id,
                    status: ENDED_TIMED_OUT,
                    reason_hash: [0u8; 32],
                },
            ),
        );
        proof {
            Self::lemma_end_keeps_wf(old_m, self@, competition_id);
            assert(self@ == old_m.timed_out(competition_id));
        }
    }

    fn cancel_competition(&mut self, competition_id: u64, reason_hash: [u8; 32])
        requires
            old(self)@.wf(),
            has_comp(old(self)@.competitions, competition_id),
            old(self)@.competitions[competition_id - 1].status == CompetitionStatus::Active,
        ensures
            final(self)@ == old(self)@.called_off(competition_id, reason_hash),
            final(self)@.wf(),
    {
        let ghost old_m = self@;
        let n = self.competitions.len();
        let k = (competition_id - 1) as usize;
        let c = self.competitions[k];
        proof {
            assert(comp_ok(old_m.registry.issues, old_m.competitions[k as int], k as int));
        }
        let bounty = self.registry.issue_bounty(c.issue_id);
        let solver = self.registry.issue_solver(c.issue_id);
        self.competitions.set(k, Competition { status: CompetitionStatus::Cancelled, ..c });
        proof {
            if self@.registry.queue.contains(c.issue_id) {
                let j = choose|j: int|
                    0 <= j < self@.registry.queue.len() && self@.registry.queue[j] == c.issue_id;
                assert(crate::registry::queued_ok(self@.registry.issues, self@.registry.queue[j]));
            }
        }
        self.registry.set_issue(c.issue_id, IssueStatus::Completed, 0, solver);
        self.registry.add_to_pool(bounty);
        self.events.push(
            Event::CompetitionEnded(
                CompetitionEnded {
                    competition_id,
                    issue_id: c.issue_id,
                    status: ENDED_CANCELLED,
                    reason_hash,
                },
            ),
        );
        proof {
            Self::lemma_end_keeps_wf(old_m, self@, competition_id);
            assert(self@ == old_m.called_off(competition_id, reason_hash));
        }
    }

    /// Competition `competition_id`, when it exists and is Active.
    pub fn validate_active_competition(&self, competition_id: u64) -> (r: Result<Competition, Error>)
        requires
            self@.wf(),
        ensures
            r == self@.active_check(competition_id),
    {
        if competition_id == 0 || competition_id > self.competitions.len() as u64 {
            return Err(Error::CompetitionNotFound);
        }
        let c = self.competitions[(competition_id - 1) as usize];
        if c.status != CompetitionStatus::Active {
            return Err(Error::CompetitionNotActive);
        }
        Ok(c)
    }

    /// Whether `hotkey` is a miner of an Active competition.
    pub fn is_miner_in_competition(&self, hotkey: AccountId) -> (r: bool)
        ensures
            r == self@.occupied(hotkey),
    {
        let mut k: usize = 0;
        while k < self.competitions.len()
            invariant
                k <= self.competitions.len(),
                forall|j: int| 0 <= j < k ==> !occupies(self@.competitions, j, hotkey),
            decreases self.competitions.len() - k,
        {
            let c = self.competitions[k];
            if c.status == CompetitionStatus::Active && (c.miner1_hotkey == hotkey
                || c.miner2_hotkey == hotkey) {
                assert(occupies(self@.competitions, k as int, hotkey));
                return true;
            }
            k = k + 1;
        }
        false
    }

    /// The latest Active competition with `hotkey` as a miner, or 0.
    pub fn get_miner_competition(&self, hotkey: AccountId) -> (r: u64)
        requires
            self@.wf(),
        ensures
            r == self@.miner_competition(hotkey),
    {
        let mut k: usize = self.competitions.len();
        while k > 0
            invariant
                k <= self.competitions.len(),
                self@.wf(),
                forall|j: int| k <= j < self@.competitions.len() ==> !occupies(self@.competitions, j, hotkey),
            decreases k,
        {
            let c = self.competitions[k - 1];
            if c.status == CompetitionStatus::Active && (c.miner1_hotkey == hotkey
                || c.miner2_hotkey == hotkey) {
                proof {
                    let m = self@;
                    let x = (k - 1) as int;
                    assert(occupies(m.competitions, x, hotkey));
                    let y = choose|y: int|
                        occupies(m.competitions, y, hotkey) && forall|k2: int|
                            y < k2 < m.competitions.len() ==> !occupies(m.competitions, k2, hotkey);
                    if y < x {
                    } else if y > x {
                    }
                    assert(y == x);
                }
                return k as u64;
            }
            k = k - 1;
        }
        0
    }

    /// The Active competition on issue `issue_id`, or 0.
    pub fn get_issue_competition(&self, issue_id: u64) -> (r: u64)
        requires
            self@.wf(),
        ensures
            r == self@.issue_competition(issue_id),
    {
        let mut k: usize = 0;
        while k < self.competitions.len()
            invariant
                k <= self.competitions.len(),
                self@.wf(),
                forall|j: int|
                    0 <= j < k ==> !(self@.competitions[j].status == CompetitionStatus::Active
                        && self@.competitions[j].issue_id == issue_id),
            decreases self.competitions.len() - k,
        {
            let c = self.competitions[k];
            if c.status == CompetitionStatus::Active && c.issue_id == issue_id {
                proof {
                    let m = self@;
                    let y = choose|y: int|
                        0 <= y < m.competitions.len() && m.competitions[y].status
                            == CompetitionStatus::Active && m.competitions[y].issue_id == issue_id;
                    assert(y == k as int);
                }
                return k as u64 + 1;
            }
            k = k + 1;
        }
        0
    }

    /// Proposes pairing two miners on an Active issue. Open to any caller with
    /// nonzero stake, which counts as the first vote; a fresh proposal replaces
    /// an outstanding one.
    pub fn propose_pair(
        &mut self,
        caller: AccountId,
        caller_stake: u128,
        block: u32,
        issue_id: u64,
        miner1_hotkey: AccountId,
        miner2_hotkey: AccountId,
    ) -> (r: Result<(), Error>)
        requires
            old(self)@.wf(),
            old(self)@.competitions.len() + 1 < u64::MAX,
        ensures
            final(self)@.wf(),
            r == old(self)@.propose_check(caller_stake, issue_id, miner1_hotkey, miner2_hotkey),
            r is Err ==> final(self)@ == old(self)@,
            r is Ok ==> final(self)@ == old(self)@.proposed(
                caller,
                caller_stake,
                block,
                issue_id,
                miner1_hotkey,
                miner2_hotkey,
            ),
    {
        if miner1_hotkey == miner2_hotkey {
            return Err(Error::SameMiners);
        }
        let status = match self.registry.issue_status(issue_id) {
            None => {
                return Err(Error::IssueNotFound);
            },
            Some(st) => st,
        };
        if status != IssueStatus::Active {
            return Err(Error::IssueNotActive);
        }
        if self.is_miner_in_competition(miner1_hotkey) || self.is_miner_in_competition(
            miner2_hotkey,
        ) {
            return Err(Error::MinerAlreadyInCompetition);
        }
        if caller_stake == 0 {
            return Err(Error::InsufficientStake);
        }
        let proposal = PairProposal {
            issue_id,
            miner1_hotkey,
            miner2_hotkey,
            proposer: caller,
            proposed_at_block: block,
            total_stake_voted: caller_stake,
            votes_count: 1,
        };
        self.pair_voters.push((issue_id, caller));
        self.events.push(
            Event::PairVoteCast(PairVoteCast { issue_id, voter: caller, stake: caller_stake }),
        );
        let n = self.proposals.len();
        let k = (issue_id - 1) as usize;
        assert(k == issue_id - 1);
        if check_consensus(caller_stake) {
            self.proposals.set(k, None);
            self.start_competition(issue_id, miner1_hotkey, miner2_hotkey, block);
        } else {
            self.proposals.set(k, Some(proposal));
        }
        Ok(())
    }

    /// Votes for the outstanding pairing proposal of `issue_id`. A vote after
    /// the proposal expired clears it and fails.
    pub fn vote_pair(&mut self, caller: AccountId, caller_stake: u128, block: u32, issue_id: u64) -> (r:
        Result<(), Error>)
        requires
            old(self)@.wf(),
            old(self)@.competitions.len() + 1 < u64::MAX,
        ensures
            final(self)@.wf(),
            r == old(self)@.pair_vote_check(caller, caller_stake, block, issue_id),
            r == Err::<(), Error>(Error::ProposalExpired) ==> final(self)@ == old(self)@.with_proposals(
                old(self)@.proposals.update(issue_id - 1, None),
            ),
            r is Err && r != Err::<(), Error>(Error::ProposalExpired) ==> final(self)@ == old(self)@,
            r is Ok ==> final(self)@ == old(self)@.pair_voted(caller, caller_stake, block, issue_id),
    {
        if issue_id == 0 || issue_id > self.proposals.len() as u64 {
            return Err(Error::ProposalNotFound);
        }
        let k = (issue_id - 1) as usize;
        let prev = match self.proposals[k] {
            None => {
                return Err(Error::ProposalNotFound);
            },
            Some(p) => p,
        };
        if block > prev.proposed_at_block.saturating_add(self.proposal_expiry_blocks) {
            self.proposals.set(k, None);
            return Err(Error::ProposalExpired);
        }
        if has_voted(&self.pair_voters, issue_id, caller) {
            return Err(Error::AlreadyVoted);
        }
        let status = match self.registry.issue_status(issue_id) {
            None => {
                return Err(Error::IssueNotFound);
            },
            Some(st) => st,
        };
        if status != IssueStatus::Active {
            return Err(Error::IssueNotActive);
        }
        if caller_stake == 0 {
            return Err(Error::InsufficientStake);
        }
        let p = PairProposal {
            total_stake_voted: crate::registry::saturating_add(prev.total_stake_voted, caller_stake),
            votes_count: prev.votes_count.saturating_add(1),
            ..prev
        };
        self.pair_voters.push((issue_id, caller));
        self.events.push(
            Event::PairVoteCast(PairVoteCast { issue_id, voter: caller, stake: caller_stake }),
        );
        if check_consensus(p.total_stake_voted) {
            self.proposals.set(k, None);
            self.start_competition(issue_id, p.miner1_hotkey, p.miner2_hotkey, block);
        } else {
            self.proposals.set(k, Some(p));
        }
        Ok(())
    }

    /// Votes for the winner of an Active competition once its submission
    /// window has ended; on consensus the competition completes.
    pub fn vote_solution(
        &mut self,
        caller: AccountId,
        caller_stake: u128,
        block: u32,
        competition_id: u64,
        winner_hotkey: AccountId,
        pr_url_hash: [u8; 32],
    ) -> (r: Result<(), Error>)
        requires
            old(self)@.wf(),
        ensures
            final(self)@.wf(),
            r == old(self)@.solution_check(caller, caller_stake, block, competition_id, winner_hotkey),
            r is Err ==> final(self)@ == old(self)@,
            r is Ok ==> final(self)@ == old(self)@.solution_voted(
                caller,
                caller_stake,
                competition_id,
                winner_hotkey,
                pr_url_hash,
            ),
    {
        let c = match self.validate_active_competition(competition_id) {
            Ok(c) => c,
            Err(e) => {
                return Err(e);
            },
        };
        if winner_hotkey != c.miner1_hotkey && winner_hotkey != c.miner2_hotkey {
            return Err(Error::InvalidWinner);
        }
        if block <= c.submission_window_end_block {
            return Err(Error::SubmissionWindowNotEnded);
        }
        if has_voted(&self.solution_voters, competition_id, caller) {
            return Err(Error::AlreadyVoted);
        }
        if caller_stake == 0 {
            return Err(Error::InsufficientStake);
        }
        let n = self.solution_votes.len();
        let k = (competition_id - 1) as usize;
        assert(k == competition_id - 1);
        let v0 = match self.solution_votes[k] {
            Some(v) => v,
            None => SolutionVote {
                competition_id,
                winner_hotkey,
                pr_url_hash,
                total_stake_voted: 0,
                votes_count: 0,
            },
        };
        let v = SolutionVote {
            total_stake_voted: crate::registry::saturating_add(v0.total_stake_voted, caller_stake),
            votes_count: v0.votes_count.saturating_add(1),
            ..v0
        };
        self.solution_voters.push((competition_id, caller));
        if check_consensus(v.total_stake_voted) {
            self.solution_votes.set(k, None);
            self.complete_competition(competition_id, v.winner_hotkey, v.pr_url_hash);
        } else {
            self.solution_votes.set(k, Some(v));
        }
        Ok(())
    }

    /// Votes to time out an Active competition past its deadline; on consensus
    /// the issue returns to Active with its escrow.
    pub fn vote_timeout(&mut self, caller: AccountId, caller_stake: u128, block: u32, competition_id: u64) -> (r:
        Result<(), Error>)
        requires
            old(self)@.wf(),
        ensures
            final(self)@.wf(),
            r == old(self)@.timeout_check(caller, caller_stake, block, competition_id),
            r is Err ==> final(self)@ == old(self)@,
            r is Ok ==> final(self)@ == old(self)@.timeout_voted(caller, caller_stake, competition_id),
    {
        let c = match self.validate_active_competition(competition_id) {
            Ok(c) => c,
            Err(e) => {
                return Err(e);
            },
        };
        if block <= c.deadline_block {
            return Err(Error::DeadlineNotPassed);
        }
        if has_voted(&self.timeout_voters, competition_id, caller) {
            return Err(Error::AlreadyVoted);
        }
        if caller_stake == 0 {
            return Err(Error::InsufficientStake);
        }
        let n = self.timeout_votes.len();
        let k = (competition_id - 1) as usize;
        assert(k == competition_id - 1);
        let v0 = match self.timeout_votes[k] {
            Some(v) => v,
            None => CancelVote {
                competition_id,
                reason_hash: [0u8; 32],
                total_stake_voted: 0,
                votes_count: 0,
            },
        };
        let v = CancelVote {
            total_stake_voted: crate::registry::saturating_add(v0.total_stake_voted, caller_stake),
            votes_count: v0.votes_count.saturating_add(1),
            ..v0
        };
        self.timeout_voters.push((competition_id, caller));
        if check_consensus(v.total_stake_voted) {
            self.timeout_votes.set(k, None);
            self.timeout_competition(competition_id);
        } else {
            self.timeout_votes.set(k, Some(v));
        }
        Ok(())
    }

    /// Votes to cancel an Active competition; on consensus the issue is
    /// Completed and its escrow returns to the pool.
    pub fn vote_cancel(
        &mut self,
        caller: AccountId,
        caller_stake: u128,
        competition_id: u64,
        reason_hash: [u8; 32],
    ) -> (r: Result<(), Error>)
        requires
            old(self)@.wf(),
        ensures
            final(self)@.wf(),
            r == old(self)@.cancel_check(caller, caller_stake, competition_id),
            r is Err ==> final(self)@ == old(self)@,
            r is Ok ==> final(self)@ == old(self)@.cancel_voted(
                caller,
                caller_stake,
                competition_id,
                reason_hash,
            ),
    {
        match self.validate_active_competition(competition_id) {
            Ok(_) => {},
            Err(e) => {
                return Err(e);
            },
        }
        if has_voted(&self.cancel_voters, competition_id, caller) {
            return Err(Error::AlreadyVoted);
        }
        if caller_stake == 0 {
            return Err(Error::InsufficientStake);
        }
        let n = self.cancel_votes.len();
        let k = (competition_id - 1) as usize;
        assert(k == competition_id - 1);
        let v0 = match self.cancel_votes[k] {
            Some(v) => v,
            None => CancelVote {
                competition_id,
                reason_hash,
                total_stake_voted: 0,
                votes_count: 0,
            },
        };
        let v = CancelVote {
            total_stake_voted: crate::registry::saturating_add(v0.total_stake_voted, caller_stake),
            votes_count: v0.votes_count.saturating_add(1),
            ..v0
        };
        self.cancel_voters.push((competition_id, caller));
        if check_consensus(v.total_stake_voted) {
            self.cancel_votes.set(k, None);
            self.cancel_competition(competition_id, v.reason_hash);
        } else {
            self.cancel_votes.set(k, Some(v));
        }
        Ok(())
    }

    /// Hands administration to `new_owner` (owner only).
    pub fn set_owner(&mut self, caller: AccountId, new_owner: AccountId) -> (r: Result<(), Error>)
        requires
            old(self)@.wf(),
        ensures
            final(self)@.wf(),
            caller != old(self)@.owner ==> r == Err::<(), Error>(Error::NotOwner) && final(self)@
                == old(self)@,
            caller == old(self)@.owner ==> r is Ok && final(self)@ == (ManagerModel {
                owner: new_owner,
                ..old(self)@
            }),
    {
        if caller != self.owner {
            return Err(Error::NotOwner);
        }
        self.owner = new_owner;
        Ok(())
    }

    /// Replaces the treasury hotkey (owner only).
    pub fn set_treasury_hotkey(&mut self, caller: AccountId, new_hotkey: AccountId) -> (r: Result<(), Error>)
        requires
            old(self)@.wf(),
        ensures
            final(self)@.wf(),
            caller != old(self)@.owner ==> r == Err::<(), Error>(Error::NotOwner) && final(self)@
                == old(self)@,
            caller == old(self)@.owner ==> r is Ok && final(self)@ == (ManagerModel {
                treasury_hotkey: new_hotkey,
                ..old(self)@
            }),
    {
        if caller != self.owner {
            return Err(Error::NotOwner);
        }
        self.treasury_hotkey = new_hotkey;
        Ok(())
    }

    /// Replaces the validator hotkey (owner only).
    pub fn set_validator_hotkey(&mut self, caller: AccountId, new_hotkey: AccountId) -> (r: Result<(), Error>)
        requires
            old(self)@.wf(),
        ensures
            final(self)@.wf(),
            caller != old(self)@.owner ==> r == Err::<(), Error>(Error::NotOwner) && final(self)@
                == old(self)@,
            caller == old(self)@.owner ==> r is Ok && final(self)@ == (ManagerModel {
                validator_hotkey: new_hotkey,
                ..old(self)@
            }),
    {
        if caller != self.owner {
            return Err(Error::NotOwner);
        }
        self.validator_hotkey = new_hotkey;
        Ok(())
    }

    /// Replaces the three timing offsets (owner only).
    pub fn set_competition_config(
        &mut self,
        caller: AccountId,
        submission_window_blocks: u32,
        competition_deadline_blocks: u32,
        proposal_expiry_blocks: u32,
    ) -> (r: Result<(), Error>)
        requires
            old(self)@.wf(),
        ensures
            final(self)@.wf(),
            caller != old(self)@.owner ==> r == Err::<(), Error>(Error::NotOwner) && final(self)@
                == old(self)@,
            caller == old(self)@.owner ==> r is Ok && final(self)@ == (ManagerModel {
                submission_window_blocks,
                competition_deadline_blocks,
                proposal_expiry_blocks,
                ..old(self)@
            }),
    {
        if caller != self.owner {
            return Err(Error::NotOwner);
        }
        self.submission_window_blocks = submission_window_blocks;
        self.competition_deadline_blocks = competition_deadline_blocks;
        self.proposal_expiry_blocks = proposal_expiry_blocks;
        Ok(())
    }

    /// Resets the emission baseline to the treasury's current stake (owner
    /// only), after stake was moved outside the engine.
    pub fn reset_stake_tracking(&mut self, caller: AccountId, current_stake: u128) -> (r: Result<(), Error>)
        requires
            old(self)@.wf(),
        ensures
            final(self)@.wf(),
            caller != old(self)@.owner ==> r == Err::<(), Error>(Error::NotOwner) && final(self)@
                == old(self)@,
            caller == old(self)@.owner ==> r is Ok && final(self)@ == old(self)@.with_registry(
                RegistryModel { last_known_stake: current_stake, ..old(self)@.registry },
            ),
    {
        if caller != self.owner {
            return Err(Error::NotOwner);
        }
        self.registry.set_last_known_stake(current_stake);
        Ok(())
    }

    /// First half of a harvest at treasury stake `current_stake`
    /// (permissionless): new emissions join the pool and fill bounties.
    pub fn begin_harvest(&mut self, current_stake: u128) -> (p: HarvestPlan)
        requires
            old(self)@.wf(),
        ensures
            final(self)@.wf(),
            final(self)@ == old(self)@.with_registry(old(self)@.registry.harvest_begun(current_stake)),
            p == old(self)@.registry.harvest_plan(current_stake),
    {
        let ghost old_m = self@;
        let p = self.registry.begin_harvest(current_stake);
        proof {
            let m = self@;
            let r0 = old_m.registry;
            let pool1 = crate::registry::sat_add(r0.pool, r0.pending(current_stake));
            crate::registry::lemma_fill_len(r0.issues, r0.queue, pool1, 0, r0.removal);
            assert forall|k: int| 0 <= k < m.competitions.len() implies comp_ok(
                m.registry.issues,
                #[trigger] m.competitions[k],
                k,
            ) by {
                let c = m.competitions[k];
                assert(comp_ok(r0.issues, c, k));
                if c.status == CompetitionStatus::Active && r0.pending(current_stake) != 0 {
                    lemma_fill_keeps_settled(r0.issues, r0.queue, pool1, 0, r0.removal, c.issue_id);
                }
            }
        }
        p
    }

    /// Second half of a harvest, once the host chain answered the move of
    /// `plan.to_move` to the validator and the recycling of `plan.to_recycle`.
    pub fn settle_harvest(&mut self, plan: HarvestPlan, moved: bool, recycled: bool, block: u32) -> (r:
        HarvestResult)
        requires
            old(self)@.wf(),
        ensures
            final(self)@.wf(),
            final(self)@ == old(self)@.with_registry(
                old(self)@.registry.harvest_settled(plan, moved, recycled, block),
            ).with_events(
                old(self)@.events + harvest_events(
                    plan.harvested,
                    plan.bounties_filled,
                    plan.to_move,
                    plan.to_recycle,
                    moved,
                    recycled,
                    Some(old(self)@.validator_hotkey),
                    old(self)@.treasury_hotkey,
                ),
            ),
            r == RegistryModel::harvest_result(plan, recycled),
    {
        let r = self.registry.settle_harvest(plan, moved, recycled, block);
        push_harvest_events(
            &mut self.events,
            plan.harvested,
            plan.bounties_filled,
            plan.to_move,
            plan.to_recycle,
            moved,
            recycled,
            Some(self.validator_hotkey),
            self.treasury_hotkey,
        );
        r
    }

    /// Outcome of a payout of competition `competition_id` to `miner_coldkey`
    /// once the host chain answered: the amount, recorded as paid, when the
    /// transfer went through; TransferFailed otherwise.
    pub fn settle_payout(
        &mut self,
        competition_id: u64,
        miner_coldkey: AccountId,
        amount: u128,
        transferred: bool,
    ) -> (r: Result<u128, Error>)
        requires
            old(self)@.wf(),
            has_comp(old(self)@.competitions, competition_id),
        ensures
            final(self)@.wf(),
            !transferred ==> r == Err::<u128, Error>(Error::TransferFailed) && final(self)@
                == old(self)@,
            transferred ==> r == Ok::<u128, Error>(amount) && final(self)@ == old(self)@.with_event(
                Event::BountyPaidOut(
                    BountyPaidOut {
                        issue_id: old(self)@.competitions[competition_id - 1].issue_id,
                        miner: miner_coldkey,
                        amount,
                    },
                ),
            ),
    {
        if !transferred {
            return Err(Error::TransferFailed);
        }
        let n = self.competitions.len();
        let issue_id = self.competitions[(competition_id - 1) as usize].issue_id;
        self.events.push(Event::BountyPaidOut(BountyPaidOut { issue_id, miner: miner_coldkey, amount }));
        Ok(amount)
    }

    /// Hands over the recorded events, oldest first, and clears the record.
    pub fn take_events(&mut self) -> (r: Vec<Event>)
        requires
            old(self)@.wf(),
        ensures
            final(self)@.wf(),
            r@ == old(self)@.events,
            final(self)@ == old(self)@.with_events(Seq::empty()),
    {
        let mut out: Vec<Event> = Vec::new();
        std::mem::swap(&mut out, &mut self.events);
        proof {
            assert(self@.events =~= Seq::<Event>::empty());
        }
        out
    }

    /// The call that moves `amount` of stake from the treasury hotkey to the
    /// validator hotkey, on behalf of the owner.
    pub fn move_stake_call(&self, amount: u128) -> (r: RawCall)
        ensures
            r.0@ == proxy_prefix(self@.owner, PROXY_TYPE_STAKING) + move_stake_call(
                self@.treasury_hotkey,
                self@.validator_hotkey,
                self@.netuid,
                self@.netuid,
                clamped(amount),
            ),
    {
        RawCall::proxied_move_stake(
            &self.owner,
            &self.treasury_hotkey,
            &self.validator_hotkey,
            self.netuid,
            self.netuid,
            clamp_to_u64(amount),
        )
    }

    /// The call that recycles `amount` of stake from the treasury hotkey, on
    /// behalf of the owner.
    pub fn recycle_call(&self, amount: u128) -> (r: RawCall)
        ensures
            r.0@ == proxy_prefix(self@.owner, PROXY_TYPE_NON_CRITICAL) + recycle_alpha_call(
                self@.treasury_hotkey,
                clamped(amount),
                self@.netuid,
            ),
    {
        RawCall::proxied_recycle_alpha(
            &self.owner,
            &self.treasury_hotkey,
            clamp_to_u64(amount),
            self.netuid,
        )
    }

    /// Prepares the payout of a Completed competition to `miner_coldkey`
    /// (owner only): the amount and the transfer call to dispatch. Nothing
    /// changes here; `settle_payout` gives the outcome once the host chain answered.
    pub fn payout_bounty(&self, caller: AccountId, competition_id: u64, miner_coldkey: AccountId) -> (r:
        Result<Payout, Error>)
        requires
            self@.wf(),
        ensures
            r is Err ==> r == Err::<Payout, Error>(self@.payout_check(caller, competition_id)->Err_0),
            self@.payout_check(caller, competition_id) is Err ==> r is Err,
            r is Ok ==> self@.payout_check(caller, competition_id) == Ok::<u128, Error>(
                r->Ok_0.amount,
            ) && r->Ok_0.call.0@ == proxy_prefix(self@.owner, PROXY_TYPE_TRANSFER)
                + transfer_stake_call(
                miner_coldkey,
                self@.treasury_hotkey,
                self@.netuid,
                self@.netuid,
                clamped(r->Ok_0.amount),
            ),
    {
        if caller != self.owner {
            return Err(Error::NotOwner);
        }
        if competition_id == 0 || competition_id > self.competitions.len() as u64 {
            return Err(Error::CompetitionNotFound);
        }
        let c = self.competitions[(competition_id - 1) as usize];
        if c.status != CompetitionStatus::Completed {
            return Err(Error::BountyNotCompleted);
        }
        if c.payout_amount == 0 {
            return Err(Error::BountyNotFunded);
        }
        let call = RawCall::proxied_transfer_stake(
            &self.owner,
            &miner_coldkey,
            &self.treasury_hotkey,
            self.netuid,
            self.netuid,
            clamp_to_u64(c.payout_amount),
        );
        Ok(Payout { amount: c.payout_amount, call })
    }

    pub fn owner(&self) -> (r: AccountId)
        ensures
            r == self@.owner,
    {
        self.owner
    }

    pub fn treasury_hotkey(&self) -> (r: AccountId)
        ensures
            r == self@.treasury_hotkey,
    {
        self.treasury_hotkey
    }

    pub fn validator_hotkey(&self) -> (r: AccountId)
        ensures
            r == self@.validator_hotkey,
    {
        self.validator_hotkey
    }

    pub fn netuid(&self) -> (r: u16)
        ensures
            r == self@.netuid,
    {
        self.netuid
    }

    pub fn next_issue_id(&self) -> (r: u64)
        requires
            self@.wf(),
        ensures
            r == self@.registry.issues.len() + 1,
    {
        self.registry.next_issue_id()
    }

    pub fn next_competition_id(&self) -> (r: u64)
        requires
            self@.wf(),
        ensures
            r == self@.competitions.len() + 1,
    {
        self.competitions.len() as u64 + 1
    }

    pub fn get_alpha_pool(&self) -> (r: u128)
        ensures
            r == self@.registry.pool,
    {
        self.registry.alpha_pool()
    }

    pub fn get_submission_window_blocks(&self) -> (r: u32)
        ensures
            r == self@.submission_window_blocks,
    {
        self.submission_window_blocks
    }

    pub fn get_competition_deadline_blocks(&self) -> (r: u32)
        ensures
            r == self@.competition_deadline_blocks,
    {
        self.competition_deadline_blocks
    }

    pub fn get_proposal_expiry_blocks(&self) -> (r: u32)
        ensures
            r == self@.proposal_expiry_blocks,
    {
        self.proposal_expiry_blocks
    }

    pub fn get_last_harvest_block(&self) -> (r: u32)
        ensures
            r == self@.registry.last_harvest_block,
    {
        self.registry.last_harvest_block()
    }

    pub fn get_last_known_stake(&self) -> (r: u128)
        ensures
            r == self@.registry.last_known_stake,
    {
        self.registry.last_known_stake()
    }

    pub fn get_issue(&self, issue_id: u64) -> (r: Option<Issue>)
        requires
            self@.wf(),
        ensures
            r == self@.registry.issue(issue_id),
    {
        self.registry.get_issue(issue_id)
    }

    pub fn get_competition(&self, competition_id: u64) -> (r: Option<Competition>)
        ensures
            r == self@.competition(competition_id),
    {
        if competition_id == 0 || competition_id > self.competitions.len() as u64 {
            None
        } else {
            Some(self.competitions[(competition_id - 1) as usize])
        }
    }

    pub fn get_pair_proposal(&self, issue_id: u64) -> (r: Option<PairProposal>)
        requires
            self@.wf(),
        ensures
            r == self@.proposal(issue_id),
    {
        if issue_id == 0 || issue_id > self.proposals.len() as u64 {
            None
        } else {
            self.proposals[(issue_id - 1) as usize]
        }
    }

    /// Id of the issue registered under `url_hash`, or 0.
    pub fn get_issue_by_url_hash(&self, url_hash: [u8; 32]) -> (r: u64)
        requires
            self@.wf(),
        ensures
            r == 0 <==> !crate::registry::hash_taken(self@.registry.issues, url_hash@),
            r != 0 ==> has_issue(self@.registry.issues, r)
                && self@.registry.issues[r - 1].github_url_hash@ == url_hash@,
    {
        self.registry.issue_id_by_url_hash(&url_hash)
    }

    pub fn get_bounty_queue(&self) -> (r: Vec<u64>)
        ensures
            r@ == self@.registry.queue,
    {
        self.registry.bounty_queue()
    }

    pub fn get_issues_by_status(&self, status: IssueStatus) -> (r: Vec<Issue>)
        ensures
            r@ == self@.registry.issues.filter(|i: Issue| i.status == status),
    {
        self.registry.issues_with_status(status)
    }

    /// Every Active competition, in id order.
    pub fn get_active_competitions(&self) -> (r: Vec<Competition>)
        ensures
            r@ == self@.competitions.filter(|c: Competition| c.status == CompetitionStatus::Active),
    {
        let mut out: Vec<Competition> = Vec::new();
        let mut k: usize = 0;
        while k < self.competitions.len()
            invariant
                k <= self.competitions.len(),
                out@ == self@.competitions.take(k as int).filter(
                    |c: Competition| c.status == CompetitionStatus::Active,
                ),
            decreases self.competitions.len() - k,
        {
            proof {
                reveal(Seq::filter);
                assert(self@.competitions.take(k + 1).drop_last() =~= self@.competitions.take(
                    k as int,
                ));
            }
            if self.competitions[k].status == CompetitionStatus::Active {
                out.push(self.competitions[k]);
            }
            k = k + 1;
        }
        proof {
            assert(self@.competitions.take(k as int) =~= self@.competitions);
        }
        out
    }
}

/// A pairing vote whose cumulative stake stays below the threshold leaves the
/// proposal open with that stake; one that reaches it starts the competition
/// once, clears the proposal, and leaves nothing to vote on.
pub proof fn law_pair_stake_threshold(
    m: ManagerModel,
    caller: AccountId,
    stake: u128,
    block: u32,
    issue_id: u64,
    caller2: AccountId,
    stake2: u128,
    block2: u32,
)
    requires
        m.wf(),
        m.pair_vote_check(caller, stake, block, issue_id) is Ok,
    ensures
        ({
            let prev = m.proposals[issue_id - 1]->Some_0;
            let total = crate::registry::sat_add(prev.total_stake_voted, stake);
            let after = m.pair_voted(caller, stake, block, issue_id);
            &&& !consensus(total) ==> after.proposal(issue_id) == Some(
                PairProposal { total_stake_voted: total, votes_count: prev.votes_count.saturating_add(1), ..prev },
            ) && after.competitions == m.competitions
            &&& consensus(total) ==> after.proposal(issue_id) is None
                && after.competitions.len() == m.competitions.len() + 1
                && after.competitions.last().issue_id == issue_id
                && after.competitions.last().status == CompetitionStatus::Active
                && after.pair_vote_check(caller2, stake2, block2, issue_id) == Err::<(), Error>(
                Error::ProposalNotFound,
            )
        }),
{
}

/// A solution vote below the threshold leaves the competition Active with the
/// stake recorded; one that reaches it completes the competition once with the
/// first voter's winner and clears the vote record, after which no further
/// vote on it is taken.
pub proof fn law_solution_stake_threshold(
    m: ManagerModel,
    caller: AccountId,
    stake: u128,
    block: u32,
    id: u64,
    winner: AccountId,
    pr_hash: [u8; 32],
    caller2: AccountId,
    stake2: u128,
    block2: u32,
    winner2: AccountId,
)
    requires
        m.wf(),
        m.solution_check(caller, stake, block, id, winner) is Ok,
    ensures
        ({
            let after = m.solution_voted(caller, stake, id, winner, pr_hash);
            let prev = match m.solution_votes[id - 1] {
                Some(v) => v.total_stake_voted,
                None => 0u128,
            };
            let total = crate::registry::sat_add(prev, stake);
            &&& !consensus(total) ==> after.competitions[id - 1].status == CompetitionStatus::Active
                && after.solution_votes[id - 1] is Some
                && after.solution_votes[id - 1]->Some_0.total_stake_voted == total
            &&& consensus(total) ==> after.competitions[id - 1].status
                == CompetitionStatus::Completed && after.solution_votes[id - 1] is None
                && after.solution_check(caller2, stake2, block2, id, winner2) == Err::<(), Error>(
                Error::CompetitionNotActive,
            )
        }),
{
}

/// An account in an Active competition cannot be proposed into another pairing.
pub proof fn law_occupied_miner_refused(
    m: ManagerModel,
    stake: u128,
    issue_id: u64,
    m1: AccountId,
    m2: AccountId,
)
    requires
        m.wf(),
        m1 != m2,
        has_issue(m.registry.issues, issue_id),
        m.registry.issues[issue_id - 1].status == IssueStatus::Active,
        m.occupied(m1) || m.occupied(m2),
    ensures
        m.propose_check(stake, issue_id, m1, m2) == Err::<(), Error>(Error::MinerAlreadyInCompetition),
{
}

/// Completing, timing out or cancelling a competition releases its miners: a
/// miner in no other Active competition is free for a new pairing.
pub proof fn law_end_releases_miners(
    m: ManagerModel,
    id: u64,
    h: AccountId,
    winner: AccountId,
    pr_hash: [u8; 32],
    reason: [u8; 32],
)
    requires
        m.wf(),
        has_comp(m.competitions, id),
        forall|k: int| 0 <= k < m.competitions.len() && k != id - 1 ==> !occupies(m.competitions, k, h),
    ensures
        !m.completed(id, winner, pr_hash).occupied(h),
        !m.timed_out(id).occupied(h),
        !m.called_off(id, reason).occupied(h),
{
    assert(!occupies(m.completed(id, winner, pr_hash).competitions, id - 1, h));
    assert(!occupies(m.timed_out(id).competitions, id - 1, h));
    assert(!occupies(m.called_off(id, reason).competitions, id - 1, h));
    assert forall|k: int| !occupies(m.completed(id, winner, pr_hash).competitions, k, h) by {
        if k != id - 1 && 0 <= k < m.competitions.len() {
            assert(!occupies(m.competitions, k, h));
        }
    }
    assert forall|k: int| !occupies(m.timed_out(id).competitions, k, h) by {
        if k != id - 1 && 0 <= k < m.competitions.len() {
            assert(!occupies(m.competitions, k, h));
        }
    }
    assert forall|k: int| !occupies(m.called_off(id, reason).competitions, k, h) by {
        if k != id - 1 && 0 <= k < m.competitions.len() {
            assert(!occupies(m.competitions, k, h));
        }
    }
}

} // verus!
