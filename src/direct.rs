use vstd::prelude::*;
use crate::competition::Payout;
use crate::encoding::{
    move_stake_call, proxy_prefix, recycle_alpha_call, transfer_stake_call, RawCall,
    PROXY_TYPE_NON_CRITICAL, PROXY_TYPE_STAKING, PROXY_TYPE_TRANSFER,
};
use crate::errors::Error;
use crate::events::{
    harvest_events, push_harvest_events, BountyPaidOut, EmissionsRecycled, Event, IssueCancelled,
    IssueRegistered, PoolDeposit, RecycleFailed,
};
use crate::registry::{
    has_issue, hash_string, keccak256_of, queued_ok, sat_add, sat_sub, HarvestPlan, QueueRemoval,
    Registry, RegistryModel,
};
use crate::types::{
    clamp_to_u64, clamped, modifiable, AccountId, ContractConfig, HarvestResult, Issue,
    IssueCancelVote, IssueSolutionVote, IssueStatus, REQUIRED_VALIDATOR_VOTES,
};

verus! {

/// Which variant of the issue-level engine runs.
#[derive(Clone, Copy, Debug, PartialEq, Eq, Structural)]
pub enum Variant {
    /// Swap-remove queue; on consensus the escrow is zeroed and an automatic
    /// payout is attempted, its outcome discarded; harvested bounty funds are
    /// moved to the validator hotkey.
    SingleVote,
    /// Order-preserving queue; on consensus the solver is recorded and the
    /// escrow stays for a separate payout; bounty funds stay on the treasury.
    Production,
}

/// The queue-removal strategy of a variant.
pub open spec fn removal_of(v: Variant) -> QueueRemoval {
    match v {
        Variant::SingleVote => QueueRemoval::SwapRemove,
        Variant::Production => QueueRemoval::Ordered,
    }
}

/// Whether `votes` reaches the vote-count threshold.
pub open spec fn enough_votes(votes: u32) -> bool {
    votes >= REQUIRED_VALIDATOR_VOTES
}

/// Whether a vote count reaches the threshold.
pub fn check_consensus(votes: u32) -> (r: bool)
    ensures
        r == enough_votes(votes),
{
    votes >= REQUIRED_VALIDATOR_VOTES
}

fn has_voted(voters: &Vec<(u64, AccountId)>, subject: u64, voter: AccountId) -> (r: bool)
    ensures
        r == voters@.contains((subject, voter)),
{
    let mut j: usize = 0;
    while j < voters.len()
        invariant
            j <= voters.len(),
            forall|k: int| 0 <= k < j ==> voters@[k] != (subject, voter),
        decreases voters.len() - j,
    {
        if voters[j].0 == subject && voters[j].1 == voter {
            assert(voters@[j as int] == (subject, voter));
            return true;
        }
        j = j + 1;
    }
    false
}

/// State of the issue-level engine.
pub struct VoteModel {
    pub variant: Variant,
    pub owner: AccountId,
    pub treasury_hotkey: AccountId,
    pub validator_hotkey: AccountId,
    pub netuid: u16,
    pub registry: RegistryModel,
    /// Solution vote of issue `k + 1` at index `k`.
    pub solution_votes: Seq<Option<IssueSolutionVote>>,
    pub solution_voters: Seq<(u64, AccountId)>,
    /// Cancellation vote of issue `k + 1` at index `k`.
    pub cancel_votes: Seq<Option<IssueCancelVote>>,
    pub cancel_voters: Seq<(u64, AccountId)>,
    /// Events recorded and not yet taken.
    pub events: Seq<Event>,
}

impl VoteModel {
    pub open spec fn wf(self) -> bool {
        &&& self.registry.wf()
        &&& self.registry.removal == removal_of(self.variant)
        &&& self.solution_votes.len() == self.registry.issues.len()
        &&& self.cancel_votes.len() == self.registry.issues.len()
    }

    pub open spec fn with_registry(self, r: RegistryModel) -> VoteModel {
        VoteModel { registry: r, ..self }
    }

    pub open spec fn with_events(self, es: Seq<Event>) -> VoteModel {
        VoteModel { events: es, ..self }
    }

    pub open spec fn with_event(self, e: Event) -> VoteModel {
        VoteModel { events: self.events.push(e), ..self }
    }

    /// Hotkey that receives bounty funds at harvest, when the variant moves them.
    pub open spec fn move_target(self) -> Option<AccountId> {
        match self.variant {
            Variant::SingleVote => Some(self.validator_hotkey),
            Variant::Production => None,
        }
    }

    /// Which check, if any, refuses a solution vote.
    pub open spec fn solution_check(self, caller: AccountId, stake: u128, issue_id: u64) -> Result<(), Error> {
        match self.registry.issue(issue_id) {
            None => Err(Error::IssueNotFound),
            Some(iss) => if iss.status != IssueStatus::Active {
                Err(Error::IssueNotActive)
            } else if self.solution_voters.contains((issue_id, caller)) {
                Err(Error::AlreadyVoted)
            } else if stake == 0 {
                Err(Error::InsufficientStake)
            } else {
                Ok(())
            },
        }
    }

    /// The accumulated solution vote after an accepted vote; the first vote
    /// fixes the solver and the PR number.
    pub open spec fn next_solution_vote(
        self,
        stake: u128,
        issue_id: u64,
        solver_hotkey: AccountId,
        solver_coldkey: AccountId,
        pr_number: u32,
    ) -> IssueSolutionVote {
        let v0 = match self.solution_votes[issue_id - 1] {
            Some(v) => v,
            None => IssueSolutionVote {
                issue_id,
                solver_hotkey,
                solver_coldkey,
                pr_number,
                total_stake_voted: 0,
                votes_count: 0,
            },
        };
        IssueSolutionVote {
            total_stake_voted: sat_add(v0.total_stake_voted, stake),
            votes_count: v0.votes_count.saturating_add(1),
            ..v0
        }
    }

    /// The state after an accepted solution vote. On consensus the issue
    /// leaves the queue and is Completed: the production variant records the
    /// solver and keeps the escrow for payout, the single-vote variant zeroes it.
    pub open spec fn solution_voted(
        self,
        caller: AccountId,
        stake: u128,
        issue_id: u64,
        solver_hotkey: AccountId,
        solver_coldkey: AccountId,
        pr_number: u32,
    ) -> VoteModel {
        let v = self.next_solution_vote(stake, issue_id, solver_hotkey, solver_coldkey, pr_number);
        let m = VoteModel { solution_voters: self.solution_voters.push((issue_id, caller)), ..self };
        if enough_votes(v.votes_count) {
            let iss = self.registry.issues[issue_id - 1];
            let done = match self.variant {
                Variant::Production => Issue {
                    status: IssueStatus::Completed,
                    solver_coldkey: Some(v.solver_coldkey),
                    ..iss
                },
                Variant::SingleVote => Issue {
                    status: IssueStatus::Completed,
                    bounty_amount: 0,
                    ..iss
                },
            };
            VoteModel {
                solution_votes: m.solution_votes.update(issue_id - 1, None),
                registry: m.registry.dequeued(issue_id).with_issue(issue_id, done),
                events: match self.variant {
                    Variant::Production => m.events,
                    Variant::SingleVote => m.events.push(
                        Event::BountyPaidOut(
                            BountyPaidOut {
                                issue_id,
                                miner: v.solver_coldkey,
                                amount: iss.bounty_amount,
                            },
                        ),
                    ),
                },
                ..m
            }
        } else {
            VoteModel { solution_votes: m.solution_votes.update(issue_id - 1, Some(v)), ..m }
        }
    }

    /// Which check, if any, refuses a cancellation vote.
    pub open spec fn cancel_check(self, caller: AccountId, stake: u128, issue_id: u64) -> Result<(), Error> {
        match self.registry.issue(issue_id) {
            None => Err(Error::IssueNotFound),
            Some(iss) => if !modifiable(iss.status) {
                Err(Error::IssueAlreadyFinalized)
            } else if self.cancel_voters.contains((issue_id, caller)) {
                Err(Error::AlreadyVoted)
            } else if stake == 0 {
                Err(Error::InsufficientStake)
            } else {
                Ok(())
            },
        }
    }

    pub open spec fn next_cancel_vote(self, stake: u128, issue_id: u64, reason: [u8; 32]) -> IssueCancelVote {
        let v0 = match self.cancel_votes[issue_id - 1] {
            Some(v) => v,
            None => IssueCancelVote {
                issue_id,
                reason_hash: reason,
                total_stake_voted: 0,
                votes_count: 0,
            },
        };
        IssueCancelVote {
            total_stake_voted: sat_add(v0.total_stake_voted, stake),
            votes_count: v0.votes_count.saturating_add(1),
            ..v0
        }
    }

    /// The state after an accepted cancellation vote. On consensus the issue
    /// leaves the queue and is Cancelled with no escrow; the escrow is handed
    /// to recycling.
    pub open spec fn cancel_voted(self, caller: AccountId, stake: u128, issue_id: u64, reason: [u8; 32]) -> VoteModel {
        let v = self.next_cancel_vote(stake, issue_id, reason);
        let m = VoteModel { cancel_voters: self.cancel_voters.push((issue_id, caller)), ..self };
        if enough_votes(v.votes_count) {
            let iss = self.registry.issues[issue_id - 1];
            VoteModel {
                cancel_votes: m.cancel_votes.update(issue_id - 1, None),
                registry: m.registry.dequeued(issue_id).with_issue(
                    issue_id,
                    Issue { status: IssueStatus::Cancelled, bounty_amount: 0, ..iss },
                ),
                ..m
            }
        } else {
            VoteModel { cancel_votes: m.cancel_votes.update(issue_id - 1, Some(v)), ..m }
        }
    }

    /// The amount a production payout of issue `issue_id` would move, or why
    /// it is refused.
    pub open spec fn payout_check(self, caller: AccountId, issue_id: u64) -> Result<u128, Error> {
        if caller != self.owner {
            Err(Error::NotOwner)
        } else {
            match self.registry.issue(issue_id) {
                None => Err(Error::IssueNotFound),
                Some(iss) => if iss.status != IssueStatus::Completed {
                    Err(Error::BountyNotCompleted)
                } else if iss.bounty_amount == 0 {
                    Err(Error::BountyAlreadyPaid)
                } else if iss.solver_coldkey is None {
                    Err(Error::NoSolverSet)
                } else {
                    Ok(iss.bounty_amount)
                },
            }
        }
    }

    /// The amount the single-vote fallback payout of issue `issue_id` would
    /// move: the stake recorded on the issue's solution vote, or why it is refused.
    pub open spec fn fallback_payout_check(self, caller: AccountId, issue_id: u64) -> Result<u128, Error> {
        if caller != self.owner {
            Err(Error::NotOwner)
        } else {
            match self.registry.issue(issue_id) {
                None => Err(Error::IssueNotFound),
                Some(iss) => if iss.status != IssueStatus::Completed {
                    Err(Error::BountyNotCompleted)
                } else {
                    let amount = match self.solution_votes[issue_id - 1] {
                        Some(v) => v.total_stake_voted,
                        None => 0,
                    };
                    if amount == 0 {
                        Err(Error::BountyNotFunded)
                    } else {
                        Ok(amount)
                    }
                },
            }
        }
    }
}

/// The issue-level engine: validators vote directly on an issue's solver or
/// its cancellation, and a vote count decides.
pub struct IssueVoteManager {
    variant: Variant,
    owner: AccountId,
    treasury_hotkey: AccountId,
    validator_hotkey: AccountId,
    netuid: u16,
    registry: Registry,
    solution_votes: Vec<Option<IssueSolutionVote>>,
    solution_voters: Vec<(u64, AccountId)>,
    cancel_votes: Vec<Option<IssueCancelVote>>,
    cancel_voters: Vec<(u64, AccountId)>,
    events: Vec<Event>,
}

impl View for IssueVoteManager {
    type V = VoteModel;

    closed spec fn view(&self) -> VoteModel {
        VoteModel {
            variant: self.variant,
            owner: self.owner,
            treasury_hotkey: self.treasury_hotkey,
            validator_hotkey: self.validator_hotkey,
            netuid: self.netuid,
            registry: self.registry@,
            solution_votes: self.solution_votes@,
            solution_voters: self.solution_voters@,
            cancel_votes: self.cancel_votes@,
            cancel_voters: self.cancel_voters@,
            events: self.events@,
        }
    }
}

impl IssueVoteManager {
    /// A fresh production engine; bounty funds stay on the treasury hotkey.
    pub fn new(owner: AccountId, treasury_hotkey: AccountId, netuid: u16) -> (r: IssueVoteManager)
        ensures
            r@.wf(),
            r@.variant == Variant::Production,
            r@.owner == owner,
            r@.treasury_hotkey == treasury_hotkey,
            r@.validator_hotkey == treasury_hotkey,
            r@.netuid == netuid,
            r@.registry.issues.len() == 0,
            r@.registry.queue.len() == 0,
            r@.registry.pool == 0,
            r@.registry.last_known_stake == 0,
            r@.registry.last_harvest_block == 0,
            r@.solution_voters.len() == 0,
            r@.cancel_voters.len() == 0,
            r@.events.len() == 0,
    {
        Self::with_variant(Variant::Production, owner, treasury_hotkey, treasury_hotkey, netuid)
    }

    /// A fresh single-vote engine that moves bounty funds to `validator_hotkey`.
    pub fn new_single_vote(
        owner: AccountId,
        treasury_hotkey: AccountId,
        validator_hotkey: AccountId,
        netuid: u16,
    ) -> (r: IssueVoteManager)
        ensures
            r@.wf(),
            r@.variant == Variant::SingleVote,
            r@.owner == owner,
            r@.treasury_hotkey == treasury_hotkey,
            r@.validator_hotkey == validator_hotkey,
            r@.netuid == netuid,
            r@.registry.issues.len() == 0,
            r@.registry.queue.len() == 0,
            r@.registry.pool == 0,
            r@.registry.last_known_stake == 0,
            r@.registry.last_harvest_block == 0,
            r@.solution_voters.len() == 0,
            r@.cancel_voters.len() == 0,
            r@.events.len() == 0,
    {
        Self::with_variant(Variant::SingleVote, owner, treasury_hotkey, validator_hotkey, netuid)
    }

    fn with_variant(
        variant: Variant,
        owner: AccountId,
        treasury_hotkey: AccountId,
        validator_hotkey: AccountId,
        netuid: u16,
    ) -> (r: IssueVoteManager)
        ensures
            r@.wf(),
            r@.variant == variant,
            r@.owner == owner,
            r@.treasury_hotkey == treasury_hotkey,
            r@.validator_hotkey == validator_hotkey,
            r@.netuid == netuid,
            r@.registry.issues.len() == 0,
            r@.registry.queue.len() == 0,
            r@.registry.pool == 0,
            r@.registry.last_known_stake == 0,
            r@.registry.last_harvest_block == 0,
            r@.solution_voters.len() == 0,
            r@.cancel_voters.len() == 0,
            r@.events.len() == 0,
    {
        let removal = match variant {
            Variant::SingleVote => QueueRemoval::SwapRemove,
            Variant::Production => QueueRemoval::Ordered,
        };
        IssueVoteManager {
            variant,
            owner,
            treasury_hotkey,
            validator_hotkey,
            netuid,
            registry: Registry::new(removal),
            solution_votes: Vec::new(),
            solution_voters: Vec::new(),
            cancel_votes: Vec::new(),
            cancel_voters: Vec::new(),
            events: Vec::new(),
        }
    }

    /// Registers an issue (owner only); it waits in the queue as Registered.
    pub fn register_issue(
        &mut self,
        caller: AccountId,
        github_url: String,
        repository_full_name: String,
        issue_number: u32,
        target_bounty: u128,
        block: u32,
    ) -> (r: Result<u64, Error>)
        requires
            old(self)@.wf(),
            old(self)@.registry.issues.len() + 1 < u64::MAX,
        ensures
            final(self)@.wf(),
            caller != old(self)@.owner ==> r == Err::<u64, Error>(Error::NotOwner),
            caller == old(self)@.owner ==> r == old(self)@.registry.register(
                keccak256_of(vstd::utf8::encode_utf8(github_url@)),
                repository_full_name,
                issue_number,
                target_bounty,
                block,
            ),
            r is Err ==> final(self)@ == old(self)@,
            r is Ok ==> exists|h: [u8; 32]|
                h@ == keccak256_of(vstd::utf8::encode_utf8(github_url@)) && final(self)@ == (VoteModel {
                    registry: #[trigger] old(self)@.registry.registered(
                        h,
                        repository_full_name,
                        issue_number,
                        target_bounty,
                        block,
                    ),
                    solution_votes: old(self)@.solution_votes.push(None),
                    cancel_votes: old(self)@.cancel_votes.push(None),
                    events: old(self)@.events.push(
                        Event::IssueRegistered(
                            IssueRegistered {
                                issue_id: (old(self)@.registry.issues.len() + 1) as u64,
                                github_url_hash: h,
                                repository_full_name,
                                issue_number,
                                target_bounty,
                            },
                        ),
                    ),
                    ..old(self)@
                }),
    {
        if caller != self.owner {
            return Err(Error::NotOwner);
        }
        let url_hash = hash_string(github_url.as_str());
        let name = repository_full_name.clone();
        let r = self.registry.register(
            url_hash,
            repository_full_name,
            issue_number,
            target_bounty,
            block,
        );
        if let Ok(issue_id) = r {
            self.solution_votes.push(None);
            self.cancel_votes.push(None);
            self.events.push(
                Event::IssueRegistered(
                    IssueRegistered {
                        issue_id,
                        github_url_hash: url_hash,
                        repository_full_name: name,
                        issue_number,
                        target_bounty,
                    },
                ),
            );
        }
        r
    }

    /// Cancels a Registered or Active issue (owner only); its escrow returns
    /// to the pool.
    pub fn cancel_issue(&mut self, caller: AccountId, issue_id: u64) -> (r: Result<(), Error>)
        requires
            old(self)@.wf(),
        ensures
            final(self)@.wf(),
            caller != old(self)@.owner ==> r == Err::<(), Error>(Error::NotOwner),
            caller == old(self)@.owner ==> match old(self)@.registry.cancel(issue_id) {
                Ok(returned) => r is Ok && final(self)@ == old(self)@.with_registry(
                    old(self)@.registry.cancelled(issue_id),
                ).with_event(
                    Event::IssueCancelled(IssueCancelled { issue_id, returned_bounty: returned }),
                ),
                Err(e) => r == Err::<(), Error>(e),
            },
            r is Err ==> final(self)@ == old(self)@,
    {
        if caller != self.owner {
            return Err(Error::NotOwner);
        }
        match self.registry.cancel(issue_id) {
            Ok(returned) => {
                self.events.push(
                    Event::IssueCancelled(IssueCancelled { issue_id, returned_bounty: returned }),
                );
                Ok(())
            },
            Err(e) => Err(e),
        }
    }

    /// Adds a deposit to the pool and fills bounties; a zero deposit does nothing.
    pub fn deposit_to_pool(&mut self, depositor: AccountId, amount: u128)
        requires
            old(self)@.wf(),
        ensures
            final(self)@.wf(),
            amount == 0 ==> final(self)@ == old(self)@,
            amount > 0 ==> final(self)@ == old(self)@.with_registry(
                RegistryModel { pool: sat_add(old(self)@.registry.pool, amount), ..old(self)@.registry }.filled(),
            ).with_event(Event::PoolDeposit(PoolDeposit { depositor, amount })),
    {
        if amount == 0 {
            return;
        }
        self.registry.add_to_pool(amount);
        self.events.push(Event::PoolDeposit(PoolDeposit { depositor, amount }));
        let ghost r0 = self@.registry;
        self.registry.fill_bounties();
        proof {
            crate::registry::lemma_fill_len(r0.issues, r0.queue, r0.pool, 0, r0.removal);
        }
    }

    /// Runs the fill pass.
    pub fn fill_bounties(&mut self)
        requires
            old(self)@.wf(),
        ensures
            final(self)@.wf(),
            final(self)@ == old(self)@.with_registry(old(self)@.registry.filled()),
    {
        let ghost r0 = self@.registry;
        self.registry.fill_bounties();
        proof {
            crate::registry::lemma_fill_len(r0.issues, r0.queue, r0.pool, 0, r0.removal);
        }
    }

    /// Removes the queue entry at `idx`; does nothing when there is none.
    pub fn remove_at(&mut self, idx: usize)
        requires
            old(self)@.wf(),
        ensures
            final(self)@.wf(),
            idx < old(self)@.registry.queue.len() ==> final(self)@ == old(self)@.with_registry(
                old(self)@.registry.with_queue(
                    crate::registry::removed(old(self)@.registry.queue, idx as int, old(self)@.registry.removal),
                ),
            ),
            idx >= old(self)@.registry.queue.len() ==> final(self)@ == old(self)@,
    {
        self.registry.remove_at(idx);
    }

    /// Takes issue `issue_id` out of the bounty queue, if it is there.
    pub fn remove_from_bounty_queue(&mut self, issue_id: u64)
        requires
            old(self)@.wf(),
        ensures
            final(self)@.wf(),
            final(self)@ == old(self)@.with_registry(old(self)@.registry.dequeued(issue_id)),
    {
        self.registry.remove_from_bounty_queue(issue_id);
    }

    /// Votes that `solver_hotkey` (owned by `solver_coldkey`) solved the Active
    /// issue `issue_id` with PR `pr_number`. On reaching the vote threshold the
    /// issue completes in the same call. The single-vote variant then returns
    /// the automatic payout to attempt, whose outcome is not awaited.
    pub fn vote_solution(
        &mut self,
        caller: AccountId,
        caller_stake: u128,
        issue_id: u64,
        solver_hotkey: AccountId,
        solver_coldkey: AccountId,
        pr_number: u32,
    ) -> (r: Result<Option<Payout>, Error>)
        requires
            old(self)@.wf(),
        ensures
            final(self)@.wf(),
            r is Err ==> r == Err::<Option<Payout>, Error>(
                old(self)@.solution_check(caller, caller_stake, issue_id)->Err_0,
            ) && final(self)@ == old(self)@,
            old(self)@.solution_check(caller, caller_stake, issue_id) is Err ==> r is Err,
            r is Ok ==> final(self)@ == old(self)@.solution_voted(
                caller,
                caller_stake,
                issue_id,
                solver_hotkey,
                solver_coldkey,
                pr_number,
            ),
            r is Ok ==> {
                let v = old(self)@.next_solution_vote(
                    caller_stake,
                    issue_id,
                    solver_hotkey,
                    solver_coldkey,
                    pr_number,
                );
                let escrow = old(self)@.registry.issues[issue_id - 1].bounty_amount;
                if old(self)@.variant == Variant::SingleVote && enough_votes(v.votes_count)
                    && escrow > 0 {
                    r->Ok_0 is Some && r->Ok_0->Some_0.amount == escrow && r->Ok_0->Some_0.call.0@
                        == proxy_prefix(old(self)@.owner, PROXY_TYPE_TRANSFER) + transfer_stake_call(
                        v.solver_coldkey,
                        old(self)@.treasury_hotkey,
                        old(self)@.netuid,
                        old(self)@.netuid,
                        clamped(escrow),
                    )
                } else {
                    r->Ok_0 is None
                }
            },
    {
        let status = match self.registry.issue_status(issue_id) {
            None => {
                return Err(Error::IssueNotFound);
            },
            Some(st) => st,
        };
        if status != IssueStatus::Active {
            return Err(Error::IssueNotActive);
        }
        if has_voted(&self.solution_voters, issue_id, caller) {
            return Err(Error::AlreadyVoted);
        }
        if caller_stake == 0 {
            return Err(Error::InsufficientStake);
        }
        let n = self.solution_votes.len();
        let k = (issue_id - 1) as usize;
        assert(k == issue_id - 1);
        let v0 = match self.solution_votes[k] {
            Some(v) => v,
            None => IssueSolutionVote {
                issue_id,
                solver_hotkey,
                solver_coldkey,
                pr_number,
                total_stake_voted: 0,
                votes_count: 0,
            },
        };
        let v = IssueSolutionVote {
            total_stake_voted: crate::registry::saturating_add(v0.total_stake_voted, caller_stake),
            votes_count: v0.votes_count.saturating_add(1),
            ..v0
        };
        self.solution_voters.push((issue_id, caller));
        if !check_consensus(v.votes_count) {
            self.solution_votes.set(k, Some(v));
            return Ok(None);
        }
        self.solution_votes.set(k, None);
        let escrow = self.registry.issue_bounty(issue_id);
        self.registry.remove_from_bounty_queue(issue_id);
        match self.variant {
            Variant::Production => {
                self.registry.set_issue(
                    issue_id,
                    IssueStatus::Completed,
                    escrow,
                    Some(v.solver_coldkey),
                );
                Ok(None)
            },
            Variant::SingleVote => {
                let solver = self.registry.issue_solver(issue_id);
                self.registry.set_issue(issue_id, IssueStatus::Completed, 0, solver);
                self.events.push(
                    Event::BountyPaidOut(
                        BountyPaidOut { issue_id, miner: v.solver_coldkey, amount: escrow },
                    ),
                );
                if escrow > 0 {
                    let call = RawCall::proxied_transfer_stake(
                        &self.owner,
                        &v.solver_coldkey,
                        &self.treasury_hotkey,
                        self.netuid,
                        self.netuid,
                        clamp_to_u64(escrow),
                    );
                    Ok(Some(Payout { amount: escrow, call }))
                } else {
                    Ok(None)
                }
            },
        }
    }

    /// Votes to cancel the Registered or Active issue `issue_id`. On reaching
    /// the vote threshold the issue is Cancelled in the same call, and its
    /// former escrow is returned for recycling (`settle_recycle` gives the outcome).
    pub fn vote_cancel_issue(&mut self, caller: AccountId, caller_stake: u128, issue_id: u64, reason_hash: [u8; 32]) -> (r:
        Result<u128, Error>)
        requires
            old(self)@.wf(),
        ensures
            final(self)@.wf(),
            r is Err ==> r == Err::<u128, Error>(
                old(self)@.cancel_check(caller, caller_stake, issue_id)->Err_0,
            ) && final(self)@ == old(self)@,
            old(self)@.cancel_check(caller, caller_stake, issue_id) is Err ==> r is Err,
            r is Ok ==> final(self)@ == old(self)@.cancel_voted(caller, caller_stake, issue_id, reason_hash),
            r is Ok ==> r->Ok_0 == if enough_votes(
                old(self)@.next_cancel_vote(caller_stake, issue_id, reason_hash).votes_count,
            ) {
                old(self)@.registry.issues[issue_id - 1].bounty_amount
            } else {
                0
            },
    {
        let status = match self.registry.issue_status(issue_id) {
            None => {
                return Err(Error::IssueNotFound);
            },
            Some(st) => st,
        };
        if !crate::types::is_modifiable(status) {
            return Err(Error::IssueAlreadyFinalized);
        }
        if has_voted(&self.cancel_voters, issue_id, caller) {
            return Err(Error::AlreadyVoted);
        }
        if caller_stake == 0 {
            return Err(Error::InsufficientStake);
        }
        let n = self.cancel_votes.len();
        let k = (issue_id - 1) as usize;
        assert(k == issue_id - 1);
        let v0 = match self.cancel_votes[k] {
            Some(v) => v,
            None => IssueCancelVote {
                issue_id,
                reason_hash,
                total_stake_voted: 0,
                votes_count: 0,
            },
        };
        let v = IssueCancelVote {
            total_stake_voted: crate::registry::saturating_add(v0.total_stake_voted, caller_stake),
            votes_count: v0.votes_count.saturating_add(1),
            ..v0
        };
        self.cancel_voters.push((issue_id, caller));
        if !check_consensus(v.votes_count) {
            self.cancel_votes.set(k, Some(v));
            return Ok(0);
        }
        self.cancel_votes.set(k, None);
        let escrow = self.registry.issue_bounty(issue_id);
        let solver = self.registry.issue_solver(issue_id);
        self.registry.remove_from_bounty_queue(issue_id);
        self.registry.set_issue(issue_id, IssueStatus::Cancelled, 0, solver);
        Ok(escrow)
    }

    /// Completes a consensus cancellation of issue `issue_id` once the host
    /// chain answered the recycling of its former escrow `amount` (`recycled`
    /// is true when nothing needed recycling). A recycle that went through
    /// lowers the baseline; a failed one puts the amount back in the pool, to
    /// be recycled by a later harvest. Then the cancellation is announced.
    pub fn settle_recycle(&mut self, issue_id: u64, amount: u128, recycled: bool)
        requires
            old(self)@.wf(),
        ensures
            final(self)@.wf(),
            final(self)@ == (if amount == 0 {
                old(self)@
            } else if recycled {
                old(self)@.with_registry(
                    RegistryModel {
                        last_known_stake: sat_sub(old(self)@.registry.last_known_stake, amount),
                        ..old(self)@.registry
                    },
                ).with_event(
                    Event::EmissionsRecycled(
                        EmissionsRecycled { amount, destination: old(self)@.treasury_hotkey },
                    ),
                )
            } else {
                old(self)@.with_registry(
                    RegistryModel { pool: sat_add(old(self)@.registry.pool, amount), ..old(self)@.registry },
                ).with_event(Event::RecycleFailed(RecycleFailed { amount }))
            }).with_event(
                Event::IssueCancelled(IssueCancelled { issue_id, returned_bounty: amount }),
            ),
    {
        if amount > 0 {
            if recycled {
                let k = self.registry.last_known_stake();
                self.registry.set_last_known_stake(crate::registry::saturating_sub(k, amount));
                self.events.push(
                    Event::EmissionsRecycled(
                        EmissionsRecycled { amount, destination: self.treasury_hotkey },
                    ),
                );
            } else {
                self.registry.add_to_pool(amount);
                self.events.push(Event::RecycleFailed(RecycleFailed { amount }));
            }
        }
        self.events.push(
            Event::IssueCancelled(IssueCancelled { issue_id, returned_bounty: amount }),
        );
    }

    /// Prepares the payout of a Completed issue to its recorded solver (owner
    /// only): the amount and the call for the native extension's proxy function.
    pub fn payout_bounty(&self, caller: AccountId, issue_id: u64) -> (r: Result<Payout, Error>)
        requires
            self@.wf(),
        ensures
            r is Err ==> r == Err::<Payout, Error>(self@.payout_check(caller, issue_id)->Err_0),
            self@.payout_check(caller, issue_id) is Err ==> r is Err,
            r is Ok ==> self@.payout_check(caller, issue_id) == Ok::<u128, Error>(r->Ok_0.amount)
                && r->Ok_0.call.0@ == transfer_stake_call(
                self@.registry.issues[issue_id - 1].solver_coldkey->Some_0,
                self@.treasury_hotkey,
                self@.netuid,
                self@.netuid,
                clamped(r->Ok_0.amount),
            ),
    {
        if caller != self.owner {
            return Err(Error::NotOwner);
        }
        let status = match self.registry.issue_status(issue_id) {
            None => {
                return Err(Error::IssueNotFound);
            },
            Some(st) => st,
        };
        if status != IssueStatus::Completed {
            return Err(Error::BountyNotCompleted);
        }
        let amount = self.registry.issue_bounty(issue_id);
        if amount == 0 {
            return Err(Error::BountyAlreadyPaid);
        }
        let solver = match self.registry.issue_solver(issue_id) {
            None => {
                return Err(Error::NoSolverSet);
            },
            Some(s) => s,
        };
        let call = RawCall::transfer_stake(
            &solver,
            &self.treasury_hotkey,
            self.netuid,
            self.netuid,
            clamp_to_u64(amount),
        );
        Ok(Payout { amount, call })
    }

    /// Records the outcome of a production payout: when the transfer went
    /// through, the issue's escrow and recorded solver are consumed.
    pub fn settle_payout(&mut self, issue_id: u64, transferred: bool) -> (r: Result<u128, Error>)
        requires
            old(self)@.wf(),
            has_issue(old(self)@.registry.issues, issue_id),
            old(self)@.registry.issues[issue_id - 1].status == IssueStatus::Completed,
            old(self)@.registry.issues[issue_id - 1].solver_coldkey is Some,
        ensures
            final(self)@.wf(),
            !transferred ==> r == Err::<u128, Error>(Error::TransferFailed) && final(self)@ == old(self)@,
            transferred ==> r == Ok::<u128, Error>(old(self)@.registry.issues[issue_id - 1].bounty_amount)
                && final(self)@ == old(self)@.with_registry(
                old(self)@.registry.with_issue(
                    issue_id,
                    Issue {
                        bounty_amount: 0,
                        solver_coldkey: None,
                        ..old(self)@.registry.issues[issue_id - 1]
                    },
                ),
            ).with_event(
                Event::BountyPaidOut(
                    BountyPaidOut {
                        issue_id,
                        miner: old(self)@.registry.issues[issue_id - 1].solver_coldkey->Some_0,
                        amount: old(self)@.registry.issues[issue_id - 1].bounty_amount,
                    },
                ),
            ),
    {
        if !transferred {
            return Err(Error::TransferFailed);
        }
        let amount = self.registry.issue_bounty(issue_id);
        proof {
            if self@.registry.queue.contains(issue_id) {
                let j = choose|j: int|
                    0 <= j < self@.registry.queue.len() && self@.registry.queue[j] == issue_id;
                assert(queued_ok(self@.registry.issues, self@.registry.queue[j]));
            }
        }
        let solver = self.registry.issue_solver(issue_id);
        self.registry.set_issue(issue_id, IssueStatus::Completed, 0, None);
        match solver {
            Some(miner) => {
                self.events.push(Event::BountyPaidOut(BountyPaidOut { issue_id, miner, amount }));
            },
            None => {},
        }
        Ok(amount)
    }

    /// Prepares the single-vote fallback payout of a Completed issue to
    /// `solver_coldkey` (owner only). Its amount is the stake recorded on the
    /// issue's solution vote, which consensus clears.
    pub fn payout_bounty_to(&self, caller: AccountId, issue_id: u64, solver_coldkey: AccountId) -> (r:
        Result<Payout, Error>)
        requires
            self@.wf(),
        ensures
            r is Err ==> r == Err::<Payout, Error>(
                self@.fallback_payout_check(caller, issue_id)->Err_0,
            ),
            self@.fallback_payout_check(caller, issue_id) is Err ==> r is Err,
            r is Ok ==> self@.fallback_payout_check(caller, issue_id) == Ok::<u128, Error>(
                r->Ok_0.amount,
            ) && r->Ok_0.call.0@ == proxy_prefix(self@.owner, PROXY_TYPE_TRANSFER)
                + transfer_stake_call(
                solver_coldkey,
                self@.treasury_hotkey,
                self@.netuid,
                self@.netuid,
                clamped(r->Ok_0.amount),
            ),
    {
        if caller != self.owner {
            return Err(Error::NotOwner);
        }
        let status = match self.registry.issue_status(issue_id) {
            None => {
                return Err(Error::IssueNotFound);
            },
            Some(st) => st,
        };
        if status != IssueStatus::Completed {
            return Err(Error::BountyNotCompleted);
        }
        let n = self.solution_votes.len();
        let amount = match self.solution_votes[(issue_id - 1) as usize] {
            Some(v) => v.total_stake_voted,
            None => 0,
        };
        if amount == 0 {
            return Err(Error::BountyNotFunded);
        }
        let call = RawCall::proxied_transfer_stake(
            &self.owner,
            &solver_coldkey,
            &self.treasury_hotkey,
            self.netuid,
            self.netuid,
            clamp_to_u64(amount),
        );
        Ok(Payout { amount, call })
    }

    /// First half of a harvest at treasury stake `current_stake` (permissionless).
    pub fn begin_harvest(&mut self, current_stake: u128) -> (p: HarvestPlan)
        requires
            old(self)@.wf(),
        ensures
            final(self)@.wf(),
            final(self)@ == old(self)@.with_registry(old(self)@.registry.harvest_begun(current_stake)),
            p == old(self)@.registry.harvest_plan(current_stake),
    {
        let ghost r0 = self@.registry;
        let p = self.registry.begin_harvest(current_stake);
        proof {
            let pool1 = sat_add(r0.pool, r0.pending(current_stake));
            crate::registry::lemma_fill_len(r0.issues, r0.queue, pool1, 0, r0.removal);
        }
        p
    }

    /// Second half of a harvest. Only the single-vote variant moves bounty
    /// funds to the validator; the production variant leaves them on the
    /// treasury, so `moved` counts only there.
    pub fn settle_harvest(&mut self, plan: HarvestPlan, moved: bool, recycled: bool, block: u32) -> (r:
        HarvestResult)
        requires
            old(self)@.wf(),
        ensures
            final(self)@.wf(),
            final(self)@ == old(self)@.with_registry(
                old(self)@.registry.harvest_settled(
                    plan,
                    moved && old(self)@.variant == Variant::SingleVote,
                    recycled,
                    block,
                ),
            ).with_events(
                old(self)@.events + harvest_events(
                    plan.harvested,
                    plan.bounties_filled,
                    plan.to_move,
                    plan.to_recycle,
                    moved,
                    recycled,
                    old(self)@.move_target(),
                    old(self)@.treasury_hotkey,
                ),
            ),
            r == RegistryModel::harvest_result(plan, recycled),
    {
        let moved_here = moved && self.variant == Variant::SingleVote;
        let r = self.registry.settle_harvest(plan, moved_here, recycled, block);
        let target = match self.variant {
            Variant::SingleVote => Some(self.validator_hotkey),
            Variant::Production => None,
        };
        push_harvest_events(
            &mut self.events,
            plan.harvested,
            plan.bounties_filled,
            plan.to_move,
            plan.to_recycle,
            moved,
            recycled,
            target,
            self.treasury_hotkey,
        );
        r
    }

    /// Hands over the recorded events, oldest first, and clears the record.
    pub fn take_events(&mut self) -> (r: Vec<Event>)
        requires
            old(self)@.wf(),
        ensures
            final(self)@.wf(),
            r@ == old(self)@.events,
            final(self)@ == old(self)@.with_events(Seq::empty()),
    {
        let mut out: Vec<Event> = Vec::new();
        std::mem::swap(&mut out, &mut self.events);
        proof {
            assert(self@.events =~= Seq::<Event>::empty());
        }
        out
    }

    /// The call that recycles `amount` from the treasury hotkey: wrapped for the
    /// delegation pallet in the single-vote variant, bare for the native
    /// extension's proxy function in the production variant.
    pub fn recycle_call(&self, amount: u128) -> (r: RawCall)
        ensures
            self@.variant == Variant::SingleVote ==> r.0@ == proxy_prefix(
                self@.owner,
                PROXY_TYPE_NON_CRITICAL,
            ) + recycle_alpha_call(self@.treasury_hotkey, clamped(amount), self@.netuid),
            self@.variant == Variant::Production ==> r.0@ == recycle_alpha_call(
                self@.treasury_hotkey,
                clamped(amount),
                self@.netuid,
            ),
    {
        match self.variant {
            Variant::SingleVote => RawCall::proxied_recycle_alpha(
                &self.owner,
                &self.treasury_hotkey,
                clamp_to_u64(amount),
                self.netuid,
            ),
            Variant::Production => RawCall::recycle_alpha(
                &self.treasury_hotkey,
                clamp_to_u64(amount),
                self.netuid,
            ),
        }
    }

    /// Sum of the escrow of Registered and Active issues, clamped at the
    /// largest `u128`; Completed and Cancelled issues count for nothing.
    pub fn get_total_committed(&self) -> (r: u128)
        ensures
            r == if crate::registry::committed(self@.registry.issues) > u128::MAX {
                u128::MAX
            } else {
                crate::registry::committed(self@.registry.issues) as u128
            },
    {
        self.registry.total_committed()
    }

    pub fn get_config(&self) -> (r: ContractConfig)
        ensures
            r.required_validator_votes == REQUIRED_VALIDATOR_VOTES,
            r.netuid == self@.netuid,
    {
        ContractConfig { required_validator_votes: REQUIRED_VALIDATOR_VOTES, netuid: self.netuid }
    }

    /// Hands administration to `new_owner` (owner only).
    pub fn set_owner(&mut self, caller: AccountId, new_owner: AccountId) -> (r: Result<(), Error>)
        requires
            old(self)@.wf(),
        ensures
            final(self)@.wf(),
            caller != old(self)@.owner ==> r == Err::<(), Error>(Error::NotOwner) && final(self)@
                == old(self)@,
            caller == old(self)@.owner ==> r is Ok && final(self)@ == (VoteModel {
                owner: new_owner,
                ..old(self)@
            }),
    {
        if caller != self.owner {
            return Err(Error::NotOwner);
        }
        self.owner = new_owner;
        Ok(())
    }

    /// Replaces the treasury hotkey (owner only).
    pub fn set_treasury_hotkey(&mut self, caller: AccountId, new_hotkey: AccountId) -> (r: Result<(), Error>)
        requires
            old(self)@.wf(),
        ensures
            final(self)@.wf(),
            caller != old(self)@.owner ==> r == Err::<(), Error>(Error::NotOwner) && final(self)@
                == old(self)@,
            caller == old(self)@.owner ==> r is Ok && final(self)@ == (VoteModel {
                treasury_hotkey: new_hotkey,
                ..old(self)@
            }),
    {
        if caller != self.owner {
            return Err(Error::NotOwner);
        }
        self.treasury_hotkey = new_hotkey;
        Ok(())
    }

    pub fn owner(&self) -> (r: AccountId)
        ensures
            r == self@.owner,
    {
        self.owner
    }

    pub fn variant(&self) -> (r: Variant)
        ensures
            r == self@.variant,
    {
        self.variant
    }

    pub fn validator_hotkey(&self) -> (r: AccountId)
        ensures
            r == self@.validator_hotkey,
    {
        self.validator_hotkey
    }

    /// The call that moves `amount` of stake from the treasury hotkey to the
    /// validator hotkey on behalf of the owner, used by the single-vote variant.
    pub fn move_stake_call(&self, amount: u128) -> (r: RawCall)
        ensures
            r.0@ == proxy_prefix(self@.owner, PROXY_TYPE_STAKING) + move_stake_call(
                self@.treasury_hotkey,
                self@.validator_hotkey,
                self@.netuid,
                self@.netuid,
                clamped(amount),
            ),
    {
        RawCall::proxied_move_stake(
            &self.owner,
            &self.treasury_hotkey,
            &self.validator_hotkey,
            self.netuid,
            self.netuid,
            clamp_to_u64(amount),
        )
    }

    pub fn treasury_hotkey(&self) -> (r: AccountId)
        ensures
            r == self@.treasury_hotkey,
    {
        self.treasury_hotkey
    }

    pub fn netuid(&self) -> (r: u16)
        ensures
            r == self@.netuid,
    {
        self.netuid
    }

    pub fn next_issue_id(&self) -> (r: u64)
        requires
            self@.wf(),
        ensures
            r == self@.registry.issues.len() + 1,
    {
        self.registry.next_issue_id()
    }

    pub fn get_alpha_pool(&self) -> (r: u128)
        ensures
            r == self@.registry.pool,
    {
        self.registry.alpha_pool()
    }

    pub fn get_last_harvest_block(&self) -> (r: u32)
        ensures
            r == self@.registry.last_harvest_block,
    {
        self.registry.last_harvest_block()
    }

    pub fn get_last_known_stake(&self) -> (r: u128)
        ensures
            r == self@.registry.last_known_stake,
    {
        self.registry.last_known_stake()
    }

    pub fn get_issue(&self, issue_id: u64) -> (r: Option<Issue>)
        requires
            self@.wf(),
        ensures
            r == self@.registry.issue(issue_id),
    {
        self.registry.get_issue(issue_id)
    }

    pub fn get_issue_by_url_hash(&self, url_hash: [u8; 32]) -> (r: u64)
        requires
            self@.wf(),
        ensures
            r == 0 <==> !crate::registry::hash_taken(self@.registry.issues, url_hash@),
            r != 0 ==> has_issue(self@.registry.issues, r)
                && self@.registry.issues[r - 1].github_url_hash@ == url_hash@,
    {
        self.registry.issue_id_by_url_hash(&url_hash)
    }

    pub fn get_bounty_queue(&self) -> (r: Vec<u64>)
        ensures
            r@ == self@.registry.queue,
    {
        self.registry.bounty_queue()
    }

    pub fn get_issues_by_status(&self, status: IssueStatus) -> (r: Vec<Issue>)
        ensures
            r@ == self@.registry.issues.filter(|i: Issue| i.status == status),
    {
        self.registry.issues_with_status(status)
    }

    /// Whether `voter` voted for a solver of issue `issue_id`.
    pub fn has_voted_solution(&self, issue_id: u64, voter: AccountId) -> (r: bool)
        ensures
            r == self@.solution_voters.contains((issue_id, voter)),
    {
        has_voted(&self.solution_voters, issue_id, voter)
    }

    /// Whether `voter` voted to cancel issue `issue_id`.
    pub fn has_voted_cancel(&self, issue_id: u64, voter: AccountId) -> (r: bool)
        ensures
            r == self@.cancel_voters.contains((issue_id, voter)),
    {
        has_voted(&self.cancel_voters, issue_id, voter)
    }

    /// The outstanding solution vote of issue `issue_id`.
    pub fn get_solution_vote(&self, issue_id: u64) -> (r: Option<IssueSolutionVote>)
        requires
            self@.wf(),
        ensures
            r == if has_issue(self@.registry.issues, issue_id) {
                self@.solution_votes[issue_id - 1]
            } else {
                None
            },
    {
        if issue_id == 0 || issue_id > self.solution_votes.len() as u64 {
            None
        } else {
            self.solution_votes[(issue_id - 1) as usize]
        }
    }

    /// The outstanding cancellation vote of issue `issue_id`.
    pub fn get_cancel_vote(&self, issue_id: u64) -> (r: Option<IssueCancelVote>)
        requires
            self@.wf(),
        ensures
            r == if has_issue(self@.registry.issues, issue_id) {
                self@.cancel_votes[issue_id - 1]
            } else {
                None
            },
    {
        if issue_id == 0 || issue_id > self.cancel_votes.len() as u64 {
            None
        } else {
            self.cancel_votes[(issue_id - 1) as usize]
        }
    }
}

/// With a one-vote threshold, the first qualifying solution vote completes the
/// issue in the same call and clears the vote record; the voter is recorded, so
/// no second vote of theirs on the issue is ever counted.
pub proof fn law_single_solution_vote_decides(
    m: VoteModel,
    caller: AccountId,
    stake: u128,
    issue_id: u64,
    solver_hotkey: AccountId,
    solver_coldkey: AccountId,
    pr_number: u32,
    stake2: u128,
)
    requires
        m.wf(),
        m.solution_check(caller, stake, issue_id) is Ok,
        m.solution_votes[issue_id - 1] is None,
    ensures
        ({
            let after = m.solution_voted(caller, stake, issue_id, solver_hotkey, solver_coldkey, pr_number);
            &&& after.registry.issues[issue_id - 1].status == IssueStatus::Completed
            &&& after.solution_votes[issue_id - 1] is None
            &&& after.solution_voters.contains((issue_id, caller))
            &&& after.solution_check(caller, stake2, issue_id) is Err
        }),
{
    let after = m.solution_voted(caller, stake, issue_id, solver_hotkey, solver_coldkey, pr_number);
    assert(after.solution_voters.last() == (issue_id, caller));
}

/// With a one-vote threshold, the first qualifying cancellation vote cancels
/// the issue in the same call; the voter is recorded, so no second vote of
/// theirs on the issue is ever counted.
pub proof fn law_single_cancel_vote_decides(
    m: VoteModel,
    caller: AccountId,
    stake: u128,
    issue_id: u64,
    reason: [u8; 32],
    stake2: u128,
)
    requires
        m.wf(),
        m.cancel_check(caller, stake, issue_id) is Ok,
        m.cancel_votes[issue_id - 1] is None,
    ensures
        ({
            let after = m.cancel_voted(caller, stake, issue_id, reason);
            &&& after.registry.issues[issue_id - 1].status == IssueStatus::Cancelled
            &&& after.registry.issues[issue_id - 1].bounty_amount == 0
            &&& after.cancel_votes[issue_id - 1] is None
            &&& after.cancel_voters.contains((issue_id, caller))
            &&& after.cancel_check(caller, stake2, issue_id) is Err
        }),
{
    let after = m.cancel_voted(caller, stake, issue_id, reason);
    assert(after.cancel_voters.last() == (issue_id, caller));
}

/// A zero-stake vote is refused and records nothing.
pub proof fn law_zero_stake_refused(m: VoteModel, caller: AccountId, issue_id: u64)
    ensures
        m.solution_check(caller, 0, issue_id) is Err,
        m.cancel_check(caller, 0, issue_id) is Err,
{
}

} // verus!
