use vstd::prelude::*;
use crate::errors::Error;
use vstd::string::StringSliceAdditionalSpecFns;
use crate::types::{bytes32_eq, is_modifiable, AccountId, modifiable, HarvestResult, Issue, IssueStatus, MIN_BOUNTY};

verus! {

/// How an entry leaves the bounty queue.
#[derive(Clone, Copy, Debug, PartialEq, Eq, Structural)]
pub enum QueueRemoval {
    /// Move the last entry into the vacated slot: O(1), reorders the queue.
    SwapRemove,
    /// Shift later entries down: keeps the queue's order.
    Ordered,
}

/// `q` without its entry at `i`, by strategy `how`.
pub open spec fn removed(q: Seq<u64>, i: int, how: QueueRemoval) -> Seq<u64> {
    match how {
        QueueRemoval::SwapRemove => q.update(i, q.last()).drop_last(),
        QueueRemoval::Ordered => q.remove(i),
    }
}

/// Position in `q` (of length `n`) of the entry that lands at `j` once `i` is removed.
pub open spec fn source_index(n: int, i: int, j: int, how: QueueRemoval) -> int {
    match how {
        QueueRemoval::SwapRemove => if j == i { n - 1 } else { j },
        QueueRemoval::Ordered => if j < i { j } else { j + 1 },
    }
}

/// What removing entry `i` leaves: one entry fewer, each remaining entry taken
/// from a distinct other position of `q`.
pub proof fn lemma_removed(q: Seq<u64>, i: int, how: QueueRemoval)
    requires
        0 <= i < q.len(),
    ensures
        removed(q, i, how).len() == q.len() - 1,
        forall|j: int|
            0 <= j < q.len() - 1 ==> {
                let k = #[trigger] source_index(q.len() as int, i, j, how);
                0 <= k < q.len() && k != i && removed(q, i, how)[j] == q[k]
            },
        forall|j1: int, j2: int|
            0 <= j1 < q.len() - 1 && 0 <= j2 < q.len() - 1 && j1 != j2 ==> source_index(
                q.len() as int,
                i,
                j1,
                how,
            ) != source_index(q.len() as int, i, j2, how),
{
}

/// `a + b`, clamped at the largest `u128`.
pub open spec fn sat_add(a: u128, b: u128) -> u128 {
    if a + b > u128::MAX { u128::MAX } else { (a + b) as u128 }
}

/// `a - b`, clamped at zero.
pub open spec fn sat_sub(a: u128, b: u128) -> u128 {
    if a >= b { (a - b) as u128 } else { 0 }
}

pub fn saturating_add(a: u128, b: u128) -> (r: u128)
    ensures
        r == sat_add(a, b),
{
    if a > u128::MAX - b {
        u128::MAX
    } else {
        a + b
    }
}

pub fn saturating_sub(a: u128, b: u128) -> (r: u128)
    ensures
        r == sat_sub(a, b),
{
    if a >= b {
        a - b
    } else {
        0
    }
}

/// Funds an issue still needs before it is fully funded.
pub open spec fn need(iss: Issue) -> u128 {
    sat_sub(iss.target_bounty, iss.bounty_amount)
}

/// Whether `id` names an issue of `issues` (issue `id` sits at index `id - 1`).
pub open spec fn has_issue(issues: Seq<Issue>, id: u64) -> bool {
    1 <= id <= issues.len()
}

/// `iss` with its escrow raised by `fill`, and made Active once fully funded.
pub open spec fn funded(iss: Issue, fill: u128) -> Issue {
    let b = (iss.bounty_amount + fill) as u128;
    if b >= iss.target_bounty {
        Issue { bounty_amount: b, status: IssueStatus::Active, ..iss }
    } else {
        Issue { bounty_amount: b, ..iss }
    }
}

/// The fill pass from queue position `i`: walks the queue front to back, drops
/// entries that are missing, not modifiable or already funded, gives each other
/// entry `min(need, pool)`, and drops it once it is fully funded; stops when the
/// queue is exhausted or the pool is empty.
pub open spec fn fill_from(
    issues: Seq<Issue>,
    q: Seq<u64>,
    pool: u128,
    i: int,
    how: QueueRemoval,
) -> (Seq<Issue>, Seq<u64>, u128)
    decreases q.len() - i,
{
    if i < 0 || i >= q.len() || pool == 0 {
        (issues, q, pool)
    } else {
        let id = q[i];
        if !has_issue(issues, id) || !modifiable(issues[id - 1].status) || need(
            issues[id - 1],
        ) == 0 {
            fill_from(issues, removed(q, i, how), pool, i, how)
        } else {
            let iss = issues[id - 1];
            let fill = if need(iss) < pool { need(iss) } else { pool };
            let after = funded(iss, fill);
            if after.bounty_amount >= iss.target_bounty {
                fill_from(
                    issues.update(id - 1, after),
                    removed(q, i, how),
                    (pool - fill) as u128,
                    i,
                    how,
                )
            } else {
                fill_from(issues.update(id - 1, after), q, (pool - fill) as u128, i + 1, how)
            }
        }
    }
}

/// The fill pass keeps the number of issues.
pub proof fn lemma_fill_len(issues: Seq<Issue>, q: Seq<u64>, pool: u128, i: int, how: QueueRemoval)
    ensures
        fill_from(issues, q, pool, i, how).0.len() == issues.len(),
    decreases q.len() - i,
{
    if i < 0 || i >= q.len() || pool == 0 {
    } else {
        let qid = q[i];
        lemma_removed(q, i, how);
        if !has_issue(issues, qid) || !modifiable(issues[qid - 1].status) || need(issues[qid - 1])
            == 0 {
            lemma_fill_len(issues, removed(q, i, how), pool, i, how);
        } else {
            let iss = issues[qid - 1];
            let fill = if need(iss) < pool { need(iss) } else { pool };
            let after = funded(iss, fill);
            if after.bounty_amount >= iss.target_bounty {
                lemma_fill_len(issues.update(qid - 1, after), removed(q, i, how), (pool - fill) as u128, i, how);
            } else {
                lemma_fill_len(issues.update(qid - 1, after), q, (pool - fill) as u128, i + 1, how);
            }
        }
    }
}

/// The fill pass changes no issue that is not modifiable, and keeps the
/// number of issues.
pub proof fn lemma_fill_keeps_settled(
    issues: Seq<Issue>,
    q: Seq<u64>,
    pool: u128,
    i: int,
    how: QueueRemoval,
    id: u64,
)
    requires
        has_issue(issues, id),
        !modifiable(issues[id - 1].status),
    ensures
        fill_from(issues, q, pool, i, how).0.len() == issues.len(),
        fill_from(issues, q, pool, i, how).0[id - 1] == issues[id - 1],
    decreases q.len() - i,
{
    if i < 0 || i >= q.len() || pool == 0 {
    } else {
        let qid = q[i];
        lemma_removed(q, i, how);
        if !has_issue(issues, qid) || !modifiable(issues[qid - 1].status) || need(issues[qid - 1])
            == 0 {
            lemma_fill_keeps_settled(issues, removed(q, i, how), pool, i, how, id);
        } else {
            let iss = issues[qid - 1];
            let fill = if need(iss) < pool { need(iss) } else { pool };
            let after = funded(iss, fill);
            if after.bounty_amount >= iss.target_bounty {
                lemma_fill_keeps_settled(
                    issues.update(qid - 1, after),
                    removed(q, i, how),
                    (pool - fill) as u128,
                    i,
                    how,
                    id,
                );
            } else {
                lemma_fill_keeps_settled(
                    issues.update(qid - 1, after),
                    q,
                    (pool - fill) as u128,
                    i + 1,
                    how,
                    id,
                );
            }
        }
    }
}

/// The registry's state: issues (issue `k + 1` at index `k`), the bounty
/// queue, the unallocated pool, and emission tracking.
pub struct RegistryModel {
    pub issues: Seq<Issue>,
    pub queue: Seq<u64>,
    pub pool: u128,
    pub removal: QueueRemoval,
    pub last_known_stake: u128,
    pub last_harvest_block: u32,
}

/// A queued id names a Registered issue still short of its target.
pub open spec fn queued_ok(issues: Seq<Issue>, id: u64) -> bool {
    &&& has_issue(issues, id)
    &&& issues[id - 1].status == IssueStatus::Registered
    &&& issues[id - 1].bounty_amount < issues[id - 1].target_bounty
}

pub open spec fn no_duplicates(q: Seq<u64>) -> bool {
    forall|j1: int, j2: int| 0 <= j1 < q.len() && 0 <= j2 < q.len() && j1 != j2 ==> q[j1] != q[j2]
}

/// Whether the repository name has the form `owner/repo`: exactly one `/`,
/// neither first nor last.
pub open spec fn valid_repo_name(b: Seq<u8>) -> bool {
    exists|p: int|
        0 < p < b.len() - 1 && b[p] == 0x2fu8 && forall|k: int|
            0 <= k < b.len() && k != p ==> b[k] != 0x2fu8
}

/// Whether some issue was registered under URL hash `h`.
pub open spec fn hash_taken(issues: Seq<Issue>, h: Seq<u8>) -> bool {
    exists|k: int| 0 <= k < issues.len() && issues[k].github_url_hash@ == h
}

/// What a harvest decided before its host-chain dispatches: the new emissions,
/// the count of funded queue entries, and the amounts to move and to recycle.
#[derive(Clone, Copy, Debug, PartialEq, Eq)]
pub struct HarvestPlan {
    pub harvested: u128,
    pub bounties_filled: u32,
    pub to_move: u128,
    pub to_recycle: u128,
}

impl RegistryModel {
    /// Every issue sits at its id; every queued id is a Registered issue still
    /// short of its target, and no id is queued twice.
    pub open spec fn wf(self) -> bool {
        &&& self.issues.len() < u64::MAX
        &&& forall|k: int| 0 <= k < self.issues.len() ==> #[trigger] self.issues[k].id == k + 1
        &&& forall|j: int| 0 <= j < self.queue.len() ==> queued_ok(self.issues, #[trigger] self.queue[j])
        &&& no_duplicates(self.queue)
    }

    pub open spec fn issue(self, id: u64) -> Option<Issue> {
        if has_issue(self.issues, id) {
            Some(self.issues[id - 1])
        } else {
            None
        }
    }

    /// The state after one fill pass.
    pub open spec fn filled(self) -> RegistryModel {
        let (issues, queue, pool) = fill_from(self.issues, self.queue, self.pool, 0, self.removal);
        RegistryModel { issues, queue, pool, ..self }
    }

    /// The state with queue `q`.
    pub open spec fn with_queue(self, q: Seq<u64>) -> RegistryModel {
        RegistryModel { queue: q, ..self }
    }

    /// The state after issue `id` (valid) had its fields replaced by `iss`.
    pub open spec fn with_issue(self, id: u64, iss: Issue) -> RegistryModel {
        RegistryModel { issues: self.issues.update(id - 1, iss), ..self }
    }

    /// The first queue position holding `id`, if any.
    pub open spec fn queue_pos(self, id: u64) -> Option<int> {
        if exists|j: int| 0 <= j < self.queue.len() && self.queue[j] == id {
            Some(
                choose|j: int|
                    0 <= j < self.queue.len() && self.queue[j] == id && forall|k: int|
                        0 <= k < j ==> self.queue[k] != id,
            )
        } else {
            None
        }
    }

    /// The state with `id` taken out of the queue (unchanged when it is not queued).
    pub open spec fn dequeued(self, id: u64) -> RegistryModel {
        match self.queue_pos(id) {
            Some(j) => self.with_queue(removed(self.queue, j, self.removal)),
            None => self,
        }
    }

    /// Outcome of registering an issue whose URL hashes to `h`.
    pub open spec fn register(
        self,
        h: Seq<u8>,
        name: String,
        issue_number: u32,
        target_bounty: u128,
        block: u32,
    ) -> Result<u64, Error> {
        if target_bounty < MIN_BOUNTY {
            Err(Error::BountyTooLow)
        } else if issue_number == 0 {
            Err(Error::InvalidIssueNumber)
        } else if !valid_repo_name(vstd::utf8::encode_utf8(name@)) {
            Err(Error::InvalidRepositoryName)
        } else if hash_taken(self.issues, h) {
            Err(Error::IssueAlreadyExists)
        } else {
            Ok((self.issues.len() + 1) as u64)
        }
    }

    /// The state after a successful registration.
    pub open spec fn registered(
        self,
        h: [u8; 32],
        name: String,
        issue_number: u32,
        target_bounty: u128,
        block: u32,
    ) -> RegistryModel {
        RegistryModel {
            issues: self.issues.push(self.new_issue(h, name, issue_number, target_bounty, block)),
            queue: self.queue.push((self.issues.len() + 1) as u64),
            ..self
        }
    }

    /// The issue that a successful registration appends.
    pub open spec fn new_issue(
        self,
        h: [u8; 32],
        name: String,
        issue_number: u32,
        target_bounty: u128,
        block: u32,
    ) -> Issue {
        Issue {
            id: (self.issues.len() + 1) as u64,
            github_url_hash: h,
            repository_full_name: name,
            issue_number,
            bounty_amount: 0,
            target_bounty,
            status: IssueStatus::Registered,
            registered_at_block: block,
            solver_coldkey: None,
        }
    }

    /// Outcome of cancelling issue `id`: the escrow returned to the pool.
    pub open spec fn cancel(self, id: u64) -> Result<u128, Error> {
        match self.issue(id) {
            None => Err(Error::IssueNotFound),
            Some(iss) => if !modifiable(iss.status) {
                Err(Error::CannotCancel)
            } else {
                Ok(iss.bounty_amount)
            },
        }
    }

    /// The state after a successful cancellation of issue `id`.
    pub open spec fn cancelled(self, id: u64) -> RegistryModel {
        let iss = self.issues[id - 1];
        let s = RegistryModel {
            pool: sat_add(self.pool, iss.bounty_amount),
            ..self.with_issue(
                id,
                Issue { status: IssueStatus::Cancelled, bounty_amount: 0, ..iss },
            )
        };
        s.dequeued(id)
    }

    /// New emissions recognised when the treasury holds `stake`.
    pub open spec fn pending(self, stake: u128) -> u128 {
        sat_sub(stake, self.last_known_stake)
    }

    /// The state after the planning half of a harvest at treasury stake `stake`.
    pub open spec fn harvest_begun(self, stake: u128) -> RegistryModel {
        if self.pending(stake) == 0 {
            RegistryModel { last_known_stake: stake, ..self }
        } else {
            RegistryModel {
                last_known_stake: stake,
                pool: sat_add(self.pool, self.pending(stake)),
                ..self
            }.filled()
        }
    }

    /// The plan that the planning half of a harvest returns.
    pub open spec fn harvest_plan(self, stake: u128) -> HarvestPlan {
        if self.pending(stake) == 0 {
            HarvestPlan { harvested: 0, bounties_filled: 0, to_move: 0, to_recycle: 0 }
        } else {
            let after = self.harvest_begun(stake);
            HarvestPlan {
                harvested: self.pending(stake),
                bounties_filled: 0,
                to_move: sat_sub(sat_add(self.pool, self.pending(stake)), after.pool),
                to_recycle: after.pool,
            }
        }
    }

    /// The state after the dispatches of `plan` were performed, with `moved`
    /// and `recycled` telling whether the host chain accepted them.
    pub open spec fn harvest_settled(
        self,
        plan: HarvestPlan,
        moved: bool,
        recycled: bool,
        block: u32,
    ) -> RegistryModel {
        if plan.harvested == 0 {
            self
        } else {
            let k1 = if plan.to_move > 0 && moved {
                sat_sub(self.last_known_stake, plan.to_move)
            } else {
                self.last_known_stake
            };
            let recycle_ok = plan.to_recycle > 0 && recycled;
            RegistryModel {
                last_known_stake: if recycle_ok { sat_sub(k1, plan.to_recycle) } else { k1 },
                pool: if recycle_ok { 0 } else { self.pool },
                last_harvest_block: block,
                ..self
            }
        }
    }

    /// The report of a settled harvest.
    pub open spec fn harvest_result(plan: HarvestPlan, recycled: bool) -> HarvestResult {
        if plan.harvested == 0 {
            HarvestResult { harvested: 0, bounties_filled: 0, recycled: 0 }
        } else {
            HarvestResult {
                harvested: plan.harvested,
                bounties_filled: plan.bounties_filled,
                recycled: if plan.to_recycle > 0 && recycled { plan.to_recycle } else { 0 },
            }
        }
    }
}

/// Removing one queue entry keeps the registry well formed, whatever became of
/// the removed entry's issue.
pub proof fn lemma_wf_after_removal(m: RegistryModel, i: int)
    requires
        0 <= i < m.queue.len(),
        m.issues.len() < u64::MAX,
        forall|k: int| 0 <= k < m.issues.len() ==> #[trigger] m.issues[k].id == k + 1,
        forall|j: int| 0 <= j < m.queue.len() && j != i ==> queued_ok(m.issues, #[trigger] m.queue[j]),
        no_duplicates(m.queue),
    ensures
        m.with_queue(removed(m.queue, i, m.removal)).wf(),
        !removed(m.queue, i, m.removal).contains(m.queue[i]),
{
    lemma_removed(m.queue, i, m.removal);
    let q2 = removed(m.queue, i, m.removal);
    let n = m.queue.len() as int;
    assert forall|j: int| 0 <= j < q2.len() implies queued_ok(m.issues, #[trigger] q2[j]) by {
        let k = source_index(n, i, j, m.removal);
    }
    assert forall|j1: int, j2: int| 0 <= j1 < q2.len() && 0 <= j2 < q2.len() && j1 != j2 implies q2[j1] != q2[j2] by {
        let k1 = source_index(n, i, j1, m.removal);
        let k2 = source_index(n, i, j2, m.removal);
    }
    assert forall|j: int| 0 <= j < q2.len() implies q2[j] != m.queue[i] by {
        let k = source_index(n, i, j, m.removal);
    }
}

/// Issues, the bounty queue, the unallocated pool and emission tracking shared
/// by every engine.
pub struct Registry {
    issues: Vec<Issue>,
    bounty_queue: Vec<u64>,
    alpha_pool: u128,
    removal: QueueRemoval,
    last_known_stake: u128,
    last_harvest_block: u32,
}

impl View for Registry {
    type V = RegistryModel;

    closed spec fn view(&self) -> RegistryModel {
        RegistryModel {
            issues: self.issues@,
            queue: self.bounty_queue@,
            pool: self.alpha_pool,
            removal: self.removal,
            last_known_stake: self.last_known_stake,
            last_harvest_block: self.last_harvest_block,
        }
    }
}

impl Registry {
    /// An empty registry whose queue loses entries by `removal`.
    pub fn new(removal: QueueRemoval) -> (r: Registry)
        ensures
            r@ == (RegistryModel {
                issues: Seq::empty(),
                queue: Seq::empty(),
                pool: 0,
                removal,
                last_known_stake: 0,
                last_harvest_block: 0,
            }),
            r@.wf(),
    {
        let r = Registry {
            issues: Vec::new(),
            bounty_queue: Vec::new(),
            alpha_pool: 0,
            removal,
            last_known_stake: 0,
            last_harvest_block: 0,
        };
        assert(r@.issues =~= Seq::empty());
        assert(r@.queue =~= Seq::empty());
        r
    }

    /// The id the next registration receives.
    pub fn next_issue_id(&self) -> (r: u64)
        requires
            self@.wf(),
        ensures
            r == self@.issues.len() + 1,
    {
        self.issues.len() as u64 + 1
    }

    pub fn alpha_pool(&self) -> (r: u128)
        ensures
            r == self@.pool,
    {
        self.alpha_pool
    }

    pub fn last_known_stake(&self) -> (r: u128)
        ensures
            r == self@.last_known_stake,
    {
        self.last_known_stake
    }

    pub fn last_harvest_block(&self) -> (r: u32)
        ensures
            r == self@.last_harvest_block,
    {
        self.last_harvest_block
    }

    pub fn bounty_queue(&self) -> (r: Vec<u64>)
        ensures
            r@ == self@.queue,
    {
        self.bounty_queue.clone()
    }

    /// Issue `id`, if registered.
    pub fn get_issue(&self, id: u64) -> (r: Option<Issue>)
        requires
            self@.wf(),
        ensures
            r == self@.issue(id),
    {
        if id == 0 || id > self.issues.len() as u64 {
            None
        } else {
            Some(self.issues[(id - 1) as usize].copied())
        }
    }

    fn remove_queue_entry(&mut self, i: usize)
        requires
            i < old(self)@.queue.len(),
        ensures
            final(self)@ == old(self)@.with_queue(removed(old(self)@.queue, i as int, old(self)@.removal)),
    {
        match self.removal {
            QueueRemoval::SwapRemove => {
                self.bounty_queue.swap_remove(i);
            },
            QueueRemoval::Ordered => {
                self.bounty_queue.remove(i);
            },
        }
    }

    /// Removes the queue entry at `idx`; does nothing when there is none.
    pub fn remove_at(&mut self, idx: usize)
        requires
            old(self)@.wf(),
        ensures
            final(self)@.wf(),
            idx < old(self)@.queue.len() ==> final(self)@ == old(self)@.with_queue(
                removed(old(self)@.queue, idx as int, old(self)@.removal),
            ),
            idx >= old(self)@.queue.len() ==> final(self)@ == old(self)@,
    {
        if idx < self.bounty_queue.len() {
            proof {
                lemma_wf_after_removal(self@, idx as int);
            }
            self.remove_queue_entry(idx);
        }
    }

    /// Takes issue `id` out of the bounty queue, if it is there.
    pub fn remove_from_bounty_queue(&mut self, id: u64)
        requires
            old(self)@.wf(),
        ensures
            final(self)@ == old(self)@.dequeued(id),
            final(self)@.wf(),
            !final(self)@.queue.contains(id),
    {
        let mut j: usize = 0;
        while j < self.bounty_queue.len() && self.bounty_queue[j] != id
            invariant
                j <= self.bounty_queue.len(),
                forall|k: int| 0 <= k < j ==> self.bounty_queue@[k] != id,
            decreases self.bounty_queue.len() - j,
        {
            j = j + 1;
        }
        if j < self.bounty_queue.len() {
            proof {
                let m = self@;
                assert(exists|x: int| 0 <= x < m.queue.len() && m.queue[x] == id);
                let c = choose|x: int|
                    0 <= x < m.queue.len() && m.queue[x] == id && forall|k: int|
                        0 <= k < x ==> m.queue[k] != id;
                assert(c == j as int);
                lemma_wf_after_removal(m, j as int);
            }
            self.remove_queue_entry(j);
        } else {
            proof {
                assert(!self@.queue.contains(id));
            }
        }
    }

    /// Fills bounties from the pool, front of the queue first.
    pub fn fill_bounties(&mut self)
        requires
            old(self)@.wf(),
        ensures
            final(self)@ == old(self)@.filled(),
            final(self)@.wf(),
    {
        let ghost start = self@;
        let mut i: usize = 0;
        while i < self.bounty_queue.len() && self.alpha_pool > 0
            invariant
                self@.wf(),
                i <= self.bounty_queue.len(),
                self.removal == start.removal,
                self.last_known_stake == start.last_known_stake,
                self.last_harvest_block == start.last_harvest_block,
                fill_from(self@.issues, self@.queue, self@.pool, i as int, self.removal)
                    == fill_from(start.issues, start.queue, start.pool, 0, start.removal),
            decreases self.bounty_queue.len() - i,
        {
            let ghost pre = self@;
            let ghost pre_i = i as int;
            let id = self.bounty_queue[i];
            if id == 0 || id > self.issues.len() as u64 {
                proof {
                    lemma_wf_after_removal(pre, pre_i);
                }
                self.remove_queue_entry(i);
                continue;
            }
            let k = (id - 1) as usize;
            let status = self.issues[k].status;
            let bounty = self.issues[k].bounty_amount;
            let target = self.issues[k].target_bounty;
            if !is_modifiable(status) {
                proof {
                    lemma_wf_after_removal(pre, pre_i);
                }
                self.remove_queue_entry(i);
                continue;
            }
            let remaining = saturating_sub(target, bounty);
            if remaining == 0 {
                proof {
                    lemma_wf_after_removal(pre, pre_i);
                }
                self.remove_queue_entry(i);
                continue;
            }
            let fill = if remaining < self.alpha_pool {
                remaining
            } else {
                self.alpha_pool
            };
            let new_bounty = bounty + fill;
            self.issues[k].bounty_amount = new_bounty;
            self.alpha_pool = self.alpha_pool - fill;
            if new_bounty >= target {
                self.issues[k].status = IssueStatus::Active;
                proof {
                    let iss = pre.issues[k as int];
                    assert(self@.issues == pre.issues.update(k as int, funded(iss, fill)));
                    assert forall|j: int|
                        0 <= j < self@.queue.len() && j != pre_i implies queued_ok(
                        self@.issues,
                        #[trigger] self@.queue[j],
                    ) by {
                        assert(pre.queue[j] != pre.queue[pre_i]);
                        assert(queued_ok(pre.issues, pre.queue[j]));
                    }
                    lemma_wf_after_removal(self@, pre_i);
                }
                self.remove_queue_entry(i);
            } else {
                proof {
                    let iss = pre.issues[k as int];
                    assert(self@.issues == pre.issues.update(k as int, funded(iss, fill)));
                    assert forall|j: int| 0 <= j < self@.queue.len() implies queued_ok(
                        self@.issues,
                        #[trigger] self@.queue[j],
                    ) by {
                        if j != pre_i {
                            assert(pre.queue[j] != pre.queue[pre_i]);
                            assert(queued_ok(pre.issues, pre.queue[j]));
                        }
                    }
                }
                i = i + 1;
            }
            proof {
                assert(fill_from(pre.issues, pre.queue, pre.pool, pre_i, pre.removal) == fill_from(
                    self@.issues,
                    self@.queue,
                    self@.pool,
                    i as int,
                    self.removal,
                ));
            }
        }
        proof {
            assert(self@ == start.filled());
        }
    }

    /// Status of issue `id`, if registered.
    pub fn issue_status(&self, id: u64) -> (r: Option<IssueStatus>)
        requires
            self@.wf(),
        ensures
            r == match self@.issue(id) {
                Some(i) => Some(i.status),
                None => None::<IssueStatus>,
            },
    {
        if id == 0 || id > self.issues.len() as u64 {
            None
        } else {
            Some(self.issues[(id - 1) as usize].status)
        }
    }

    /// Escrow of issue `id`.
    pub fn issue_bounty(&self, id: u64) -> (r: u128)
        requires
            has_issue(self@.issues, id),
        ensures
            r == self@.issues[id - 1].bounty_amount,
    {
        let n = self.issues.len();
        self.issues[(id - 1) as usize].bounty_amount
    }

    /// Recorded solver of issue `id`.
    pub fn issue_solver(&self, id: u64) -> (r: Option<AccountId>)
        requires
            has_issue(self@.issues, id),
        ensures
            r == self@.issues[id - 1].solver_coldkey,
    {
        let n = self.issues.len();
        self.issues[(id - 1) as usize].solver_coldkey
    }

    /// Every issue in status `status`, in id order.
    pub fn issues_with_status(&self, status: IssueStatus) -> (r: Vec<Issue>)
        ensures
            r@ == self@.issues.filter(|i: Issue| i.status == status),
    {
        let mut out: Vec<Issue> = Vec::new();
        let mut k: usize = 0;
        while k < self.issues.len()
            invariant
                k <= self.issues.len(),
                out@ == self@.issues.take(k as int).filter(|i: Issue| i.status == status),
            decreases self.issues.len() - k,
        {
            proof {
                reveal(Seq::filter);
                assert(self@.issues.take(k + 1).drop_last() =~= self@.issues.take(k as int));
            }
            if self.issues[k].status == status {
                out.push(self.issues[k].copied());
            }
            k = k + 1;
        }
        proof {
            assert(self@.issues.take(k as int) =~= self@.issues);
        }
        out
    }

    /// The id of the issue registered under URL hash `h`, or 0 when there is none.
    pub fn issue_id_by_url_hash(&self, h: &[u8; 32]) -> (r: u64)
        requires
            self@.wf(),
        ensures
            r == 0 <==> !hash_taken(self@.issues, h@),
            r != 0 ==> has_issue(self@.issues, r) && self@.issues[r - 1].github_url_hash@ == h@
                && forall|k: int| 0 <= k < r - 1 ==> self@.issues[k].github_url_hash@ != h@,
    {
        let mut k: usize = 0;
        while k < self.issues.len()
            invariant
                k <= self.issues.len(),
                self@.wf(),
                forall|x: int| 0 <= x < k ==> self@.issues[x].github_url_hash@ != h@,
            decreases self.issues.len() - k,
        {
            if bytes32_eq(&self.issues[k].github_url_hash, h) {
                return k as u64 + 1;
            }
            k = k + 1;
        }
        0
    }

    /// Registers an issue whose URL hashes to `url_hash`.
    pub fn register(
        &mut self,
        url_hash: [u8; 32],
        repository_full_name: String,
        issue_number: u32,
        target_bounty: u128,
        block: u32,
    ) -> (r: Result<u64, Error>)
        requires
            old(self)@.wf(),
            old(self)@.issues.len() + 1 < u64::MAX,
        ensures
            r == old(self)@.register(
                url_hash@,
                repository_full_name,
                issue_number,
                target_bounty,
                block,
            ),
            r is Ok ==> final(self)@ == old(self)@.registered(
                url_hash,
                repository_full_name,
                issue_number,
                target_bounty,
                block,
            ),
            r is Err ==> final(self)@ == old(self)@,
            final(self)@.wf(),
    {
        if target_bounty < MIN_BOUNTY {
            return Err(Error::BountyTooLow);
        }
        if issue_number == 0 {
            return Err(Error::InvalidIssueNumber);
        }
        if !is_valid_repo_name(repository_full_name.as_str()) {
            return Err(Error::InvalidRepositoryName);
        }
        if self.issue_id_by_url_hash(&url_hash) != 0 {
            return Err(Error::IssueAlreadyExists);
        }
        let issue_id = self.issues.len() as u64 + 1;
        let ghost old_m = self@;
        let issue = Issue {
            id: issue_id,
            github_url_hash: url_hash,
            repository_full_name,
            issue_number,
            bounty_amount: 0,
            target_bounty,
            status: IssueStatus::Registered,
            registered_at_block: block,
            solver_coldkey: None,
        };
        self.issues.push(issue);
        self.bounty_queue.push(issue_id);
        proof {
            let m = self@;
            assert forall|j: int| 0 <= j < m.queue.len() implies queued_ok(
                m.issues,
                #[trigger] m.queue[j],
            ) by {
                if j < old_m.queue.len() {
                    assert(queued_ok(old_m.issues, old_m.queue[j]));
                }
            }
        }
        Ok(issue_id)
    }

    /// Cancels issue `id`: its escrow returns to the pool and it leaves the queue.
    pub fn cancel(&mut self, id: u64) -> (r: Result<u128, Error>)
        requires
            old(self)@.wf(),
        ensures
            r == old(self)@.cancel(id),
            r is Ok ==> final(self)@ == old(self)@.cancelled(id),
            r is Err ==> final(self)@ == old(self)@,
            final(self)@.wf(),
    {
        if id == 0 || id > self.issues.len() as u64 {
            return Err(Error::IssueNotFound);
        }
        let k = (id - 1) as usize;
        if !is_modifiable(self.issues[k].status) {
            return Err(Error::CannotCancel);
        }
        let returned = self.issues[k].bounty_amount;
        let ghost old_m = self@;
        self.remove_from_bounty_queue(id);
        self.alpha_pool = saturating_add(self.alpha_pool, returned);
        self.issues[k].status = IssueStatus::Cancelled;
        self.issues[k].bounty_amount = 0;
        proof {
            let iss = old_m.issues[k as int];
            assert(self@.issues =~= old_m.issues.update(
                k as int,
                Issue { status: IssueStatus::Cancelled, bounty_amount: 0, ..iss },
            ));
            assert forall|j: int| 0 <= j < self@.queue.len() implies queued_ok(
                self@.issues,
                #[trigger] self@.queue[j],
            ) by {
                assert(self@.queue[j] != id);
            }
        }
        Ok(returned)
    }

    /// Replaces the status, escrow and recorded solver of issue `id`, which is
    /// not queued.
    pub fn set_issue(
        &mut self,
        id: u64,
        status: IssueStatus,
        bounty_amount: u128,
        solver_coldkey: Option<AccountId>,
    )
        requires
            old(self)@.wf(),
            has_issue(old(self)@.issues, id),
            !old(self)@.queue.contains(id),
        ensures
            final(self)@ == old(self)@.with_issue(
                id,
                Issue { status, bounty_amount, solver_coldkey, ..old(self)@.issues[id - 1] },
            ),
            final(self)@.wf(),
    {
        let ghost old_m = self@;
        let n = self.issues.len();
        assert(id - 1 < n);
        let k = (id - 1) as usize;
        self.issues[k].status = status;
        self.issues[k].bounty_amount = bounty_amount;
        self.issues[k].solver_coldkey = solver_coldkey;
        proof {
            let m = self@;
            assert(m.issues =~= old_m.issues.update(
                k as int,
                Issue { status, bounty_amount, solver_coldkey, ..old_m.issues[k as int] },
            ));
            assert forall|j: int| 0 <= j < m.queue.len() implies queued_ok(
                m.issues,
                #[trigger] m.queue[j],
            ) by {
                assert(m.queue[j] != id);
            }
        }
    }

    /// Adds `amount` to the unallocated pool.
    pub fn add_to_pool(&mut self, amount: u128)
        requires
            old(self)@.wf(),
        ensures
            final(self)@ == (RegistryModel { pool: sat_add(old(self)@.pool, amount), ..old(self)@ }),
            final(self)@.wf(),
    {
        self.alpha_pool = saturating_add(self.alpha_pool, amount);
    }

    /// Resets the emission baseline to `stake`.
    pub fn set_last_known_stake(&mut self, stake: u128)
        requires
            old(self)@.wf(),
        ensures
            final(self)@ == (RegistryModel { last_known_stake: stake, ..old(self)@ }),
            final(self)@.wf(),
    {
        self.last_known_stake = stake;
    }

    /// Counts queue entries whose issue already meets its target. The fill pass
    /// takes fully funded entries out of the queue, so none are ever found.
    fn count_funded_in_queue(&self) -> (r: u32)
        requires
            self@.wf(),
        ensures
            r == 0,
    {
        let mut count: u32 = 0;
        let mut j: usize = 0;
        while j < self.bounty_queue.len()
            invariant
                self@.wf(),
                j <= self.bounty_queue.len(),
                count == 0,
            decreases self.bounty_queue.len() - j,
        {
            let id = self.bounty_queue[j];
            proof {
                assert(queued_ok(self@.issues, self@.queue[j as int]));
            }
            if id >= 1 && id <= self.issues.len() as u64 {
                let k = (id - 1) as usize;
                if self.issues[k].bounty_amount >= self.issues[k].target_bounty {
                    count = count + 1;
                }
            }
            j = j + 1;
        }
        count
    }

    /// First half of a harvest at treasury stake `stake`: recognises the new
    /// emissions, refreshes the baseline before touching the pool, fills
    /// bounties, and plans what to move and what to recycle.
    pub fn begin_harvest(&mut self, stake: u128) -> (p: HarvestPlan)
        requires
            old(self)@.wf(),
        ensures
            final(self)@ == old(self)@.harvest_begun(stake),
            p == old(self)@.harvest_plan(stake),
            final(self)@.wf(),
    {
        let pending = saturating_sub(stake, self.last_known_stake);
        if pending == 0 {
            self.last_known_stake = stake;
            return HarvestPlan { harvested: 0, bounties_filled: 0, to_move: 0, to_recycle: 0 };
        }
        self.last_known_stake = stake;
        self.alpha_pool = saturating_add(self.alpha_pool, pending);
        let before = self.alpha_pool;
        self.fill_bounties();
        let allocated = saturating_sub(before, self.alpha_pool);
        let bounties_filled = self.count_funded_in_queue();
        HarvestPlan {
            harvested: pending,
            bounties_filled,
            to_move: allocated,
            to_recycle: self.alpha_pool,
        }
    }

    /// Second half of a harvest: `moved` and `recycled` tell whether the host
    /// chain accepted the move of `plan.to_move` and the recycling of
    /// `plan.to_recycle`. A move or recycle that went through lowers the
    /// baseline; a failed recycle leaves its amount in the pool.
    pub fn settle_harvest(&mut self, plan: HarvestPlan, moved: bool, recycled: bool, block: u32) -> (r:
        HarvestResult)
        requires
            old(self)@.wf(),
        ensures
            final(self)@ == old(self)@.harvest_settled(plan, moved, recycled, block),
            r == RegistryModel::harvest_result(plan, recycled),
            final(self)@.wf(),
    {
        if plan.harvested == 0 {
            return HarvestResult { harvested: 0, bounties_filled: 0, recycled: 0 };
        }
        if plan.to_move > 0 && moved {
            self.last_known_stake = saturating_sub(self.last_known_stake, plan.to_move);
        }
        let mut recycled_amount: u128 = 0;
        if plan.to_recycle > 0 && recycled {
            recycled_amount = plan.to_recycle;
            self.alpha_pool = 0;
            self.last_known_stake = saturating_sub(self.last_known_stake, plan.to_recycle);
        }
        self.last_harvest_block = block;
        HarvestResult {
            harvested: plan.harvested,
            bounties_filled: plan.bounties_filled,
            recycled: recycled_amount,
        }
    }

    /// Sum of the escrow of Registered and Active issues, clamped at the
    /// largest `u128`.
    pub fn total_committed(&self) -> (r: u128)
        ensures
            r == if committed(self@.issues) > u128::MAX {
                u128::MAX
            } else {
                committed(self@.issues) as u128
            },
    {
        let mut acc: u128 = 0;
        let mut k: usize = 0;
        while k < self.issues.len()
            invariant
                k <= self.issues.len(),
                acc == if committed(self@.issues.take(k as int)) > u128::MAX {
                    u128::MAX
                } else {
                    committed(self@.issues.take(k as int)) as u128
                },
            decreases self.issues.len() - k,
        {
            proof {
                lemma_committed_step(self@.issues, k as int);
            }
            if is_modifiable(self.issues[k].status) {
                acc = saturating_add(acc, self.issues[k].bounty_amount);
            }
            k = k + 1;
        }
        proof {
            assert(self@.issues.take(k as int) =~= self@.issues);
        }
        acc
    }
}

/// Sum of the escrow of Registered and Active issues.
pub open spec fn committed(issues: Seq<Issue>) -> int
    decreases issues.len(),
{
    if issues.len() == 0 {
        0
    } else {
        committed(issues.drop_last()) + if modifiable(issues.last().status) {
            issues.last().bounty_amount as int
        } else {
            0
        }
    }
}

proof fn lemma_committed_step(issues: Seq<Issue>, k: int)
    requires
        0 <= k < issues.len(),
    ensures
        committed(issues.take(k + 1)) == committed(issues.take(k)) + if modifiable(
            issues[k].status,
        ) {
            issues[k].bounty_amount as int
        } else {
            0
        },
        committed(issues.take(k)) >= 0,
{
    assert(issues.take(k + 1).drop_last() =~= issues.take(k));
    lemma_committed_nonneg(issues.take(k));
}

proof fn lemma_committed_nonneg(issues: Seq<Issue>)
    ensures
        committed(issues) >= 0,
    decreases issues.len(),
{
    if issues.len() > 0 {
        lemma_committed_nonneg(issues.drop_last());
    }
}

/// The Keccak-256 digest of `input`.
pub uninterp spec fn keccak256_of(input: Seq<u8>) -> Seq<u8>;

/// Relies on `ink::env::hash_bytes::<Keccak256>`: the 32-byte digest depends on
/// the input bytes alone.
#[verifier::external_body]
fn keccak256(input: &[u8]) -> (r: [u8; 32])
    ensures
        r@ == keccak256_of(input@),
{
    let mut output = [0u8; 32];
    ink::env::hash_bytes::<ink::env::hash::Keccak256>(input, &mut output);
    output
}

/// The URL hash under which a string is registered: Keccak-256 of its UTF-8 bytes.
pub fn hash_string(s: &str) -> (r: [u8; 32])
    ensures
        r@ == keccak256_of(s.spec_bytes()),
{
    keccak256(s.as_bytes())
}

/// Whether `name` has the form `owner/repo`.
pub fn is_valid_repo_name(name: &str) -> (r: bool)
    ensures
        r == valid_repo_name(name.spec_bytes()),
{
    let bytes = name.as_bytes();
    let n = bytes.len();
    if n == 0 {
        return false;
    }
    let mut slash: Option<usize> = None;
    let mut i: usize = 0;
    while i < n
        invariant
            n == bytes@.len(),
            bytes@ == name.spec_bytes(),
            i <= n,
            match slash {
                None => forall|k: int| 0 <= k < i ==> bytes@[k] != 0x2fu8,
                Some(p) => 0 < p < i && bytes@[p as int] == 0x2fu8 && forall|k: int|
                    0 <= k < i && k != p ==> bytes@[k] != 0x2fu8,
            },
        decreases n - i,
    {
        if bytes[i] == 0x2f {
            if slash.is_some() || i == 0 {
                proof {
                    if valid_repo_name(bytes@) {
                        let p = choose|p: int|
                            0 < p < bytes@.len() - 1 && bytes@[p] == 0x2fu8 && forall|k: int|
                                0 <= k < bytes@.len() && k != p ==> bytes@[k] != 0x2fu8;
                        assert(bytes@[i as int] == 0x2fu8);
                    }
                }
                return false;
            }
            slash = Some(i);
        }
        i = i + 1;
    }
    match slash {
        Some(p) => {
            proof {
                if valid_repo_name(bytes@) {
                    let q = choose|q: int|
                        0 < q < bytes@.len() - 1 && bytes@[q] == 0x2fu8 && forall|k: int|
                            0 <= k < bytes@.len() && k != q ==> bytes@[k] != 0x2fu8;
                    assert(q == p);
                }
            }
            p < n - 1
        },
        None => false,
    }
}

/// Registering a URL a second time is refused with IssueAlreadyExists once the
/// other inputs pass validation.
pub proof fn law_duplicate_url_rejected(
    m: RegistryModel,
    h: [u8; 32],
    name: String,
    issue_number: u32,
    target_bounty: u128,
    block: u32,
    name2: String,
    issue_number2: u32,
    target_bounty2: u128,
    block2: u32,
)
    requires
        m.wf(),
        m.register(h@, name, issue_number, target_bounty, block) is Ok,
        target_bounty2 >= MIN_BOUNTY,
        issue_number2 != 0,
        valid_repo_name(vstd::utf8::encode_utf8(name2@)),
    ensures
        m.registered(h, name, issue_number, target_bounty, block).register(
            h@,
            name2,
            issue_number2,
            target_bounty2,
            block2,
        ) == Err::<u64, Error>(Error::IssueAlreadyExists),
{
    let m2 = m.registered(h, name, issue_number, target_bounty, block);
    let k = m.issues.len() as int;
    assert(m2.issues[k].github_url_hash@ == h@);
    assert(hash_taken(m2.issues, h@));
}

/// Cancelling returns exactly the issue's escrow to the pool, leaves the issue
/// Cancelled with no escrow, and a second cancellation fails with CannotCancel.
pub proof fn law_cancel_returns_escrow(m: RegistryModel, id: u64)
    requires
        m.wf(),
        m.cancel(id) is Ok,
        m.pool + m.issues[id - 1].bounty_amount <= u128::MAX,
    ensures
        m.cancelled(id).pool == m.pool + m.issues[id - 1].bounty_amount,
        m.cancelled(id).issues[id - 1].status == IssueStatus::Cancelled,
        m.cancelled(id).issues[id - 1].bounty_amount == 0,
        m.cancelled(id).cancel(id) == Err::<u128, Error>(Error::CannotCancel),
{
}

/// Order-preserving removal keeps the remaining entries in their order.
pub proof fn law_ordered_removal_keeps_order(q: Seq<u64>, i: int)
    requires
        0 <= i < q.len(),
    ensures
        removed(q, i, QueueRemoval::Ordered) == q.subrange(0, i) + q.subrange(i + 1, q.len() as int),
{
    assert(removed(q, i, QueueRemoval::Ordered) =~= q.subrange(0, i) + q.subrange(
        i + 1,
        q.len() as int,
    ));
}

/// From a zero baseline, a harvest at treasury stake `stake` recognises all of
/// it and takes it as the new baseline, lowered by what the host chain moved or
/// recycled; a second harvest at the stake that is left recognises nothing, and
/// when nothing left the treasury, neither does a second harvest at `stake`.
pub proof fn law_harvest_delta(m: RegistryModel, stake: u128, moved: bool, recycled: bool, block: u32)
    requires
        m.last_known_stake == 0,
    ensures
        m.harvest_plan(stake).harvested == stake,
        m.harvest_begun(stake).last_known_stake == stake,
        ({
            let plan = m.harvest_plan(stake);
            let after = m.harvest_begun(stake).harvest_settled(plan, moved, recycled, block);
            let out_moved = if plan.to_move > 0 && moved { plan.to_move } else { 0 };
            let out_recycled = if plan.to_recycle > 0 && recycled { plan.to_recycle } else { 0 };
            let left = sat_sub(sat_sub(stake, out_moved), out_recycled);
            &&& after.last_known_stake == left
            &&& after.harvest_plan(left).harvested == 0
            &&& out_moved == 0 && out_recycled == 0 ==> after.harvest_plan(stake).harvested == 0
        }),
{
}

} // verus!
