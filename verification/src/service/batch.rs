//! Planning of a batch login with random MAC addresses: which account each
//! attempt uses, when the batch stops, and its summary.

use vstd::prelude::*;
use crate::error::{code_of, public_message_of, SrunError};
use crate::random::random_below;
use crate::service::model::{LoginResult, RandomLoginBatchResult, RandomLoginResult, User};
use crate::service::users::distinct_usernames;
use crate::text::owned;

verus! {

/// The largest batch a request may ask for.
pub const MAX_BATCH_COUNT: u32 = 100;

/// How often one account may be used within a batch.
pub const MAX_LOGIN_PER_USER: u32 = 3;

/// Checks that a batch size is between one and the limit.
pub fn validate_batch_count(count: u32) -> (r: Result<(), SrunError>)
    ensures
        1 <= count <= MAX_BATCH_COUNT ==> r is Ok,
        !(1 <= count <= MAX_BATCH_COUNT) ==> (r matches Err(SrunError::Validation { field, message })
            && field@ == "count"@ && message@ == "count must be between 1 and 100."@),
{
    if count < 1 || count > MAX_BATCH_COUNT {
        return Err(
            SrunError::Validation {
                field: "count",
                message: owned("count must be between 1 and 100."),
            },
        );
    }
    Ok(())
}

/// The reason given when every account has been used up.
pub open spec fn exhausted_reason() -> Seq<char> {
    "Stopped because every account reached the per-batch limit of 3 attempts."@
}

/// The reason given when a temporary interface could not be removed.
pub open spec fn cleanup_reason() -> Seq<char> {
    "Stopped because a temporary interface could not be cleaned up safely."@
}

/// Whether a failed attempt left a temporary interface behind.
pub open spec fn is_cleanup_failure(r: Result<LoginResult, SrunError>) -> bool {
    r matches Err(e) && (e is CleanupFailed || e is OperationAndCleanupFailed)
}

/// Number of successful attempts among `results`.
pub open spec fn successes(results: Seq<RandomLoginResult>) -> nat
    decreases results.len(),
{
    if results.len() == 0 {
        0
    } else {
        successes(results.drop_last()) + if results.last().success {
            1nat
        } else {
            0nat
        }
    }
}

proof fn lemma_successes_bound(results: Seq<RandomLoginResult>)
    ensures
        successes(results) <= results.len(),
    decreases results.len(),
{
    if results.len() > 0 {
        lemma_successes_bound(results.drop_last());
    }
}

/// Total number of attempts counted in `usage`.
pub open spec fn usage_sum(usage: Seq<u32>) -> nat
    decreases usage.len(),
{
    if usage.len() == 0 {
        0
    } else {
        usage_sum(usage.drop_last()) + usage.last() as nat
    }
}

/// Changing one counter changes the total by the difference.
proof fn lemma_usage_sum_update(usage: Seq<u32>, i: int, v: u32)
    requires
        0 <= i < usage.len(),
    ensures
        usage_sum(usage.update(i, v)) == usage_sum(usage) - usage[i] + v,
    decreases usage.len(),
{
    let u2 = usage.update(i, v);
    if i == usage.len() - 1 {
        assert(u2.drop_last() =~= usage.drop_last());
    } else {
        lemma_usage_sum_update(usage.drop_last(), i, v);
        assert(u2.drop_last() =~= usage.drop_last().update(i, v));
    }
}

/// Counters all at zero total zero.
proof fn lemma_usage_sum_zero(usage: Seq<u32>)
    requires
        forall|i: int| 0 <= i < usage.len() ==> #[trigger] usage[i] == 0,
    ensures
        usage_sum(usage) == 0,
    decreases usage.len(),
{
    if usage.len() > 0 {
        lemma_usage_sum_zero(usage.drop_last());
    }
}

/// Counters none above the limit total at most the limit per account, and
/// exactly that when every counter is at the limit.
proof fn lemma_usage_sum_limit(usage: Seq<u32>)
    requires
        forall|i: int| 0 <= i < usage.len() ==> #[trigger] usage[i] <= MAX_LOGIN_PER_USER,
    ensures
        usage_sum(usage) <= MAX_LOGIN_PER_USER * usage.len(),
        (forall|i: int| 0 <= i < usage.len() ==> #[trigger] usage[i] == MAX_LOGIN_PER_USER)
            ==> usage_sum(usage) == MAX_LOGIN_PER_USER * usage.len(),
    decreases usage.len(),
{
    if usage.len() > 0 {
        let p = usage.drop_last();
        assert forall|i: int| 0 <= i < p.len() implies #[trigger] p[i] <= MAX_LOGIN_PER_USER by {
            assert(p[i] == usage[i]);
        }
        lemma_usage_sum_limit(p);
        assert(usage.last() == usage[usage.len() - 1]);
        if forall|i: int| 0 <= i < usage.len() ==> #[trigger] usage[i] == MAX_LOGIN_PER_USER {
            assert forall|i: int| 0 <= i < p.len() implies #[trigger] p[i] == MAX_LOGIN_PER_USER by {
                assert(p[i] == usage[i]);
            }
        }
    }
}

/// The two reasons for stopping early are told apart.
proof fn lemma_stop_reasons_differ()
    ensures
        exhausted_reason() != cleanup_reason(),
{
    reveal_strlit("Stopped because every account reached the per-batch limit of 3 attempts.");
    reveal_strlit("Stopped because a temporary interface could not be cleaned up safely.");
    assert(exhausted_reason()[16] != cleanup_reason()[16]);
}

/// The indices of the accounts used fewer than the limit, in account order:
/// those an attempt can be drawn from.
pub open spec fn available_indices(usage: Seq<u32>) -> Seq<int>
    decreases usage.len(),
{
    if usage.len() == 0 {
        Seq::empty()
    } else if usage.last() < MAX_LOGIN_PER_USER {
        available_indices(usage.drop_last()).push(usage.len() - 1)
    } else {
        available_indices(usage.drop_last())
    }
}

/// Each available index names an account under the limit, and every account
/// under the limit is available.
proof fn lemma_available_indices(usage: Seq<u32>)
    ensures
        forall|m: int| 0 <= m < available_indices(usage).len() ==> {
            let i = #[trigger] available_indices(usage)[m];
            0 <= i < usage.len() && usage[i] < MAX_LOGIN_PER_USER
        },
        forall|i: int| 0 <= i < usage.len() && #[trigger] usage[i] < MAX_LOGIN_PER_USER
            ==> available_indices(usage).contains(i),
    decreases usage.len(),
{
    if usage.len() > 0 {
        let p = usage.drop_last();
        lemma_available_indices(p);
        let a = available_indices(usage);
        let ap = available_indices(p);
        assert forall|m: int| 0 <= m < a.len() implies {
            let i = #[trigger] a[m];
            0 <= i < usage.len() && usage[i] < MAX_LOGIN_PER_USER
        } by {
            if m < ap.len() {
                assert(a[m] == ap[m]);
                assert(usage[ap[m]] == p[ap[m]]);
            }
        }
        assert forall|i: int| 0 <= i < usage.len() && #[trigger] usage[i] < MAX_LOGIN_PER_USER implies a.contains(i) by {
            if i < usage.len() - 1 {
                assert(p[i] == usage[i]);
                let w = choose|w: int| 0 <= w < ap.len() && ap[w] == i;
                assert(a[w] == i);
            } else {
                assert(a[a.len() - 1] == i);
            }
        }
    }
}

/// The indices of the accounts used fewer than the limit, in account order.
pub fn available_accounts(usage: &Vec<u32>) -> (v: Vec<usize>)
    ensures
        v@.len() == available_indices(usage@).len(),
        forall|m: int| 0 <= m < v@.len() ==> #[trigger] v@[m] as int == available_indices(usage@)[m],
{
    let mut v: Vec<usize> = Vec::new();
    let mut i: usize = 0;
    while i < usage.len()
        invariant
            i <= usage.len(),
            v@.len() == available_indices(usage@.take(i as int)).len(),
            forall|m: int| 0 <= m < v@.len() ==> #[trigger] v@[m] as int == available_indices(usage@.take(i as int))[m],
        decreases usage.len() - i,
    {
        proof {
            let t = usage@.take(i + 1);
            assert(t.drop_last() =~= usage@.take(i as int));
            assert(t.last() == usage@[i as int]);
        }
        if usage[i] < MAX_LOGIN_PER_USER {
            v.push(i);
        }
        i = i + 1;
    }
    assert(usage@.take(usage.len() as int) =~= usage@);
    v
}

/// The index of the `k`-th account (counting from zero, in account order)
/// used fewer than the limit.
pub fn nth_available(usage: &Vec<u32>, k: usize) -> (i: usize)
    requires
        k < available_indices(usage@).len(),
    ensures
        i as int == available_indices(usage@)[k as int],
{
    let v = available_accounts(usage);
    v[k]
}

/// A recorded outcome whose success, data and error agree.
pub open spec fn consistent_outcome(o: RandomLoginResult) -> bool {
    &&& o.success == (o.data is Some)
    &&& o.success == (o.error is None)
}

/// The state of a batch: the accounts, how often each has been tried, the
/// outcomes so far, why the batch stopped early (if it did), and the account of
/// the attempt under way.
pub struct BatchPlan {
    users: Vec<User>,
    usage: Vec<u32>,
    requested: u32,
    results: Vec<RandomLoginResult>,
    stopped_reason: Option<String>,
    pending: Option<usize>,
}

/// `new` is `old` after the attempt with the `k`-th available account: that
/// account's counter goes up by one, the attempt is under way, and its
/// credentials are `username` and `password`.
pub open spec fn attempt_made(old: BatchPlan, new: BatchPlan, k: int, username: Seq<char>, password: Seq<char>) -> bool {
    let avail = available_indices(old.usage());
    &&& 0 <= k < avail.len()
    &&& new.accounts() == old.accounts()
    &&& new.requested() == old.requested()
    &&& new.outcomes() == old.outcomes()
    &&& new.stop_reason() is None
    &&& new.pending() == Some(avail[k] as usize)
    &&& new.usage() == old.usage().update(avail[k], (old.usage()[avail[k]] + 1) as u32)
    &&& username == old.accounts()[avail[k]].username@
    &&& password == old.accounts()[avail[k]].password@
}

impl BatchPlan {
    /// The accounts.
    pub closed spec fn accounts(&self) -> Seq<User> {
        self.users@
    }

    /// How many attempts each account has been given.
    pub closed spec fn usage(&self) -> Seq<u32> {
        self.usage@
    }

    /// The number of attempts asked for.
    pub closed spec fn requested(&self) -> u32 {
        self.requested
    }

    /// The outcomes recorded so far.
    pub closed spec fn outcomes(&self) -> Seq<RandomLoginResult> {
        self.results@
    }

    /// Why the batch stopped early, if it did.
    pub closed spec fn stop_reason(&self) -> Option<Seq<char>> {
        match self.stopped_reason {
            Some(s) => Some(s@),
            None => None,
        }
    }

    /// The account of the attempt under way, if any.
    pub closed spec fn pending(&self) -> Option<usize> {
        self.pending
    }

    /// The batch's consistency: one counter per account, none above the
    /// limit; the counters add up to the outcomes recorded and the attempt under
    /// way, which together are no more than requested; a pending attempt names
    /// an account; a stopped batch has no attempt under way and says why, and a
    /// batch stopped for want of accounts has used every account up; each
    /// outcome's success, data and error agree.
    pub open spec fn wf(&self) -> bool {
        &&& self.usage().len() == self.accounts().len()
        &&& forall|i: int| 0 <= i < self.usage().len() ==> #[trigger] self.usage()[i] <= MAX_LOGIN_PER_USER
        &&& usage_sum(self.usage()) == self.outcomes().len() + (if self.pending() is Some { 1int } else { 0int })
        &&& self.outcomes().len() + (if self.pending() is Some { 1int } else { 0int }) <= self.requested()
        &&& (self.pending() matches Some(i) ==> i < self.accounts().len())
        &&& (self.stop_reason() is Some ==> self.pending() is None)
        &&& (self.stop_reason() is None || self.stop_reason() == Some(exhausted_reason())
            || self.stop_reason() == Some(cleanup_reason()))
        &&& (self.stop_reason() == Some(exhausted_reason()) ==> forall|i: int|
            0 <= i < self.usage().len() ==> #[trigger] self.usage()[i] == MAX_LOGIN_PER_USER)
        &&& forall|k: int| 0 <= k < self.outcomes().len() ==> consistent_outcome(#[trigger] self.outcomes()[k])
        &&& distinct_usernames(self.accounts())
    }

    /// A batch of `requested` attempts over `users`, none made yet.
    pub fn new(users: Vec<User>, requested: u32) -> (plan: Self)
        requires
            distinct_usernames(users@),
        ensures
            plan.wf(),
            plan.accounts() == users@,
            plan.requested() == requested,
            plan.outcomes().len() == 0,
            plan.stop_reason() is None,
            plan.pending() is None,
            forall|i: int| 0 <= i < users@.len() ==> #[trigger] plan.usage()[i] == 0,
    {
        let mut usage: Vec<u32> = Vec::new();
        let mut i: usize = 0;
        while i < users.len()
            invariant
                i <= users.len(),
                usage@.len() == i,
                forall|k: int| 0 <= k < i ==> #[trigger] usage@[k] == 0,
            decreases users.len() - i,
        {
            usage.push(0);
            i = i + 1;
        }
        proof {
            lemma_usage_sum_zero(usage@);
        }
        BatchPlan { users, usage, requested, results: Vec::new(), stopped_reason: None, pending: None }
    }

    /// Starts the attempt with the `k`-th account (in account order) among
    /// those tried fewer than three times: counts it and hands out its
    /// credentials.
    pub fn attempt_with(&mut self, k: usize) -> (r: (String, String))
        requires
            old(self).wf(),
            old(self).stop_reason() is None,
            old(self).pending() is None,
            old(self).outcomes().len() < old(self).requested(),
            k < available_indices(old(self).usage()).len(),
        ensures
            final(self).wf(),
            attempt_made(*old(self), *final(self), k as int, r.0@, r.1@),
    {
        let idx = nth_available(&self.usage, k);
        proof {
            lemma_available_indices(self.usage@);
            assert(0 <= available_indices(self.usage@)[k as int]);
        }
        let count = self.usage[idx];
        proof {
            lemma_usage_sum_update(self.usage@, idx as int, (count + 1) as u32);
        }
        self.usage.set(idx, count + 1);
        self.pending = Some(idx);
        let username = self.users[idx].username.clone();
        let password = self.users[idx].password.clone();
        (username, password)
    }

    /// Chooses the account for the next attempt, at random among those tried
    /// fewer than three times (`attempt_with` a random position among them),
    /// and counts the attempt. There is none when the batch is complete, has
    /// stopped, or awaits an outcome; when every account is used up the batch
    /// stops with that reason. So a batch that ends with fewer attempts than
    /// requested always says why.
    pub fn next_attempt(&mut self) -> (r: Option<(String, String)>)
        requires
            old(self).wf(),
        ensures
            final(self).wf(),
            final(self).accounts() == old(self).accounts(),
            final(self).requested() == old(self).requested(),
            final(self).outcomes() == old(self).outcomes(),
            (r is None && old(self).pending() is None) ==> (final(self).outcomes().len() >= final(self).requested()
                || final(self).stop_reason() is Some),
            (old(self).stop_reason() is Some || old(self).pending() is Some
                || old(self).outcomes().len() >= old(self).requested()) ==> r is None && *final(self)
                == *old(self),
            (old(self).stop_reason() is None && old(self).pending() is None
                && old(self).outcomes().len() < old(self).requested()) ==> match r {
                None => available_indices(old(self).usage()).len() == 0
                    && (forall|i: int| 0 <= i < old(self).usage().len() ==> #[trigger] old(self).usage()[i]
                    >= MAX_LOGIN_PER_USER) && final(self).stop_reason() == Some(exhausted_reason())
                    && final(self).usage() == old(self).usage() && final(self).pending() is None,
                Some(pair) => exists|k: int|
                    #![trigger available_indices(old(self).usage())[k]]
                    attempt_made(*old(self), *final(self), k, pair.0@, pair.1@),
            },
    {
        if self.stopped_reason.is_some() || self.pending.is_some() || self.results.len() >= self.requested as usize {
            return None;
        }
        let available = available_accounts(&self.usage);
        if available.len() == 0 {
            proof {
                lemma_available_indices(self.usage@);
                assert forall|i: int| 0 <= i < self.usage@.len() implies #[trigger] self.usage@[i] >= MAX_LOGIN_PER_USER by {
                    if self.usage@[i] < MAX_LOGIN_PER_USER {
                        assert(available_indices(self.usage@).contains(i));
                    }
                }
            }
            self.stopped_reason = Some(owned("Stopped because every account reached the per-batch limit of 3 attempts."));
            return None;
        }
        let k = random_below(available.len());
        let (username, password) = self.attempt_with(k);
        assert(attempt_made(*old(self), *self, k as int, username@, password@));
        Some((username, password))
    }

    /// Records the outcome of the attempt under way, made with the MAC text
    /// `mac`. An attempt that left a temporary interface behind stops the batch.
    /// Without an attempt under way nothing changes.
    pub fn record(&mut self, mac: String, result: Result<LoginResult, SrunError>)
        requires
            old(self).wf(),
        ensures
            final(self).wf(),
            final(self).accounts() == old(self).accounts(),
            final(self).requested() == old(self).requested(),
            final(self).usage() == old(self).usage(),
            old(self).pending() is None ==> *final(self) == *old(self),
            old(self).pending() is Some ==> {
                &&& final(self).pending() is None
                &&& final(self).outcomes().len() == old(self).outcomes().len() + 1
                &&& final(self).outcomes().drop_last() == old(self).outcomes()
                &&& final(self).outcomes().last().mac == mac
                &&& final(self).outcomes().last().success == (result is Ok)
                &&& match result {
                    Ok(data) => final(self).outcomes().last().data == Some(data)
                        && final(self).outcomes().last().error is None,
                    Err(e) => final(self).outcomes().last().data is None
                        && (final(self).outcomes().last().error matches Some(ae) && ae.code@ == code_of(e)
                        && ae.message@ == public_message_of(e)),
                }
                &&& final(self).stop_reason() == if is_cleanup_failure(result) {
                    Some(cleanup_reason())
                } else {
                    old(self).stop_reason()
                }
            },
    {
        if self.pending.is_none() {
            return;
        }
        let cleanup_failed = match &result {
            Err(SrunError::CleanupFailed { .. }) | Err(SrunError::OperationAndCleanupFailed { .. }) => true,
            _ => false,
        };
        let entry = RandomLoginResult::from_result(mac, result);
        let ghost before = self.results@;
        self.results.push(entry);
        assert forall|k: int| 0 <= k < self.results@.len() implies consistent_outcome(
            #[trigger] self.results@[k],
        ) by {
            if k < before.len() {
                assert(self.results@[k] == before[k]);
            }
        }
        self.pending = None;
        if cleanup_failed {
            self.stopped_reason = Some(owned("Stopped because a temporary interface could not be cleaned up safely."));
        }
        proof {
            lemma_stop_reasons_differ();
        }
    }

    /// The summary: counts of attempts, successes and failures, the early stop
    /// reason, and every outcome in order.
    pub fn finish(self) -> (r: RandomLoginBatchResult)
        requires
            self.wf(),
        ensures
            r.requested == self.requested(),
            r.results@ == self.outcomes(),
            r.attempted as nat == self.outcomes().len(),
            r.succeeded as nat == successes(self.outcomes()),
            r.failed == r.attempted - r.succeeded,
            r.attempted <= r.requested,
            r.stopped_reason matches Some(s) ==> self.stop_reason() == Some(s@),
            r.stopped_reason is None ==> self.stop_reason() is None,
    {
        let mut succeeded: u32 = 0;
        let mut i: usize = 0;
        while i < self.results.len()
            invariant
                i <= self.results@.len() <= self.requested,
                succeeded as nat == successes(self.results@.take(i as int)),
                succeeded <= i,
            decreases self.results@.len() - i,
        {
            proof {
                assert(self.results@.take(i + 1).drop_last() =~= self.results@.take(i as int));
                lemma_successes_bound(self.results@.take(i as int));
            }
            if self.results[i].success {
                succeeded = succeeded + 1;
            }
            i = i + 1;
        }
        assert(self.results@.take(self.results@.len() as int) =~= self.results@);
        let attempted = self.results.len() as u32;
        RandomLoginBatchResult {
            requested: self.requested,
            attempted,
            succeeded,
            failed: attempted - succeeded,
            stopped_reason: self.stopped_reason,
            results: self.results,
        }
    }
}

/// A batch that has ended without a cleanup failure, that is one for which
/// `next_attempt` offers nothing more with no attempt under way, made as many
/// attempts as were requested, or three per account where that is fewer.
pub proof fn lemma_finished_batch_attempts(plan: BatchPlan)
    requires
        plan.wf(),
        plan.pending() is None,
        plan.stop_reason() != Some(cleanup_reason()),
        plan.stop_reason() is Some || plan.outcomes().len() >= plan.requested(),
    ensures
        plan.outcomes().len() == if plan.requested() <= MAX_LOGIN_PER_USER * plan.accounts().len() {
            plan.requested() as int
        } else {
            MAX_LOGIN_PER_USER * plan.accounts().len()
        },
{
    lemma_usage_sum_limit(plan.usage());
}

} // verus!
