//! Turning solutions found by the hashing hardware into share submissions.

use vstd::prelude::*;
use crate::job::StratumJob;
use crate::messages::SubmitShares;

verus! {

/// A solution of a job, as the hashing hardware reports it.
#[derive(Clone, Copy, Debug)]
pub struct MiningWorkSolution {
    pub nonce: u32,
    pub time_offset: u16,
    pub version: u32,
}

/// The sequence number that follows `n`: one more, wrapping to 0 after `u32::MAX`.
pub open spec fn next_seq_num(n: u32) -> u32 {
    ((n + 1) % 0x1_0000_0000) as u32
}

/// The sequence number after `k` shares submitted from `start`.
pub open spec fn seq_num_after(start: u32, k: nat) -> u32
    decreases k,
{
    if k == 0 {
        start
    } else {
        next_seq_num(seq_num_after(start, (k - 1) as nat))
    }
}

/// Numbers the shares that go back to the pool.
pub struct StratumSolutionHandler {
    seq_num: u32,
}

impl View for StratumSolutionHandler {
    type V = u32;

    /// The sequence number of the next share.
    closed spec fn view(&self) -> u32 {
        self.seq_num
    }
}

impl StratumSolutionHandler {
    /// A handler whose first share gets sequence number 0.
    pub fn new() -> (r: Self)
        ensures
            r@ == 0,
    {
        StratumSolutionHandler { seq_num: 0 }
    }

    /// The share submission for a solution of `job`; it takes the next sequence number.
    pub fn process_solution(&mut self, job: &StratumJob, solution: &MiningWorkSolution) -> (share: SubmitShares)
        ensures
            share.channel_id == job@.channel_id,
            share.seq_num == old(self)@,
            share.job_id == job@.id,
            share.nonce == solution.nonce,
            share.ntime_offset == solution.time_offset,
            share.version == solution.version,
            final(self)@ == next_seq_num(old(self)@),
    {
        let seq_num = self.seq_num;
        self.seq_num = self.seq_num.wrapping_add(1);
        SubmitShares {
            channel_id: job.channel_id(),
            seq_num,
            job_id: job.id(),
            nonce: solution.nonce,
            ntime_offset: solution.time_offset,
            version: solution.version,
        }
    }
}

/// After `k` shares the sequence number has advanced by `k`, modulo 2^32.
pub proof fn lemma_seq_num_after(start: u32, k: nat)
    ensures
        seq_num_after(start, k) == (start + k) % 0x1_0000_0000,
    decreases k,
{
    if k > 0 {
        lemma_seq_num_after(start, (k - 1) as nat);
        vstd::arithmetic::div_mod::lemma_add_mod_noop(start + k - 1, 1, 0x1_0000_0000);
    }
}

/// No two of any 2^32 consecutive shares carry the same sequence number.
pub proof fn lemma_seq_nums_distinct(start: u32, i: nat, j: nat)
    requires
        i < j < 0x1_0000_0000,
    ensures
        seq_num_after(start, i) != seq_num_after(start, j),
{
    lemma_seq_num_after(start, i);
    lemma_seq_num_after(start, j);
}

/// The sequence numbers of a run of `process_solution` calls: `states[k]` is the
/// handler's next number before the k-th call and `shares[k]` what that call returned.
pub open spec fn is_share_run(start: u32, states: Seq<u32>, shares: Seq<SubmitShares>) -> bool {
    &&& states.len() == shares.len() + 1
    &&& states[0] == start
    &&& forall|k: int| 0 <= k < shares.len() ==> #[trigger] shares[k].seq_num == states[k]
    &&& forall|k: int| 0 <= k < shares.len() ==> #[trigger] states[k + 1] == next_seq_num(states[k])
}

proof fn lemma_run_state(start: u32, states: Seq<u32>, shares: Seq<SubmitShares>, k: int)
    requires
        is_share_run(start, states, shares),
        0 <= k < states.len(),
    ensures
        states[k] == seq_num_after(start, k as nat),
    decreases k,
{
    if k > 0 {
        lemma_run_state(start, states, shares, k - 1);
        assert(states[(k - 1) + 1] == next_seq_num(states[k - 1]));
    }
}

/// Over any run of shares from a handler whose next number is `start`, the k-th share
/// carries `start + k` modulo 2^32: the numbers are consecutive, without gaps, and a
/// handler made by `new` numbers its k-th share `k mod 2^32`.
pub proof fn lemma_run_seq_nums(start: u32, states: Seq<u32>, shares: Seq<SubmitShares>)
    requires
        is_share_run(start, states, shares),
    ensures
        forall|k: int| 0 <= k < shares.len() ==> #[trigger] shares[k].seq_num == (start + k) % 0x1_0000_0000,
{
    assert forall|k: int| 0 <= k < shares.len() implies #[trigger] shares[k].seq_num == (start + k) % 0x1_0000_0000 by {
        lemma_run_state(start, states, shares, k);
        lemma_seq_num_after(start, k as nat);
    }
}

} // verus!
