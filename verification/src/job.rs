//! A mining job: a `NewMiningJob` paired with the `SetNewPrevHash` of its block.

use vstd::prelude::*;
use std::sync::Arc;
use std::sync::atomic::AtomicU32;
use std::sync::atomic::Ordering;
use bitcoin_hashes::sha256d;
use crate::hashes::sha256d_from_bytes;
use crate::hashes::sha256d_from_slice;
use crate::messages::NewMiningJob;
use crate::messages::SetNewPrevHash;

verus! {

/// The bits of the block version that the miner may roll.
pub const VERSION_MASK: u32 = 0x1fffe000;

/// What a job is made of, without the shared block height it watches.
pub struct JobView {
    pub id: u32,
    pub channel_id: u32,
    pub block_height: u32,
    pub version: u32,
    pub prev_hash: sha256d::Hash,
    pub merkle_root: sha256d::Hash,
    pub time: u32,
    pub max_time: u32,
    pub bits: u32,
}

/// The latest time of a previous-hash announcement fits in 32 bits.
pub open spec fn ntime_fits(p: SetNewPrevHash) -> bool {
    p.min_ntime + p.max_ntime_offset <= u32::MAX
}

/// The job that pairs `job` with the previous-hash announcement `p`.
pub open spec fn spec_job(job: NewMiningJob, p: SetNewPrevHash) -> JobView {
    JobView {
        id: job.job_id,
        channel_id: job.channel_id,
        block_height: job.block_height,
        version: job.version,
        prev_hash: sha256d_from_bytes(p.prev_hash.0@),
        merkle_root: sha256d_from_bytes(job.merkle_root.0@),
        time: p.min_ntime,
        max_time: (p.min_ntime + p.max_ntime_offset) as u32,
        bits: p.nbits,
    }
}

/// A job handed to the hashing hardware. It watches the block height that the
/// event handler publishes, so that it turns stale once a newer block is announced.
pub struct StratumJob {
    id: u32,
    channel_id: u32,
    block_height: u32,
    current_block_height: Arc<AtomicU32>,
    version: u32,
    prev_hash: sha256d::Hash,
    merkle_root: sha256d::Hash,
    time: u32,
    max_time: u32,
    bits: u32,
}

impl View for StratumJob {
    type V = JobView;

    closed spec fn view(&self) -> JobView {
        JobView {
            id: self.id,
            channel_id: self.channel_id,
            block_height: self.block_height,
            version: self.version,
            prev_hash: self.prev_hash,
            merkle_root: self.merkle_root,
            time: self.time,
            max_time: self.max_time,
            bits: self.bits,
        }
    }
}

/// Calls `<Arc<AtomicU32> as Clone>::clone`: a second handle on the same shared height.
#[verifier::external_body]
pub(crate) fn share_block_height(height: &Arc<AtomicU32>) -> (r: Arc<AtomicU32>)
    ensures
        r == *height,
{
    height.clone()
}

impl Clone for StratumJob {
    /// The same job, watching the same shared block height.
    fn clone(&self) -> (r: Self)
        ensures
            r@ == self@,
            r.watched() == self.watched(),
    {
        StratumJob {
            id: self.id,
            channel_id: self.channel_id,
            block_height: self.block_height,
            current_block_height: share_block_height(&self.current_block_height),
            version: self.version,
            prev_hash: self.prev_hash,
            merkle_root: self.merkle_root,
            time: self.time,
            max_time: self.max_time,
            bits: self.bits,
        }
    }
}

impl StratumJob {
    /// The shared block height that the job watches to tell whether it is stale.
    pub closed spec fn watched(&self) -> Arc<AtomicU32> {
        self.current_block_height
    }

    /// Pairs a job with the previous-hash announcement of the same block.
    pub fn new(
        job_msg: &NewMiningJob,
        prevhash_msg: &SetNewPrevHash,
        current_block_height: Arc<AtomicU32>,
    ) -> (job: Self)
        requires
            job_msg.block_height == prevhash_msg.block_height,
            ntime_fits(*prevhash_msg),
        ensures
            job@ == spec_job(*job_msg, *prevhash_msg),
            job.watched() == current_block_height,
            job@.id == job_msg.job_id,
            job@.channel_id == job_msg.channel_id,
            job@.block_height == job_msg.block_height,
            job@.version == job_msg.version,
            job@.prev_hash == sha256d_from_bytes(prevhash_msg.prev_hash.0@),
            job@.merkle_root == sha256d_from_bytes(job_msg.merkle_root.0@),
            job@.time == prevhash_msg.min_ntime,
            job@.max_time == prevhash_msg.min_ntime + prevhash_msg.max_ntime_offset,
            job@.bits == prevhash_msg.nbits,
    {
        let prev_hash = match sha256d_from_slice(prevhash_msg.prev_hash.0.as_slice()) {
            Ok(h) => h,
            Err(_) => vstd::pervasive::unreached(),
        };
        let merkle_root = match sha256d_from_slice(job_msg.merkle_root.0.as_slice()) {
            Ok(h) => h,
            Err(_) => vstd::pervasive::unreached(),
        };
        StratumJob {
            id: job_msg.job_id,
            channel_id: job_msg.channel_id,
            block_height: job_msg.block_height,
            current_block_height,
            version: job_msg.version,
            prev_hash,
            merkle_root,
            time: prevhash_msg.min_ntime,
            max_time: prevhash_msg.min_ntime + prevhash_msg.max_ntime_offset as u32,
            bits: prevhash_msg.nbits,
        }
    }

    /// The job identifier assigned by the pool.
    pub fn id(&self) -> (r: u32)
        ensures
            r == self@.id,
    {
        self.id
    }

    /// The channel on which the job came.
    pub fn channel_id(&self) -> (r: u32)
        ensures
            r == self@.channel_id,
    {
        self.channel_id
    }

    /// The height of the block that the job builds.
    pub fn block_height(&self) -> (r: u32)
        ensures
            r == self@.block_height,
    {
        self.block_height
    }

    /// The block version.
    pub fn version(&self) -> (r: u32)
        ensures
            r == self@.version,
    {
        self.version
    }

    /// The bits of the version that may be rolled.
    pub fn version_mask(&self) -> (r: u32)
        ensures
            r == VERSION_MASK,
    {
        VERSION_MASK
    }

    /// The hash of the previous block.
    pub fn previous_hash(&self) -> (r: &sha256d::Hash)
        ensures
            *r == self@.prev_hash,
    {
        &self.prev_hash
    }

    /// The Merkle root of the block's transactions.
    pub fn merkle_root(&self) -> (r: &sha256d::Hash)
        ensures
            *r == self@.merkle_root,
    {
        &self.merkle_root
    }

    /// The earliest block time.
    pub fn time(&self) -> (r: u32)
        ensures
            r == self@.time,
    {
        self.time
    }

    /// The latest block time.
    pub fn max_time(&self) -> (r: u32)
        ensures
            r == self@.max_time,
    {
        self.max_time
    }

    /// The compact target of the block.
    pub fn bits(&self) -> (r: u32)
        ensures
            r == self@.bits,
    {
        self.bits
    }

    /// Whether the job is still worth mining when the newest announced block height
    /// is `current_block_height`: it is, unless it builds an older block.
    pub fn is_valid_at(&self, current_block_height: u32) -> (r: bool)
        ensures
            r == (self@.block_height >= current_block_height),
    {
        self.block_height >= current_block_height
    }

    /// Whether the job is still worth mining, judged against the block height that the
    /// event handler last published. That height is written by another task, so this
    /// states only what holds whatever was read.
    pub fn is_valid(&self) -> (r: bool)
        ensures
            self@.block_height == u32::MAX ==> r,
    {
        let current = self.current_block_height.load(Ordering::Relaxed);
        self.is_valid_at(current)
    }
}

/// A job takes its identity, channel, height, version and Merkle root from the mining
/// job, and its previous hash, time window and compact target from the announcement;
/// its latest time is the announcement's earliest time plus the offset it allows.
pub proof fn lemma_job_fields(job: NewMiningJob, p: SetNewPrevHash)
    requires
        ntime_fits(p),
    ensures
        spec_job(job, p).id == job.job_id,
        spec_job(job, p).channel_id == job.channel_id,
        spec_job(job, p).block_height == job.block_height,
        spec_job(job, p).version == job.version,
        spec_job(job, p).prev_hash == sha256d_from_bytes(p.prev_hash.0@),
        spec_job(job, p).merkle_root == sha256d_from_bytes(job.merkle_root.0@),
        spec_job(job, p).time == p.min_ntime,
        spec_job(job, p).max_time == p.min_ntime + p.max_ntime_offset,
        spec_job(job, p).max_time >= spec_job(job, p).time,
        spec_job(job, p).bits == p.nbits,
{
}

} // verus!
