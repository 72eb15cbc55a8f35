//! The event handler of the Stratum V2 client: what it keeps and what it asks the
//! miner to do on each message of the pool.
//!
//! The rules for pairing mining jobs with previous-hash announcements:
//!  - a mining job is stored under its block height, and mined at once when it is at
//!    the block height of the current previous-hash announcement;
//!  - a previous-hash announcement replaces the current one, publishes its block
//!    height to the jobs being mined, starts the job stored for that height and
//!    flushes every other stored job (they are now invalid).

use vstd::prelude::*;
use std::collections::HashMap;
use std::sync::Arc;
use std::sync::atomic::AtomicU32;
use std::sync::atomic::Ordering;
use crate::job::JobView;
use crate::job::StratumJob;
use crate::job::ntime_fits;
use crate::job::share_block_height;
use crate::job::spec_job;
use crate::messages::NewMiningJob;
use crate::messages::OpenChannelError;
use crate::messages::OpenChannelSuccess;
use crate::messages::SetNewPrevHash;
use crate::messages::SetTarget;
use crate::messages::SetupMiningConnectionError;
use crate::messages::SetupMiningConnectionSuccess;
use crate::messages::Uint256Bytes;
use crate::messages::V2Message;

verus! {

/// What the handler asks of the miner.
pub enum HandlerAction {
    /// Start mining this job in place of the current one.
    SendJob(StratumJob),
    /// Submit only shares that meet this target from now on.
    ChangeTarget(Uint256Bytes),
}

/// An action, with the job taken by its view.
pub enum ActionView {
    SendJob(JobView),
    ChangeTarget(Uint256Bytes),
}

impl View for HandlerAction {
    type V = ActionView;

    open spec fn view(&self) -> ActionView {
        match self {
            HandlerAction::SendJob(job) => ActionView::SendJob(job@),
            HandlerAction::ChangeTarget(t) => ActionView::ChangeTarget(*t),
        }
    }
}

/// An optional action, with the job taken by its view.
pub open spec fn action_view(a: Option<HandlerAction>) -> Option<ActionView> {
    match a {
        Some(a) => Some(a@),
        None => None,
    }
}

/// A job that the action sends, if any, watches the shared block height `height`.
pub open spec fn sent_job_watches(a: Option<HandlerAction>, height: Arc<AtomicU32>) -> bool {
    a matches Some(HandlerAction::SendJob(job)) ==> job.watched() == height
}

/// The state of the handler.
pub struct HandlerView {
    /// Whether the last setup or channel request was answered with success.
    pub status: Result<(), ()>,
    /// The jobs received, by block height.
    pub jobs: Map<u32, NewMiningJob>,
    /// The block height of the current previous-hash announcement (0 before any).
    pub block_height: u32,
    /// The current previous-hash announcement.
    pub prevhash: Option<SetNewPrevHash>,
}

/// Every job is stored under its own block height; the current announcement is at
/// the current block height and has a latest time that fits in 32 bits; and the
/// block height stays 0 until the first announcement.
pub open spec fn handler_inv(v: HandlerView) -> bool {
    &&& forall|h: u32| #[trigger] v.jobs.contains_key(h) ==> v.jobs[h].block_height == h
    &&& v.prevhash matches Some(p) ==> p.block_height == v.block_height && ntime_fits(p)
    &&& v.prevhash is None ==> v.block_height == 0
}

/// The state of a new handler.
pub open spec fn initial_view() -> HandlerView {
    HandlerView {
        status: Err(()),
        jobs: Map::empty(),
        block_height: 0,
        prevhash: None,
    }
}

/// The messages that the handler can take in state `v`: a previous-hash announcement
/// needs a stored job at its height and a latest time that fits in 32 bits.
pub open spec fn can_accept(v: HandlerView, msg: V2Message) -> bool {
    match msg {
        V2Message::SetNewPrevHash(p) => v.jobs.contains_key(p.block_height) && ntime_fits(p),
        _ => true,
    }
}

/// The state after the handler takes `msg` in state `v`.
pub open spec fn next_view(v: HandlerView, msg: V2Message) -> HandlerView {
    match msg {
        V2Message::NewMiningJob(j) => HandlerView {
            status: v.status,
            jobs: v.jobs.insert(j.block_height, j),
            block_height: v.block_height,
            prevhash: v.prevhash,
        },
        V2Message::SetNewPrevHash(p) => HandlerView {
            status: v.status,
            jobs: Map::empty().insert(p.block_height, v.jobs[p.block_height]),
            block_height: p.block_height,
            prevhash: Some(p),
        },
        V2Message::SetupMiningConnectionSuccess(_) => HandlerView {
            status: Ok(()),
            jobs: v.jobs,
            block_height: v.block_height,
            prevhash: v.prevhash,
        },
        V2Message::OpenChannelSuccess(_) => HandlerView {
            status: Ok(()),
            jobs: v.jobs,
            block_height: v.block_height,
            prevhash: v.prevhash,
        },
        V2Message::SetupMiningConnectionError(_) => HandlerView {
            status: Err(()),
            jobs: v.jobs,
            block_height: v.block_height,
            prevhash: v.prevhash,
        },
        V2Message::OpenChannelError(_) => HandlerView {
            status: Err(()),
            jobs: v.jobs,
            block_height: v.block_height,
            prevhash: v.prevhash,
        },
        _ => v,
    }
}

/// What the handler asks of the miner when it takes `msg` in state `v`.
pub open spec fn next_action(v: HandlerView, msg: V2Message) -> Option<ActionView> {
    match msg {
        V2Message::NewMiningJob(j) => if j.block_height == v.block_height && v.prevhash is Some {
            Some(ActionView::SendJob(spec_job(j, v.prevhash.unwrap())))
        } else {
            None
        },
        V2Message::SetNewPrevHash(p) => Some(ActionView::SendJob(spec_job(v.jobs[p.block_height], p))),
        V2Message::SetTarget(t) => Some(ActionView::ChangeTarget(t.max_target)),
        V2Message::OpenChannelSuccess(s) => Some(ActionView::ChangeTarget(s.init_target)),
        _ => None,
    }
}

/// The state `v` with the status reset to failure.
pub open spec fn with_failed_status(v: HandlerView) -> HandlerView {
    HandlerView { status: Err(()), jobs: v.jobs, block_height: v.block_height, prevhash: v.prevhash }
}

/// Keeps the jobs of the pool and the current previous-hash announcement, and turns
/// each message of the pool into what the miner has to do.
pub struct StratumEventHandler {
    status: Result<(), ()>,
    all_jobs: HashMap<u32, NewMiningJob>,
    /// The block height this handler last stored into `published_block_height`. The
    /// handler decides on this copy instead of loading the atomic back; the two agree
    /// as long as nothing else writes the atomic, which is assumed and not proved.
    current_block_height: u32,
    /// The block height shared with the jobs handed out, for their validity check.
    published_block_height: Arc<AtomicU32>,
    current_prevhash_msg: Option<SetNewPrevHash>,
}

impl View for StratumEventHandler {
    type V = HandlerView;

    closed spec fn view(&self) -> HandlerView {
        HandlerView {
            status: self.status,
            jobs: self.all_jobs@,
            block_height: self.current_block_height,
            prevhash: self.current_prevhash_msg,
        }
    }
}

impl StratumEventHandler {
    /// The handler's invariant.
    pub open spec fn wf(&self) -> bool {
        handler_inv(self@)
    }

    /// The handler's invariant, which every handler keeps.
    #[verifier::type_invariant]
    spec fn inv(&self) -> bool {
        handler_inv(self@)
    }

    /// The shared block height that the handler publishes and its jobs watch.
    pub closed spec fn published(&self) -> Arc<AtomicU32> {
        self.published_block_height
    }

    /// A handler that has no job, no announcement and no successful request yet.
    pub fn new() -> (r: Self)
        ensures
            r.wf(),
            r@ == initial_view(),
    {
        let r = StratumEventHandler {
            status: Err(()),
            all_jobs: HashMap::new(),
            current_block_height: 0,
            published_block_height: Arc::new(AtomicU32::new(0)),
            current_prevhash_msg: None,
        };
        proof {
            assert(r@.jobs =~= Map::empty());
        }
        r
    }

    /// The outcome of the last setup or channel request.
    pub fn status(&self) -> (r: Result<(), ()>)
        ensures
            r == self@.status,
    {
        self.status
    }

    /// Whether a job is stored for the given block height.
    pub fn has_job(&self, block_height: u32) -> (r: bool)
        ensures
            r == self@.jobs.contains_key(block_height),
    {
        self.all_jobs.contains_key(&block_height)
    }

    /// Whether the handler can take `msg` in its current state.
    pub fn can_accept(&self, msg: &V2Message) -> (r: bool)
        ensures
            r == can_accept(self@, *msg),
    {
        match msg {
            V2Message::SetNewPrevHash(p) => {
                self.all_jobs.contains_key(&p.block_height)
                    && p.min_ntime.checked_add(p.max_ntime_offset as u32).is_some()
            },
            _ => true,
        }
    }

    /// The job that pairs `job_msg` with the current previous-hash announcement.
    pub fn update_job(&self, job_msg: &NewMiningJob) -> (job: StratumJob)
        requires
            self@.prevhash is Some,
            job_msg.block_height == self@.block_height,
        ensures
            job@ == spec_job(*job_msg, self@.prevhash.unwrap()),
            job.watched() == self.published(),
    {
        proof {
            use_type_invariant(self);
        }
        let prevhash = match &self.current_prevhash_msg {
            Some(p) => p,
            None => vstd::pervasive::unreached(),
        };
        StratumJob::new(job_msg, prevhash, share_block_height(&self.published_block_height))
    }

    /// The action that sets a new share target.
    pub fn update_target(&self, new_target: Uint256Bytes) -> (r: HandlerAction)
        ensures
            r@ == ActionView::ChangeTarget(new_target),
    {
        HandlerAction::ChangeTarget(new_target)
    }

    /// Stores the job; mines it at once if it is at the current block height.
    pub fn visit_new_mining_job(&mut self, job_msg: &NewMiningJob) -> (r: Option<HandlerAction>)
        ensures
            final(self).wf(),
            final(self).published() == old(self).published(),
            final(self)@ == next_view(old(self)@, V2Message::NewMiningJob(*job_msg)),
            action_view(r) == next_action(old(self)@, V2Message::NewMiningJob(*job_msg)),
            sent_job_watches(r, old(self).published()),
            final(self)@.jobs.contains_key(job_msg.block_height),
            final(self)@.jobs[job_msg.block_height] == *job_msg,
            forall|h: u32| h != job_msg.block_height ==> (#[trigger] final(self)@.jobs.contains_key(h)
                <==> old(self)@.jobs.contains_key(h)),
            forall|h: u32| h != job_msg.block_height && old(self)@.jobs.contains_key(h)
                ==> #[trigger] final(self)@.jobs[h] == old(self)@.jobs[h],
    {
        proof {
            use_type_invariant(&*self);
        }
        let mut jobs = HashMap::new();
        std::mem::swap(&mut jobs, &mut self.all_jobs);
        let _ = jobs.insert(job_msg.block_height, *job_msg);
        self.all_jobs = jobs;
        let r = if job_msg.block_height == self.current_block_height && self.current_prevhash_msg.is_some() {
            Some(HandlerAction::SendJob(self.update_job(job_msg)))
        } else {
            None
        };
        proof {
            use_type_invariant(&*self);
        }
        r
    }

    /// Replaces the current announcement, publishes its block height and mines the job
    /// stored for that height.
    pub fn visit_set_new_prev_hash(&mut self, prevhash_msg: &SetNewPrevHash) -> (r: HandlerAction)
        requires
            can_accept(old(self)@, V2Message::SetNewPrevHash(*prevhash_msg)),
        ensures
            final(self).wf(),
            final(self).published() == old(self).published(),
            final(self)@ == next_view(old(self)@, V2Message::SetNewPrevHash(*prevhash_msg)),
            Some(r@) == next_action(old(self)@, V2Message::SetNewPrevHash(*prevhash_msg)),
            sent_job_watches(Some(r), old(self).published()),
    {
        proof {
            use_type_invariant(&*self);
        }
        let current_block_height = prevhash_msg.block_height;
        self.published_block_height.store(current_block_height, Ordering::Relaxed);
        let mut jobs = HashMap::new();
        std::mem::swap(&mut jobs, &mut self.all_jobs);
        let job_msg = match jobs.remove(&current_block_height) {
            Some(j) => j,
            None => vstd::pervasive::unreached(),
        };
        // every other job is now invalid
        jobs.clear();
        let _ = jobs.insert(job_msg.block_height, job_msg);
        proof {
            assert(jobs@ =~= Map::empty().insert(
                current_block_height,
                old(self).all_jobs@[current_block_height],
            ));
        }
        *self = StratumEventHandler {
            status: self.status,
            all_jobs: jobs,
            current_block_height,
            published_block_height: share_block_height(&self.published_block_height),
            current_prevhash_msg: Some(*prevhash_msg),
        };
        let r = HandlerAction::SendJob(self.update_job(&job_msg));
        proof {
            use_type_invariant(&*self);
        }
        r
    }

    /// Takes a new share target.
    pub fn visit_set_target(&mut self, target_msg: &SetTarget) -> (r: HandlerAction)
        ensures
            final(self).wf(),
            final(self).published() == old(self).published(),
            final(self)@ == next_view(old(self)@, V2Message::SetTarget(*target_msg)),
            Some(r@) == next_action(old(self)@, V2Message::SetTarget(*target_msg)),
            r@ == ActionView::ChangeTarget(target_msg.max_target),
            final(self)@ == old(self)@,
    {
        proof {
            use_type_invariant(&*self);
        }
        self.update_target(target_msg.max_target)
    }

    /// Records that the mining connection is set up.
    pub fn visit_setup_mining_connection_success(&mut self, success_msg: &SetupMiningConnectionSuccess)
        ensures
            final(self).wf(),
            final(self).published() == old(self).published(),
            final(self)@ == next_view(old(self)@, V2Message::SetupMiningConnectionSuccess(*success_msg)),
    {
        proof {
            use_type_invariant(&*self);
        }
        self.status = Ok(());
    }

    /// Records that the mining connection was refused.
    pub fn visit_setup_mining_connection_error(&mut self, error_msg: &SetupMiningConnectionError)
        ensures
            final(self).wf(),
            final(self).published() == old(self).published(),
            final(self)@ == next_view(old(self)@, V2Message::SetupMiningConnectionError(*error_msg)),
    {
        proof {
            use_type_invariant(&*self);
        }
        self.status = Err(());
    }

    /// Takes the initial target of the opened channel and records the success.
    pub fn visit_open_channel_success(&mut self, success_msg: &OpenChannelSuccess) -> (r: HandlerAction)
        ensures
            final(self).wf(),
            final(self).published() == old(self).published(),
            final(self)@ == next_view(old(self)@, V2Message::OpenChannelSuccess(*success_msg)),
            Some(r@) == next_action(old(self)@, V2Message::OpenChannelSuccess(*success_msg)),
            r@ == ActionView::ChangeTarget(success_msg.init_target),
    {
        proof {
            use_type_invariant(&*self);
        }
        let r = self.update_target(success_msg.init_target);
        self.status = Ok(());
        r
    }

    /// Records that the channel was refused.
    pub fn visit_open_channel_error(&mut self, error_msg: &OpenChannelError)
        ensures
            final(self).wf(),
            final(self).published() == old(self).published(),
            final(self)@ == next_view(old(self)@, V2Message::OpenChannelError(*error_msg)),
    {
        proof {
            use_type_invariant(&*self);
        }
        self.status = Err(());
    }

    /// Takes any message of the pool: the job, announcement, target and status
    /// messages as the `visit_*` methods do, and every other message by ignoring it.
    pub fn handle_message(&mut self, msg: &V2Message) -> (r: Option<HandlerAction>)
        requires
            can_accept(old(self)@, *msg),
        ensures
            final(self).wf(),
            final(self).published() == old(self).published(),
            final(self)@ == next_view(old(self)@, *msg),
            action_view(r) == next_action(old(self)@, *msg),
            sent_job_watches(r, old(self).published()),
    {
        proof {
            use_type_invariant(&*self);
        }
        match msg {
            V2Message::NewMiningJob(m) => self.visit_new_mining_job(m),
            V2Message::SetNewPrevHash(m) => Some(self.visit_set_new_prev_hash(m)),
            V2Message::SetTarget(m) => Some(self.visit_set_target(m)),
            V2Message::SetupMiningConnectionSuccess(m) => {
                self.visit_setup_mining_connection_success(m);
                None
            },
            V2Message::SetupMiningConnectionError(m) => {
                self.visit_setup_mining_connection_error(m);
                None
            },
            V2Message::OpenChannelSuccess(m) => Some(self.visit_open_channel_success(m)),
            V2Message::OpenChannelError(m) => {
                self.visit_open_channel_error(m);
                None
            },
            _ => None,
        }
    }

    /// Takes the answer to a setup or channel request: the status is reset to failure,
    /// the answer is handled like any message, and the resulting status is returned.
    pub fn accept_response(&mut self, response: &V2Message) -> (r: (Result<(), ()>, Option<HandlerAction>))
        requires
            can_accept(old(self)@, *response),
        ensures
            final(self).wf(),
            final(self).published() == old(self).published(),
            final(self)@ == next_view(with_failed_status(old(self)@), *response),
            action_view(r.1) == next_action(old(self)@, *response),
            sent_job_watches(r.1, old(self).published()),
            r.0 == final(self)@.status,
            r.0 is Ok <==> (response is SetupMiningConnectionSuccess || response is OpenChannelSuccess),
    {
        proof {
            use_type_invariant(&*self);
        }
        self.status = Err(());
        let action = self.handle_message(response);
        (self.status, action)
    }
}

/// Every message that the handler can take keeps its invariant.
pub proof fn lemma_step_keeps_inv(v: HandlerView, msg: V2Message)
    requires
        handler_inv(v),
        can_accept(v, msg),
    ensures
        handler_inv(next_view(v, msg)),
{
}

/// A job followed by the previous-hash announcement of its block height makes the
/// handler mine exactly that job, paired with that announcement.
pub proof fn lemma_job_then_prevhash_mines_job(v: HandlerView, j: NewMiningJob, p: SetNewPrevHash)
    requires
        handler_inv(v),
        p.block_height == j.block_height,
        ntime_fits(p),
    ensures
        can_accept(next_view(v, V2Message::NewMiningJob(j)), V2Message::SetNewPrevHash(p)),
        next_action(next_view(v, V2Message::NewMiningJob(j)), V2Message::SetNewPrevHash(p))
            == Some(ActionView::SendJob(spec_job(j, p))),
{
}

/// A job at the block height of the current announcement is mined at once, paired
/// with that announcement.
pub proof fn lemma_job_at_current_height_mined_at_once(v: HandlerView, j: NewMiningJob)
    requires
        handler_inv(v),
        v.prevhash is Some,
        j.block_height == v.block_height,
    ensures
        next_action(v, V2Message::NewMiningJob(j)) == Some(ActionView::SendJob(spec_job(j, v.prevhash.unwrap()))),
{
}

/// Every job that the handler sends is the job stored for the current block height,
/// paired with the current announcement; so it is at the height it publishes, and is
/// valid there.
pub proof fn lemma_sent_job_is_current(v: HandlerView, msg: V2Message, job: JobView)
    requires
        handler_inv(v),
        can_accept(v, msg),
        next_action(v, msg) == Some(ActionView::SendJob(job)),
    ensures
        next_view(v, msg).prevhash is Some,
        next_view(v, msg).jobs.contains_key(next_view(v, msg).block_height),
        job == spec_job(
            next_view(v, msg).jobs[next_view(v, msg).block_height],
            next_view(v, msg).prevhash.unwrap(),
        ),
        job.block_height == next_view(v, msg).block_height,
{
    match msg {
        V2Message::NewMiningJob(j) => {
            assert(next_view(v, msg).jobs[j.block_height] == j);
        },
        _ => {},
    }
}

/// A previous-hash announcement flushes every stored job but the one at its height.
pub proof fn lemma_prevhash_flushes_other_jobs(v: HandlerView, p: SetNewPrevHash, h: u32)
    requires
        can_accept(v, V2Message::SetNewPrevHash(p)),
    ensures
        next_view(v, V2Message::SetNewPrevHash(p)).jobs.contains_key(h) <==> h == p.block_height,
        next_view(v, V2Message::SetNewPrevHash(p)).jobs[p.block_height] == v.jobs[p.block_height],
{
}

/// Until the first previous-hash announcement the handler's block height is 0.
pub proof fn lemma_height_zero_before_announcement(v: HandlerView, msg: V2Message)
    requires
        handler_inv(v),
        can_accept(v, msg),
        next_view(v, msg).prevhash is None,
    ensures
        next_view(v, msg).block_height == 0,
{
}

/// A new mining job is stored under its block height and keeps every other stored job:
/// flushing belongs to previous-hash announcements alone.
pub proof fn lemma_job_keeps_other_jobs(v: HandlerView, j: NewMiningJob, h: u32)
    requires
        h != j.block_height,
    ensures
        next_view(v, V2Message::NewMiningJob(j)).jobs.contains_key(j.block_height),
        next_view(v, V2Message::NewMiningJob(j)).jobs[j.block_height] == j,
        next_view(v, V2Message::NewMiningJob(j)).jobs.contains_key(h) <==> v.jobs.contains_key(h),
        v.jobs.contains_key(h) ==> next_view(v, V2Message::NewMiningJob(j)).jobs[h] == v.jobs[h],
{
}

/// A job sent ahead for another height can still be started by the announcement of
/// that height, whatever jobs arrive in between for other heights.
pub proof fn lemma_job_ahead_survives_other_jobs(v: HandlerView, ahead: NewMiningJob, other: NewMiningJob, p: SetNewPrevHash)
    requires
        handler_inv(v),
        other.block_height != ahead.block_height,
        p.block_height == ahead.block_height,
        ntime_fits(p),
    ensures
        can_accept(
            next_view(next_view(v, V2Message::NewMiningJob(ahead)), V2Message::NewMiningJob(other)),
            V2Message::SetNewPrevHash(p),
        ),
        next_action(
            next_view(next_view(v, V2Message::NewMiningJob(ahead)), V2Message::NewMiningJob(other)),
            V2Message::SetNewPrevHash(p),
        ) == Some(ActionView::SendJob(spec_job(ahead, p))),
{
    let v1 = next_view(v, V2Message::NewMiningJob(ahead));
    let v2 = next_view(v1, V2Message::NewMiningJob(other));
    assert(v2.jobs[ahead.block_height] == ahead);
}

/// A share target is passed on exactly as the pool sent it, and changes no state.
pub proof fn lemma_target_passed_unchanged(v: HandlerView, t: SetTarget, s: OpenChannelSuccess)
    ensures
        next_action(v, V2Message::SetTarget(t)) == Some(ActionView::ChangeTarget(t.max_target)),
        next_view(v, V2Message::SetTarget(t)) == v,
        next_action(v, V2Message::OpenChannelSuccess(s)) == Some(ActionView::ChangeTarget(s.init_target)),
{
}

/// A job never changes the current announcement, nor the status.
pub proof fn lemma_job_keeps_announcement(v: HandlerView, j: NewMiningJob)
    ensures
        next_view(v, V2Message::NewMiningJob(j)).prevhash == v.prevhash,
        next_view(v, V2Message::NewMiningJob(j)).block_height == v.block_height,
        next_view(v, V2Message::NewMiningJob(j)).status == v.status,
{
}

/// Messages that a client sends, and the acknowledgement of shares, change nothing
/// and ask nothing of the miner.
pub proof fn lemma_ignored_messages(v: HandlerView, msg: V2Message)
    requires
        msg is SetupMiningConnection || msg is OpenChannel || msg is SubmitShares || msg is SubmitSharesSuccess,
    ensures
        next_view(v, msg) == v,
        next_action(v, msg) is None,
{
}

} // verus!
