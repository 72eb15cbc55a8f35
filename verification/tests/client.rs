use bosminer::connection::{open_channel_msg, setup_mining_connection_msg, MAX_TARGET_NBITS, NOMINAL_HASHRATE_BITS};
use bosminer::handler::{HandlerAction, StratumEventHandler};
use bosminer::job::{StratumJob, VERSION_MASK};
use bosminer::messages::{
    NewMiningJob, OpenChannelError, OpenChannelSuccess, SetNewPrevHash, SetTarget, SetupMiningConnection,
    SetupMiningConnectionError, SetupMiningConnectionSuccess, SubmitSharesSuccess, Uint256Bytes, V2Message,
};
use bosminer::solution::{MiningWorkSolution, StratumSolutionHandler};
use bosminer::{Frontend, StringifyV2};
use std::sync::atomic::AtomicU32;
use std::sync::Arc;

fn bytes(seed: u8) -> [u8; 32] {
    let mut b = [0u8; 32];
    for (i, x) in b.iter_mut().enumerate() {
        *x = seed.wrapping_mul(7).wrapping_add(i as u8);
    }
    b
}

fn job_msg(job_id: u32, block_height: u32) -> NewMiningJob {
    NewMiningJob {
        channel_id: 3,
        job_id,
        block_height,
        merkle_root: Uint256Bytes(bytes(job_id as u8)),
        version: 0x2000_0000,
    }
}

fn prevhash_msg(block_height: u32) -> SetNewPrevHash {
    SetNewPrevHash {
        block_height,
        prev_hash: Uint256Bytes(bytes(100 + block_height as u8)),
        min_ntime: 1_560_000_000,
        max_ntime_offset: 7200,
        nbits: 0x1715_a35c,
    }
}

fn sent_job(action: Option<HandlerAction>) -> StratumJob {
    match action {
        Some(HandlerAction::SendJob(job)) => job,
        _ => panic!("expected a job to mine"),
    }
}

#[test]
fn frontend_name() {
    assert_eq!(Frontend.to_string(), "bOSminer");
}

#[test]
fn job_pairs_job_and_prevhash() {
    let j = job_msg(11, 500);
    let p = prevhash_msg(500);
    let job = StratumJob::new(&j, &p, Arc::new(AtomicU32::new(0)));
    assert_eq!(job.id(), 11);
    assert_eq!(job.channel_id(), 3);
    assert_eq!(job.block_height(), 500);
    assert_eq!(job.version(), 0x2000_0000);
    assert_eq!(job.version_mask(), 0x1fff_e000);
    assert_eq!(VERSION_MASK, 0x1fff_e000);
    assert_eq!(bitcoin_hashes::Hash::into_inner(*job.previous_hash()), p.prev_hash.0);
    assert_eq!(bitcoin_hashes::Hash::into_inner(*job.merkle_root()), j.merkle_root.0);
    assert_eq!(job.time(), 1_560_000_000);
    assert_eq!(job.max_time(), 1_560_007_200);
    assert_eq!(job.bits(), 0x1715_a35c);
}

#[test]
fn job_validity_against_height() {
    let job = StratumJob::new(&job_msg(1, 500), &prevhash_msg(500), Arc::new(AtomicU32::new(0)));
    assert!(job.is_valid_at(499));
    assert!(job.is_valid_at(500));
    assert!(!job.is_valid_at(501));
    assert!(job.is_valid());
    let stale = StratumJob::new(&job_msg(1, 500), &prevhash_msg(500), Arc::new(AtomicU32::new(501)));
    assert!(!stale.is_valid());
}

#[test]
fn max_time_at_the_u32_limit() {
    let mut p = prevhash_msg(1);
    p.min_ntime = u32::MAX - 7200;
    let job = StratumJob::new(&job_msg(1, 1), &p, Arc::new(AtomicU32::new(0)));
    assert_eq!(job.max_time(), u32::MAX);
}

#[test]
fn new_handler_is_empty_and_not_connected() {
    let h = StratumEventHandler::new();
    assert_eq!(h.status(), Err(()));
    assert!(!h.has_job(0));
    assert!(!h.can_accept(&V2Message::SetNewPrevHash(prevhash_msg(0))));
}

#[test]
fn job_before_prevhash_is_only_stored() {
    let mut h = StratumEventHandler::new();
    assert!(h.visit_new_mining_job(&job_msg(1, 0)).is_none());
    assert!(h.has_job(0));
}

#[test]
fn prevhash_starts_the_stored_job() {
    let mut h = StratumEventHandler::new();
    assert!(h.visit_new_mining_job(&job_msg(7, 500)).is_none());
    assert!(h.visit_new_mining_job(&job_msg(8, 501)).is_none());
    let p = prevhash_msg(500);
    assert!(h.can_accept(&V2Message::SetNewPrevHash(p)));
    let job = sent_job(Some(h.visit_set_new_prev_hash(&p)));
    assert_eq!(job.id(), 7);
    assert_eq!(job.block_height(), 500);
    assert_eq!(bitcoin_hashes::Hash::into_inner(*job.previous_hash()), p.prev_hash.0);
    assert_eq!(job.time(), p.min_ntime);
    // only the job of the announced height stays; the others are flushed
    assert!(h.has_job(500));
    assert!(!h.has_job(501));
    assert!(job.is_valid());
}

#[test]
fn job_at_current_height_is_mined_at_once() {
    let mut h = StratumEventHandler::new();
    let _ = h.visit_new_mining_job(&job_msg(7, 500));
    let _ = h.visit_set_new_prev_hash(&prevhash_msg(500));
    let job = sent_job(h.visit_new_mining_job(&job_msg(9, 500)));
    assert_eq!(job.id(), 9);
    assert_eq!(job.block_height(), 500);
    assert!(h.visit_new_mining_job(&job_msg(10, 501)).is_none());
}

#[test]
fn later_job_of_a_height_replaces_earlier() {
    let mut h = StratumEventHandler::new();
    let _ = h.visit_new_mining_job(&job_msg(7, 500));
    let _ = h.visit_new_mining_job(&job_msg(8, 500));
    let job = sent_job(Some(h.visit_set_new_prev_hash(&prevhash_msg(500))));
    assert_eq!(job.id(), 8);
}

#[test]
fn new_block_makes_old_jobs_stale() {
    let mut h = StratumEventHandler::new();
    let _ = h.visit_new_mining_job(&job_msg(1, 500));
    let old = sent_job(Some(h.visit_set_new_prev_hash(&prevhash_msg(500))));
    assert!(old.is_valid());
    let _ = h.visit_new_mining_job(&job_msg(2, 501));
    let new = sent_job(Some(h.visit_set_new_prev_hash(&prevhash_msg(501))));
    assert!(!old.is_valid());
    assert!(new.is_valid());
}

#[test]
fn prevhash_without_job_or_with_overflowing_time_is_refused() {
    let mut h = StratumEventHandler::new();
    let _ = h.visit_new_mining_job(&job_msg(1, 500));
    assert!(!h.can_accept(&V2Message::SetNewPrevHash(prevhash_msg(501))));
    let mut p = prevhash_msg(500);
    p.min_ntime = u32::MAX - 10;
    p.max_ntime_offset = 11;
    assert!(!h.can_accept(&V2Message::SetNewPrevHash(p)));
    p.max_ntime_offset = 10;
    assert!(h.can_accept(&V2Message::SetNewPrevHash(p)));
}

#[test]
fn set_target_changes_target() {
    let mut h = StratumEventHandler::new();
    let t = SetTarget { channel_id: 3, max_target: Uint256Bytes(bytes(9)) };
    match h.visit_set_target(&t) {
        HandlerAction::ChangeTarget(x) => assert_eq!(x.0, bytes(9)),
        _ => panic!("expected a target"),
    }
    match h.update_target(Uint256Bytes(bytes(4))) {
        HandlerAction::ChangeTarget(x) => assert_eq!(x.0, bytes(4)),
        _ => panic!("expected a target"),
    }
}

#[test]
fn update_job_pairs_with_current_prevhash() {
    let mut h = StratumEventHandler::new();
    let _ = h.visit_new_mining_job(&job_msg(1, 500));
    let p = prevhash_msg(500);
    let _ = h.visit_set_new_prev_hash(&p);
    let job = h.update_job(&job_msg(5, 500));
    assert_eq!(job.id(), 5);
    assert_eq!(job.max_time(), p.min_ntime + p.max_ntime_offset as u32);
}

fn setup_success() -> V2Message {
    V2Message::SetupMiningConnectionSuccess(SetupMiningConnectionSuccess {
        used_protocol_version: 0,
        max_extranonce_size: 0,
        pub_key: vec![1, 2, 3],
    })
}

fn open_success() -> V2Message {
    V2Message::OpenChannelSuccess(OpenChannelSuccess {
        req_id: 10,
        channel_id: 3,
        dev_id: None,
        init_target: Uint256Bytes(bytes(42)),
        group_channel_id: 0,
    })
}

#[test]
fn status_follows_responses() {
    let mut h = StratumEventHandler::new();
    h.visit_setup_mining_connection_success(&SetupMiningConnectionSuccess {
        used_protocol_version: 0,
        max_extranonce_size: 0,
        pub_key: vec![],
    });
    assert_eq!(h.status(), Ok(()));
    h.visit_setup_mining_connection_error(&SetupMiningConnectionError { code: "x".to_string() });
    assert_eq!(h.status(), Err(()));
    match h.visit_open_channel_success(&OpenChannelSuccess {
        req_id: 10,
        channel_id: 3,
        dev_id: None,
        init_target: Uint256Bytes(bytes(42)),
        group_channel_id: 0,
    }) {
        HandlerAction::ChangeTarget(t) => assert_eq!(t.0, bytes(42)),
        _ => panic!("expected a target"),
    }
    assert_eq!(h.status(), Ok(()));
    h.visit_open_channel_error(&OpenChannelError { req_id: 10, code: "y".to_string() });
    assert_eq!(h.status(), Err(()));
}

#[test]
fn accept_response_reports_success_only_for_success_messages() {
    let mut h = StratumEventHandler::new();
    let (s, a) = h.accept_response(&setup_success());
    assert_eq!(s, Ok(()));
    assert!(a.is_none());
    let (s, a) = h.accept_response(&open_success());
    assert_eq!(s, Ok(()));
    assert!(matches!(a, Some(HandlerAction::ChangeTarget(t)) if t.0 == bytes(42)));
    let (s, _) = h.accept_response(&V2Message::OpenChannelError(OpenChannelError { req_id: 10, code: "e".to_string() }));
    assert_eq!(s, Err(()));
    // a success followed by an unrelated answer is a failure: the status is reset first
    let (s, _) = h.accept_response(&setup_success());
    assert_eq!(s, Ok(()));
    let (s, a) = h.accept_response(&V2Message::SubmitSharesSuccess(SubmitSharesSuccess {
        channel_id: 3,
        last_seq_num: 0,
        new_submits_accepted_count: 1,
        new_shares_count: 1,
    }));
    assert_eq!(s, Err(()));
    assert!(a.is_none());
    let (s, a) = h.accept_response(&V2Message::SetupMiningConnectionError(SetupMiningConnectionError {
        code: "e".to_string(),
    }));
    assert_eq!(s, Err(()));
    assert!(a.is_none());
}

#[test]
fn handle_message_dispatches() {
    let mut h = StratumEventHandler::new();
    assert!(h.handle_message(&V2Message::NewMiningJob(job_msg(4, 600))).is_none());
    let job = sent_job(h.handle_message(&V2Message::SetNewPrevHash(prevhash_msg(600))));
    assert_eq!(job.id(), 4);
    let job = sent_job(h.handle_message(&V2Message::NewMiningJob(job_msg(5, 600))));
    assert_eq!(job.id(), 5);
    assert!(matches!(
        h.handle_message(&V2Message::SetTarget(SetTarget { channel_id: 3, max_target: Uint256Bytes(bytes(1)) })),
        Some(HandlerAction::ChangeTarget(t)) if t.0 == bytes(1)
    ));
    assert!(h
        .handle_message(&V2Message::SetupMiningConnection(setup_mining_connection_msg("a:1".to_string())))
        .is_none());
    assert_eq!(h.status(), Err(()));
    assert!(h.handle_message(&setup_success()).is_none());
    assert_eq!(h.status(), Ok(()));
}

#[test]
fn shares_are_numbered_in_order() {
    let job = StratumJob::new(&job_msg(12, 700), &prevhash_msg(700), Arc::new(AtomicU32::new(0)));
    let mut s = StratumSolutionHandler::new();
    let sol = MiningWorkSolution { nonce: 0xdead_beef, time_offset: 5, version: 0x2000_4000 };
    let a = s.process_solution(&job, &sol);
    let b = s.process_solution(&job, &sol);
    let c = s.process_solution(&job, &sol);
    assert_eq!((a.seq_num, b.seq_num, c.seq_num), (0, 1, 2));
    assert_eq!(a.channel_id, 3);
    assert_eq!(a.job_id, 12);
    assert_eq!(a.nonce, 0xdead_beef);
    assert_eq!(a.ntime_offset, 5);
    assert_eq!(a.version, 0x2000_4000);
}

#[test]
fn setup_request() {
    let m = setup_mining_connection_msg("stratum.example:3336".to_string());
    assert_eq!(m.protocol_version, 0);
    assert_eq!(m.connection_url, "stratum.example:3336");
    assert_eq!(m.required_extranonce_size, 0);
}

#[test]
fn channel_request() {
    let m = open_channel_msg("miner.1".to_string());
    assert_eq!(m.req_id, 10);
    assert_eq!(m.user, "miner.1");
    assert!(!m.extended);
    assert_eq!(m.device.vendor, "Braiins");
    assert_eq!(m.device.hw_rev, "1");
    assert_eq!(m.device.fw_ver, "Braiins OS 2019-06-05");
    assert_eq!(m.device.dev_id, "xyz");
    assert_eq!(f32::from_bits(m.nominal_hashrate_bits), 1e9f32);
    assert_eq!(m.nominal_hashrate_bits, NOMINAL_HASHRATE_BITS);
    assert_eq!(m.max_target_nbits, 0x1d00ffff);
    assert_eq!(MAX_TARGET_NBITS, 0x1d00ffff);
    assert_eq!(m.aggregated_device_count, 1);
}

#[test]
fn stringify_selects_messages_with_a_rendering() {
    let msgs = vec![
        V2Message::NewMiningJob(job_msg(1, 2)),
        V2Message::SetNewPrevHash(prevhash_msg(2)),
        V2Message::SetTarget(SetTarget { channel_id: 3, max_target: Uint256Bytes(bytes(1)) }),
        V2Message::SetupMiningConnection(SetupMiningConnection {
            protocol_version: 0,
            connection_url: "u".to_string(),
            required_extranonce_size: 0,
        }),
        V2Message::OpenChannel(open_channel_msg("u".to_string())),
        setup_success(),
        open_success(),
    ];
    for m in &msgs {
        let chosen = StringifyV2::print(m).expect("a rendering");
        assert!(std::ptr::eq(chosen, m));
    }
    let mut collector = StringifyV2::new();
    assert!(collector.get().is_none());
    collector.accept(&msgs[0]);
    collector.accept(&msgs[1]);
    assert!(std::ptr::eq(collector.get().unwrap(), &msgs[1]));
    let e = V2Message::OpenChannelError(OpenChannelError { req_id: 1, code: "c".to_string() });
    collector.accept(&e);
    assert!(std::ptr::eq(collector.get().unwrap(), &msgs[1]));
}

#[test]
fn stringify_unknown_messages() {
    let e = V2Message::OpenChannelError(OpenChannelError { req_id: 1, code: "c".to_string() });
    assert!(StringifyV2::print(&e).is_none());
    let e = V2Message::SetupMiningConnectionError(SetupMiningConnectionError { code: "c".to_string() });
    assert!(StringifyV2::print(&e).is_none());
}

#[test]
fn prevhash_flushes_every_other_job() {
    let mut h = StratumEventHandler::new();
    for height in [498, 499, 500, 502] {
        let _ = h.visit_new_mining_job(&job_msg(height, height));
    }
    let job = sent_job(Some(h.visit_set_new_prev_hash(&prevhash_msg(499))));
    assert_eq!(job.id(), 499);
    assert!(h.has_job(499));
    assert!(!h.has_job(498));
    assert!(!h.has_job(500));
    assert!(!h.has_job(502));
    // a flushed job can no longer be started
    assert!(!h.can_accept(&V2Message::SetNewPrevHash(prevhash_msg(500))));
}

#[test]
fn job_clone_keeps_fields_and_watched_height() {
    let height = Arc::new(AtomicU32::new(0));
    let job = StratumJob::new(&job_msg(7, 500), &prevhash_msg(500), height.clone());
    let copy = job.clone();
    assert_eq!(copy.id(), 7);
    assert_eq!(copy.block_height(), 500);
    assert_eq!(bitcoin_hashes::Hash::into_inner(*copy.previous_hash()), prevhash_msg(500).prev_hash.0);
    assert_eq!(copy.max_time(), job.max_time());
    assert!(job.is_valid() && copy.is_valid());
    height.store(501, std::sync::atomic::Ordering::Relaxed);
    assert!(!job.is_valid());
    assert!(!copy.is_valid());
}

#[test]
fn sent_jobs_watch_the_published_height() {
    let mut h = StratumEventHandler::new();
    let _ = h.visit_new_mining_job(&job_msg(1, 500));
    let first = sent_job(Some(h.visit_set_new_prev_hash(&prevhash_msg(500))));
    let again = h.update_job(&job_msg(2, 500));
    assert!(first.is_valid() && again.is_valid());
    let _ = h.visit_new_mining_job(&job_msg(3, 501));
    let _ = h.visit_set_new_prev_hash(&prevhash_msg(501));
    assert!(!first.is_valid());
    assert!(!again.is_valid());
}
