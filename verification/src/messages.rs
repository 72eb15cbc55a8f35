//! The Stratum V2 mining messages that the client sends and receives.

use vstd::prelude::*;

verus! {

/// A 256-bit quantity (a hash or a target) as its 32 bytes.
#[derive(Clone, Copy, Debug)]
pub struct Uint256Bytes(pub [u8; 32]);

/// Client to server: opens the mining connection.
#[derive(Clone, Debug)]
pub struct SetupMiningConnection {
    pub protocol_version: u16,
    pub connection_url: String,
    /// 0 for header-only mining.
    pub required_extranonce_size: u16,
}

/// Server to client: the mining connection is set up.
#[derive(Clone, Debug)]
pub struct SetupMiningConnectionSuccess {
    pub used_protocol_version: u16,
    pub max_extranonce_size: u16,
    pub pub_key: Vec<u8>,
}

/// Server to client: the mining connection was refused.
#[derive(Clone, Debug)]
pub struct SetupMiningConnectionError {
    pub code: String,
}

/// Description of the mining device, sent when a channel is opened.
#[derive(Clone, Debug)]
pub struct DeviceInfo {
    pub vendor: String,
    pub hw_rev: String,
    pub fw_ver: String,
    pub dev_id: String,
}

/// Client to server: asks for a mining channel.
#[derive(Clone, Debug)]
pub struct OpenChannel {
    pub req_id: u32,
    pub user: String,
    pub extended: bool,
    pub device: DeviceInfo,
    /// The nominal hash rate in hashes per second, as the bits of an IEEE 754
    /// single-precision number (the form in which it travels on the wire).
    pub nominal_hashrate_bits: u32,
    pub max_target_nbits: u32,
    pub aggregated_device_count: u32,
}

/// Server to client: the channel is open.
#[derive(Clone, Debug)]
pub struct OpenChannelSuccess {
    pub req_id: u32,
    pub channel_id: u32,
    pub dev_id: Option<String>,
    pub init_target: Uint256Bytes,
    pub group_channel_id: u32,
}

/// Server to client: the channel was refused.
#[derive(Clone, Debug)]
pub struct OpenChannelError {
    pub req_id: u32,
    pub code: String,
}

/// Server to client: a job to mine at the given block height.
#[derive(Clone, Copy, Debug)]
pub struct NewMiningJob {
    pub channel_id: u32,
    pub job_id: u32,
    pub block_height: u32,
    pub merkle_root: Uint256Bytes,
    pub version: u32,
}

/// Server to client: the previous block hash of the block at the given height.
#[derive(Clone, Copy, Debug)]
pub struct SetNewPrevHash {
    pub block_height: u32,
    pub prev_hash: Uint256Bytes,
    pub min_ntime: u32,
    pub max_ntime_offset: u16,
    pub nbits: u32,
}

/// Server to client: a new share target for the channel.
#[derive(Clone, Copy, Debug)]
pub struct SetTarget {
    pub channel_id: u32,
    pub max_target: Uint256Bytes,
}

/// Client to server: a found share.
#[derive(Clone, Copy, Debug)]
pub struct SubmitShares {
    pub channel_id: u32,
    pub seq_num: u32,
    pub job_id: u32,
    pub nonce: u32,
    pub ntime_offset: u16,
    pub version: u32,
}

/// Server to client: shares up to a sequence number were accepted.
#[derive(Clone, Copy, Debug)]
pub struct SubmitSharesSuccess {
    pub channel_id: u32,
    pub last_seq_num: u32,
    pub new_submits_accepted_count: u32,
    pub new_shares_count: u32,
}

/// Any Stratum V2 mining message, as a decoded frame delivers it.
#[derive(Clone, Debug)]
pub enum V2Message {
    SetupMiningConnection(SetupMiningConnection),
    SetupMiningConnectionSuccess(SetupMiningConnectionSuccess),
    SetupMiningConnectionError(SetupMiningConnectionError),
    OpenChannel(OpenChannel),
    OpenChannelSuccess(OpenChannelSuccess),
    OpenChannelError(OpenChannelError),
    NewMiningJob(NewMiningJob),
    SetNewPrevHash(SetNewPrevHash),
    SetTarget(SetTarget),
    SubmitShares(SubmitShares),
    SubmitSharesSuccess(SubmitSharesSuccess),
}

} // verus!
