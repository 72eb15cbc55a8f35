//! The requests with which the client opens its session with the pool.

use vstd::prelude::*;
use crate::messages::DeviceInfo;
use crate::messages::OpenChannel;
use crate::messages::SetupMiningConnection;

verus! {

/// The request identifier of the channel request.
pub const OPEN_CHANNEL_REQ_ID: u32 = 10;

/// The nominal hash rate announced for the device, 10^9 hashes per second, as the
/// bits of an IEEE 754 single-precision number.
pub const NOMINAL_HASHRATE_BITS: u32 = 0x4e6e_6b28;

/// The largest target the client accepts: 0xffff << 208, a difficulty-1 share.
pub const MAX_TARGET_NBITS: u32 = 0x1d00_ffff;

/// The request that sets up a header-only mining connection to `stratum_addr`.
pub fn setup_mining_connection_msg(stratum_addr: String) -> (m: SetupMiningConnection)
    ensures
        m.protocol_version == 0,
        m.connection_url == stratum_addr,
        m.required_extranonce_size == 0,
{
    SetupMiningConnection { protocol_version: 0, connection_url: stratum_addr, required_extranonce_size: 0 }
}

/// The request that opens a standard channel for `user` with one device.
pub fn open_channel_msg(user: String) -> (m: OpenChannel)
    ensures
        m.req_id == OPEN_CHANNEL_REQ_ID,
        m.user == user,
        !m.extended,
        m.device.vendor@ == "Braiins"@,
        m.device.hw_rev@ == "1"@,
        m.device.fw_ver@ == "Braiins OS 2019-06-05"@,
        m.device.dev_id@ == "xyz"@,
        m.nominal_hashrate_bits == NOMINAL_HASHRATE_BITS,
        m.max_target_nbits == MAX_TARGET_NBITS,
        m.aggregated_device_count == 1,
{
    OpenChannel {
        req_id: OPEN_CHANNEL_REQ_ID,
        user,
        extended: false,
        device: DeviceInfo {
            vendor: "Braiins".to_string(),
            hw_rev: "1".to_string(),
            fw_ver: "Braiins OS 2019-06-05".to_string(),
            dev_id: "xyz".to_string(),
        },
        nominal_hashrate_bits: NOMINAL_HASHRATE_BITS,
        max_target_nbits: MAX_TARGET_NBITS,
        aggregated_device_count: 1,
    }
}

} // verus!
