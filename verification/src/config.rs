//! Bot configuration held as plain values.

use vstd::prelude::*;

verus! {

/// Connection configuration for the bot's storage backend. A missing
/// URL disables every feature that needs storage.
#[derive(Clone, Debug)]
pub struct Config {
    pub redis_url: Option<String>,
}

impl Config {
    pub fn new(redis_url: Option<String>) -> (r: Self)
        ensures
            r.redis_url == redis_url,
    {
        Self { redis_url }
    }
}

/// The starboard's target-channel configuration: `None` means no
/// starboard channel is configured and synchronization is a no-op.
#[derive(Clone, Copy, Debug)]
pub struct SyncConfig {
    pub starboard_channel_id: Option<u64>,
}

impl SyncConfig {
    pub fn new(starboard_channel_id: Option<u64>) -> (r: Self)
        ensures
            r.starboard_channel_id == starboard_channel_id,
    {
        Self { starboard_channel_id }
    }
}

} // verus!
