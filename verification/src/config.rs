//! Connection configuration.

use vstd::prelude::*;

verus! {

/// Tunables of the gateway connection.
#[derive(Clone, Copy, Debug, PartialEq, Eq, Structural)]
pub struct Config {
    /// Guild size above which the server withholds offline members.
    pub gateway_large_treshold: u64,
    /// Whether to subscribe to presence and typing events of guilds.
    pub gateway_guilds_subscriptions: bool,
    /// Index of this connection in the shard set.
    pub gateway_shard_id: u64,
    /// Total number of shards.
    pub gateway_num_shards: u64,
}

impl Config {
    /// The default configuration: a single shard with the full guild
    /// subscription stream.
    pub fn new_default() -> (c: Config)
        ensures
            c == (Config {
                gateway_large_treshold: 250,
                gateway_guilds_subscriptions: true,
                gateway_shard_id: 0,
                gateway_num_shards: 1,
            }),
    {
        Config {
            gateway_large_treshold: 250,
            gateway_guilds_subscriptions: true,
            gateway_shard_id: 0,
            gateway_num_shards: 1,
        }
    }
}

} // verus!
