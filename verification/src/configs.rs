//! Plain configuration records consumed by the surrounding node.
//!
//! Parsing these from environment variables or configuration files is the
//! configuration loader's job, outside the verified library; here live
//! the records themselves, their invariants, and their defaults.

use vstd::prelude::*;

verus! {

/// How batch commitment data is generated for the settlement layer.
#[derive(Clone, Copy, Debug, PartialEq, Eq, Structural)]
pub enum L1BatchCommitmentMode {
    Rollup,
    Validium,
}

/// Configuration for initializing an external node.
pub struct ENConfig {
    /// The rollup chain id.
    pub l2_chain_id: u64,
    /// The settlement-layer chain id, when it differs from the L1 id.
    pub sl_chain_id: Option<u64>,
    /// The L1 chain id.
    pub l1_chain_id: u64,
    /// The commitment-data generation mode.
    pub l1_batch_commit_data_generator_mode: L1BatchCommitmentMode,
    /// The main node's URL.
    pub main_node_url: String,
    /// The request rate limit towards the main node, per second.
    pub main_node_rate_limit_rps: u64,
    /// The gateway's URL, if any.
    pub gateway_url: Option<String>,
    /// How often bridge addresses are refreshed, in seconds, if at all.
    pub bridge_addresses_refresh_interval_secs: Option<u64>,
}

impl ENConfig {
    /// The record's invariant: the rate limit is non-zero.
    pub open spec fn wf(&self) -> bool {
        self.main_node_rate_limit_rps > 0
    }

    /// A well-formed configuration; the rate limit must be non-zero.
    pub fn new(
        l2_chain_id: u64,
        sl_chain_id: Option<u64>,
        l1_chain_id: u64,
        l1_batch_commit_data_generator_mode: L1BatchCommitmentMode,
        main_node_url: String,
        main_node_rate_limit_rps: u64,
        gateway_url: Option<String>,
        bridge_addresses_refresh_interval_secs: Option<u64>,
    ) -> (r: ENConfig)
        requires
            main_node_rate_limit_rps > 0,
        ensures
            r.wf(),
            r.l2_chain_id == l2_chain_id,
            r.sl_chain_id == sl_chain_id,
            r.l1_chain_id == l1_chain_id,
            r.l1_batch_commit_data_generator_mode == l1_batch_commit_data_generator_mode,
            r.main_node_url@ == main_node_url@,
            r.main_node_rate_limit_rps == main_node_rate_limit_rps,
            r.gateway_url == gateway_url,
            r.bridge_addresses_refresh_interval_secs == bridge_addresses_refresh_interval_secs,
    {
        ENConfig {
            l2_chain_id,
            sl_chain_id,
            l1_chain_id,
            l1_batch_commit_data_generator_mode,
            main_node_url,
            main_node_rate_limit_rps,
            gateway_url,
            bridge_addresses_refresh_interval_secs,
        }
    }

    /// The default request rate limit towards the main node.
    pub fn default_main_node_rate_limit_rps() -> (r: u64)
        ensures
            r == 100,
    {
        100
    }

    /// The default commitment-data generation mode.
    pub fn default_commitment_mode() -> (r: L1BatchCommitmentMode)
        ensures
            r == L1BatchCommitmentMode::Rollup,
    {
        L1BatchCommitmentMode::Rollup
    }
}

/// Configuration of the gateway that feeds proof jobs to provers.
pub struct FriProverGatewayConfig {
    /// The prover API's URL.
    pub api_url: String,
    /// How often the API is polled, in seconds.
    pub api_poll_duration_secs: u64,
    /// The port the metrics exporter listens on.
    pub prometheus_listener_port: u16,
}

impl FriProverGatewayConfig {
    /// A configuration for the given API URL with the default poll
    /// period and metrics port.
    pub fn with_defaults(api_url: String) -> (r: FriProverGatewayConfig)
        ensures
            r.api_url@ == api_url@,
            r.api_poll_duration_secs == 1000,
            r.prometheus_listener_port == 3314,
    {
        FriProverGatewayConfig { api_url, api_poll_duration_secs: 1000, prometheus_listener_port: 3314 }
    }
}

} // verus!
