//! The Raft timing settings of a node and the Raft configuration built from them.

use std::sync::Arc;

use openraft::Config as OpenraftConfig;

use vstd::prelude::*;

use crate::config::Config as NodeConfig;

verus! {

/// Declares openraft's configuration type, which this module builds.
#[verifier::external_type_specification]
#[verifier::external_body]
pub struct ExOpenraftConfig(OpenraftConfig);

/// Heartbeat interval, in milliseconds, when the configuration sets none.
pub const HEARTBEAT_INTERVAL_MS: u64 = 500;

/// Election timeout, in milliseconds, when the configuration sets none.
pub const ELECTION_TIMEOUT_MS: u64 = 3000;

/// The Raft timing settings of a node, in milliseconds.
#[derive(Clone, Copy, Debug)]
pub struct RaftTimings {
    pub heartbeat_interval: u64,
    pub election_timeout_min: u64,
    pub election_timeout_max: u64,
}

/// Why openraft refuses a configuration.
#[derive(Clone, Debug)]
pub enum RaftConfigError {
    /// The minimum election timeout is not below the maximum.
    ElectionTimeout { min: u64, max: u64 },
    /// The minimum election timeout is not above the heartbeat interval.
    ElectionTimeoutLTHeartBeat { election_timeout_min: u64, heartbeat_interval: u64 },
    /// The number of entries per payload is zero.
    MaxPayloadIs0,
    /// An error that validation does not produce (parsing of settings).
    Unexpected,
}

/// The timings a node runs with: the configured heartbeat interval, or the
/// default; the configured election timeout, or the default, as both the
/// minimum and the maximum election timeout.
pub open spec fn timings_of(config: NodeConfig) -> RaftTimings {
    RaftTimings {
        heartbeat_interval: match config.heartbeat_interval {
            Some(h) => h,
            None => HEARTBEAT_INTERVAL_MS,
        },
        election_timeout_min: match config.election_timeout {
            Some(e) => e,
            None => ELECTION_TIMEOUT_MS,
        },
        election_timeout_max: match config.election_timeout {
            Some(e) => e,
            None => ELECTION_TIMEOUT_MS,
        },
    }
}

/// Why openraft refuses a configuration with timings `t` and its other
/// settings at their defaults, or `None` when it accepts it.
pub open spec fn timings_rejection(t: RaftTimings) -> Option<RaftConfigError> {
    if t.election_timeout_min >= t.election_timeout_max {
        Some(
            RaftConfigError::ElectionTimeout {
                min: t.election_timeout_min,
                max: t.election_timeout_max,
            },
        )
    } else if t.election_timeout_min <= t.heartbeat_interval {
        Some(
            RaftConfigError::ElectionTimeoutLTHeartBeat {
                election_timeout_min: t.election_timeout_min,
                heartbeat_interval: t.heartbeat_interval,
            },
        )
    } else {
        None
    }
}

/// Builds `openraft::Config` with the three timings of `t` and every other
/// setting at openraft's default, and calls `openraft::Config::validate` on it.
/// Claimed, from openraft's source: validation fails with `ElectionTimeout`
/// when the minimum election timeout is not below the maximum, else with
/// `ElectionTimeoutLTHeartBeat` when it is not above the heartbeat interval,
/// else it would fail only on a zero `max_payload_entries`, whose default is
/// 300, so it succeeds. That the returned configuration holds the three
/// timings is not stated: the type is opaque here.
#[verifier::external_body]
fn validated_openraft_config(t: &RaftTimings) -> (r: Result<OpenraftConfig, RaftConfigError>)
    ensures
        r is Ok <==> timings_rejection(*t) is None,
        r matches Err(e) ==> timings_rejection(*t) == Some(e),
{
    let config = OpenraftConfig {
        heartbeat_interval: t.heartbeat_interval,
        election_timeout_min: t.election_timeout_min,
        election_timeout_max: t.election_timeout_max,
        ..Default::default()
    };
    config.validate().map_err(|e| match e {
        openraft::ConfigError::ElectionTimeout { min, max } => RaftConfigError::ElectionTimeout { min, max },
        openraft::ConfigError::ElectionTimeoutLTHeartBeat { election_timeout_min, heartbeat_interval } =>
            RaftConfigError::ElectionTimeoutLTHeartBeat { election_timeout_min, heartbeat_interval },
        openraft::ConfigError::MaxPayloadIs0 => RaftConfigError::MaxPayloadIs0,
        _ => RaftConfigError::Unexpected,
    })
}

/// The Raft timings of a node with configuration `config`.
pub fn raft_timings(config: &NodeConfig) -> (r: RaftTimings)
    ensures
        r == timings_of(*config),
        config.heartbeat_interval matches Some(h) ==> r.heartbeat_interval == h,
        config.heartbeat_interval is None ==> r.heartbeat_interval == 500,
        config.election_timeout matches Some(e) ==> r.election_timeout_min == e
            && r.election_timeout_max == e,
        config.election_timeout is None ==> r.election_timeout_min == 3000
            && r.election_timeout_max == 3000,
{
    RaftTimings {
        heartbeat_interval: config.heartbeat_interval.unwrap_or(HEARTBEAT_INTERVAL_MS),
        election_timeout_min: config.election_timeout.unwrap_or(ELECTION_TIMEOUT_MS),
        election_timeout_max: config.election_timeout.unwrap_or(ELECTION_TIMEOUT_MS),
    }
}

/// Law: each timing follows its own setting, whatever the other setting is:
/// a configured heartbeat interval is used as is, else 500 ms; a configured
/// election timeout is both the minimum and the maximum, else 3000 ms is.
pub proof fn lemma_timings_follow_settings(config: NodeConfig)
    ensures
        config.heartbeat_interval matches Some(h) ==> timings_of(config).heartbeat_interval == h,
        config.heartbeat_interval is None ==> timings_of(config).heartbeat_interval == 500,
        config.election_timeout matches Some(e) ==> timings_of(config).election_timeout_min == e
            && timings_of(config).election_timeout_max == e,
        config.election_timeout is None ==> timings_of(config).election_timeout_min == 3000
            && timings_of(config).election_timeout_max == 3000,
{
}

/// Law: changing one setting leaves the timing of the other as it was.
pub proof fn lemma_timings_independent(a: NodeConfig, b: NodeConfig)
    ensures
        a.heartbeat_interval == b.heartbeat_interval ==> timings_of(a).heartbeat_interval
            == timings_of(b).heartbeat_interval,
        a.election_timeout == b.election_timeout ==> timings_of(a).election_timeout_min
            == timings_of(b).election_timeout_min && timings_of(a).election_timeout_max
            == timings_of(b).election_timeout_max,
{
}

/// The validated openraft configuration of a node with configuration
/// `config`, or why openraft refuses its timings.
pub fn raft_config(config: &NodeConfig) -> (r: Result<Arc<OpenraftConfig>, RaftConfigError>)
    ensures
        r is Ok <==> timings_rejection(timings_of(*config)) is None,
        r matches Err(e) ==> timings_rejection(timings_of(*config)) == Some(e),
{
    let timings = raft_timings(config);
    match validated_openraft_config(&timings) {
        Ok(c) => Ok(Arc::new(c)),
        Err(e) => Err(e),
    }
}

/// Since a node uses the same value as its minimum and its maximum election
/// timeout, openraft refuses the timings of every configuration, as an
/// election timeout whose minimum is not below its maximum.
pub proof fn lemma_timings_always_rejected(config: NodeConfig)
    ensures
        timings_rejection(timings_of(config)) == Some(
            RaftConfigError::ElectionTimeout {
                min: timings_of(config).election_timeout_min,
                max: timings_of(config).election_timeout_min,
            },
        ),
{
}

} // verus!
