//! Decisions of the node service: which components and tasks a node sets up
//! from its configuration.

use vstd::prelude::*;

use crate::runtime::RuntimeKind;
use crate::variant::IdentifyVariant;

verus! {

/// The role a node plays in the network.
#[derive(Clone, Copy, Debug, PartialEq, Eq, Structural)]
pub enum NodeRole {
    /// A full node that does not take part in consensus.
    Full,
    /// A light client.
    Light,
    /// A node that authors blocks and votes on finality.
    Authority,
}

impl NodeRole {
    /// Whether the node takes part in consensus.
    pub fn is_authority(&self) -> (r: bool)
        ensures
            r == (*self == NodeRole::Authority),
    {
        match self {
            NodeRole::Authority => true,
            _ => false,
        }
    }
}

/// Size of the buffer of the telemetry worker.
pub const TELEMETRY_WORKER_BUFFER: usize = 16;

/// Milliseconds between GRANDPA gossip rounds.
pub const GRANDPA_GOSSIP_DURATION_MS: u64 = 333;

/// GRANDPA produces a justification every this many blocks.
pub const GRANDPA_JUSTIFICATION_PERIOD: u32 = 512;

/// The telemetry worker to start, given how many telemetry endpoints are
/// configured (`None` when telemetry is not configured): a worker with a
/// buffer of 16 when at least one endpoint is, and none otherwise.
pub fn telemetry_worker(endpoint_count: Option<usize>) -> (buffer: Option<usize>)
    ensures
        buffer == (if endpoint_count matches Some(n) && n > 0 {
            Some(TELEMETRY_WORKER_BUFFER)
        } else {
            None::<usize>
        }),
{
    match endpoint_count {
        Some(n) => if n > 0 {
            Some(TELEMETRY_WORKER_BUFFER)
        } else {
            None
        },
        None => None,
    }
}

/// The runtime whose components are built for chain operations (checking,
/// importing, exporting and reverting blocks). Template chains and all others
/// alike are served by the template runtime, with an in-memory keystore.
pub fn chain_ops_runtime(chain_id: &str) -> (r: RuntimeKind)
    ensures
        r == RuntimeKind::Template,
{
    if chain_id.is_template() {
        RuntimeKind::Template
    } else {
        RuntimeKind::Template
    }
}

/// The configuration of the GRANDPA finality gadget.
#[derive(Clone, Debug, PartialEq, Eq)]
pub struct GrandpaSettings {
    /// Milliseconds between gossip rounds.
    pub gossip_duration_ms: u64,
    /// A justification is produced every this many blocks.
    pub justification_period: u32,
    /// The node's name.
    pub name: Option<String>,
    /// Whether the observer protocol is enabled.
    pub observer_enabled: bool,
    /// Whether GRANDPA is handed the keystore, which lets it vote.
    pub use_keystore: bool,
}

/// What a full node sets up beyond its base components.
#[derive(Clone, Debug, PartialEq, Eq)]
pub struct NodeTasks {
    /// Whether the transaction pool runs as a validator's pool.
    pub pool_is_validator: bool,
    /// Whether offchain workers are built.
    pub build_offchain_workers: bool,
    /// Whether the essential block-authoring task is spawned.
    pub spawn_block_authoring: bool,
    /// The settings of GRANDPA.
    pub grandpa: GrandpaSettings,
    /// Whether the essential GRANDPA voter task is spawned.
    pub run_grandpa_voter: bool,
}

/// What a full node sets up, given its role, whether offchain workers are
/// enabled, whether GRANDPA is disabled and the node's name.
pub open spec fn node_tasks_for(
    role: NodeRole,
    offchain_worker_enabled: bool,
    disable_grandpa: bool,
    node_name: String,
) -> NodeTasks {
    NodeTasks {
        pool_is_validator: role == NodeRole::Authority,
        build_offchain_workers: offchain_worker_enabled,
        spawn_block_authoring: role == NodeRole::Authority,
        grandpa: GrandpaSettings {
            gossip_duration_ms: GRANDPA_GOSSIP_DURATION_MS,
            justification_period: GRANDPA_JUSTIFICATION_PERIOD,
            name: Some(node_name),
            observer_enabled: false,
            use_keystore: role == NodeRole::Authority,
        },
        run_grandpa_voter: !disable_grandpa,
    }
}

/// What a full node sets up. Only an authority authors blocks, runs a
/// validator's transaction pool and lends its keystore to GRANDPA; offchain
/// workers are built when enabled; the voter runs unless GRANDPA is disabled;
/// the observer protocol is never enabled.
pub fn plan_node(
    role: NodeRole,
    offchain_worker_enabled: bool,
    disable_grandpa: bool,
    node_name: String,
) -> (t: NodeTasks)
    ensures
        t == node_tasks_for(role, offchain_worker_enabled, disable_grandpa, node_name),
        t.pool_is_validator == (role == NodeRole::Authority),
        t.build_offchain_workers == offchain_worker_enabled,
        t.spawn_block_authoring == (role == NodeRole::Authority),
        t.run_grandpa_voter == !disable_grandpa,
        t.grandpa.gossip_duration_ms == 333,
        t.grandpa.justification_period == 512,
        t.grandpa.name == Some(node_name),
        !t.grandpa.observer_enabled,
        t.grandpa.use_keystore == (role == NodeRole::Authority),
{
    let is_authority = role.is_authority();
    NodeTasks {
        pool_is_validator: is_authority,
        build_offchain_workers: offchain_worker_enabled,
        spawn_block_authoring: is_authority,
        grandpa: GrandpaSettings {
            gossip_duration_ms: GRANDPA_GOSSIP_DURATION_MS,
            justification_period: GRANDPA_JUSTIFICATION_PERIOD,
            name: Some(node_name),
            observer_enabled: false,
            use_keystore: is_authority,
        },
        run_grandpa_voter: !disable_grandpa,
    }
}

/// A node lends its keystore to GRANDPA exactly when it authors blocks: a
/// node that does not take part in consensus needs no keystore for either.
pub proof fn lemma_keystore_iff_authoring(
    role: NodeRole,
    offchain_worker_enabled: bool,
    disable_grandpa: bool,
    node_name: String,
)
    ensures
        node_tasks_for(role, offchain_worker_enabled, disable_grandpa, node_name).grandpa.use_keystore
            == node_tasks_for(
            role,
            offchain_worker_enabled,
            disable_grandpa,
            node_name,
        ).spawn_block_authoring,
{
}

/// Whether GRANDPA votes is decided by the configuration's switch alone, never
/// by the node's role: every node runs the voter unless GRANDPA is disabled.
pub proof fn lemma_voter_independent_of_role(
    role1: NodeRole,
    role2: NodeRole,
    offchain_worker_enabled: bool,
    disable_grandpa: bool,
    node_name: String,
)
    ensures
        node_tasks_for(role1, offchain_worker_enabled, disable_grandpa, node_name).run_grandpa_voter
            == node_tasks_for(
            role2,
            offchain_worker_enabled,
            disable_grandpa,
            node_name,
        ).run_grandpa_voter,
{
}

/// Offchain workers are built exactly when they are enabled in the
/// configuration, whatever role the node plays.
pub proof fn lemma_offchain_workers_follow_switch(
    role: NodeRole,
    offchain_worker_enabled: bool,
    disable_grandpa: bool,
    node_name: String,
)
    ensures
        node_tasks_for(
            role,
            offchain_worker_enabled,
            disable_grandpa,
            node_name,
        ).build_offchain_workers == offchain_worker_enabled,
{
}

/// The GRANDPA voter runs exactly when GRANDPA is not disabled, whatever the
/// node's role and whether offchain workers are enabled.
pub proof fn lemma_voter_runs_unless_disabled(
    role: NodeRole,
    offchain_worker_enabled: bool,
    disable_grandpa: bool,
    node_name: String,
)
    ensures
        node_tasks_for(role, offchain_worker_enabled, disable_grandpa, node_name).run_grandpa_voter
            == !disable_grandpa,
{
}

/// Only an authority authors blocks: the block-authoring task is spawned
/// exactly for the authority role, whatever the other switches say.
pub proof fn lemma_only_authorities_author(
    role: NodeRole,
    offchain_worker_enabled: bool,
    disable_grandpa: bool,
    node_name: String,
)
    ensures
        node_tasks_for(
            role,
            offchain_worker_enabled,
            disable_grandpa,
            node_name,
        ).spawn_block_authoring <==> role == NodeRole::Authority,
{
}

} // verus!
