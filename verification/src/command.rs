//! Dispatch of the node's command line: which runner each subcommand uses
//! and what it needs.

use vstd::prelude::*;

use crate::runtime::RuntimeKind;
use crate::text::has_suffix;
use crate::variant::{template_marker, IdentifyVariant};

verus! {

/// The subcommands of the node binary.
#[derive(Clone, Copy, Debug, PartialEq, Eq, Structural)]
pub enum Subcommand {
    /// Key management.
    Key,
    /// Build a chain specification.
    BuildSpec,
    /// Validate blocks.
    CheckBlock,
    /// Export blocks.
    ExportBlocks,
    /// Export the state of a given block into a chain spec.
    ExportState,
    /// Import blocks.
    ImportBlocks,
    /// Remove the whole chain.
    PurgeChain,
    /// Revert the chain to a previous state.
    Revert,
    /// Runtime benchmarking.
    Benchmark,
}

/// A command that runs to completion on the synchronous runner, handed parts
/// of the configuration.
#[derive(Clone, Copy, Debug, PartialEq, Eq, Structural)]
pub enum SyncTask {
    /// Given the chain specification and the network configuration.
    BuildSpec,
    /// Given the database configuration.
    PurgeChain,
}

/// A command that runs on the asynchronous runner over the client, backend
/// and import queue built for chain operations.
#[derive(Clone, Copy, Debug, PartialEq, Eq, Structural)]
pub enum ChainOpsTask {
    /// Given the client and the import queue.
    CheckBlock,
    /// Given the client and the database configuration.
    ExportBlocks,
    /// Given the client and the chain specification.
    ExportState,
    /// Given the client and the import queue.
    ImportBlocks,
    /// Given the client and the backend.
    Revert,
}

/// How the node carries out a command line.
#[derive(Clone, Copy, Debug, PartialEq, Eq, Structural)]
pub enum CommandPlan {
    /// Run the key command directly, without a runner.
    Key,
    /// Run on the synchronous runner.
    Sync(SyncTask),
    /// Build the chain-operation components, then run asynchronously.
    ChainOps(ChainOpsTask),
    /// Benchmark against the native executor of the given runtime.
    Benchmark(RuntimeKind),
    /// The benchmarked chain specification belongs to no runtime that was
    /// built in: the node stops with "invalid chain spec".
    InvalidChainSpec,
    /// No subcommand: run the full node until it exits.
    RunNode,
}

/// The error returned when benchmarking is asked of a node built without it.
pub open spec fn benchmarking_disabled_message() -> Seq<char> {
    "Benchmarking wasn't enabled when building the node. You can enable it with `--features runtime-benchmarks`."@
}

/// The plan for a command line, given whether benchmarking and the template
/// runtime were built in and the identifier of the configured chain.
pub open spec fn spec_plan(
    subcommand: Option<Subcommand>,
    benchmarks_enabled: bool,
    template_built: bool,
    chain_id: Seq<char>,
) -> Option<CommandPlan> {
    match subcommand {
        None => Some(CommandPlan::RunNode),
        Some(Subcommand::Key) => Some(CommandPlan::Key),
        Some(Subcommand::BuildSpec) => Some(CommandPlan::Sync(SyncTask::BuildSpec)),
        Some(Subcommand::PurgeChain) => Some(CommandPlan::Sync(SyncTask::PurgeChain)),
        Some(Subcommand::CheckBlock) => Some(CommandPlan::ChainOps(ChainOpsTask::CheckBlock)),
        Some(Subcommand::ExportBlocks) => Some(CommandPlan::ChainOps(ChainOpsTask::ExportBlocks)),
        Some(Subcommand::ExportState) => Some(CommandPlan::ChainOps(ChainOpsTask::ExportState)),
        Some(Subcommand::ImportBlocks) => Some(CommandPlan::ChainOps(ChainOpsTask::ImportBlocks)),
        Some(Subcommand::Revert) => Some(CommandPlan::ChainOps(ChainOpsTask::Revert)),
        Some(Subcommand::Benchmark) => if !benchmarks_enabled {
            None
        } else if template_built && has_suffix(chain_id, template_marker()) {
            Some(CommandPlan::Benchmark(RuntimeKind::Template))
        } else {
            Some(CommandPlan::InvalidChainSpec)
        },
    }
}

/// Decides how to carry out a command line. It fails, with the message that
/// benchmarking was not enabled, exactly when benchmarking is asked of a node
/// built without it.
pub fn plan_command(
    subcommand: Option<Subcommand>,
    benchmarks_enabled: bool,
    template_built: bool,
    chain_id: &str,
) -> (r: Result<CommandPlan, String>)
    ensures
        r matches Ok(plan) ==> spec_plan(
            subcommand,
            benchmarks_enabled,
            template_built,
            chain_id@,
        ) == Some(plan),
        r matches Err(msg) ==> spec_plan(
            subcommand,
            benchmarks_enabled,
            template_built,
            chain_id@,
        ) is None && msg@ == benchmarking_disabled_message(),
        r is Err <==> (subcommand == Some(Subcommand::Benchmark) && !benchmarks_enabled),
        subcommand is None ==> r == Ok::<CommandPlan, String>(CommandPlan::RunNode),
        subcommand == Some(Subcommand::Key) ==> r == Ok::<CommandPlan, String>(CommandPlan::Key),
        subcommand == Some(Subcommand::BuildSpec) ==> r == Ok::<CommandPlan, String>(
            CommandPlan::Sync(SyncTask::BuildSpec),
        ),
        subcommand == Some(Subcommand::PurgeChain) ==> r == Ok::<CommandPlan, String>(
            CommandPlan::Sync(SyncTask::PurgeChain),
        ),
        subcommand == Some(Subcommand::CheckBlock) ==> r == Ok::<CommandPlan, String>(
            CommandPlan::ChainOps(ChainOpsTask::CheckBlock),
        ),
        subcommand == Some(Subcommand::ExportBlocks) ==> r == Ok::<CommandPlan, String>(
            CommandPlan::ChainOps(ChainOpsTask::ExportBlocks),
        ),
        subcommand == Some(Subcommand::ExportState) ==> r == Ok::<CommandPlan, String>(
            CommandPlan::ChainOps(ChainOpsTask::ExportState),
        ),
        subcommand == Some(Subcommand::ImportBlocks) ==> r == Ok::<CommandPlan, String>(
            CommandPlan::ChainOps(ChainOpsTask::ImportBlocks),
        ),
        subcommand == Some(Subcommand::Revert) ==> r == Ok::<CommandPlan, String>(
            CommandPlan::ChainOps(ChainOpsTask::Revert),
        ),
        (subcommand == Some(Subcommand::Benchmark) && benchmarks_enabled) ==> r == Ok::<
            CommandPlan,
            String,
        >(
            if template_built && has_suffix(chain_id@, "template"@) {
                CommandPlan::Benchmark(RuntimeKind::Template)
            } else {
                CommandPlan::InvalidChainSpec
            },
        ),
{
    match subcommand {
        None => Ok(CommandPlan::RunNode),
        Some(Subcommand::Key) => Ok(CommandPlan::Key),
        Some(Subcommand::BuildSpec) => Ok(CommandPlan::Sync(SyncTask::BuildSpec)),
        Some(Subcommand::PurgeChain) => Ok(CommandPlan::Sync(SyncTask::PurgeChain)),
        Some(Subcommand::CheckBlock) => Ok(CommandPlan::ChainOps(ChainOpsTask::CheckBlock)),
        Some(Subcommand::ExportBlocks) => Ok(CommandPlan::ChainOps(ChainOpsTask::ExportBlocks)),
        Some(Subcommand::ExportState) => Ok(CommandPlan::ChainOps(ChainOpsTask::ExportState)),
        Some(Subcommand::ImportBlocks) => Ok(CommandPlan::ChainOps(ChainOpsTask::ImportBlocks)),
        Some(Subcommand::Revert) => Ok(CommandPlan::ChainOps(ChainOpsTask::Revert)),
        Some(Subcommand::Benchmark) => {
            if !benchmarks_enabled {
                Err(
                    String::from_str(
                        "Benchmarking wasn't enabled when building the node. You can enable it with `--features runtime-benchmarks`.",
                    ),
                )
            } else if template_built && chain_id.is_template() {
                Ok(CommandPlan::Benchmark(RuntimeKind::Template))
            } else {
                Ok(CommandPlan::InvalidChainSpec)
            }
        },
    }
}

/// Only benchmarking depends on how the node was built and on the chain: every
/// other subcommand gets the same plan whatever the build switches and chain id.
pub proof fn lemma_plan_independent_of_build(
    subcommand: Subcommand,
    benchmarks1: bool,
    template1: bool,
    chain1: Seq<char>,
    benchmarks2: bool,
    template2: bool,
    chain2: Seq<char>,
)
    requires
        subcommand != Subcommand::Benchmark,
    ensures
        spec_plan(Some(subcommand), benchmarks1, template1, chain1) == spec_plan(
            Some(subcommand),
            benchmarks2,
            template2,
            chain2,
        ),
        spec_plan(Some(subcommand), benchmarks1, template1, chain1) is Some,
{
}

/// Each block or state command runs as its own chain-operation task, and the
/// two configuration commands run as their own synchronous tasks.
pub proof fn lemma_subcommand_gets_own_task(
    benchmarks_enabled: bool,
    template_built: bool,
    chain_id: Seq<char>,
)
    ensures
        spec_plan(Some(Subcommand::CheckBlock), benchmarks_enabled, template_built, chain_id)
            == Some(CommandPlan::ChainOps(ChainOpsTask::CheckBlock)),
        spec_plan(Some(Subcommand::ExportBlocks), benchmarks_enabled, template_built, chain_id)
            == Some(CommandPlan::ChainOps(ChainOpsTask::ExportBlocks)),
        spec_plan(Some(Subcommand::ExportState), benchmarks_enabled, template_built, chain_id)
            == Some(CommandPlan::ChainOps(ChainOpsTask::ExportState)),
        spec_plan(Some(Subcommand::ImportBlocks), benchmarks_enabled, template_built, chain_id)
            == Some(CommandPlan::ChainOps(ChainOpsTask::ImportBlocks)),
        spec_plan(Some(Subcommand::Revert), benchmarks_enabled, template_built, chain_id)
            == Some(CommandPlan::ChainOps(ChainOpsTask::Revert)),
        spec_plan(Some(Subcommand::BuildSpec), benchmarks_enabled, template_built, chain_id)
            == Some(CommandPlan::Sync(SyncTask::BuildSpec)),
        spec_plan(Some(Subcommand::PurgeChain), benchmarks_enabled, template_built, chain_id)
            == Some(CommandPlan::Sync(SyncTask::PurgeChain)),
        spec_plan(Some(Subcommand::Key), benchmarks_enabled, template_built, chain_id) == Some(
            CommandPlan::Key,
        ),
        spec_plan(None, benchmarks_enabled, template_built, chain_id) == Some(
            CommandPlan::RunNode,
        ),
{
}

/// With benchmarking built in, a chain is benchmarked on the template runtime
/// exactly when the template runtime was built and the chain's identifier ends
/// with "template"; every other chain stops the node as an invalid chain spec.
pub proof fn lemma_benchmark_on_template_chains(template_built: bool, chain_id: Seq<char>)
    ensures
        spec_plan(Some(Subcommand::Benchmark), true, template_built, chain_id) == Some(
            CommandPlan::Benchmark(RuntimeKind::Template),
        ) <==> (template_built && chain_id.len() >= 8 && chain_id.subrange(
            chain_id.len() - 8,
            chain_id.len() as int,
        ) == "template"@),
        spec_plan(Some(Subcommand::Benchmark), true, template_built, chain_id) is Some,
        !(template_built && has_suffix(chain_id, "template"@)) ==> spec_plan(
            Some(Subcommand::Benchmark),
            true,
            template_built,
            chain_id,
        ) == Some(CommandPlan::InvalidChainSpec),
{
    reveal_strlit("template");
}

} // verus!
