use duality::chain_spec::{chain_spec_source, load_spec, ChainSpecSource};
use duality::cli_info::{copyright_start_year, impl_name, support_url};
use duality::command::{plan_command, ChainOpsTask, CommandPlan, Subcommand, SyncTask};
use duality::runtime::{built_runtime, RuntimeKind};
use duality::service::{chain_ops_runtime, plan_node, telemetry_worker, NodeRole};
use duality::text::{ends_with, str_equals};
use duality::variant::IdentifyVariant;

const BENCH_OFF: &str = "Benchmarking wasn't enabled when building the node. You can enable it with `--features runtime-benchmarks`.";

#[test]
fn text_helpers() {
    assert!(str_equals("dev", "dev"));
    assert!(!str_equals("dev", "de"));
    assert!(!str_equals("dev", "deV"));
    assert!(str_equals("", ""));
    assert!(ends_with("local-template", "template"));
    assert!(ends_with("template", "template"));
    assert!(!ends_with("plate", "template"));
    assert!(!ends_with("template-x", "template"));
    assert!(ends_with("anything", ""));
}

#[test]
fn identify_template_chains() {
    assert!("template".is_template());
    assert!("local_testnet_template".is_template());
    assert!(String::from("dev-template").is_template());
    assert!(!"sparrow".is_template());
    assert!(!"template-sparrow".is_template());
    assert!(!"".is_template());
}

#[test]
fn chain_spec_sources() {
    assert_eq!(chain_spec_source("dev"), ChainSpecSource::Development);
    assert_eq!(chain_spec_source("local"), ChainSpecSource::LocalTestnet);
    assert_eq!(chain_spec_source(""), ChainSpecSource::LocalTestnet);
    assert_eq!(
        chain_spec_source("./specs/raw.json"),
        ChainSpecSource::JsonFile(String::from("./specs/raw.json"))
    );
    assert_eq!(chain_spec_source("Dev"), ChainSpecSource::JsonFile(String::from("Dev")));
}

#[test]
fn built_runtime_precedence() {
    assert_eq!(built_runtime(true, true), Some(RuntimeKind::Sparrow));
    assert_eq!(built_runtime(true, false), Some(RuntimeKind::Sparrow));
    assert_eq!(built_runtime(false, true), Some(RuntimeKind::Template));
    assert_eq!(built_runtime(false, false), None);
}

#[test]
fn load_spec_without_runtime() {
    assert_eq!(load_spec(None, "dev"), Err(String::from("No runtime is included in this build")));
}

#[test]
fn load_spec_with_runtime() {
    assert_eq!(
        load_spec(Some(RuntimeKind::Template), "local"),
        Ok((RuntimeKind::Template, ChainSpecSource::LocalTestnet))
    );
    assert_eq!(
        load_spec(Some(RuntimeKind::Sparrow), "dev"),
        Ok((RuntimeKind::Sparrow, ChainSpecSource::Development))
    );
    assert_eq!(
        load_spec(Some(RuntimeKind::Sparrow), "spec.json"),
        Ok((RuntimeKind::Sparrow, ChainSpecSource::JsonFile(String::from("spec.json"))))
    );
}

#[test]
fn plan_plain_commands() {
    assert_eq!(plan_command(None, false, true, "dev"), Ok(CommandPlan::RunNode));
    assert_eq!(plan_command(Some(Subcommand::Key), false, true, "dev"), Ok(CommandPlan::Key));
    assert_eq!(
        plan_command(Some(Subcommand::BuildSpec), false, true, "dev"),
        Ok(CommandPlan::Sync(SyncTask::BuildSpec))
    );
    assert_eq!(
        plan_command(Some(Subcommand::PurgeChain), false, true, "dev"),
        Ok(CommandPlan::Sync(SyncTask::PurgeChain))
    );
    assert_eq!(
        plan_command(Some(Subcommand::CheckBlock), false, true, "dev"),
        Ok(CommandPlan::ChainOps(ChainOpsTask::CheckBlock))
    );
    assert_eq!(
        plan_command(Some(Subcommand::ExportBlocks), false, true, "dev"),
        Ok(CommandPlan::ChainOps(ChainOpsTask::ExportBlocks))
    );
    assert_eq!(
        plan_command(Some(Subcommand::ExportState), false, true, "dev"),
        Ok(CommandPlan::ChainOps(ChainOpsTask::ExportState))
    );
    assert_eq!(
        plan_command(Some(Subcommand::ImportBlocks), false, true, "dev"),
        Ok(CommandPlan::ChainOps(ChainOpsTask::ImportBlocks))
    );
    assert_eq!(
        plan_command(Some(Subcommand::Revert), false, true, "dev"),
        Ok(CommandPlan::ChainOps(ChainOpsTask::Revert))
    );
}

#[test]
fn plan_benchmark_disabled() {
    assert_eq!(
        plan_command(Some(Subcommand::Benchmark), false, true, "local-template"),
        Err(String::from(BENCH_OFF))
    );
}

#[test]
fn plan_benchmark_template() {
    assert_eq!(
        plan_command(Some(Subcommand::Benchmark), true, true, "local-template"),
        Ok(CommandPlan::Benchmark(RuntimeKind::Template))
    );
}

#[test]
fn plan_benchmark_invalid_chain_spec() {
    assert_eq!(
        plan_command(Some(Subcommand::Benchmark), true, true, "sparrow"),
        Ok(CommandPlan::InvalidChainSpec)
    );
    assert_eq!(
        plan_command(Some(Subcommand::Benchmark), true, false, "local-template"),
        Ok(CommandPlan::InvalidChainSpec)
    );
}

#[test]
fn telemetry_worker_choice() {
    assert_eq!(telemetry_worker(None), None);
    assert_eq!(telemetry_worker(Some(0)), None);
    assert_eq!(telemetry_worker(Some(1)), Some(16));
    assert_eq!(telemetry_worker(Some(7)), Some(16));
}

#[test]
fn chain_ops_always_template() {
    assert_eq!(chain_ops_runtime("local-template"), RuntimeKind::Template);
    assert_eq!(chain_ops_runtime("sparrow"), RuntimeKind::Template);
}

#[test]
fn role_authority() {
    assert!(NodeRole::Authority.is_authority());
    assert!(!NodeRole::Full.is_authority());
    assert!(!NodeRole::Light.is_authority());
}

#[test]
fn authority_node_tasks() {
    let t = plan_node(NodeRole::Authority, true, false, String::from("alice"));
    assert!(t.pool_is_validator);
    assert!(t.build_offchain_workers);
    assert!(t.spawn_block_authoring);
    assert!(t.run_grandpa_voter);
    assert_eq!(t.grandpa.gossip_duration_ms, 333);
    assert_eq!(t.grandpa.justification_period, 512);
    assert_eq!(t.grandpa.name, Some(String::from("alice")));
    assert!(!t.grandpa.observer_enabled);
    assert!(t.grandpa.use_keystore);
}

#[test]
fn full_node_tasks() {
    let t = plan_node(NodeRole::Full, false, true, String::from("bob"));
    assert!(!t.pool_is_validator);
    assert!(!t.build_offchain_workers);
    assert!(!t.spawn_block_authoring);
    assert!(!t.run_grandpa_voter);
    assert!(!t.grandpa.use_keystore);
    assert_eq!(t.grandpa.use_keystore, t.spawn_block_authoring);
}

#[test]
fn voter_follows_switch_only() {
    let a = plan_node(NodeRole::Authority, false, false, String::from("n"));
    let f = plan_node(NodeRole::Full, false, false, String::from("n"));
    assert_eq!(a.run_grandpa_voter, f.run_grandpa_voter);
}

#[test]
fn cli_metadata() {
    assert_eq!(impl_name(), "Substrate Node");
    assert_eq!(support_url(), "support.anonymous.an");
    assert_eq!(copyright_start_year(), 2017);
}
