use shard_store::foreign_server::ForeignServer;
use shard_store::setup::{
    configure_fdw_plan, migration_followup, setup_plan, MigrationFollowup, SetupStep,
};
use shard_store::shard::Shard;

fn shard(name: &str) -> Shard {
    Shard::new(name.to_string()).unwrap()
}

fn server(name: &str, host: &str) -> ForeignServer {
    let url = format!("postgresql://u:p@{}/db", host);
    ForeignServer::new(shard(name), &url).unwrap()
}

#[test]
fn leader_runs_the_three_steps_in_order() {
    let steps = setup_plan(true);
    assert_eq!(
        steps,
        vec![SetupStep::ConfigureFdw, SetupStep::MigrateSchema, SetupStep::MapPrimary]
    );
}

#[test]
fn nonleader_runs_nothing() {
    assert!(setup_plan(false).is_empty());
}

#[test]
fn fdw_plan_skips_self_and_picks_create_or_update() {
    let servers = vec![server("primary", "h0"), server("aux", "h1"), server("extra", "h2")];
    let current = vec!["shard_aux".to_string()];
    let me = shard("primary");
    let plan = configure_fdw_plan(&servers, &current, &me);
    // the entry for this shard itself is skipped; the known server is
    // altered in place, the unknown one created
    assert_eq!(plan.len(), 2);
    assert!(plan[0].starts_with("alter server \"shard_aux\""));
    assert!(plan[1].starts_with("create server \"shard_extra\""));
}

#[test]
fn fdw_plan_is_empty_for_a_single_shard() {
    let servers = vec![server("primary", "h0")];
    let plan = configure_fdw_plan(&servers, &Vec::new(), &shard("primary"));
    assert!(plan.is_empty());
}

#[test]
fn migration_followup_decides_by_output_and_result() {
    let output = b"running migration 1".to_vec();
    let none: Vec<u8> = Vec::new();
    // every failed run is fatal, with or without output
    assert_eq!(migration_followup(&output, false), MigrationFollowup::Fail);
    assert_eq!(migration_followup(&none, false), MigrationFollowup::Fail);
    assert_eq!(migration_followup(&output, true), MigrationFollowup::ResetStats);
    assert_eq!(migration_followup(&none, true), MigrationFollowup::Nothing);
}
