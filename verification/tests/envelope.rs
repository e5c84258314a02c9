//! Tests for the message envelope, the executor, and the remaining value
//! types.

use the_process_foundry::application::{ApiAccess, AppInstance};
use the_process_foundry::executor::{ExecOutcome, ExecutorTrait, Invocation, ScriptedExecutor};
use the_process_foundry::message::{
    Cmd, Message, MessageValue, RoutingInfo, RoutingTarget,
};
use the_process_foundry::pg_basebackup::{Checkpoint, Rate, WalMethod};
use the_process_foundry::query::{CliQueryOptions, QueryOptions};

#[test]
fn message_round_trips_through_duplicate() {
    let msg = Message::Command(Cmd {
        run_as: Some("postgres".to_string()),
        command: "pg_basebackup".to_string(),
        args: vec!["-D".to_string(), "/backup".to_string()],
    });
    match msg.duplicate() {
        Message::Command(cmd) => {
            assert_eq!(cmd.run_as.as_deref(), Some("postgres"));
            assert_eq!(cmd.command, "pg_basebackup");
            assert_eq!(cmd.args, vec!["-D".to_string(), "/backup".to_string()]);
        },
        other => panic!("expected a command message, got {:?}", other),
    }
    assert!(matches!(Message::Rpc.duplicate(), Message::Rpc));
    assert!(matches!(Message::Rest.duplicate(), Message::Rest));
}

#[test]
fn instance_duplicate_preserves_the_value() {
    let mut i = AppInstance::new("postgres".to_string());
    i.instance_id = Some("abc".to_string());
    i.config_file = Some("/tmp/stack.yml".to_string());
    i.api = Some(ApiAccess { uri: "http://localhost:5432".to_string() });
    let d = i.duplicate();
    assert_eq!(d.name, "postgres");
    assert_eq!(d.instance_id.as_deref(), Some("abc"));
    assert_eq!(d.config_file.as_deref(), Some("/tmp/stack.yml"));
    assert_eq!(d.api.unwrap().uri, "http://localhost:5432");
}

#[test]
fn scripted_executor_replays_in_order_then_runs_dry() {
    let mut exec = ScriptedExecutor::new(vec![
        ExecOutcome::Exited { success: true, stdout: "first".to_string() },
        ExecOutcome::Exited { success: false, stdout: "second".to_string() },
    ]);
    let inv = Invocation { path: "true".to_string(), args: vec![], run_as: None };
    assert!(matches!(
        exec.execute(&inv),
        ExecOutcome::Exited { success: true, ref stdout } if stdout == "first"
    ));
    assert!(matches!(
        exec.execute(&inv),
        ExecOutcome::Exited { success: false, ref stdout } if stdout == "second"
    ));
    assert!(matches!(exec.execute(&inv), ExecOutcome::LaunchFailed));
    assert_eq!(exec.log.len(), 3);
}

#[test]
fn remaining_value_types_construct() {
    let cli = CliQueryOptions { search_paths: Some(vec!["/usr/bin".to_string()]) };
    assert_eq!(cli.search_paths.unwrap().len(), 1);
    let _q = QueryOptions::Cli;
    let _m = MessageValue::Command(Cmd {
        run_as: None,
        command: "true".to_string(),
        args: vec![],
    });
    let routing = RoutingInfo { targets: vec![RoutingTarget::Broadcast, RoutingTarget::Children] };
    assert_eq!(routing.targets.len(), 2);
    let _rate = Rate::KbS(512);
    let _wal = WalMethod::Stream;
    let _cp = Checkpoint::Fast;
}
