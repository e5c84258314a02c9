//! Tests for the action-to-message protocol and the registry.

use the_process_foundry::action::ActionTrait;
use the_process_foundry::application::{AppInstance, AppTrait};
use the_process_foundry::bash::RunOptions;
use the_process_foundry::compose::ExecOptions;
use the_process_foundry::error::{Failure, FoundryError};
use the_process_foundry::executor::{ExecOutcome, ScriptedExecutor};
use the_process_foundry::message::Message;
use the_process_foundry::pg_basebackup::{Compression, Options, PgBaseBackup};
use the_process_foundry::registry::{ActsAs, AppDefinition, FactoryTrait, Registry};
use the_process_foundry::version::Version;

#[test]
fn backup_options_render_exact_message() {
    let opts = Options::new("/backup".to_string());
    let target = AppInstance::new("pg_basebackup".to_string())
        .set_command_path(None, "pg_basebackup".to_string())
        .unwrap();
    let messages = opts.to_message(Some(&target)).unwrap();
    assert_eq!(messages.len(), 1);
    match &messages[0] {
        Message::Command(cmd) => {
            assert_eq!(cmd.run_as.as_deref(), Some("postgres"));
            assert_eq!(cmd.command, "pg_basebackup");
            assert_eq!(cmd.args, vec!["-D".to_string(), "/backup".to_string()]);
        },
        other => panic!("expected a command message, got {:?}", other),
    }
}

#[test]
fn backup_options_require_cli_access() {
    let opts = Options::new("/backup".to_string());
    let target = AppInstance::new("pg_basebackup".to_string());
    let e = opts.to_message(Some(&target)).unwrap_err();
    assert_eq!(e.error, FoundryError::NotConfigured);
}

#[test]
fn backup_options_reject_a_missing_target() {
    let opts = Options::new("/backup".to_string());
    let e = opts.to_message(None).unwrap_err();
    assert_eq!(e.error, FoundryError::Unreachable);
    assert_eq!(e.context, "The backup cannot be rendered without a target");
}

#[test]
fn backup_runs_through_the_container_chain() {
    let compose = the_process_foundry::compose::DockerCompose::build(
        AppInstance::new("docker-compose".to_string()),
        None,
    )
    .unwrap()
    .load(
        "/tmp/stack.yml".to_string(),
        the_process_foundry::schema::Schema {
            source: None,
            version: "3.8".to_string(),
            services: vec![(
                "postgres".to_string(),
                the_process_foundry::schema::Service {
                    build: None,
                    image: None,
                    command: None,
                    depends_on: None,
                    ports: None,
                    restart: None,
                    volumes: None,
                },
            )],
        },
    )
    .unwrap();
    let container = compose.get_container("postgres".to_string()).unwrap();
    let instance = AppInstance::new("pg_basebackup".to_string())
        .set_command_path(None, "pg_basebackup".to_string())
        .unwrap();
    let backup = PgBaseBackup {
        instance,
        parent: std::rc::Rc::new(
            the_process_foundry::container::ContainerNode::Container(container),
        ),
    };
    let mut exec = ScriptedExecutor::new(vec![ExecOutcome::Exited {
        success: true,
        stdout: "base backup complete\n".to_string(),
    }]);
    let out = backup.run(&mut exec, &Options::new("/backup".to_string())).unwrap();
    assert_eq!(out, "base backup complete");
    // the rendered invocation carries the decided user and arguments
    let inv = &exec.log[0];
    assert_eq!(inv.path, "/usr/local/bin/docker-compose");
    assert!(inv.args.contains(&"--user".to_string()));
    assert!(inv.args.contains(&"postgres".to_string()));
    assert!(inv.args.contains(&"pg_basebackup".to_string()));
    assert!(inv.args.contains(&"-D".to_string()));
    assert!(inv.args.contains(&"/backup".to_string()));
}

#[test]
fn backup_defaults() {
    let opts = Options::new("/backup".to_string());
    assert_eq!(opts.pgdata.as_deref(), Some("/backup"));
    assert!(opts.max_rate.is_none());
    assert!(!opts.write_recovery_conf);
    assert!(opts.compression.is_none());
    assert_eq!(Compression::default(), Compression::Plain);
}

#[test]
fn run_options_render_message() {
    let opts = RunOptions { command: "ls".to_string(), args: vec!["-l".to_string()] };
    let messages = opts.to_message(None).unwrap();
    assert_eq!(messages.len(), 1);
    match &messages[0] {
        Message::Command(cmd) => {
            assert!(cmd.run_as.is_none());
            assert_eq!(cmd.command, "ls");
            assert_eq!(cmd.args, vec!["-l".to_string()]);
        },
        other => panic!("expected a command message, got {:?}", other),
    }
}

#[test]
fn run_options_hand_output_back() {
    let opts = RunOptions { command: "ls".to_string(), args: vec![] };
    let target = AppInstance::new("bash".to_string());
    let mut exec = ScriptedExecutor::new(vec![ExecOutcome::Exited {
        success: true,
        stdout: "a\nb\n".to_string(),
    }]);
    match opts.run(&mut exec, &target).unwrap() {
        the_process_foundry::bash::ActionResult::Run(out) => assert_eq!(out.0, "a\nb\n"),
        other => panic!("expected a run result, got {:?}", other),
    }
    let mut unlaunchable = ScriptedExecutor::new(vec![ExecOutcome::LaunchFailed]);
    let e = opts.run(&mut unlaunchable, &target).unwrap_err();
    assert_eq!(e.error, FoundryError::UnhandledError);
    assert_eq!(e.context, "Error running the command: ls");
}

#[test]
fn exec_options_defaults() {
    let opts = ExecOptions::new("postgres".to_string(), "pg_basebackup".to_string());
    assert_eq!(opts.service_name, "postgres");
    assert_eq!(opts.command, "pg_basebackup");
    assert!(opts.args.is_empty());
    assert!(!opts.detach);
    assert!(!opts.privileged);
    assert!(opts.index.is_none());
    assert!(opts.user.is_none());
    assert!(opts.env.is_none());
    assert!(opts.workdir.is_none());
}

#[test]
fn exec_options_plan_requires_configuration() {
    let opts = ExecOptions::new("postgres".to_string(), "true".to_string());
    let bare = AppInstance::new("docker-compose".to_string());
    let e = opts.plan(&bare).unwrap_err();
    assert_eq!(e.error, FoundryError::ConfigurationError);
}

struct StubFactory {
    name: String,
}

impl FactoryTrait for StubFactory {
    fn definition_post(&self, _r: Result<AppDefinition, Failure>) -> bool {
        true
    }

    fn get_definition(&self) -> Result<AppDefinition, Failure> {
        Ok(AppDefinition::new(self.name.clone(), Version::new(0, 1, 0)))
    }
}

#[test]
fn registry_registers_and_finds() {
    let mut registry: Registry<StubFactory> = Registry::new();
    registry.register_factory(StubFactory { name: "bash".to_string() }).unwrap();
    registry.register_factory(StubFactory { name: "docker-compose".to_string() }).unwrap();

    let def = AppDefinition::new("bash".to_string(), Version::new(0, 1, 0));
    let found = registry.find(&def).unwrap();
    assert_eq!(found.len(), 1);
    assert_eq!(found[0].name, "bash");

    let missing = AppDefinition::new("redis".to_string(), Version::new(0, 1, 0));
    assert!(registry.find(&missing).unwrap().is_empty());
}

#[test]
fn registry_rejects_duplicate_keys() {
    let mut registry: Registry<StubFactory> = Registry::new();
    registry.register_factory(StubFactory { name: "bash".to_string() }).unwrap();
    let e = registry.register_factory(StubFactory { name: "bash".to_string() }).unwrap_err();
    assert_eq!(e.error, FoundryError::DuplicateKeyError);
    assert_eq!(e.context, "An application named 'bash (0.1.0)' has already been registered");
}

#[test]
fn registry_describes_itself() {
    let mut registry: Registry<StubFactory> = Registry::new();
    assert_eq!(
        registry.describe(),
        "Registry has 0 factories loaded, allowing 0 types of action and producing 0 types of event"
    );
    registry.register_factory(StubFactory { name: "bash".to_string() }).unwrap();
    assert_eq!(
        registry.describe(),
        "Registry has 1 factories loaded, allowing 0 types of action and producing 0 types of event"
    );
}

#[test]
fn definition_full_name() {
    let def = AppDefinition::new("bash".to_string(), Version::new(0, 1, 0));
    assert_eq!(def.full_name(), "bash (0.1.0)");
    assert_eq!(def.acts_as, ActsAs::Either);
    let bare = AppDefinition {
        name: "sh".to_string(),
        module_version: None,
        acts_as: ActsAs::default(),
        works_with: None,
        aliases: None,
    };
    assert_eq!(bare.full_name(), "sh (Unknown Version)");
}

#[test]
fn module_version_is_stamped() {
    let bash =
        the_process_foundry::bash::Bash::build(AppInstance::new("bash".to_string()), None).unwrap();
    assert_eq!(bash.instance.module_version.unwrap().render(), "0.1.0");
}

#[test]
fn unimplemented_actions_fail_recoverably() {
    let mut exec = ScriptedExecutor::new(vec![]);
    let target = AppInstance::new("docker-compose".to_string());
    let find = the_process_foundry::compose::FindApp(
        the_process_foundry::query::AppQuery::new("postgres".to_string()),
    );
    assert_eq!(
        find.run(&mut exec, &target).unwrap_err().error,
        FoundryError::UnhandledError
    );
    assert_eq!(
        find.to_message(None).unwrap_err().error,
        FoundryError::UnhandledError
    );
    let inspect = the_process_foundry::docker_container::InspectOptions {};
    assert_eq!(
        inspect.run(&mut exec, &target).unwrap_err().error,
        FoundryError::UnhandledError
    );
}

#[test]
fn app_trait_set_version_hands_back_unchanged() {
    let bash =
        the_process_foundry::bash::Bash::build(AppInstance::new("bash".to_string()), None).unwrap();
    let instance = AppInstance::new("bash".to_string());
    let back = bash.set_version(instance).unwrap();
    assert_eq!(back.name, "bash");
    assert!(back.version.is_none());
}
