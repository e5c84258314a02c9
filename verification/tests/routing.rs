//! Tests for discovery, uniqueness, and forwarding through the container
//! tree, driven by a scripted executor.

use the_process_foundry::application::AppInstance;
use the_process_foundry::bash::Bash;
use the_process_foundry::compose::DockerCompose;
use the_process_foundry::container::{ContainerNode, ContainerTrait};
use the_process_foundry::docker_container::{DockerContainer, Status};
use the_process_foundry::error::FoundryError;
use the_process_foundry::executor::{ExecOutcome, ScriptedExecutor};
use the_process_foundry::message::{Cmd, Message};
use the_process_foundry::query::AppQuery;
use the_process_foundry::schema::{Schema, Service};
use the_process_foundry::shell::{Shell, ShellType};
use the_process_foundry::version::Version;

fn service() -> Service {
    Service {
        build: None,
        image: None,
        command: None,
        depends_on: None,
        ports: None,
        restart: None,
        volumes: None,
    }
}

fn schema_with(names: &[&str]) -> Schema {
    Schema {
        source: None,
        version: "3.8".to_string(),
        services: names.iter().map(|n| (n.to_string(), service())).collect(),
    }
}

fn loaded_compose(names: &[&str]) -> DockerCompose {
    DockerCompose::build(AppInstance::new("docker-compose".to_string()), None)
        .unwrap()
        .load("/tmp/stack.yml".to_string(), schema_with(names))
        .unwrap()
}

fn no_exec() -> ScriptedExecutor {
    ScriptedExecutor::new(vec![])
}

#[test]
fn find_one_zero_matches_is_not_found() {
    let compose = loaded_compose(&["postgres"]);
    let mut exec = no_exec();
    let q = AppQuery::new("docker-compose".to_string());
    let e = compose.find_one(&mut exec, &q).unwrap_err();
    assert_eq!(e.error, FoundryError::NotFound);
    assert_eq!(
        e.context,
        "No instances matching your query of docker-compose have been registered"
    );
}

#[test]
fn find_one_single_match_returns_it() {
    let compose = loaded_compose(&["docker-compose", "postgres"]);
    let mut exec = no_exec();
    let q = AppQuery::new("docker-compose".to_string());
    let found = compose.find_one(&mut exec, &q).unwrap();
    assert_eq!(found.name, "docker-compose");
    assert!(found.version.is_none());
}

#[test]
fn find_one_two_matches_is_rejected() {
    // two differently-cased installs fold to the same queried name
    let compose = loaded_compose(&["docker-compose", "Docker-Compose"]);
    let mut exec = no_exec();
    let q = AppQuery::new("docker-compose".to_string());
    let e = compose.find_one(&mut exec, &q).unwrap_err();
    assert_eq!(e.error, FoundryError::MultipleMatches);
    assert_eq!(
        e.context,
        "2 instances matching your definition for docker-compose have been registered. Please narrow your search criteria"
    );
}

#[test]
fn find_one_agrees_with_find() {
    let compose = loaded_compose(&["docker-compose", "postgres"]);
    let mut exec = no_exec();
    let q = AppQuery::new("postgres".to_string());
    let all = compose.find(&mut exec, &q).unwrap();
    assert_eq!(all.len(), 1);
    let one = compose.find_one(&mut exec, &q).unwrap();
    assert_eq!(one.name, all[0].name);
}

#[test]
fn find_all_never_changes_the_matches() {
    let compose = loaded_compose(&["docker-compose", "Docker-Compose", "postgres"]);
    let mut exec = no_exec();
    let q = AppQuery::new("docker-compose".to_string());
    let plain: Vec<String> =
        compose.find(&mut exec, &q).unwrap().into_iter().map(|i| i.name).collect();
    let all: Vec<String> =
        compose.find(&mut exec, &q.find_all()).unwrap().into_iter().map(|i| i.name).collect();
    assert_eq!(plain, all);
    assert_eq!(plain, vec!["docker-compose".to_string(), "Docker-Compose".to_string()]);
}

#[test]
fn find_matches_case_insensitively() {
    let compose = loaded_compose(&["Postgres"]);
    let mut exec = no_exec();
    let q = AppQuery::new("postgres".to_string());
    let all = compose.find(&mut exec, &q).unwrap();
    assert_eq!(all.len(), 1);
    assert_eq!(all[0].name, "Postgres");
    // the query side is folded too
    let loud = AppQuery::new("POSTGRES".to_string());
    let all2 = compose.find(&mut exec, &loud).unwrap();
    assert_eq!(all2.len(), 1);
    assert_eq!(all2[0].name, "Postgres");
}

#[test]
fn find_matches_through_aliases() {
    let compose = loaded_compose(&["Postgres", "taiga-back"]);
    let mut exec = no_exec();
    let mut q = AppQuery::new("postgresql".to_string());
    q.aliases = Some(vec!["pg".to_string(), "postgres".to_string()]);
    let all = compose.find(&mut exec, &q).unwrap();
    assert_eq!(all.len(), 1);
    assert_eq!(all[0].name, "Postgres");
    // without the alias, nothing matches
    let bare = AppQuery::new("postgresql".to_string());
    assert!(compose.find(&mut exec, &bare).unwrap().is_empty());
}

#[test]
fn find_without_configuration_fails() {
    let compose =
        DockerCompose::build(AppInstance::new("docker-compose".to_string()), None).unwrap();
    let mut exec = no_exec();
    let q = AppQuery::new("postgres".to_string());
    let e = compose.find(&mut exec, &q).unwrap_err();
    assert_eq!(e.error, FoundryError::ConfigurationError);
}

#[test]
fn compose_forward_renders_exec_invocation() {
    let compose = loaded_compose(&["postgres"]);
    let mut exec = ScriptedExecutor::new(vec![ExecOutcome::Exited {
        success: true,
        stdout: "/usr/bin/pg_basebackup\n".to_string(),
    }]);
    let to = AppInstance::new("postgres".to_string());
    let msg = Message::Command(Cmd {
        run_as: Some("postgres".to_string()),
        command: "bash".to_string(),
        args: vec!["-c".to_string(), "command -v pg_basebackup".to_string()],
    });
    let out = compose.forward(&mut exec, &to, &msg).unwrap();
    // trailing whitespace is trimmed, nothing else changes
    assert_eq!(out, "/usr/bin/pg_basebackup");
    assert_eq!(exec.log.len(), 1);
    let inv = &exec.log[0];
    assert_eq!(inv.path, "/usr/local/bin/docker-compose");
    assert_eq!(
        inv.args,
        vec![
            "-f".to_string(),
            "/tmp/stack.yml".to_string(),
            "exec".to_string(),
            "-T".to_string(),
            "--user".to_string(),
            "postgres".to_string(),
            "postgres".to_string(),
            "bash".to_string(),
            "-c".to_string(),
            "command -v pg_basebackup".to_string(),
            "".to_string(),
        ]
    );
    assert!(inv.run_as.is_none());
}

#[test]
fn compose_forward_failure_kinds() {
    let compose = loaded_compose(&["postgres"]);
    let to = AppInstance::new("postgres".to_string());
    let msg = Message::Command(Cmd {
        run_as: None,
        command: "true".to_string(),
        args: vec![],
    });

    let mut failing = ScriptedExecutor::new(vec![ExecOutcome::Exited {
        success: false,
        stdout: "".to_string(),
    }]);
    assert_eq!(
        compose.forward(&mut failing, &to, &msg).unwrap_err().error,
        FoundryError::RemoteError
    );

    let mut garbled = ScriptedExecutor::new(vec![ExecOutcome::BadEncoding { success: true }]);
    assert_eq!(
        compose.forward(&mut garbled, &to, &msg).unwrap_err().error,
        FoundryError::ConversionError
    );

    let mut unlaunchable = ScriptedExecutor::new(vec![ExecOutcome::LaunchFailed]);
    assert_eq!(
        compose.forward(&mut unlaunchable, &to, &msg).unwrap_err().error,
        FoundryError::UnhandledError
    );
}

#[test]
fn compose_forward_rejects_non_command() {
    let compose = loaded_compose(&["postgres"]);
    let mut exec = no_exec();
    let to = AppInstance::new("postgres".to_string());
    let e = compose.forward(&mut exec, &to, &Message::Rpc).unwrap_err();
    assert_eq!(e.error, FoundryError::Unreachable);
}

#[test]
fn forward_without_parent_is_not_configured() {
    let container = DockerContainer {
        status: Status::Down,
        instance: AppInstance::new("postgres".to_string()),
        parent: None,
        shell: None,
    };
    let mut exec = no_exec();
    let msg = Message::Command(Cmd {
        run_as: None,
        command: "pg_basebackup".to_string(),
        args: vec!["-D".to_string(), "/backup".to_string()],
    });
    let target = AppInstance::new("pg_basebackup".to_string());
    let e = container.forward(&mut exec, &target, &msg).unwrap_err();
    assert_eq!(e.error, FoundryError::NotConfigured);
}

#[test]
fn forwarding_is_transparent_across_one_and_two_intermediaries() {
    let compose = loaded_compose(&["postgres"]);
    let container = compose.get_container("postgres".to_string()).unwrap();
    let msg = Message::Command(Cmd {
        run_as: Some("postgres".to_string()),
        command: "pg_basebackup".to_string(),
        args: vec!["-D".to_string(), "/backup".to_string()],
    });
    let outcome = ExecOutcome::Exited { success: true, stdout: "backup done\n".to_string() };

    // one intermediary: straight through the orchestrator
    let mut direct = ScriptedExecutor::new(vec![outcome.duplicate()]);
    let to = AppInstance::new("postgres".to_string());
    let direct_out = compose.forward(&mut direct, &to, &msg).unwrap();

    // two nested intermediaries: through the managed container, then the
    // orchestrator snapshot it carries
    let mut nested = ScriptedExecutor::new(vec![outcome]);
    let target = AppInstance::new("pg_basebackup".to_string());
    let nested_out = container.forward(&mut nested, &target, &msg).unwrap();

    assert_eq!(direct_out, nested_out);
    assert_eq!(direct_out, "backup done");
    // the very same process invocation was issued in both cases
    assert_eq!(direct.log.len(), 1);
    assert_eq!(nested.log.len(), 1);
    assert_eq!(direct.log[0].path, nested.log[0].path);
    assert_eq!(direct.log[0].args, nested.log[0].args);
    assert_eq!(direct.log[0].run_as, nested.log[0].run_as);
}

#[test]
fn bash_find_reports_discovery() {
    let bash = Bash::build(AppInstance::new("bash".to_string()), None).unwrap();
    let mut exec = ScriptedExecutor::new(vec![ExecOutcome::Exited {
        success: true,
        stdout: "/usr/bin/docker-compose\n".to_string(),
    }]);
    let q = AppQuery::new("docker-compose".to_string());
    let all = bash.find(&mut exec, &q).unwrap();
    assert_eq!(all.len(), 1);
    assert_eq!(all[0].name, "docker-compose");
    assert_eq!(exec.log.len(), 1);
    assert_eq!(exec.log[0].path, "bash");
    assert_eq!(
        exec.log[0].args,
        vec!["-c".to_string(), "command -v docker-compose".to_string()]
    );
}

#[test]
fn bash_find_empty_probe_output_finds_nothing() {
    let bash = Bash::build(AppInstance::new("bash".to_string()), None).unwrap();
    let mut exec = ScriptedExecutor::new(vec![ExecOutcome::Exited {
        success: false,
        stdout: "".to_string(),
    }]);
    let q = AppQuery::new("no-such-tool".to_string());
    let all = bash.find(&mut exec, &q).unwrap();
    assert!(all.is_empty());
}

#[test]
fn bash_find_garbled_probe_output_is_conversion_error() {
    let bash = Bash::build(AppInstance::new("bash".to_string()), None).unwrap();
    let mut exec = ScriptedExecutor::new(vec![ExecOutcome::BadEncoding { success: true }]);
    let q = AppQuery::new("docker-compose".to_string());
    let e = bash.find(&mut exec, &q).unwrap_err();
    assert_eq!(e.error, FoundryError::ConversionError);
}

#[test]
fn bash_find_launch_failure_is_not_found() {
    let bash = Bash::build(AppInstance::new("bash".to_string()), None).unwrap();
    let mut exec = ScriptedExecutor::new(vec![ExecOutcome::LaunchFailed]);
    let q = AppQuery::new("docker-compose".to_string());
    let e = bash.find(&mut exec, &q).unwrap_err();
    assert_eq!(e.error, FoundryError::NotFound);
    assert_eq!(
        e.context,
        "bash (Unknown Version) could not find local executable for docker-compose"
    );
}

#[test]
fn bash_forward_executes_natively() {
    let bash = Bash::build(AppInstance::new("bash".to_string()), None).unwrap();
    let to = AppInstance::new("echo".to_string());
    let msg = Message::Command(Cmd {
        run_as: Some("postgres".to_string()),
        command: "echo".to_string(),
        args: vec!["hello".to_string()],
    });
    let mut exec = ScriptedExecutor::new(vec![ExecOutcome::Exited {
        success: true,
        stdout: "hello\n".to_string(),
    }]);
    // output comes back verbatim, untrimmed
    assert_eq!(bash.forward(&mut exec, &to, &msg).unwrap(), "hello\n");
    assert_eq!(exec.log[0].path, "echo");
    assert_eq!(exec.log[0].run_as.as_deref(), Some("postgres"));

    let mut failing = ScriptedExecutor::new(vec![ExecOutcome::Exited {
        success: false,
        stdout: "".to_string(),
    }]);
    assert_eq!(
        bash.forward(&mut failing, &to, &msg).unwrap_err().error,
        FoundryError::RemoteError
    );
}

#[test]
fn container_find_probes_through_parent() {
    let compose = loaded_compose(&["postgres"]);
    let container = compose.get_container("postgres".to_string()).unwrap();
    let mut exec = ScriptedExecutor::new(vec![ExecOutcome::Exited {
        success: true,
        stdout: "/usr/bin/pg_basebackup\n".to_string(),
    }]);
    let q = AppQuery::new("pg_basebackup".to_string());
    let all = container.find(&mut exec, &q).unwrap();
    assert_eq!(all.len(), 1);
    assert_eq!(all[0].name, "pg_basebackup");
    // the probe travelled through the orchestrator as an exec of the
    // container's inner shell
    assert_eq!(exec.log.len(), 1);
    assert_eq!(exec.log[0].path, "/usr/local/bin/docker-compose");
    assert!(exec.log[0].args.contains(&"postgres".to_string()));
    assert!(exec.log[0].args.contains(&"command -v pg_basebackup".to_string()));
}

#[test]
fn container_find_empty_probe_output_finds_nothing() {
    let compose = loaded_compose(&["postgres"]);
    let container = compose.get_container("postgres".to_string()).unwrap();
    let mut exec = ScriptedExecutor::new(vec![ExecOutcome::Exited {
        success: true,
        stdout: "".to_string(),
    }]);
    let q = AppQuery::new("pg_basebackup".to_string());
    let all = container.find(&mut exec, &q).unwrap();
    assert!(all.is_empty());
}

#[test]
fn container_find_without_shell_is_not_configured() {
    let container = DockerContainer {
        status: Status::Down,
        instance: AppInstance::new("postgres".to_string()),
        parent: None,
        shell: None,
    };
    let mut exec = no_exec();
    let q = AppQuery::new("pg_basebackup".to_string());
    let e = container.find(&mut exec, &q).unwrap_err();
    assert_eq!(e.error, FoundryError::NotConfigured);
}

#[test]
fn get_container_by_name() {
    let compose = loaded_compose(&["postgres", "taiga-back"]);
    let c = compose.get_container("taiga-back".to_string()).unwrap();
    assert_eq!(c.instance.name, "taiga-back");
    let e = compose.get_container("redis".to_string()).unwrap_err();
    assert_eq!(e.error, FoundryError::NotFound);
    assert_eq!(
        e.context,
        "Docker Compose does not have a service named 'redis' in conf at '/tmp/stack.yml'. Possible choices are: [postgres, taiga-back]"
    );
}

#[test]
fn cached_apps_lists_resolved_children() {
    let compose = loaded_compose(&["postgres", "taiga-back"]);
    let cached: Vec<String> =
        compose.cached_apps().unwrap().into_iter().map(|i| i.name).collect();
    assert_eq!(cached, vec!["postgres".to_string(), "taiga-back".to_string()]);

    let bash = Bash::build(AppInstance::new("bash".to_string()), None).unwrap();
    assert!(bash.cached_apps().unwrap().is_empty());
}

#[test]
fn adapter_names_render_uniformly() {
    let mut instance = AppInstance::new("docker-compose".to_string());
    instance.version = Some(Version::new(1, 25, 4));
    let compose = DockerCompose::build(instance, None).unwrap();
    assert_eq!(ContainerTrait::get_name(&compose), "Docker Compose (1.25.4)");

    let bash = Bash::build(AppInstance::new("bash".to_string()), None).unwrap();
    assert_eq!(ContainerTrait::get_name(&bash), "Bash (Unknown Version)");

    let container = DockerContainer::build(AppInstance::new("postgres".to_string()), None).unwrap();
    assert_eq!(ContainerTrait::get_name(&container), "Docker Container (Unknown Version)");
}

#[test]
fn node_find_one_through_the_interface() {
    let compose = loaded_compose(&["docker-compose"]);
    let node = ContainerNode::Compose(compose);
    let mut exec = no_exec();
    let found =
        the_process_foundry::find(&mut exec, &node, "docker-compose".to_string()).unwrap();
    assert_eq!(found.name, "docker-compose");
}

#[test]
fn bootstrap_establishes_the_local_shell() {
    assert!(the_process_foundry::bootstrap(None).is_ok());
    assert!(the_process_foundry::bootstrap(Some("/usr/bin/zsh".to_string())).is_ok());
}

#[test]
fn local_shell_defaults_to_bash() {
    let s = Shell::get_local_shell(Some("/usr/bin/zsh".to_string())).unwrap();
    assert_eq!(s.shell_type, ShellType::Bash);
    assert_eq!(s.instance.name, "bash");
    let s2 = Shell::get_local_shell(None).unwrap();
    assert_eq!(s2.shell_type, ShellType::Bash);
}
