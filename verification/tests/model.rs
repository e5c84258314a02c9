//! Tests for the value model: queries, instances, versions, and errors.

use the_process_foundry::application::{AppDescription, AppInstance};
use the_process_foundry::error::FoundryError;
use the_process_foundry::query::AppQuery;
use the_process_foundry::schema::{Schema, Service, ServiceVolume, ServiceVolumeType};
use the_process_foundry::text::{lowercase, rendered_name, shell_tail, trim_end};
use the_process_foundry::version::{parse_version, u64_to_string, Version};

fn service() -> Service {
    Service {
        build: None,
        image: None,
        command: None,
        depends_on: None,
        ports: None,
        restart: None,
        volumes: None,
    }
}

#[test]
fn query_new_defaults() {
    let q = AppQuery::new("docker-compose".to_string());
    assert_eq!(q.name, "docker-compose");
    assert!(q.works_with.is_none());
    assert!(q.aliases.is_none());
    assert!(q.search_paths.is_none());
    assert!(!q.find_all);
}

#[test]
fn query_find_all_round_trip() {
    let q = AppQuery::new("docker-compose".to_string());
    let q2 = q.find_all();
    assert!(q2.find_all);
    assert_eq!(q2.name, q.name);
    assert_eq!(q2.works_with, q.works_with);
    assert_eq!(q2.aliases, q.aliases);
    assert_eq!(q2.search_paths, q.search_paths);
    // the original instance is unmodified
    assert!(!q.find_all);
    assert_eq!(q.name, "docker-compose");
}

#[test]
fn description_to_query() {
    let d = AppDescription {
        name: "postgres".to_string(),
        handles_versions: Some(">=12".to_string()),
        aliases: Some(vec!["pg".to_string(), "postgresql".to_string()]),
        search_paths: None,
    };
    let q = d.to_app_query();
    assert_eq!(q.name, "postgres");
    assert_eq!(q.works_with.as_deref(), Some(">=12"));
    assert_eq!(q.aliases, Some(vec!["pg".to_string(), "postgresql".to_string()]));
    assert!(q.search_paths.is_none());
    assert!(!q.find_all);
}

#[test]
fn full_name_with_version() {
    let mut i = AppInstance::new("pg_basebackup".to_string());
    i.version = Some(Version::new(12, 4, 1));
    assert_eq!(i.full_name(), "pg_basebackup (12.4.1)");
}

#[test]
fn full_name_without_version() {
    let i = AppInstance::new("sh".to_string());
    assert_eq!(i.full_name(), "sh (Unknown Version)");
}

#[test]
fn command_path_not_configured() {
    let i = AppInstance::new("pg_basebackup".to_string());
    let e = i.get_command_path().unwrap_err();
    assert_eq!(e.error, FoundryError::NotConfigured);
    assert_eq!(e.context, "Cli is not set for pg_basebackup");
}

#[test]
fn set_command_path_then_get() {
    let i = AppInstance::new("pg_basebackup".to_string());
    let i2 = i.set_command_path(None, "/usr/bin/pg_basebackup".to_string()).unwrap();
    assert_eq!(i2.get_command_path().unwrap(), "/usr/bin/pg_basebackup");
    // the original instance is unmodified
    assert!(i.cli.is_none());
    // a second update replaces only the path
    let i3 = i2.set_command_path(None, "/opt/pg".to_string()).unwrap();
    assert_eq!(i3.get_command_path().unwrap(), "/opt/pg");
}

#[test]
fn version_render_plain() {
    assert_eq!(Version::new(1, 2, 3).render(), "1.2.3");
    assert_eq!(Version::new(0, 0, 0).render(), "0.0.0");
}

#[test]
fn version_parse_and_render() {
    let v = parse_version("1.2.3-rc.1+build.5").unwrap();
    assert_eq!(v.major, 1);
    assert_eq!(v.minor, 2);
    assert_eq!(v.patch, 3);
    assert_eq!(v.pre, "rc.1");
    assert_eq!(v.build, "build.5");
    assert_eq!(v.render(), "1.2.3-rc.1+build.5");
}

#[test]
fn version_parse_rejects_nonsense() {
    assert!(parse_version("not a version").is_none());
    assert!(parse_version("").is_none());
}

#[test]
fn decimal_rendering() {
    assert_eq!(u64_to_string(0), "0");
    assert_eq!(u64_to_string(7), "7");
    assert_eq!(u64_to_string(10), "10");
    assert_eq!(u64_to_string(12345), "12345");
    assert_eq!(u64_to_string(u64::MAX), "18446744073709551615");
}

#[test]
fn error_messages() {
    assert_eq!(
        FoundryError::NotFound.message(),
        "The item you were looking for was not found"
    );
    assert_eq!(
        FoundryError::MultipleMatches.message(),
        "Received multiple instances when looking for a single unique response"
    );
    assert_eq!(FoundryError::DuplicateKeyError.message(), "This item's key is already in use");
}

#[test]
fn schema_defaults() {
    let s = Schema::default();
    assert_eq!(s.version, "3.8");
    assert!(s.source.is_none());
    assert!(s.services.is_empty());
    assert_eq!(s.get_source(), "No source set");
}

#[test]
fn schema_service_names_in_order() {
    let s = Schema {
        source: Some("/tmp/stack.yml".to_string()),
        version: "3.8".to_string(),
        services: vec![
            ("postgres".to_string(), service()),
            ("taiga-back".to_string(), service()),
        ],
    };
    assert_eq!(s.get_source(), "/tmp/stack.yml");
    assert_eq!(
        s.list_service_names(),
        vec!["postgres".to_string(), "taiga-back".to_string()]
    );
}

#[test]
fn volume_short_form() {
    let v = ServiceVolume::short_form("~/src:/src".to_string());
    assert_eq!(v.volume_type, ServiceVolumeType::Bind);
    assert_eq!(v.source.as_deref(), Some("~/src:/src"));
    assert!(v.target.is_none());
    assert!(v.read_only.is_none());
    assert!(v.tmpfs.is_none());
    assert!(v.consistency.is_none());
}

#[test]
fn text_helpers() {
    assert_eq!(shell_tail("/usr/bin/zsh").as_deref(), Some("zsh"));
    assert_eq!(shell_tail("/bin/bash").as_deref(), Some("bash"));
    assert_eq!(shell_tail("bash"), None);
    assert_eq!(shell_tail("/bin/"), None);
    assert_eq!(rendered_name("bash (unknown version)").as_deref(), Some("bash"));
    assert_eq!(rendered_name("bash (3.1.4)").as_deref(), Some("bash"));
    assert_eq!(rendered_name("no parens here"), None);
    assert_eq!(lowercase("BaSh"), "bash");
    assert_eq!(trim_end("abc \n\t"), "abc");
    assert_eq!(trim_end("abc"), "abc");
}
