//! A capability-routing core for discovering and commanding external software.
//!
//! Containers form a tree of routing nodes. Each node can discover the
//! applications inside itself (`find`), resolve a query to exactly one
//! application (`find_one`), and forward opaque command messages down through
//! a chain of intermediaries to the application that must execute them,
//! returning the raw result back up the chain unchanged.

pub mod action;
pub mod application;
pub mod bash;
pub mod compose;
pub mod container;
pub mod docker_container;
pub mod error;
pub mod executor;
pub mod message;
pub mod pg_basebackup;
pub mod postgres;
pub mod query;
pub mod registry;
pub mod schema;
pub mod shell;
pub mod text;
pub mod version;

use vstd::prelude::*;

use crate::application::{AppInstance, AppInstanceView};
use crate::container::{spec_select_one, ContainerNode, ContainerTrait};
use crate::error::{Failure, FoundryError};
use crate::executor::ExecutorTrait;
use crate::query::AppQuery;

verus! {

/// Resolve an application by bare name against the given container: issue a
/// fresh query for the name and require exactly one match.
pub fn find<E: ExecutorTrait>(exec: &mut E, container: &ContainerNode, app_name: String) -> (r:
    Result<AppInstance, Failure>)
    requires
        app_name@.len() > 0,
    ensures
        ({
            ||| exists|found: Seq<AppInstanceView>|
                #[trigger] container.find_post(
                    crate::query::AppQueryView {
                        name: app_name@,
                        works_with: None,
                        aliases: None,
                        search_paths: None,
                        find_all: false,
                    },
                    Ok(found),
                ) && spec_select_one(found, app_name@, r)
            ||| (r is Err && container.find_post(
                crate::query::AppQueryView {
                    name: app_name@,
                    works_with: None,
                    aliases: None,
                    search_paths: None,
                    find_all: false,
                },
                Err(r->Err_0@),
            ))
        }),
{
    let query = AppQuery::new(app_name);
    container.find_one(exec, &query)
}

/// Stand the foundry up: establish the local bootstrap shell. The caller
/// hands in the preferred shell's path as the environment reports it. Fails
/// with `ConversionError` exactly when the module's own version text cannot
/// be parsed.
pub fn bootstrap(shell_env: Option<String>) -> (r: Result<(), Failure>)
    ensures
        (r is Ok) == (crate::version::semver_parse("0.1.0"@) is Some),
        r is Err ==> r->Err_0@.error == FoundryError::ConversionError,
{
    match crate::shell::Shell::get_local_shell(shell_env) {
        Ok(_) => Ok(()),
        Err(f) => Err(f),
    }
}

} // verus!
