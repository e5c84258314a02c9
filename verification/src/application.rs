//! Applications as discovered by containers.
//!
//! An [`AppInstance`] is the result of a successful resolution: metadata plus
//! the access information needed to address the application afterwards. All
//! updates are copy-on-write: a change produces a new value and the old one
//! stays valid for anyone still holding it.

use vstd::prelude::*;

use crate::container::{clone_link, ContainerNode};
use crate::error::{Failure, FoundryError};
use crate::query::{clone_opt_string, clone_opt_string_vec, AppQuery};
use crate::version::{Version, VersionView};
use std::rc::Rc;

verus! {

/// Network access to an application.
#[derive(Clone, Debug)]
pub struct ApiAccess {
    pub uri: String,
}

/// The mathematical value of a [`CliAccess`].
#[verifier::ext_equal]
pub ghost struct CliAccessView {
    pub container: Option<ContainerNode>,
    pub path: Seq<char>,
}

/// Command-line access to an application: the location of the executable,
/// plus a back-reference to the container in which that location is valid.
/// The reference is never an owning one: it exists purely so callers can ask
/// where commands against this application must be run.
#[derive(Clone, Debug)]
pub struct CliAccess {
    /// The container where this application is found.
    pub container: Option<Rc<ContainerNode>>,
    /// The location of the executable.
    pub path: String,
}

/// The node behind an optional link, as a plain value.
pub open spec fn spec_link(o: Option<Rc<ContainerNode>>) -> Option<ContainerNode> {
    match o {
        None => None,
        Some(rc) => Some(*rc),
    }
}

impl View for CliAccess {
    type V = CliAccessView;

    open spec fn view(&self) -> CliAccessView {
        CliAccessView { container: spec_link(self.container), path: self.path@ }
    }
}

impl CliAccess {
    /// A copy of this access; the container link is shared, not duplicated.
    pub fn duplicate(&self) -> (r: CliAccess)
        ensures
            r@ == self@,
    {
        CliAccess { container: clone_link(&self.container), path: self.path.clone() }
    }
}

/// The mathematical value of an [`AppInstance`].
#[verifier::ext_equal]
pub ghost struct AppInstanceView {
    pub instance_id: Option<Seq<char>>,
    pub name: Seq<char>,
    pub version: Option<VersionView>,
    pub module_version: Option<VersionView>,
    pub config_file: Option<Seq<char>>,
    pub cli: Option<CliAccessView>,
    pub api: Option<Seq<char>>,
}

/// Everything known about a discovered application: introspected metadata
/// and the access information for addressing it.
#[derive(Clone, Debug)]
pub struct AppInstance {
    /// Assigned by whichever container enumerated this instance.
    pub instance_id: Option<String>,
    /// The standard name of the application.
    pub name: String,
    /// The version of the installed application, when discoverable.
    pub version: Option<Version>,
    /// The version of the foundry code handling this instance.
    pub module_version: Option<Version>,
    /// The path of a loaded configuration file, when one is loaded.
    pub config_file: Option<String>,
    /// Command-line access, once learned.
    pub cli: Option<CliAccess>,
    /// Network access, once learned.
    pub api: Option<ApiAccess>,
}

impl View for AppInstance {
    type V = AppInstanceView;

    open spec fn view(&self) -> AppInstanceView {
        AppInstanceView {
            instance_id: self.instance_id.deep_view(),
            name: self.name@,
            version: self.version.deep_view(),
            module_version: self.module_version.deep_view(),
            config_file: self.config_file.deep_view(),
            cli: match self.cli {
                None => None,
                Some(c) => Some(c@),
            },
            api: match self.api {
                None => None,
                Some(a) => Some(a.uri@),
            },
        }
    }
}

impl DeepView for AppInstance {
    type V = AppInstanceView;

    open spec fn deep_view(&self) -> AppInstanceView {
        self.view()
    }
}

/// The standardized `name (version)` rendering used in every log line and
/// error message: the version's canonical text when one is present, and
/// `Unknown Version` otherwise.
pub open spec fn spec_render_name(name: Seq<char>, version: Option<VersionView>) -> Seq<char> {
    match version {
        Some(v) => name + " ("@ + v.spec_render() + ")"@,
        None => name + " (Unknown Version)"@,
    }
}

/// The value of an instance that knows only its name.
pub open spec fn spec_fresh_instance(name: Seq<char>) -> AppInstanceView {
    AppInstanceView {
        instance_id: None,
        name,
        version: None,
        module_version: None,
        config_file: None,
        cli: None,
        api: None,
    }
}

/// Render the standardized `name (version)` pair.
pub fn render_app_name(name: &str, version: &Option<Version>) -> (r: String)
    ensures
        r@ == spec_render_name(name@, version.deep_view()),
{
    let mut s = String::from_str(name);
    match version {
        Some(v) => {
            s.append(" (");
            s.append(v.render().as_str());
            s.append(")");
        },
        None => {
            s.append(" (Unknown Version)");
        },
    }
    proof {
        assert(s@ =~= spec_render_name(name@, version.deep_view()));
    }
    s
}

/// A copy of a list of instances with the same values.
pub fn clone_instances(v: &Vec<AppInstance>) -> (r: Vec<AppInstance>)
    ensures
        r.deep_view() == v.deep_view(),
{
    let mut r: Vec<AppInstance> = Vec::new();
    let mut i: usize = 0;
    while i < v.len()
        invariant
            i <= v@.len(),
            r.deep_view() =~= v.deep_view().take(i as int),
        decreases v@.len() - i,
    {
        let ghost prev = r.deep_view();
        r.push(v[i].duplicate());
        proof {
            assert(r.deep_view() =~= prev.push(v@[i as int]@));
            assert(v.deep_view().take(i as int + 1) =~= prev.push(v@[i as int]@));
        }
        i = i + 1;
    }
    proof {
        assert(r.deep_view() =~= v.deep_view());
    }
    r
}

/// A copy of an optional version with the same components.
pub fn clone_opt_version(o: &Option<Version>) -> (r: Option<Version>)
    ensures
        r.deep_view() == o.deep_view(),
{
    match o {
        None => None,
        Some(v) => Some(v.duplicate()),
    }
}

impl AppInstance {
    /// A fresh instance knowing only its name.
    pub fn new(name: String) -> (r: AppInstance)
        ensures
            r@ == spec_fresh_instance(name@),
            r@.name == name@,
            r@.instance_id is None,
            r@.version is None,
            r@.module_version is None,
            r@.config_file is None,
            r@.cli is None,
            r@.api is None,
    {
        AppInstance {
            instance_id: None,
            name,
            version: None,
            module_version: None,
            config_file: None,
            cli: None,
            api: None,
        }
    }

    /// A copy of this instance with the same value; container links inside
    /// the access information are shared, not duplicated.
    pub fn duplicate(&self) -> (r: AppInstance)
        ensures
            r@ == self@,
    {
        let r = AppInstance {
            instance_id: clone_opt_string(&self.instance_id),
            name: self.name.clone(),
            version: clone_opt_version(&self.version),
            module_version: clone_opt_version(&self.module_version),
            config_file: clone_opt_string(&self.config_file),
            cli: match &self.cli {
                None => None,
                Some(c) => Some(c.duplicate()),
            },
            api: match &self.api {
                None => None,
                Some(a) => Some(ApiAccess { uri: a.uri.clone() }),
            },
        };
        proof {
            assert(r@ =~= self@);
        }
        r
    }

    /// The standardized `name (version)` rendering of this instance.
    pub fn full_name(&self) -> (r: String)
        ensures
            r@ == spec_render_name(self@.name, self@.version),
    {
        render_app_name(self.name.as_str(), &self.version)
    }

    /// A copy of this instance whose command-line access points at the given
    /// path. When access information already exists, only its path changes
    /// and its container reference is kept; otherwise the given container
    /// becomes the back-reference. The original instance is unmodified.
    pub fn set_command_path(&self, container: Option<Rc<ContainerNode>>, path: String) -> (r:
        Result<AppInstance, Failure>)
        ensures
            r is Ok,
            r->Ok_0@ == (AppInstanceView {
                cli: Some(
                    CliAccessView {
                        path: path@,
                        container: match self@.cli {
                            Some(c) => c.container,
                            None => spec_link(container),
                        },
                    },
                ),
                ..self@
            }),
    {
        let cli = match &self.cli {
            None => CliAccess { path, container },
            Some(c) => CliAccess { path, container: clone_link(&c.container) },
        };
        let r = AppInstance {
            cli: Some(cli),
            instance_id: clone_opt_string(&self.instance_id),
            name: self.name.clone(),
            version: clone_opt_version(&self.version),
            module_version: clone_opt_version(&self.module_version),
            config_file: clone_opt_string(&self.config_file),
            api: match &self.api {
                None => None,
                Some(a) => Some(ApiAccess { uri: a.uri.clone() }),
            },
        };
        proof {
            assert(r@ =~= (AppInstanceView {
                cli: Some(
                    CliAccessView {
                        path: path@,
                        container: match self@.cli {
                            Some(c) => c.container,
                            None => spec_link(container),
                        },
                    },
                ),
                ..self@
            }));
        }
        Ok(r)
    }

    /// The path where this instance's executable can be invoked. Fails with
    /// `NotConfigured` exactly when no command-line access has been set.
    pub fn get_command_path(&self) -> (r: Result<String, Failure>)
        ensures
            self@.cli is Some ==> r is Ok && r->Ok_0@ == self@.cli->0.path,
            self@.cli is None ==> r is Err && r->Err_0.error == FoundryError::NotConfigured
                && r->Err_0@.context == "Cli is not set for "@ + self@.name,
    {
        match &self.cli {
            None => {
                let mut ctx = String::from_str("Cli is not set for ");
                ctx.append(self.name.as_str());
                proof {
                    assert(ctx@ =~= "Cli is not set for "@ + self@.name);
                }
                Err(Failure::new(FoundryError::NotConfigured, ctx))
            },
            Some(cli) => Ok(cli.path.clone()),
        }
    }
}

/// An application running on the local system, such as the local shell.
pub trait LocalTrait: Sized {
    /// What `get_local` promises of its result.
    spec fn local_post(r: Result<AppInstance, Failure>) -> bool;

    /// A local instance of the application.
    fn get_local() -> (r: Result<AppInstance, Failure>)
        ensures
            Self::local_post(r),
    ;
}

/// The introspection contract every application module satisfies: construct
/// the module for an instance, render its identity, and learn the installed
/// application's version and command-line access.
pub trait AppTrait: Sized {
    /// What `build` promises of its result.
    spec fn build_post(
        instance: AppInstanceView,
        parent: Option<ContainerNode>,
        r: Result<Self, Failure>,
    ) -> bool;

    /// Construct the module metadata for the given instance, checking that
    /// the module aligns with the actual installed instance.
    fn build(instance: AppInstance, parent: Option<Rc<ContainerNode>>) -> (r: Result<Self, Failure>)
        ensures
            Self::build_post(instance@, spec_link(parent), r),
    ;

    /// The rendered identity of this module.
    spec fn spec_app_name(&self) -> Seq<char>;

    /// The standardized `name (version)` rendering of this module.
    fn get_name(&self) -> (r: String)
        ensures
            r@ == self.spec_app_name(),
    ;

    /// Learn the version of the installed application; modules that cannot
    /// discover one hand the instance back unchanged.
    fn set_version(&self, instance: AppInstance) -> (r: Result<AppInstance, Failure>)
        ensures
            r is Ok && r->Ok_0@ == instance@,
    {
        Ok(instance)
    }

    /// What `set_cli` promises of its result.
    spec fn set_cli_post(
        &self,
        instance: AppInstanceView,
        r: Result<AppInstance, Failure>,
    ) -> bool;

    /// Figure out how to call the application through the given container.
    fn set_cli(&self, instance: AppInstance, container: Rc<ContainerNode>) -> (r: Result<
        AppInstance,
        Failure,
    >)
        ensures
            self.set_cli_post(instance@, r),
    ;
}

/// The mathematical value of an [`AppDescription`].
#[verifier::ext_equal]
pub ghost struct AppDescriptionView {
    pub name: Seq<char>,
    pub handles_versions: Option<Seq<char>>,
    pub aliases: Option<Seq<Seq<char>>>,
    pub search_paths: Option<Seq<Seq<char>>>,
}

/// General information about the external application a module handles.
#[derive(Clone, Debug)]
pub struct AppDescription {
    /// The name the external application is known by.
    pub name: String,
    /// The versions of the external application this module handles.
    pub handles_versions: Option<String>,
    /// Names this application might also be known as.
    pub aliases: Option<Vec<String>>,
    /// Some standard paths to look for information.
    pub search_paths: Option<Vec<String>>,
}

impl View for AppDescription {
    type V = AppDescriptionView;

    open spec fn view(&self) -> AppDescriptionView {
        AppDescriptionView {
            name: self.name@,
            handles_versions: self.handles_versions.deep_view(),
            aliases: self.aliases.deep_view(),
            search_paths: self.search_paths.deep_view(),
        }
    }
}

impl AppDescription {
    /// The query that finds running instances of the described application.
    pub fn to_app_query(&self) -> (r: AppQuery)
        requires
            self.name@.len() > 0,
        ensures
            r@.name == self@.name,
            r@.works_with == self@.handles_versions,
            r@.aliases == self@.aliases,
            r@.search_paths == self@.search_paths,
            r@.find_all == false,
            r.wf(),
    {
        AppQuery {
            name: self.name.clone(),
            works_with: clone_opt_string(&self.handles_versions),
            aliases: clone_opt_string_vec(&self.aliases),
            search_paths: clone_opt_string_vec(&self.search_paths),
            find_all: false,
        }
    }
}

} // verus!
