//! The database-server application module.

use vstd::prelude::*;

use crate::application::{render_app_name, spec_render_name, AppInstance, AppInstanceView};
use crate::container::ContainerNode;
use crate::error::{Failure, FoundryError};
use std::rc::Rc;

verus! {

/// The database server as an application.
#[derive(Clone, Debug)]
pub struct Postgres {
    /// The server's instance metadata.
    pub instance: AppInstance,
}

impl Postgres {
    /// Construct the module for the given instance, stamping it with the
    /// version of the module code.
    pub fn new(instance: AppInstance, parent: Option<Rc<ContainerNode>>) -> (r: Result<
        Postgres,
        Failure,
    >)
        ensures
            (r is Ok) == (crate::version::semver_parse("0.1.0"@) is Some),
            r is Ok ==> r->Ok_0.instance@ == (AppInstanceView {
                module_version: crate::version::spec_parsed_module_version(),
                ..instance@
            }) && r->Ok_0.instance@.module_version is Some,
            r is Err ==> r->Err_0@.error == FoundryError::ConversionError,
    {
        let module_version = match crate::version::get_module_version("Postgres") {
            Ok(v) => v,
            Err(f) => {
                return Err(f);
            },
        };
        let p = Postgres { instance: AppInstance { module_version: Some(module_version), ..instance } };
        proof {
            assert(p.instance@ =~= (AppInstanceView {
                module_version: crate::version::spec_parsed_module_version(),
                ..instance@
            }));
        }
        Ok(p)
    }
}

impl crate::application::AppTrait for Postgres {
    open spec fn build_post(
        instance: AppInstanceView,
        parent: Option<ContainerNode>,
        r: Result<Postgres, Failure>,
    ) -> bool {
        &&& r is Ok ==> r->Ok_0.instance@ == (AppInstanceView {
            module_version: Some(r->Ok_0.instance@.module_version->0),
            ..instance
        })
        &&& r is Err ==> r->Err_0@.error == FoundryError::ConversionError
    }

    fn build(instance: AppInstance, parent: Option<Rc<ContainerNode>>) -> (r: Result<
        Postgres,
        Failure,
    >) {
        Postgres::new(instance, parent)
    }

    open spec fn spec_app_name(&self) -> Seq<char> {
        spec_render_name("Postgres"@, self.instance@.version)
    }

    fn get_name(&self) -> (r: String) {
        let r = render_app_name("Postgres", &self.instance.version);
        proof {
            assert(r@ == crate::application::AppTrait::spec_app_name(self));
        }
        r
    }

    open spec fn set_cli_post(
        &self,
        instance: AppInstanceView,
        r: Result<AppInstance, Failure>,
    ) -> bool {
        r is Err && r->Err_0@.error == FoundryError::UnhandledError
    }

    fn set_cli(&self, instance: AppInstance, container: Rc<ContainerNode>) -> (r: Result<
        AppInstance,
        Failure,
    >) {
        Err(
            Failure::new(
                FoundryError::UnhandledError,
                String::from_str("Figuring out command-line access is not defined for Postgres"),
            ),
        )
    }
}

} // verus!
