//! The lookup registry for the modules doing the work.
//!
//! A registry is created once when the tree is assembled and read-only
//! thereafter: factories are registered under the name of the application
//! they handle, registration collisions are rejected, and lookups return
//! the factory registered for a definition's name. The registry is passed
//! to whatever constructs the initial container tree rather than living as
//! an ambient singleton, so isolated registries are easy to build.

use vstd::prelude::*;

use crate::application::{render_app_name, spec_render_name};
use crate::error::{Failure, FoundryError};
use crate::version::{Version, VersionView};

verus! {

/// The contract of an application factory: it can describe which
/// application it builds modules for. What the description promises is
/// factory-specific.
pub trait FactoryTrait: Sized {
    /// What this factory's `get_definition` promises of its result.
    spec fn definition_post(&self, r: Result<AppDefinition, Failure>) -> bool;

    /// The definition of the application this factory builds modules for.
    fn get_definition(&self) -> (r: Result<AppDefinition, Failure>)
        ensures
            self.definition_post(r),
    ;
}

/// Whether a registered module acts as a container, an application, or
/// either, depending on context.
#[derive(Clone, Copy, Debug, PartialEq, Eq, Structural)]
pub enum ActsAs {
    Container,
    App,
    Either,
}

impl Default for ActsAs {
    /// A module acts as either unless it says otherwise.
    fn default() -> (r: ActsAs)
        ensures
            r == ActsAs::Either,
    {
        ActsAs::Either
    }
}

/// The definition of a version of container or application management code,
/// as used for searching the registry.
#[derive(Clone, Debug)]
pub struct AppDefinition {
    pub name: String,
    pub module_version: Option<Version>,
    pub acts_as: ActsAs,
    pub works_with: Option<String>,
    pub aliases: Option<Vec<String>>,
}

impl AppDefinition {
    /// A definition for the named application at the given module version.
    pub fn new(name: String, version: Version) -> (r: AppDefinition)
        ensures
            r.name@ == name@,
            r.acts_as == ActsAs::Either,
            r.module_version.deep_view() == Some(version@),
            r.works_with is None,
            r.aliases is None,
    {
        AppDefinition {
            name,
            acts_as: ActsAs::Either,
            module_version: Some(version),
            works_with: None,
            aliases: None,
        }
    }

    /// The standardized `name (version)` rendering of this definition.
    pub fn full_name(&self) -> (r: String)
        ensures
            r@ == spec_render_name(self.name@, self.module_version.deep_view()),
    {
        render_app_name(self.name.as_str(), &self.module_version)
    }
}

/// The base index of the full system: factories registered by the name of
/// the application they handle, plus the actions and events they expose.
#[derive(Debug)]
pub struct Registry<F> {
    /// The registered factories, keyed by application name, in registration
    /// order.
    pub factories: Vec<(String, F)>,
    /// The registered action definitions, keyed by name.
    pub actions: Vec<(String, AppDefinition)>,
    /// The registered event definitions, keyed by name.
    pub events: Vec<(String, AppDefinition)>,
}

/// The names under which factories are registered, in order.
pub open spec fn spec_factory_names<F>(factories: Seq<(String, F)>) -> Seq<Seq<char>> {
    Seq::new(factories.len(), |i: int| factories[i].0@)
}

/// The position of the first factory registered under the given name.
pub open spec fn spec_factory_index<F>(factories: Seq<(String, F)>, name: Seq<char>) -> Option<
    int,
>
    decreases factories.len(),
{
    if factories.len() == 0 {
        None
    } else if factories.first().0@ == name {
        Some(0)
    } else {
        match spec_factory_index(factories.drop_first(), name) {
            None => None,
            Some(j) => Some(j + 1),
        }
    }
}

/// When the factory at position `i` carries the name and none before it
/// does, the search finds position `i`.
pub proof fn lemma_factory_index_at<F>(factories: Seq<(String, F)>, name: Seq<char>, i: int)
    requires
        0 <= i < factories.len(),
        factories[i].0@ == name,
        forall|j: int| 0 <= j < i ==> (#[trigger] factories[j]).0@ != name,
    ensures
        spec_factory_index(factories, name) == Some(i),
    decreases i,
{
    if i > 0 {
        lemma_factory_index_at(factories.drop_first(), name, i - 1);
    }
}

/// When no factory carries the name, the search finds nothing.
pub proof fn lemma_factory_index_none<F>(factories: Seq<(String, F)>, name: Seq<char>)
    requires
        forall|j: int| 0 <= j < factories.len() ==> (#[trigger] factories[j]).0@ != name,
    ensures
        spec_factory_index(factories, name) is None,
    decreases factories.len(),
{
    if factories.len() > 0 {
        lemma_factory_index_none(factories.drop_first(), name);
    }
}

impl<F: FactoryTrait> Registry<F> {
    /// A registry holds each name at most once.
    pub open spec fn wf(self) -> bool {
        forall|i: int, j: int|
            0 <= i < j < self.factories@.len() ==> spec_factory_names(self.factories@)[i]
                != spec_factory_names(self.factories@)[j]
    }

    /// An empty registry.
    pub fn new() -> (r: Registry<F>)
        ensures
            r.factories@.len() == 0,
            r.actions@.len() == 0,
            r.events@.len() == 0,
            r.wf(),
    {
        Registry { factories: Vec::new(), actions: Vec::new(), events: Vec::new() }
    }

    /// Register a factory under the name its definition carries. Fails with
    /// `DuplicateKeyError`, leaving the registry unchanged, exactly when a
    /// factory is already registered under the name the definition carries;
    /// a failure to describe the factory is passed through unchanged.
    pub fn register_factory(&mut self, app: F) -> (r: Result<(), Failure>)
        ensures
            r is Ok ==> ({
                &&& final(self).factories@.len() == old(self).factories@.len() + 1
                &&& final(self).factories@.take(old(self).factories@.len() as int) == old(
                    self,
                ).factories@
                &&& final(self).factories@.last().1 == app
                &&& exists|def: AppDefinition|
                    #[trigger] app.definition_post(Ok(def)) && final(self).factories@.last().0@
                        == def.name@
                &&& forall|j: int|
                    0 <= j < old(self).factories@.len() ==> (#[trigger] old(
                        self,
                    ).factories@[j]).0@ != final(self).factories@.last().0@
            }),
            r is Err ==> *final(self) == *old(self) && ({
                ||| app.definition_post(Err(r->Err_0))
                ||| (r->Err_0@.error == FoundryError::DuplicateKeyError && exists|
                    def: AppDefinition,
                |
                    #[trigger] app.definition_post(Ok(def)) && (exists|j: int|
                        0 <= j < old(self).factories@.len() && (#[trigger] old(
                            self,
                        ).factories@[j]).0@ == def.name@))
            }),
            old(self).wf() ==> final(self).wf(),
            final(self).actions == old(self).actions,
            final(self).events == old(self).events,
    {
        let dres = app.get_definition();
        let ghost gres = dres;
        let def = match dres {
            Ok(d) => d,
            Err(f) => {
                let ghost gf = f;
                proof {
                    assert(gres == Result::<AppDefinition, Failure>::Err(gf));
                    assert(app.definition_post(Err(gf)));
                }
                return Err(f);
            },
        };
        let ghost gdef = def;
        proof {
            assert(gres == Result::<AppDefinition, Failure>::Ok(gdef));
            assert(app.definition_post(Ok(gdef)));
        }
        let mut i: usize = 0;
        while i < self.factories.len()
            invariant
                i <= self.factories@.len(),
                gdef == def,
                app.definition_post(Ok(gdef)),
                forall|j: int| 0 <= j < i ==> (#[trigger] self.factories@[j]).0@ != def.name@,
            decreases self.factories@.len() - i,
        {
            if self.factories[i].0 == def.name {
                let mut ctx = String::from_str("An application named '");
                ctx.append(def.full_name().as_str());
                ctx.append("' has already been registered");
                proof {
                    assert(app.definition_post(Ok(gdef)));
                    assert(self.factories@[i as int].0@ == gdef.name@);
                }
                return Err(Failure::new(FoundryError::DuplicateKeyError, ctx));
            }
            i = i + 1;
        }
        self.factories.push((def.name, app));
        proof {
            assert(app.definition_post(Ok(gdef)));
            assert(final(self).factories@.last().0@ == gdef.name@);
            assert(final(self).factories@.take(old(self).factories@.len() as int) =~= old(
                self,
            ).factories@);
            if old(self).wf() {
                let news = final(self).factories@;
                let olds = old(self).factories@;
                assert forall|i: int, j: int|
                    0 <= i < j < news.len() implies spec_factory_names(news)[i]
                    != spec_factory_names(news)[j] by {
                    if j < olds.len() {
                        assert(spec_factory_names(olds)[i] != spec_factory_names(olds)[j]);
                        assert(news[i] == olds[i] && news[j] == olds[j]);
                    } else {
                        assert(news[j] == news.last());
                        assert(news[i] == olds[i]);
                        assert(olds[i].0@ != news.last().0@);
                    }
                }
                assert(final(self).wf());
            }
        }
        Ok(())
    }

    /// A one-line summary of what the registry holds, for diagnostics.
    pub fn describe(&self) -> (r: String)
        ensures
            r@ == "Registry has "@ + crate::version::spec_dec_digits(self.factories@.len())
                + " factories loaded, allowing "@ + crate::version::spec_dec_digits(
                self.actions@.len(),
            ) + " types of action and producing "@ + crate::version::spec_dec_digits(
                self.events@.len(),
            ) + " types of event"@,
    {
        let mut s = String::from_str("Registry has ");
        s.append(crate::version::u64_to_string(self.factories.len() as u64).as_str());
        s.append(" factories loaded, allowing ");
        s.append(crate::version::u64_to_string(self.actions.len() as u64).as_str());
        s.append(" types of action and producing ");
        s.append(crate::version::u64_to_string(self.events.len() as u64).as_str());
        s.append(" types of event");
        proof {
            assert(s@ =~= "Registry has "@ + crate::version::spec_dec_digits(
                self.factories@.len(),
            ) + " factories loaded, allowing "@ + crate::version::spec_dec_digits(
                self.actions@.len(),
            ) + " types of action and producing "@ + crate::version::spec_dec_digits(
                self.events@.len(),
            ) + " types of event"@);
        }
        s
    }

    /// Every factory registered for the definition's name: the first
    /// factory registered under that name when one is, and no factories
    /// otherwise.
    pub fn find(&self, def: &AppDefinition) -> (r: Result<Vec<&F>, Failure>)
        ensures
            r is Ok,
            spec_factory_index(self.factories@, def.name@) matches Some(i) ==> r->Ok_0@.len() == 1
                && *r->Ok_0@[0] == self.factories@[i].1,
            spec_factory_index(self.factories@, def.name@) is None ==> r->Ok_0@.len() == 0,
    {
        let mut out: Vec<&F> = Vec::new();
        let mut i: usize = 0;
        while i < self.factories.len()
            invariant
                i <= self.factories@.len(),
                forall|j: int| 0 <= j < i ==> (#[trigger] self.factories@[j]).0@ != def.name@,
                out@.len() == 0,
            decreases self.factories@.len() - i,
        {
            if self.factories[i].0 == def.name {
                out.push(&self.factories[i].1);
                proof {
                    lemma_factory_index_at(self.factories@, def.name@, i as int);
                }
                return Ok(out);
            }
            i = i + 1;
        }
        proof {
            lemma_factory_index_none(self.factories@, def.name@);
        }
        Ok(out)
    }
}

} // verus!
