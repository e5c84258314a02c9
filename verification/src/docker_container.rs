//! A managed container as a routing node.
//!
//! A managed container holds the metadata of one running container, a link
//! to the container that owns it (through which manipulation commands are
//! sent), and the shell to use inside it when running further executables.

use vstd::prelude::*;

use crate::action::ActionTrait;
use crate::application::{
    render_app_name, spec_fresh_instance, spec_link, spec_render_name, AppInstance,
    AppInstanceView,
};
use crate::bash::{
    interpret_probe_output, spec_fresh_bash, spec_probe_found, Bash,
};
use crate::compose::DockerCompose;
use crate::container::{clone_link, spec_find_result, spec_str_result, ContainerNode, ContainerTrait};
use crate::error::{Failure, FailureView, FoundryError};
use crate::executor::ExecutorTrait;
use crate::message::{Cmd, Message, MessageView};
use crate::query::{AppQuery, AppQueryView};
use std::rc::Rc;

verus! {

/// The last observed run state of the container.
#[derive(Clone, Copy, Debug, PartialEq, Eq, Structural)]
pub enum Status {
    Down,
    /// The status has not been looked up yet.
    Unknown,
    /// The container is currently running.
    Up,
    /// The container is being reported as done.
    Exited,
}

/// One managed container.
#[derive(Clone, Debug)]
pub struct DockerContainer {
    pub status: Status,
    pub instance: AppInstance,
    /// The container that owns this instance and carries manipulation
    /// commands to it.
    pub parent: Option<Rc<ContainerNode>>,
    /// The shell to use inside this container for further executables.
    pub shell: Option<Rc<ContainerNode>>,
}

/// Two managed containers carry the same value: same status, same instance,
/// and the same shared parent and shell links.
pub open spec fn spec_same_container(a: DockerContainer, b: DockerContainer) -> bool {
    &&& a.status == b.status
    &&& a.instance@ == b.instance@
    &&& a.parent == b.parent
    &&& a.shell == b.shell
}

impl DockerContainer {
    /// A copy of this container with the same value; parent and shell links
    /// are shared, not duplicated.
    pub fn duplicate(&self) -> (r: DockerContainer)
        ensures
            spec_same_container(r, *self),
    {
        DockerContainer {
            status: self.status,
            instance: self.instance.duplicate(),
            parent: clone_link(&self.parent),
            shell: clone_link(&self.shell),
        }
    }

    /// A copy of this container owned by the given parent; the original is
    /// unmodified, and an existing parent is simply replaced.
    pub fn set_parent(&self, parent: Rc<ContainerNode>) -> (r: Result<DockerContainer, Failure>)
        ensures
            r is Ok,
            r->Ok_0.status == self.status,
            r->Ok_0.instance@ == self.instance@,
            r->Ok_0.shell == self.shell,
            r->Ok_0.parent == Some(parent),
    {
        Ok(
            DockerContainer {
                status: self.status,
                instance: self.instance.duplicate(),
                parent: Some(parent),
                shell: clone_link(&self.shell),
            },
        )
    }

    /// A copy of this container with its inner shell established; an
    /// existing shell is simply replaced. Only the default shell is
    /// supported, whatever query is preferred, so the new shell is always a
    /// fresh local-shell adapter.
    pub fn set_shell(&self, preferred: Option<AppQuery>) -> (r: Result<DockerContainer, Failure>)
        ensures
            (r is Ok) == (crate::version::semver_parse("0.1.0"@) is Some),
            r is Ok ==> ({
                &&& r->Ok_0.status == self.status
                &&& r->Ok_0.instance@ == self.instance@
                &&& r->Ok_0.parent == self.parent
                &&& spec_link(r->Ok_0.shell) matches Some(sh) && sh matches ContainerNode::Bash(b)
                    && spec_fresh_bash(b)
            }),
            r is Err ==> r->Err_0@.error == FoundryError::ConversionError,
    {
        let shell_instance = AppInstance::new(String::from_str("bash"));
        let shell = match Bash::build(shell_instance, None) {
            Ok(b) => b,
            Err(f) => {
                return Err(f);
            },
        };
        Ok(
            DockerContainer {
                status: self.status,
                instance: self.instance.duplicate(),
                parent: clone_link(&self.parent),
                shell: Some(Rc::new(ContainerNode::Bash(shell))),
            },
        )
    }

    /// Construct the adapter for one managed container: stamp the instance
    /// with the module code's version, take the given owner as parent, and
    /// establish the default inner shell.
    pub fn build(instance: AppInstance, parent: Option<Rc<ContainerNode>>) -> (r: Result<
        DockerContainer,
        Failure,
    >)
        ensures
            (r is Ok) == (crate::version::semver_parse("0.1.0"@) is Some),
            r is Ok ==> ({
                &&& r->Ok_0.status == Status::Down
                &&& r->Ok_0.instance@ == (AppInstanceView {
                    module_version: crate::version::spec_parsed_module_version(),
                    ..instance@
                })
                &&& r->Ok_0.instance@.module_version is Some
                &&& r->Ok_0.parent == parent
                &&& spec_link(r->Ok_0.shell) matches Some(sh) && sh matches ContainerNode::Bash(b)
                    && spec_fresh_bash(b)
            }),
            r is Err ==> r->Err_0@.error == FoundryError::ConversionError,
    {
        let module_version = match crate::version::get_module_version("Docker Container") {
            Ok(v) => v,
            Err(f) => {
                return Err(f);
            },
        };
        let base = DockerContainer {
            status: Status::Down,
            instance: AppInstance { module_version: Some(module_version), ..instance },
            parent,
            shell: None,
        };
        proof {
            assert(base.instance@ =~= (AppInstanceView {
                module_version: crate::version::spec_parsed_module_version(),
                ..instance@
            }));
        }
        base.set_shell(None)
    }
}

/// The command message a container's path probe forwards to its owner: run
/// the inner shell with a path check for the queried name.
pub open spec fn spec_probe_cmd(name: Seq<char>) -> crate::message::CmdView {
    crate::message::CmdView {
        run_as: None,
        command: "bash"@,
        args: seq!["-c"@, "command -v "@ + name],
    }
}

/// What the extraction of the inner shell's name can return: exactly what
/// the fixed pattern states for ASCII text, and at least a non-empty name
/// otherwise.
pub open spec fn spec_shell_name_extraction(
    folded: Seq<char>,
    extracted: Option<Seq<char>>,
) -> bool {
    &&& (vstd::utf8::is_ascii_chars(folded) ==> extracted == crate::text::spec_rendered_name(
        folded,
    ))
    &&& (extracted is Some ==> extracted->0.len() >= 1)
}

impl ContainerTrait for DockerContainer {
    open spec fn find_post(
        &self,
        query: AppQueryView,
        r: Result<Seq<AppInstanceView>, FailureView>,
    ) -> bool {
        if self.shell is None {
            &&& r is Err
            &&& r->Err_0.error == FoundryError::NotConfigured
            &&& r->Err_0.context == "Cannot run find: No shell set in '"@
                + ContainerTrait::spec_name(self) + "'"@
        } else if self.parent is None {
            &&& r is Err
            &&& r->Err_0.error == FoundryError::NotConfigured
            &&& r->Err_0.context == "Cannot run find: No parent set in '"@
                + ContainerTrait::spec_name(self) + "'"@
        } else {
            let shell_name = spec_link(self.shell)->0.spec_name();
            let folded = crate::text::lower_of(shell_name);
            exists|extracted: Option<Seq<char>>|
                {
                    &&& #[trigger] spec_shell_name_extraction(folded, extracted)
                    &&& match extracted {
                        None => {
                            &&& r is Err
                            &&& r->Err_0.error == FoundryError::Unreachable
                            &&& r->Err_0.context == "'"@ + shell_name
                                + "' does not appear to be a valid shell name"@
                        },
                        Some(n) => {
                            if n != "bash"@ {
                                &&& r is Err
                                &&& r->Err_0.error == FoundryError::Unreachable
                                &&& r->Err_0.context
                                    == "Docker containers are not currently set to use '"@ + n
                                    + "' shells"@
                            } else {
                                exists|out: Result<Seq<char>, FailureView>|
                                    {
                                        &&& #[trigger] spec_link(self.parent)->0.forward_post(
                                            self.instance@,
                                            MessageView::Command(spec_probe_cmd(query.name)),
                                            out,
                                        )
                                        &&& match out {
                                            Err(f) => r == Result::<
                                                Seq<AppInstanceView>,
                                                FailureView,
                                            >::Err(f),
                                            Ok(s) => r is Ok && r->Ok_0 == spec_probe_found(
                                                query.name,
                                                s,
                                            ),
                                        }
                                    }
                            }
                        },
                    }
                }
        }
    }

    /// Probe for the queried executable inside this container: ask the
    /// inner shell's identity, reject any shell but the default one, render
    /// a path check for it, and forward that command through the owning
    /// container, targeted at this container. What the probe printed decides
    /// what was discovered; a failure of the forwarding is passed through
    /// unchanged.
    fn find<E: ExecutorTrait>(&self, exec: &mut E, query: &AppQuery) -> (r: Result<
        Vec<AppInstance>,
        Failure,
    >) {
        let shell = match &self.shell {
            None => {
                let mut ctx = String::from_str("Cannot run find: No shell set in '");
                ctx.append(self.get_name().as_str());
                ctx.append("'");
                let res = Err(Failure::new(FoundryError::NotConfigured, ctx));
                proof {
                    assert(ctx@ =~= "Cannot run find: No shell set in '"@
                        + ContainerTrait::spec_name(self) + "'"@);
                    assert(self.find_post(query@, spec_find_result(res)));
                }
                return res;
            },
            Some(x) => x,
        };
        let parent = match &self.parent {
            None => {
                let mut ctx = String::from_str("Cannot run find: No parent set in '");
                ctx.append(self.get_name().as_str());
                ctx.append("'");
                let res = Err(Failure::new(FoundryError::NotConfigured, ctx));
                proof {
                    assert(ctx@ =~= "Cannot run find: No parent set in '"@
                        + ContainerTrait::spec_name(self) + "'"@);
                    assert(self.find_post(query@, spec_find_result(res)));
                }
                return res;
            },
            Some(x) => x,
        };
        let ghost gshell_name = spec_link(self.shell)->0.spec_name();
        let ghost gfolded = crate::text::lower_of(gshell_name);
        let lc = crate::text::lowercase(shell.node_name().as_str());
        let extracted = crate::text::rendered_name(lc.as_str());
        let ghost gextracted = extracted.deep_view();
        proof {
            assert(spec_shell_name_extraction(gfolded, gextracted));
        }
        let shell_name = match extracted {
            Some(name) => name,
            None => {
                let mut ctx = String::from_str("'");
                ctx.append(shell.node_name().as_str());
                ctx.append("' does not appear to be a valid shell name");
                let res = Err(Failure::new(FoundryError::Unreachable, ctx));
                proof {
                    assert(ctx@ =~= "'"@ + gshell_name
                        + "' does not appear to be a valid shell name"@);
                    assert(self.find_post(query@, spec_find_result(res)));
                }
                return res;
            },
        };
        if !(shell_name == String::from_str("bash")) {
            let mut ctx = String::from_str("Docker containers are not currently set to use '");
            ctx.append(shell_name.as_str());
            ctx.append("' shells");
            let res = Err(Failure::new(FoundryError::Unreachable, ctx));
            proof {
                assert(ctx@ =~= "Docker containers are not currently set to use '"@
                    + gextracted->0 + "' shells"@);
                assert(self.find_post(query@, spec_find_result(res)));
            }
            return res;
        }
        let mut probe = String::from_str("command -v ");
        probe.append(query.name.as_str());
        let mut args: Vec<String> = Vec::new();
        args.push(String::from_str("-c"));
        args.push(probe);
        let cmd = Message::Command(
            Cmd { run_as: None, command: String::from_str("bash"), args },
        );
        proof {
            assert(cmd@->Command_0.args =~= spec_probe_cmd(query@.name).args);
            assert(cmd@ == MessageView::Command(spec_probe_cmd(query@.name)));
        }
        let fres = parent.forward(exec, &self.instance, &cmd);
        let ghost gout = spec_str_result(fres);
        let output = match fres {
            Ok(out) => out,
            Err(f) => {
                let res = Err(f);
                proof {
                    assert(spec_link(self.parent)->0.forward_post(
                        self.instance@,
                        MessageView::Command(spec_probe_cmd(query@.name)),
                        gout,
                    ));
                    assert(self.find_post(query@, spec_find_result(res)));
                }
                return res;
            },
        };
        let found = interpret_probe_output(&query.name, &output);
        let res = Ok(found);
        proof {
            assert(spec_link(self.parent)->0.forward_post(
                self.instance@,
                MessageView::Command(spec_probe_cmd(query@.name)),
                gout,
            ));
            assert(self.find_post(query@, spec_find_result(res)));
        }
        res
    }

    open spec fn forward_post(
        &self,
        to: AppInstanceView,
        message: MessageView,
        r: Result<Seq<char>, FailureView>,
    ) -> bool {
        match spec_link(self.parent) {
            None => r is Err && r->Err_0.error == FoundryError::NotConfigured,
            Some(node) => {
                if node is Compose {
                    node->Compose_0.forward_post(self.instance@, message, r)
                } else {
                    r is Err && r->Err_0.error == FoundryError::NotConfigured
                }
            },
        }
    }

    /// Proxy a message for an application inside this container: hand it to
    /// the owning orchestrator, targeted at this container, and return the
    /// result verbatim. Without an owning orchestrator the message cannot be
    /// carried, and the container fails with `NotConfigured` rather than
    /// dropping it.
    fn forward<E: ExecutorTrait>(&self, exec: &mut E, to: &AppInstance, message: &Message) -> (r:
        Result<String, Failure>) {
        let res: Result<String, Failure> = match &self.parent {
            None => {
                let mut ctx = String::from_str("Cannot forward: No parent set in '");
                ctx.append(self.get_name().as_str());
                ctx.append("'");
                Err(Failure::new(FoundryError::NotConfigured, ctx))
            },
            Some(parent) => {
                match &**parent {
                    ContainerNode::Compose(c) => {
                        let fres = c.forward(exec, &self.instance, message);
                        proof {
                            assert(c.forward_post(
                                self.instance@,
                                message@,
                                spec_str_result(fres),
                            ));
                        }
                        fres
                    },
                    _ => {
                        let mut ctx = String::from_str(
                            "Cannot forward: No owning orchestrator established for '",
                        );
                        ctx.append(self.get_name().as_str());
                        ctx.append("'");
                        Err(Failure::new(FoundryError::NotConfigured, ctx))
                    },
                }
            },
        };
        proof {
            assert(self.forward_post(to@, message@, spec_str_result(res)));
        }
        res
    }

    open spec fn cached_post(&self, r: Result<Seq<AppInstanceView>, FailureView>) -> bool {
        r is Ok && r->Ok_0 == Seq::<AppInstanceView>::empty()
    }

    /// The container keeps no cache of resolved applications yet.
    fn cached_apps(&self) -> (r: Result<Vec<AppInstance>, Failure>) {
        let out: Vec<AppInstance> = Vec::new();
        proof {
            assert(out.deep_view() =~= Seq::<AppInstanceView>::empty());
        }
        Ok(out)
    }

    open spec fn spec_name(&self) -> Seq<char> {
        spec_render_name("Docker Container"@, self.instance@.version)
    }

    /// The container's identity for diagnostics.
    fn get_name(&self) -> (r: String) {
        let r = render_app_name("Docker Container", &self.instance.version);
        proof {
            assert(r@ == ContainerTrait::spec_name(self));
        }
        r
    }
}

/// Forwarding through a managed container is transparent: the container and
/// its owning orchestrator promise exactly the same results for the same
/// command message, so one intermediary and two nested intermediaries yield
/// identical final output given identical underlying process behaviour.
pub proof fn lemma_forward_transparent(
    d: DockerContainer,
    c: DockerCompose,
    to: AppInstanceView,
    message: MessageView,
    r: Result<Seq<char>, FailureView>,
)
    requires
        spec_link(d.parent) == Some(ContainerNode::Compose(c)),
    ensures
        d.forward_post(to, message, r) <==> c.forward_post(d.instance@, message, r),
{
}

/// A lookup for an application inside the container.
#[derive(Clone, Debug)]
pub struct FindApp(pub AppQuery);

/// The actions the container can run.
#[derive(Clone, Debug)]
pub enum Action {
    Find(FindApp),
    Inspect(InspectOptions),
}

/// The results of the container's actions.
#[derive(Clone, Debug)]
pub enum ActionResult {
    FindResult(Vec<AppInstance>),
    InspectResult,
}

/// Options for inspecting the running container; none are defined yet.
#[derive(Clone, Debug)]
pub struct InspectOptions {}

impl crate::application::AppTrait for DockerContainer {
    open spec fn build_post(
        instance: AppInstanceView,
        parent: Option<ContainerNode>,
        r: Result<DockerContainer, Failure>,
    ) -> bool {
        &&& r is Ok ==> ({
            &&& r->Ok_0.status == Status::Down
            &&& r->Ok_0.instance@ == (AppInstanceView {
                module_version: Some(r->Ok_0.instance@.module_version->0),
                ..instance
            })
            &&& spec_link(r->Ok_0.shell) is Some
            &&& spec_link(r->Ok_0.shell)->0 is Bash
        })
        &&& r is Err ==> r->Err_0@.error == FoundryError::ConversionError
    }

    fn build(instance: AppInstance, parent: Option<Rc<ContainerNode>>) -> (r: Result<
        DockerContainer,
        Failure,
    >) {
        DockerContainer::build(instance, parent)
    }

    open spec fn spec_app_name(&self) -> Seq<char> {
        spec_render_name("Docker Container"@, self.instance@.version)
    }

    fn get_name(&self) -> (r: String) {
        let r = render_app_name("Docker Container", &self.instance.version);
        proof {
            assert(r@ == crate::application::AppTrait::spec_app_name(self));
        }
        r
    }

    open spec fn set_cli_post(
        &self,
        instance: AppInstanceView,
        r: Result<AppInstance, Failure>,
    ) -> bool {
        r is Err && r->Err_0@.error == FoundryError::UnhandledError
    }

    fn set_cli(&self, instance: AppInstance, container: Rc<ContainerNode>) -> (r: Result<
        AppInstance,
        Failure,
    >) {
        Err(
            Failure::new(
                FoundryError::UnhandledError,
                String::from_str(
                    "Figuring out command-line access is not defined for Docker Container",
                ),
            ),
        )
    }
}

impl ActionTrait for FindApp {
    type Response = ActionResult;

    open spec fn run_post(&self, target: AppInstanceView, r: Result<ActionResult, Failure>) -> bool {
        r is Err && r->Err_0@.error == FoundryError::UnhandledError
    }

    /// Running a lookup as a free-standing action is not defined for a
    /// managed container; lookups go through the container interface.
    fn run<E: ExecutorTrait>(&self, exec: &mut E, target: &AppInstance) -> (r: Result<
        ActionResult,
        Failure,
    >) {
        Err(
            Failure::new(
                FoundryError::UnhandledError,
                String::from_str("Free-standing lookups are not defined for Docker Container"),
            ),
        )
    }

    open spec fn msg_req(&self, target: Option<AppInstanceView>) -> bool {
        true
    }

    open spec fn msg_post(
        &self,
        target: Option<AppInstanceView>,
        r: Result<Vec<Message>, Failure>,
    ) -> bool {
        r is Err && r->Err_0@.error == FoundryError::UnhandledError
    }

    /// Rendering a lookup as a message is not defined for a managed
    /// container.
    fn to_message(&self, target: Option<&AppInstance>) -> (r: Result<Vec<Message>, Failure>) {
        Err(
            Failure::new(
                FoundryError::UnhandledError,
                String::from_str(
                    "Rendering a lookup as a message is not defined for Docker Container",
                ),
            ),
        )
    }
}

impl ActionTrait for InspectOptions {
    type Response = ActionResult;

    open spec fn run_post(&self, target: AppInstanceView, r: Result<ActionResult, Failure>) -> bool {
        r is Err && r->Err_0@.error == FoundryError::UnhandledError
    }

    /// Inspecting the running container is not defined yet.
    fn run<E: ExecutorTrait>(&self, exec: &mut E, target: &AppInstance) -> (r: Result<
        ActionResult,
        Failure,
    >) {
        Err(
            Failure::new(
                FoundryError::UnhandledError,
                String::from_str("Inspecting a running container is not defined yet"),
            ),
        )
    }

    open spec fn msg_req(&self, target: Option<AppInstanceView>) -> bool {
        true
    }

    open spec fn msg_post(
        &self,
        target: Option<AppInstanceView>,
        r: Result<Vec<Message>, Failure>,
    ) -> bool {
        r is Err && r->Err_0@.error == FoundryError::UnhandledError
    }

    /// Rendering an inspection as a message is not defined yet.
    fn to_message(&self, target: Option<&AppInstance>) -> (r: Result<Vec<Message>, Failure>) {
        Err(
            Failure::new(
                FoundryError::UnhandledError,
                String::from_str("Rendering an inspection as a message is not defined yet"),
            ),
        )
    }
}

} // verus!
