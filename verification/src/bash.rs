//! The local shell adapter.
//!
//! The shell is the leaf-capable root of most container trees: it can probe
//! the local system for an executable and it executes forwarded command
//! messages natively. Every process it wants run is rendered as an
//! invocation and handed to the executor; the adapter is verified to handle
//! every outcome the executor can report.

use vstd::prelude::*;

use crate::action::ActionTrait;
use crate::application::{
    clone_instances, render_app_name, spec_fresh_instance, spec_render_name, AppInstance,
    AppInstanceView, LocalTrait,
};
use crate::container::{
    spec_find_result, spec_str_result, ContainerNode, ContainerTrait,
};
use crate::error::{Failure, FailureView, FoundryError};
use crate::executor::{ExecOutcomeView, ExecOutcome, ExecutorTrait, Invocation};
use crate::message::{Cmd, Message, MessageView};
use crate::query::{AppQuery, AppQueryView};
use std::rc::Rc;

verus! {

/// The local shell as a routing node, with a cache of previously resolved
/// applications.
#[derive(Clone, Debug)]
pub struct Bash {
    /// Previously resolved applications, in resolution order.
    pub app_cache: Vec<AppInstance>,
    /// The shell's own instance metadata.
    pub instance: AppInstance,
}

/// The actions the shell can run.
#[derive(Clone, Debug)]
pub enum Action {
    Run(RunOptions),
    FindApp(FindAppQuery),
}

/// The results of the shell's actions.
#[derive(Clone, Debug)]
pub enum ActionResult {
    Run(RunResult),
    FindApp(Vec<AppInstance>),
}

/// A bare command to run in the shell.
#[derive(Clone, Debug)]
pub struct RunOptions {
    pub command: String,
    pub args: Vec<String>,
}

/// The raw output of a command run in the shell.
#[derive(Clone, Debug)]
pub struct RunResult(pub String);

/// A lookup for an application in the shell's environment.
#[derive(Clone, Debug)]
pub struct FindAppQuery(pub AppQuery);

/// The shell invocation that checks whether an executable of the given name
/// is on the path.
pub open spec fn spec_which_invocation(name: Seq<char>) -> crate::executor::InvocationView {
    crate::executor::InvocationView {
        path: "bash"@,
        args: seq!["-c"@, "command -v "@ + name],
        run_as: None,
    }
}

/// The invocation of a bare command: the command itself, its arguments, and
/// no effective user.
pub open spec fn spec_run_invocation(command: Seq<char>, args: Seq<Seq<char>>) -> crate::executor::InvocationView {
    crate::executor::InvocationView { path: command, args, run_as: None }
}

/// The invocation a forwarded command message stands for: its command, its
/// arguments, and its effective user, unchanged.
pub open spec fn spec_cmd_invocation(cmd: crate::message::CmdView) -> crate::executor::InvocationView {
    crate::executor::InvocationView { path: cmd.command, args: cmd.args, run_as: cmd.run_as }
}

/// A freshly built inner shell: the default local-shell adapter, carrying a
/// fresh `bash` instance stamped with the module's own version and an empty
/// cache.
pub open spec fn spec_fresh_bash(b: Bash) -> bool {
    &&& b.instance@ == (AppInstanceView {
        module_version: crate::version::spec_parsed_module_version(),
        ..spec_fresh_instance("bash"@)
    })
    &&& b.app_cache.deep_view() == Seq::<AppInstanceView>::empty()
}

/// What a path-probe's output discovers: nothing when the probe printed
/// nothing, and one fresh instance under the queried name otherwise.
pub open spec fn spec_probe_found(qname: Seq<char>, out: Seq<char>) -> Seq<AppInstanceView> {
    if out.len() == 0 {
        Seq::empty()
    } else {
        seq![spec_fresh_instance(qname)]
    }
}

/// What a path-probe's raw output discovers, as a value.
pub fn interpret_probe_output(query_name: &String, output: &String) -> (r: Vec<AppInstance>)
    ensures
        r.deep_view() == spec_probe_found(query_name@, output@),
{
    let mut r: Vec<AppInstance> = Vec::new();
    if !output.as_str().is_empty() {
        r.push(AppInstance::new(query_name.clone()));
        proof {
            assert(r.deep_view() =~= seq![spec_fresh_instance(query_name@)]);
        }
    } else {
        proof {
            assert(r.deep_view() =~= Seq::<AppInstanceView>::empty());
        }
    }
    r
}

/// What a completed path check means: a probe that printed something found
/// one fresh instance under the queried name, a probe that printed nothing
/// found none; output that was not valid text is a `ConversionError`; a run
/// that could not be launched fails with `NotFound`, naming the probing
/// instance and the queried name.
pub open spec fn spec_find_app_interp(
    qname: Seq<char>,
    target: AppInstanceView,
    o: ExecOutcomeView,
    r: Result<ActionResult, Failure>,
) -> bool {
    match o {
        ExecOutcomeView::Exited { success, stdout } => {
            &&& r is Ok
            &&& r->Ok_0 is FindApp
            &&& r->Ok_0->FindApp_0.deep_view() == spec_probe_found(qname, stdout)
        },
        ExecOutcomeView::BadEncoding { success } => {
            &&& r is Err
            &&& r->Err_0@.error == FoundryError::ConversionError
        },
        ExecOutcomeView::LaunchFailed => {
            &&& r is Err
            &&& r->Err_0@.error == FoundryError::NotFound
            &&& r->Err_0@.context == spec_render_name(target.name, target.version)
                + " could not find local executable for "@ + qname
        },
    }
}

/// What a completed bare run means: the decoded output is handed back
/// whatever the exit status was; undecodable output is a `ConversionError`;
/// a run that could not be launched is an `UnhandledError`.
pub open spec fn spec_run_interp(
    command: Seq<char>,
    o: ExecOutcomeView,
    r: Result<ActionResult, Failure>,
) -> bool {
    match o {
        ExecOutcomeView::Exited { success, stdout } => {
            &&& r is Ok
            &&& r->Ok_0 is Run
            &&& r->Ok_0->Run_0.0@ == stdout
        },
        ExecOutcomeView::BadEncoding { success } => {
            &&& r is Err
            &&& r->Err_0@.error == FoundryError::ConversionError
        },
        ExecOutcomeView::LaunchFailed => {
            &&& r is Err
            &&& r->Err_0@.error == FoundryError::UnhandledError
            &&& r->Err_0@.context == "Error running the command: "@ + command
        },
    }
}

/// What executing a forwarded command in the shell means: a successful exit
/// hands back the decoded output verbatim; a failed exit or an unreachable
/// process is a `RemoteError`; undecodable output is a `ConversionError`.
pub open spec fn spec_shell_exec_interp(
    o: ExecOutcomeView,
    r: Result<Seq<char>, FailureView>,
) -> bool {
    match o {
        ExecOutcomeView::Exited { success, stdout } => {
            if success {
                r == Result::<Seq<char>, FailureView>::Ok(stdout)
            } else {
                r is Err && r->Err_0.error == FoundryError::RemoteError
            }
        },
        ExecOutcomeView::BadEncoding { success } => r is Err && r->Err_0.error
            == FoundryError::ConversionError,
        ExecOutcomeView::LaunchFailed => r is Err && r->Err_0.error == FoundryError::RemoteError,
    }
}

impl Bash {
    /// Construct the shell adapter for the given instance, stamping it with
    /// the version of the module code. The parent is accepted for interface
    /// uniformity; the local shell has no parent to consult.
    pub fn build(instance: AppInstance, parent: Option<Rc<ContainerNode>>) -> (r: Result<
        Bash,
        Failure,
    >)
        ensures
            (r is Ok) == (crate::version::semver_parse("0.1.0"@) is Some),
            r is Ok ==> r->Ok_0.instance@ == (AppInstanceView {
                module_version: crate::version::spec_parsed_module_version(),
                ..instance@
            }) && r->Ok_0.instance@.module_version is Some && r->Ok_0.app_cache.deep_view()
                == Seq::<AppInstanceView>::empty(),
            r is Err ==> r->Err_0@.error == FoundryError::ConversionError,
    {
        let module_version = match crate::version::get_module_version("Bash") {
            Ok(v) => v,
            Err(f) => {
                return Err(f);
            },
        };
        let b = Bash {
            app_cache: Vec::new(),
            instance: AppInstance { module_version: Some(module_version), ..instance },
        };
        proof {
            assert(b.app_cache.deep_view() =~= Seq::<AppInstanceView>::empty());
            assert(b.instance@ =~= (AppInstanceView {
                module_version: crate::version::spec_parsed_module_version(),
                ..instance@
            }));
        }
        Ok(b)
    }
}

impl crate::application::AppTrait for Bash {
    open spec fn build_post(
        instance: AppInstanceView,
        parent: Option<ContainerNode>,
        r: Result<Bash, Failure>,
    ) -> bool {
        &&& r is Ok ==> r->Ok_0.instance@ == (AppInstanceView {
            module_version: Some(r->Ok_0.instance@.module_version->0),
            ..instance
        }) && r->Ok_0.app_cache.deep_view() == Seq::<AppInstanceView>::empty()
        &&& r is Err ==> r->Err_0@.error == FoundryError::ConversionError
    }

    fn build(instance: AppInstance, parent: Option<Rc<ContainerNode>>) -> (r: Result<Bash, Failure>) {
        Bash::build(instance, parent)
    }

    open spec fn spec_app_name(&self) -> Seq<char> {
        spec_render_name("Bash"@, self.instance@.version)
    }

    fn get_name(&self) -> (r: String) {
        render_app_name("Bash", &self.instance.version)
    }

    open spec fn set_cli_post(
        &self,
        instance: AppInstanceView,
        r: Result<AppInstance, Failure>,
    ) -> bool {
        r is Err && r->Err_0@.error == FoundryError::UnhandledError
    }

    fn set_cli(&self, instance: AppInstance, container: Rc<ContainerNode>) -> (r: Result<
        AppInstance,
        Failure,
    >) {
        Err(
            Failure::new(
                FoundryError::UnhandledError,
                String::from_str("Figuring out command-line access is not defined for Bash"),
            ),
        )
    }
}

impl LocalTrait for Bash {
    open spec fn local_post(r: Result<AppInstance, Failure>) -> bool {
        r is Ok && r->Ok_0@ == spec_fresh_instance("bash"@)
    }

    fn get_local() -> (r: Result<AppInstance, Failure>) {
        Ok(AppInstance::new(String::from_str("bash")))
    }
}

impl ActionTrait for RunOptions {
    type Response = ActionResult;

    open spec fn run_post(&self, target: AppInstanceView, r: Result<ActionResult, Failure>) -> bool {
        exists|o: ExecOutcomeView| #[trigger] spec_run_interp(self.command@, o, r)
    }

    /// Run the bare command and hand back whatever it printed.
    fn run<E: ExecutorTrait>(&self, exec: &mut E, target: &AppInstance) -> (r: Result<
        ActionResult,
        Failure,
    >) {
        let invocation = Invocation {
            path: self.command.clone(),
            args: crate::query::clone_string_vec(&self.args),
            run_as: None,
        };
        proof {
            assert(invocation@ =~= spec_run_invocation(self.command@, self.args.deep_view()));
        }
        let outcome = exec.execute(&invocation);
        let res = match outcome {
            ExecOutcome::Exited { success: _, stdout } => Ok(
                ActionResult::Run(RunResult(stdout)),
            ),
            ExecOutcome::BadEncoding { success: _ } => Err(
                Failure::new(
                    FoundryError::ConversionError,
                    String::from_str("Received output that was not valid text"),
                ),
            ),
            ExecOutcome::LaunchFailed => {
                let mut ctx = String::from_str("Error running the command: ");
                ctx.append(self.command.as_str());
                Err(Failure::new(FoundryError::UnhandledError, ctx))
            },
        };
        proof {
            assert(spec_run_interp(self.command@, outcome@, res));
        }
        res
    }

    open spec fn msg_req(&self, target: Option<AppInstanceView>) -> bool {
        true
    }

    open spec fn msg_post(
        &self,
        target: Option<AppInstanceView>,
        r: Result<Vec<Message>, Failure>,
    ) -> bool {
        &&& r is Ok
        &&& r->Ok_0.deep_view() == seq![
            MessageView::Command(
                crate::message::CmdView {
                    run_as: None,
                    command: self.command@,
                    args: self.args.deep_view(),
                },
            ),
        ]
    }

    /// Render the bare command as a single self-contained message.
    fn to_message(&self, target: Option<&AppInstance>) -> (r: Result<Vec<Message>, Failure>) {
        let message = Message::Command(
            Cmd {
                run_as: None,
                command: self.command.clone(),
                args: crate::query::clone_string_vec(&self.args),
            },
        );
        let mut out: Vec<Message> = Vec::new();
        out.push(message);
        proof {
            assert(out.deep_view() =~= seq![
                MessageView::Command(
                    crate::message::CmdView {
                        run_as: None,
                        command: self.command@,
                        args: self.args.deep_view(),
                    },
                ),
            ]);
        }
        Ok(out)
    }
}

impl ActionTrait for FindAppQuery {
    type Response = ActionResult;

    open spec fn run_post(&self, target: AppInstanceView, r: Result<ActionResult, Failure>) -> bool {
        exists|o: ExecOutcomeView| #[trigger] spec_find_app_interp(self.0@.name, target, o, r)
    }

    /// Probe the local system for an executable matching the query's name.
    fn run<E: ExecutorTrait>(&self, exec: &mut E, target: &AppInstance) -> (r: Result<
        ActionResult,
        Failure,
    >) {
        let mut probe = String::from_str("command -v ");
        probe.append(self.0.name.as_str());
        let mut args: Vec<String> = Vec::new();
        args.push(String::from_str("-c"));
        args.push(probe);
        let invocation = Invocation { path: String::from_str("bash"), args, run_as: None };
        proof {
            assert(invocation@ =~= spec_which_invocation(self.0@.name));
        }
        let outcome = exec.execute(&invocation);
        let ghost gout = outcome@;
        let res = match outcome {
            ExecOutcome::Exited { success: _, stdout } => Ok(
                ActionResult::FindApp(interpret_probe_output(&self.0.name, &stdout)),
            ),
            ExecOutcome::BadEncoding { success: _ } => Err(
                Failure::new(
                    FoundryError::ConversionError,
                    String::from_str("Received output that was not valid text"),
                ),
            ),
            ExecOutcome::LaunchFailed => {
                let mut ctx = target.full_name();
                ctx.append(" could not find local executable for ");
                ctx.append(self.0.name.as_str());
                Err(Failure::new(FoundryError::NotFound, ctx))
            },
        };
        proof {
            assert(spec_find_app_interp(self.0@.name, target@, gout, res));
            assert(self.run_post(target@, res));
        }
        res
    }

    open spec fn msg_req(&self, target: Option<AppInstanceView>) -> bool {
        true
    }

    open spec fn msg_post(
        &self,
        target: Option<AppInstanceView>,
        r: Result<Vec<Message>, Failure>,
    ) -> bool {
        &&& r is Err
        &&& r->Err_0@.error == FoundryError::UnhandledError
    }

    /// Rendering a path probe as a message is not defined for the shell.
    fn to_message(&self, target: Option<&AppInstance>) -> (r: Result<Vec<Message>, Failure>) {
        Err(
            Failure::new(
                FoundryError::UnhandledError,
                String::from_str("Rendering a path probe as a message is not defined for Bash"),
            ),
        )
    }
}

impl Action {
    /// Run this action against the given shell.
    pub fn run<E: ExecutorTrait>(&self, exec: &mut E, target: &Bash) -> (r: Result<
        ActionResult,
        Failure,
    >)
        ensures
            match self {
                Action::Run(_) => r is Err && r->Err_0@.error == FoundryError::UnhandledError,
                Action::FindApp(q) => exists|o: ExecOutcomeView| #[trigger]
                    spec_find_app_interp(q.0@.name, target.instance@, o, r),
            },
    {
        match self {
            Action::Run(_opts) => Err(
                Failure::new(
                    FoundryError::UnhandledError,
                    String::from_str("Running a bare command through Bash actions is not defined"),
                ),
            ),
            Action::FindApp(query) => query.run(exec, &target.instance),
        }
    }
}

/// What the shell's `find` promises: the probe's interpretation, lifted to
/// the container interface.
pub open spec fn spec_bash_find(
    inst: AppInstanceView,
    qname: Seq<char>,
    o: ExecOutcomeView,
    r: Result<Seq<AppInstanceView>, FailureView>,
) -> bool {
    match o {
        ExecOutcomeView::Exited { success, stdout } => {
            &&& r is Ok
            &&& r->Ok_0 == spec_probe_found(qname, stdout)
        },
        ExecOutcomeView::BadEncoding { success } => {
            &&& r is Err
            &&& r->Err_0.error == FoundryError::ConversionError
        },
        ExecOutcomeView::LaunchFailed => {
            &&& r is Err
            &&& r->Err_0.error == FoundryError::NotFound
            &&& r->Err_0.context == spec_render_name(inst.name, inst.version)
                + " could not find local executable for "@ + qname
        },
    }
}

impl ContainerTrait for Bash {
    open spec fn find_post(
        &self,
        query: AppQueryView,
        r: Result<Seq<AppInstanceView>, FailureView>,
    ) -> bool {
        exists|o: ExecOutcomeView| #[trigger] spec_bash_find(self.instance@, query.name, o, r)
    }

    /// Probe the local system for the queried executable.
    fn find<E: ExecutorTrait>(&self, exec: &mut E, query: &AppQuery) -> (r: Result<
        Vec<AppInstance>,
        Failure,
    >) {
        let action = Action::FindApp(FindAppQuery(query.duplicate()));
        let ghost qname = query@.name;
        let ar = action.run(exec, self);
        let ghost gar = ar;
        let res = match ar {
            Ok(ActionResult::FindApp(result)) => Ok(result),
            Ok(_) => Err(
                Failure::new(
                    FoundryError::Unreachable,
                    String::from_str("Received a non-FindApp Result from Bash::find"),
                ),
            ),
            Err(f) => Err(f),
        };
        proof {
            let o = choose|o: ExecOutcomeView| #[trigger]
                spec_find_app_interp(qname, self.instance@, o, gar);
            assert(spec_bash_find(self.instance@, qname, o, spec_find_result(res)));
        }
        res
    }

    open spec fn forward_post(
        &self,
        to: AppInstanceView,
        message: MessageView,
        r: Result<Seq<char>, FailureView>,
    ) -> bool {
        match message {
            MessageView::Command(_) => exists|o: ExecOutcomeView| #[trigger]
                spec_shell_exec_interp(o, r),
            _ => r is Err && r->Err_0.error == FoundryError::Unreachable,
        }
    }

    /// Execute a forwarded command natively and hand its output back
    /// verbatim.
    fn forward<E: ExecutorTrait>(&self, exec: &mut E, to: &AppInstance, message: &Message) -> (r:
        Result<String, Failure>) {
        match message {
            Message::Command(cmd) => {
                let invocation = Invocation {
                    path: cmd.command.clone(),
                    args: crate::query::clone_string_vec(&cmd.args),
                    run_as: crate::query::clone_opt_string(&cmd.run_as),
                };
                proof {
                    assert(invocation@ =~= spec_cmd_invocation(cmd@));
                }
                let outcome = exec.execute(&invocation);
                let res = match outcome {
                    ExecOutcome::Exited { success, stdout } => {
                        if success {
                            Ok(stdout)
                        } else {
                            Err(
                                Failure::new(
                                    FoundryError::RemoteError,
                                    String::from_str("The command exited with a failure status"),
                                ),
                            )
                        }
                    },
                    ExecOutcome::BadEncoding { success: _ } => Err(
                        Failure::new(
                            FoundryError::ConversionError,
                            String::from_str("Received output that was not valid text"),
                        ),
                    ),
                    ExecOutcome::LaunchFailed => Err(
                        Failure::new(
                            FoundryError::RemoteError,
                            String::from_str("The command could not be launched"),
                        ),
                    ),
                };
                proof {
                    assert(spec_shell_exec_interp(outcome@, spec_str_result(res)));
                }
                res
            },
            _ => Err(
                Failure::new(
                    FoundryError::Unreachable,
                    String::from_str("Bash can only forward command messages"),
                ),
            ),
        }
    }

    open spec fn cached_post(&self, r: Result<Seq<AppInstanceView>, FailureView>) -> bool {
        r is Ok && r->Ok_0 == self.app_cache.deep_view()
    }

    /// List the already-resolved applications; no probing.
    fn cached_apps(&self) -> (r: Result<Vec<AppInstance>, Failure>) {
        Ok(clone_instances(&self.app_cache))
    }

    open spec fn spec_name(&self) -> Seq<char> {
        spec_render_name("Bash"@, self.instance@.version)
    }

    /// The shell's identity for diagnostics.
    fn get_name(&self) -> (r: String) {
        render_app_name("Bash", &self.instance.version)
    }
}

} // verus!
