//! The compose-based orchestrator adapter.
//!
//! The orchestrator answers discovery from its loaded configuration and
//! forwards command messages into the containers it manages by rendering
//! them as `exec` invocations of its own command-line tool.

use vstd::prelude::*;

use crate::action::ActionTrait;
use crate::application::{
    render_app_name, spec_fresh_instance, spec_link, spec_render_name, AppInstance,
    AppInstanceView,
};
use crate::container::{clone_link, spec_find_result, spec_str_result, ContainerNode, ContainerTrait};
use crate::docker_container::{spec_same_container, DockerContainer};
use crate::error::{Failure, FailureView, FoundryError};
use crate::executor::{ExecOutcome, ExecOutcomeView, ExecutorTrait, Invocation, InvocationView};
use crate::message::{Message, MessageView};
use crate::query::{clone_opt_string, clone_string_vec, AppQuery, AppQueryView};
use crate::schema::{Schema, SchemaView};
use crate::text::{lower_of, lowercase, trim_end, trimmed_of};
use std::rc::Rc;

verus! {

/// The orchestrator as a routing node.
#[derive(Clone, Debug)]
pub struct DockerCompose {
    /// The shell or container this orchestrator itself runs in.
    pub parent: Option<Rc<ContainerNode>>,
    /// The orchestrator's own instance metadata.
    pub instance: AppInstance,
    /// The loaded configuration, once `load` has run.
    pub config: Option<Schema>,
    /// The managed containers built from the configuration, keyed by their
    /// instance names, in configuration order.
    pub containers: Vec<DockerContainer>,
}

/// Notifications the orchestrator can emit.
#[derive(Clone, Copy, Debug, PartialEq, Eq, Structural)]
pub enum Event {
    UpComplete,
    DownComplete,
    RestartedService,
    BuildComplete,
}

/// The actions registered for the orchestrator.
#[derive(Clone, Debug)]
pub enum Action {
    Find(FindApp),
    /// Run a command against a running managed container.
    Exec(ExecOptions),
    /// Dump the configuration to a file; not yet defined.
    Export,
}

/// The results of the orchestrator's actions.
#[derive(Clone, Debug)]
pub enum ActionResult {
    FindResult(Vec<AppInstance>),
    ListServices(Vec<String>),
    Exec(String),
}

/// A lookup for an application among the managed containers.
#[derive(Clone, Debug)]
pub struct FindApp(pub AppQuery);

/// The options of an `exec` run against a managed container.
#[derive(Clone, Debug)]
pub struct ExecOptions {
    pub command: String,
    pub args: Vec<String>,
    pub service_name: String,
    pub detach: bool,
    pub privileged: bool,
    pub index: Option<u8>,
    pub user: Option<String>,
    pub env: Option<Vec<(String, String)>>,
    pub workdir: Option<String>,
}

impl ExecOptions {
    /// Options that run the given command in the given service, with every
    /// other choice left at its default.
    pub fn new(service_name: String, command: String) -> (r: ExecOptions)
        ensures
            r.service_name@ == service_name@,
            r.command@ == command@,
            r.args.deep_view() == Seq::<Seq<char>>::empty(),
            r.detach == false,
            r.privileged == false,
            r.index is None,
            r.user is None,
            r.env is None,
            r.workdir is None,
    {
        let r = ExecOptions {
            command,
            args: Vec::new(),
            service_name,
            detach: false,
            privileged: false,
            index: None,
            user: None,
            env: None,
            workdir: None,
        };
        proof {
            assert(r.args.deep_view() =~= Seq::<Seq<char>>::empty());
        }
        r
    }
}

/// Whether a folded candidate equals one of the folded alternate names.
pub open spec fn spec_alias_match(aliases: Seq<Seq<char>>, folded: Seq<char>) -> bool {
    exists|i: int| 0 <= i < aliases.len() && folded == lower_of(#[trigger] aliases[i])
}

/// Whether a candidate name satisfies a query: the folded candidate equals
/// the folded query name, or the folded candidate equals one of the query's
/// folded alternate names.
pub open spec fn spec_query_matches(q: AppQueryView, candidate: Seq<char>) -> bool {
    ||| lower_of(candidate) == lower_of(q.name)
    ||| (q.aliases is Some && spec_alias_match(q.aliases->0, lower_of(candidate)))
}

/// The instances an orchestrator configuration discovers for a query: one
/// fresh instance per declared service whose name satisfies the query,
/// case-insensitively and through the query's alternate names, in
/// declaration order.
pub open spec fn spec_compose_matches(names: Seq<Seq<char>>, q: AppQueryView) -> Seq<
    AppInstanceView,
>
    decreases names.len(),
{
    if names.len() == 0 {
        Seq::empty()
    } else {
        spec_compose_matches(names.drop_last(), q) + (if spec_query_matches(q, names.last()) {
            seq![spec_fresh_instance(names.last())]
        } else {
            Seq::empty()
        })
    }
}

/// The matches of a query depend on its name and alternate names alone, so
/// switching `find_all` on never changes the set of applications an
/// orchestrator discovers — only whether a multi-match is rejected at the
/// `find_one` boundary.
pub proof fn lemma_find_all_same_matches(names: Seq<Seq<char>>, q: AppQueryView)
    ensures
        spec_compose_matches(names, q.with_find_all()) == spec_compose_matches(names, q),
    decreases names.len(),
{
    if names.len() > 0 {
        lemma_find_all_same_matches(names.drop_last(), q);
        assert(spec_query_matches(q.with_find_all(), names.last()) == spec_query_matches(
            q,
            names.last(),
        ));
    }
}

/// Whether the candidate name satisfies the query, as a value.
pub fn query_matches(query: &AppQuery, candidate: &String) -> (r: bool)
    ensures
        r == spec_query_matches(query@, candidate@),
{
    let folded = lowercase(candidate.as_str());
    if folded == lowercase(query.name.as_str()) {
        return true;
    }
    match &query.aliases {
        None => false,
        Some(aliases) => {
            let mut i: usize = 0;
            while i < aliases.len()
                invariant
                    i <= aliases@.len(),
                    folded@ == lower_of(candidate@),
                    folded@ != lower_of(query@.name),
                    query@.aliases == Some(aliases.deep_view()),
                    forall|j: int|
                        0 <= j < i ==> folded@ != lower_of(#[trigger] aliases.deep_view()[j]),
                decreases aliases@.len() - i,
            {
                if folded == lowercase(aliases[i].as_str()) {
                    proof {
                        assert(folded@ == lower_of(aliases.deep_view()[i as int]));
                        assert(spec_alias_match(query@.aliases->0, lower_of(candidate@)));
                    }
                    return true;
                }
                proof {
                    assert(folded@ != lower_of(aliases.deep_view()[i as int]));
                }
                i = i + 1;
            }
            proof {
                assert(!spec_alias_match(query@.aliases->0, lower_of(candidate@)));
            }
            false
        },
    }
}

/// The `exec` invocation of the orchestrator's command-line tool: its fixed
/// install location, the configuration file, the no-TTY exec verb, the
/// effective user when one was decided, the target service, and the command
/// with its arguments.
pub open spec fn spec_exec_invocation(
    user: Option<Seq<char>>,
    service: Seq<char>,
    command: Seq<char>,
    args: Seq<Seq<char>>,
    compose_name: Seq<char>,
    config_file: Seq<char>,
) -> InvocationView {
    InvocationView {
        path: "/usr/local/bin/"@ + compose_name,
        args: seq!["-f"@, config_file, "exec"@, "-T"@] + (match user {
            Some(u) => seq!["--user"@, u],
            None => Seq::empty(),
        }) + seq![service, command] + args + seq![Seq::<char>::empty()],
        run_as: None,
    }
}

/// What an `exec` run's outcome means: a successful exit hands back the
/// decoded output with trailing whitespace removed; a failed exit is a
/// `RemoteError`; undecodable output is a `ConversionError`; a tool that
/// could not be launched is an `UnhandledError`.
pub open spec fn spec_exec_interp(o: ExecOutcomeView, r: Result<ActionResult, Failure>) -> bool {
    match o {
        ExecOutcomeView::Exited { success, stdout } => {
            if success {
                &&& r is Ok
                &&& r->Ok_0 is Exec
                &&& r->Ok_0->Exec_0@ == trimmed_of(stdout)
            } else {
                &&& r is Err
                &&& r->Err_0@.error == FoundryError::RemoteError
            }
        },
        ExecOutcomeView::BadEncoding { success } => r is Err && r->Err_0@.error
            == FoundryError::ConversionError,
        ExecOutcomeView::LaunchFailed => r is Err && r->Err_0@.error
            == FoundryError::UnhandledError,
    }
}

/// [`spec_exec_interp`], lifted to the raw output a `forward` hands back.
pub open spec fn spec_compose_forward_interp(
    o: ExecOutcomeView,
    r: Result<Seq<char>, FailureView>,
) -> bool {
    match o {
        ExecOutcomeView::Exited { success, stdout } => {
            if success {
                r == Result::<Seq<char>, FailureView>::Ok(trimmed_of(stdout))
            } else {
                r is Err && r->Err_0.error == FoundryError::RemoteError
            }
        },
        ExecOutcomeView::BadEncoding { success } => r is Err && r->Err_0.error
            == FoundryError::ConversionError,
        ExecOutcomeView::LaunchFailed => r is Err && r->Err_0.error == FoundryError::UnhandledError,
    }
}

impl ExecOptions {
    /// Render these options as the orchestrator invocation that runs them.
    /// Fails with `ConfigurationError` exactly when the orchestrator
    /// instance has no configuration file to run against.
    pub fn plan(&self, compose: &AppInstance) -> (r: Result<Invocation, Failure>)
        ensures
            compose@.config_file is None ==> r is Err && r->Err_0@.error
                == FoundryError::ConfigurationError,
            compose@.config_file is Some ==> r is Ok && r->Ok_0@ == spec_exec_invocation(
                self.user.deep_view(),
                self.service_name@,
                self.command@,
                self.args.deep_view(),
                compose@.name,
                compose@.config_file->0,
            ),
    {
        let config_file = match &compose.config_file {
            Some(path) => path.clone(),
            None => {
                return Err(
                    Failure::new(
                        FoundryError::ConfigurationError,
                        String::from_str(
                            "Docker Compose does not have a configuration file to run against",
                        ),
                    ),
                );
            },
        };
        let mut path = String::from_str("/usr/local/bin/");
        path.append(compose.name.as_str());
        let mut args: Vec<String> = Vec::new();
        args.push(String::from_str("-f"));
        args.push(config_file);
        args.push(String::from_str("exec"));
        args.push(String::from_str("-T"));
        match &self.user {
            None => {},
            Some(user) => {
                args.push(String::from_str("--user"));
                args.push(user.clone());
            },
        }
        args.push(self.service_name.clone());
        args.push(self.command.clone());
        let ghost base = args.deep_view();
        proof {
            assert(base =~~= seq!["-f"@, compose@.config_file->0, "exec"@, "-T"@] + (match self
                .user
                .deep_view() {
                Some(u) => seq!["--user"@, u],
                None => Seq::empty(),
            }) + seq![self.service_name@, self.command@]);
        }
        let mut i: usize = 0;
        while i < self.args.len()
            invariant
                i <= self.args@.len(),
                args.deep_view() =~= base + self.args.deep_view().take(i as int),
            decreases self.args@.len() - i,
        {
            let ghost prev = args.deep_view();
            args.push(self.args[i].clone());
            proof {
                assert(args.deep_view() =~= prev.push(self.args@[i as int]@));
                assert(base + self.args.deep_view().take(i as int + 1) =~= prev.push(
                    self.args@[i as int]@,
                ));
            }
            i = i + 1;
        }
        proof {
            assert(self.args.deep_view().take(self.args@.len() as int) =~= self.args.deep_view());
        }
        let ghost before_tail = args.deep_view();
        args.push(String::new());
        let inv = Invocation { path, args, run_as: None };
        proof {
            assert(inv@.args =~= before_tail.push(Seq::<char>::empty()));
            assert(inv@.args =~~= spec_exec_invocation(
                self.user.deep_view(),
                self.service_name@,
                self.command@,
                self.args.deep_view(),
                compose@.name,
                compose@.config_file->0,
            ).args);
            assert(inv@ =~= spec_exec_invocation(
                self.user.deep_view(),
                self.service_name@,
                self.command@,
                self.args.deep_view(),
                compose@.name,
                compose@.config_file->0,
            ));
        }
        Ok(inv)
    }

    /// What one `exec` outcome is reported as.
    pub fn interpret(outcome: ExecOutcome) -> (r: Result<ActionResult, Failure>)
        ensures
            spec_exec_interp(outcome@, r),
    {
        match outcome {
            ExecOutcome::Exited { success, stdout } => {
                if success {
                    Ok(ActionResult::Exec(trim_end(stdout.as_str())))
                } else {
                    Err(
                        Failure::new(
                            FoundryError::RemoteError,
                            String::from_str("Received an error trying to run in docker compose"),
                        ),
                    )
                }
            },
            ExecOutcome::BadEncoding { success: _ } => Err(
                Failure::new(
                    FoundryError::ConversionError,
                    String::from_str("Received output that was not valid text"),
                ),
            ),
            ExecOutcome::LaunchFailed => Err(
                Failure::new(
                    FoundryError::UnhandledError,
                    String::from_str("The orchestrator tool could not be launched"),
                ),
            ),
        }
    }
}

impl ActionTrait for ExecOptions {
    type Response = ActionResult;

    open spec fn run_post(&self, target: AppInstanceView, r: Result<ActionResult, Failure>) -> bool {
        if target.config_file is None {
            r is Err && r->Err_0@.error == FoundryError::ConfigurationError
        } else {
            exists|o: ExecOutcomeView| #[trigger] spec_exec_interp(o, r)
        }
    }

    /// Run the command in the target service through the orchestrator's
    /// command-line tool.
    fn run<E: ExecutorTrait>(&self, exec: &mut E, target: &AppInstance) -> (r: Result<
        ActionResult,
        Failure,
    >) {
        let invocation = match self.plan(target) {
            Ok(inv) => inv,
            Err(f) => {
                return Err(f);
            },
        };
        let outcome = exec.execute(&invocation);
        let res = ExecOptions::interpret(outcome);
        proof {
            assert(self.run_post(target@, res));
        }
        res
    }

    open spec fn msg_req(&self, target: Option<AppInstanceView>) -> bool {
        true
    }

    open spec fn msg_post(
        &self,
        target: Option<AppInstanceView>,
        r: Result<Vec<Message>, Failure>,
    ) -> bool {
        r is Err && r->Err_0@.error == FoundryError::UnhandledError
    }

    /// Rendering an `exec` as a message is not defined for the orchestrator.
    fn to_message(&self, target: Option<&AppInstance>) -> (r: Result<Vec<Message>, Failure>) {
        Err(
            Failure::new(
                FoundryError::UnhandledError,
                String::from_str("Rendering an exec as a message is not defined for Docker Compose"),
            ),
        )
    }
}

impl ActionTrait for FindApp {
    type Response = ActionResult;

    open spec fn run_post(&self, target: AppInstanceView, r: Result<ActionResult, Failure>) -> bool {
        r is Err && r->Err_0@.error == FoundryError::UnhandledError
    }

    /// Running a lookup as a free-standing action is not defined for the
    /// orchestrator; lookups go through the container interface.
    fn run<E: ExecutorTrait>(&self, exec: &mut E, target: &AppInstance) -> (r: Result<
        ActionResult,
        Failure,
    >) {
        Err(
            Failure::new(
                FoundryError::UnhandledError,
                String::from_str("Free-standing lookups are not defined for Docker Compose"),
            ),
        )
    }

    open spec fn msg_req(&self, target: Option<AppInstanceView>) -> bool {
        true
    }

    open spec fn msg_post(
        &self,
        target: Option<AppInstanceView>,
        r: Result<Vec<Message>, Failure>,
    ) -> bool {
        r is Err && r->Err_0@.error == FoundryError::UnhandledError
    }

    /// Rendering a lookup as a message is not defined for the orchestrator.
    fn to_message(&self, target: Option<&AppInstance>) -> (r: Result<Vec<Message>, Failure>) {
        Err(
            Failure::new(
                FoundryError::UnhandledError,
                String::from_str("Rendering a lookup as a message is not defined for Docker Compose"),
            ),
        )
    }
}

/// How every managed container of a loaded orchestrator is wired: a fresh
/// instance under its service name stamped with the module's own version,
/// status down, a fresh inner shell, and a snapshot of the owning
/// orchestrator — same instance, configuration and parent link — as its
/// owner.
pub open spec fn spec_loaded_container(
    c: DockerContainer,
    name: Seq<char>,
    owner: DockerCompose,
) -> bool {
    &&& c.instance@ == (AppInstanceView {
        module_version: crate::version::spec_parsed_module_version(),
        ..spec_fresh_instance(name)
    })
    &&& c.status == crate::docker_container::Status::Down
    &&& spec_link(c.shell) matches Some(sh) && sh matches ContainerNode::Bash(b)
        && crate::bash::spec_fresh_bash(b)
    &&& spec_link(c.parent) matches Some(pn) && pn matches ContainerNode::Compose(p) && ({
        &&& p.instance@ == owner.instance@
        &&& match p.config {
            Some(pc) => owner.config matches Some(oc) && pc@ == oc@,
            None => owner.config is None,
        }
        &&& p.parent == owner.parent
    })
}

/// The comma-separated rendering of a list of names.
pub open spec fn spec_name_list(names: Seq<Seq<char>>) -> Seq<char>
    decreases names.len(),
{
    if names.len() == 0 {
        Seq::empty()
    } else if names.len() == 1 {
        names[0]
    } else {
        spec_name_list(names.drop_last()) + ", "@ + names.last()
    }
}

/// Render a list of names, comma-separated.
pub fn render_name_list(names: &Vec<String>) -> (r: String)
    ensures
        r@ == spec_name_list(names.deep_view()),
{
    let mut s = String::new();
    let mut i: usize = 0;
    while i < names.len()
        invariant
            i <= names@.len(),
            s@ =~= spec_name_list(names.deep_view().take(i as int)),
        decreases names@.len() - i,
    {
        let ghost prev = s@;
        if i > 0 {
            s.append(", ");
        }
        s.append(names[i].as_str());
        proof {
            assert(names.deep_view().take(i as int + 1).drop_last() =~= names.deep_view().take(
                i as int,
            ));
            assert(names.deep_view().take(i as int + 1).last() == names.deep_view()[i as int]);
            if i == 0 {
                assert(s@ =~= spec_name_list(names.deep_view().take(i as int + 1)));
            } else {
                assert(s@ =~= prev + ", "@ + names.deep_view()[i as int]);
                assert(s@ =~= spec_name_list(names.deep_view().take(i as int + 1)));
            }
        }
        i = i + 1;
    }
    proof {
        assert(names.deep_view().take(names@.len() as int) =~= names.deep_view());
    }
    s
}

/// The context reported when a lookup names no declared service: the missing
/// name, the configuration's source, and the valid choices.
pub open spec fn spec_missing_service_context(
    name: Seq<char>,
    source: Seq<char>,
    names: Seq<Seq<char>>,
) -> Seq<char> {
    "Docker Compose does not have a service named '"@ + name + "' in conf at '"@ + source
        + "'. Possible choices are: ["@ + spec_name_list(names) + "]"@
}

/// Two orchestrator adapters carry the same value: the same shared parent
/// link, the same instance, the same configuration, and containers with the
/// same values.
pub open spec fn spec_same_compose(a: DockerCompose, b: DockerCompose) -> bool {
    &&& a.parent == b.parent
    &&& a.instance@ == b.instance@
    &&& match (a.config, b.config) {
        (None, None) => true,
        (Some(x), Some(y)) => x@ == y@,
        _ => false,
    }
    &&& a.containers@.len() == b.containers@.len()
    &&& forall|i: int|
        0 <= i < a.containers@.len() ==> spec_same_container(
            #[trigger] a.containers@[i],
            b.containers@[i],
        )
}

impl DockerCompose {
    /// An orchestrator holds each service name at most once among its
    /// managed containers, as a name-keyed cache demands.
    pub open spec fn wf(self) -> bool {
        forall|i: int, j: int|
            0 <= i < j < self.containers@.len() ==> (#[trigger] self.containers@[i]).instance@.name
                != (#[trigger] self.containers@[j]).instance@.name
    }

    /// A copy of this orchestrator with the same value; the parent link and
    /// the containers' links are shared, not duplicated.
    pub fn duplicate(&self) -> (r: DockerCompose)
        ensures
            spec_same_compose(r, *self),
    {
        let config = match &self.config {
            None => None,
            Some(c) => Some(c.duplicate()),
        };
        let mut containers: Vec<DockerContainer> = Vec::new();
        let mut i: usize = 0;
        while i < self.containers.len()
            invariant
                i <= self.containers@.len(),
                containers@.len() == i,
                forall|j: int|
                    0 <= j < i ==> spec_same_container(
                        #[trigger] containers@[j],
                        self.containers@[j],
                    ),
            decreases self.containers@.len() - i,
        {
            containers.push(self.containers[i].duplicate());
            i = i + 1;
        }
        DockerCompose {
            parent: clone_link(&self.parent),
            instance: self.instance.duplicate(),
            config,
            containers,
        }
    }

    /// Construct the orchestrator adapter for the given instance, stamping
    /// it with the version of the module code. No configuration is loaded
    /// yet and no containers are known.
    pub fn build(instance: AppInstance, parent: Option<Rc<ContainerNode>>) -> (r: Result<
        DockerCompose,
        Failure,
    >)
        ensures
            (r is Ok) == (crate::version::semver_parse("0.1.0"@) is Some),
            r is Ok ==> ({
                &&& r->Ok_0.instance@ == (AppInstanceView {
                    module_version: crate::version::spec_parsed_module_version(),
                    ..instance@
                })
                &&& r->Ok_0.instance@.module_version is Some
                &&& r->Ok_0.parent == parent
                &&& r->Ok_0.config is None
                &&& r->Ok_0.containers@.len() == 0
            }),
            r is Err ==> r->Err_0@.error == FoundryError::ConversionError,
    {
        let module_version = match crate::version::get_module_version("Docker Compose") {
            Ok(v) => v,
            Err(f) => {
                return Err(f);
            },
        };
        let c = DockerCompose {
            parent,
            instance: AppInstance { module_version: Some(module_version), ..instance },
            config: None,
            containers: Vec::new(),
        };
        proof {
            assert(c.instance@ =~= (AppInstanceView {
                module_version: crate::version::spec_parsed_module_version(),
                ..instance@
            }));
        }
        Ok(c)
    }

    /// The loaded configuration. Fails with `ConfigurationError` exactly
    /// when none has been loaded yet.
    pub fn get_conf(&self) -> (r: Result<Schema, Failure>)
        ensures
            self.config is Some ==> r is Ok && r->Ok_0@ == self.config->0@,
            self.config is None ==> r is Err && r->Err_0@.error == FoundryError::ConfigurationError
                && r->Err_0@.context
                == "Docker Compose does not have a loaded configuration. Make sure DockerCompose::load is used first"@,
    {
        match &self.config {
            Some(conf) => Ok(conf.duplicate()),
            None => Err(
                Failure::new(
                    FoundryError::ConfigurationError,
                    String::from_str(
                        "Docker Compose does not have a loaded configuration. Make sure DockerCompose::load is used first",
                    ),
                ),
            ),
        }
    }

    /// Render a forwarded message as the orchestrator invocation that
    /// carries it: a command message becomes an `exec` of the named target
    /// service with the command's own user, command and arguments; a
    /// non-command message is rejected as `Unreachable`; without a
    /// configuration file the rendering fails with `ConfigurationError`.
    pub fn plan_forward(&self, to: &AppInstance, message: &Message) -> (r: Result<
        Invocation,
        Failure,
    >)
        ensures
            match message@ {
                MessageView::Command(cmd) => {
                    if self.instance@.config_file is None {
                        r is Err && r->Err_0@.error == FoundryError::ConfigurationError
                    } else {
                        r is Ok && r->Ok_0@ == spec_exec_invocation(
                            cmd.run_as,
                            to@.name,
                            cmd.command,
                            cmd.args,
                            self.instance@.name,
                            self.instance@.config_file->0,
                        )
                    }
                },
                _ => r is Err && r->Err_0@.error == FoundryError::Unreachable,
            },
    {
        match message {
            Message::Command(cmd) => {
                let opts = ExecOptions {
                    command: cmd.command.clone(),
                    args: clone_string_vec(&cmd.args),
                    service_name: to.name.clone(),
                    detach: false,
                    privileged: false,
                    index: None,
                    user: clone_opt_string(&cmd.run_as),
                    env: None,
                    workdir: None,
                };
                opts.plan(&self.instance)
            },
            _ => Err(
                Failure::new(
                    FoundryError::Unreachable,
                    String::from_str("Docker Compose tried to forward a non-command to a container"),
                ),
            ),
        }
    }

    /// What one forwarded `exec` outcome is handed back as.
    pub fn interpret_forward(outcome: ExecOutcome) -> (r: Result<String, Failure>)
        ensures
            spec_compose_forward_interp(outcome@, spec_str_result(r)),
    {
        match outcome {
            ExecOutcome::Exited { success, stdout } => {
                if success {
                    Ok(trim_end(stdout.as_str()))
                } else {
                    Err(
                        Failure::new(
                            FoundryError::RemoteError,
                            String::from_str("Received an error trying to run in docker compose"),
                        ),
                    )
                }
            },
            ExecOutcome::BadEncoding { success: _ } => Err(
                Failure::new(
                    FoundryError::ConversionError,
                    String::from_str("Received output that was not valid text"),
                ),
            ),
            ExecOutcome::LaunchFailed => Err(
                Failure::new(
                    FoundryError::UnhandledError,
                    String::from_str("The orchestrator tool could not be launched"),
                ),
            ),
        }
    }

    /// A container built from the configuration, owned by a snapshot of
    /// this orchestrator.
    pub fn define_container(&self, name: String) -> (r: Result<DockerContainer, Failure>)
        ensures
            (r is Ok) == (crate::version::semver_parse("0.1.0"@) is Some),
            r is Ok ==> ({
                &&& r->Ok_0.instance@ == (AppInstanceView {
                    module_version: crate::version::spec_parsed_module_version(),
                    ..spec_fresh_instance(name@)
                })
                &&& r->Ok_0.status == crate::docker_container::Status::Down
                &&& spec_link(r->Ok_0.parent) is Some
                &&& spec_link(r->Ok_0.parent)->0 is Compose
                &&& spec_same_compose(spec_link(r->Ok_0.parent)->0->Compose_0, *self)
                &&& spec_link(r->Ok_0.shell) matches Some(sh) && sh matches ContainerNode::Bash(b)
                    && crate::bash::spec_fresh_bash(b)
            }),
            r is Err ==> r->Err_0@.error == FoundryError::ConversionError,
    {
        let instance = AppInstance::new(name);
        DockerContainer::build(instance, Some(Rc::new(ContainerNode::Compose(self.duplicate()))))
    }

    /// A copy of this orchestrator with the configuration loaded: the
    /// configuration's source and the instance's configuration file both
    /// point at the given location, and one managed container stands for
    /// each declared service, in declaration order — each built as
    /// `define_container` builds it: status down, a fresh inner shell, and a
    /// snapshot of this loaded orchestrator as its owner.
    pub fn load(&self, config_file: String, conf: Schema) -> (r: Result<DockerCompose, Failure>)
        ensures
            conf@.names.len() == 0 ==> r is Ok,
            conf@.names.len() > 0 ==> (r is Ok) == (crate::version::semver_parse("0.1.0"@)
                is Some),
            r is Ok ==> ({
                &&& r->Ok_0.parent == self.parent
                &&& r->Ok_0.instance@ == (AppInstanceView {
                    config_file: Some(config_file@),
                    ..self.instance@
                })
                &&& r->Ok_0.config is Some
                &&& r->Ok_0.config->0@ == (SchemaView {
                    source: Some(config_file@),
                    version: conf@.version,
                    names: conf@.names,
                })
                &&& r->Ok_0.containers@.len() == conf@.names.len()
                &&& forall|i: int|
                    0 <= i < conf@.names.len() ==> spec_loaded_container(
                        #[trigger] r->Ok_0.containers@[i],
                        conf@.names[i],
                        r->Ok_0,
                    )
                &&& (conf.wf() ==> r->Ok_0.wf() && r->Ok_0.config->0.wf())
            }),
            r is Err ==> r->Err_0@.error == FoundryError::ConversionError,
    {
        let sconf = Schema {
            source: Some(config_file.clone()),
            version: conf.version,
            services: conf.services,
        };
        proof {
            assert(sconf@ =~= (SchemaView {
                source: Some(config_file@),
                version: conf@.version,
                names: conf@.names,
            }));
        }
        let names = sconf.list_service_names();
        let mut instance = self.instance.duplicate();
        instance.config_file = Some(config_file);
        let ghost gcf = instance.config_file->0@;
        proof {
            assert(instance@ =~= (AppInstanceView { config_file: Some(gcf), ..self.instance@ }));
        }
        let mut r = DockerCompose {
            parent: clone_link(&self.parent),
            instance,
            config: Some(sconf),
            containers: Vec::new(),
        };
        let mut i: usize = 0;
        while i < names.len()
            invariant
                i <= names@.len(),
                names.deep_view() == conf@.names,
                r.parent == self.parent,
                r.instance@ == (AppInstanceView { config_file: Some(gcf), ..self.instance@ }),
                r.config is Some,
                r.config->0@ == (SchemaView {
                    source: Some(gcf),
                    version: conf@.version,
                    names: conf@.names,
                }),
                r.containers@.len() == i,
                i > 0 ==> crate::version::semver_parse("0.1.0"@) is Some,
                forall|j: int|
                    0 <= j < i ==> spec_loaded_container(
                        #[trigger] r.containers@[j],
                        conf@.names[j],
                        r,
                    ),
            decreases names@.len() - i,
        {
            let container = match r.define_container(names[i].clone()) {
                Ok(c) => c,
                Err(f) => {
                    return Err(f);
                },
            };
            r.containers.push(container);
            i = i + 1;
        }
        proof {
            if conf.wf() {
                assert forall|a: int, b: int|
                    0 <= a < b < r.containers@.len() implies (#[trigger] r.containers@[a]).instance@.name
                    != (#[trigger] r.containers@[b]).instance@.name by {
                    assert(r.containers@[a].instance@.name == conf@.names[a]);
                    assert(r.containers@[b].instance@.name == conf@.names[b]);
                }
                assert(r.wf());
            }
        }
        Ok(r)
    }

    /// The position of the first managed container carrying the given name.
    pub open spec fn spec_find_named(containers: Seq<DockerContainer>, name: Seq<char>) -> Option<
        int,
    >
        decreases containers.len(),
    {
        if containers.len() == 0 {
            None
        } else if containers.first().instance@.name == name {
            Some(0)
        } else {
            match Self::spec_find_named(containers.drop_first(), name) {
                None => None,
                Some(j) => Some(j + 1),
            }
        }
    }

    /// Fetch the managed container for a service by name. Fails with
    /// `NotFound` — naming the missing service, the configuration's source
    /// and the valid choices — when the configuration declares no such
    /// service, and with `ConfigurationError` when no configuration is
    /// loaded at all.
    pub fn get_container(&self, name: String) -> (r: Result<DockerContainer, Failure>)
        ensures
            Self::spec_find_named(self.containers@, name@) matches Some(i) ==> r is Ok
                && spec_same_container(r->Ok_0, self.containers@[i]),
            Self::spec_find_named(self.containers@, name@) is None ==> r is Err && (if self.config
                is Some {
                r->Err_0@.error == FoundryError::NotFound && r->Err_0@.context
                    == spec_missing_service_context(
                    name@,
                    match self.config->0@.source {
                        Some(src) => src,
                        None => "No source set"@,
                    },
                    self.config->0@.names,
                )
            } else {
                r->Err_0@.error == FoundryError::ConfigurationError
            }),
    {
        let mut i: usize = 0;
        while i < self.containers.len()
            invariant
                i <= self.containers@.len(),
                forall|j: int|
                    0 <= j < i ==> (#[trigger] self.containers@[j]).instance@.name != name@,
            decreases self.containers@.len() - i,
        {
            if self.containers[i].instance.name == name {
                let res = Ok(self.containers[i].duplicate());
                proof {
                    lemma_find_named_at(self.containers@, name@, i as int);
                }
                return res;
            }
            i = i + 1;
        }
        proof {
            lemma_find_named_none(self.containers@, name@);
        }
        let conf = match self.get_conf() {
            Ok(c) => c,
            Err(f) => {
                return Err(f);
            },
        };
        let mut ctx = String::from_str("Docker Compose does not have a service named '");
        ctx.append(name.as_str());
        ctx.append("' in conf at '");
        ctx.append(conf.get_source().as_str());
        ctx.append("'. Possible choices are: [");
        ctx.append(render_name_list(&conf.list_service_names()).as_str());
        ctx.append("]");
        proof {
            assert(ctx@ =~= spec_missing_service_context(
                name@,
                match self.config->0@.source {
                    Some(src) => src,
                    None => "No source set"@,
                },
                self.config->0@.names,
            ));
        }
        Err(Failure::new(FoundryError::NotFound, ctx))
    }

    /// Run an action against this orchestrator.
    pub fn run_action<E: ExecutorTrait>(&self, exec: &mut E, action: &Action) -> (r: Result<
        ActionResult,
        Failure,
    >)
        requires
            action matches Action::Find(q) ==> q.0.wf(),
        ensures
            match action {
                Action::Export => r is Err && r->Err_0@.error == FoundryError::UnhandledError,
                Action::Find(q) => spec_compose_action_find(*self, q.0@, r),
                Action::Exec(opts) => opts.run_post(self.instance@, r),
            },
    {
        action.run(exec, self)
    }
}

/// What the orchestrator's lookup action reports: without a configuration a
/// `ConfigurationError`; with one, every match when the query asks for all,
/// and otherwise the uniqueness rule applied to the matches.
pub open spec fn spec_compose_action_find(
    c: DockerCompose,
    q: AppQueryView,
    r: Result<ActionResult, Failure>,
) -> bool {
    if c.config is None {
        r is Err && r->Err_0@.error == FoundryError::ConfigurationError
    } else {
        let matched = spec_compose_matches(c.config->0@.names, q);
        if q.find_all {
            &&& r is Ok
            &&& r->Ok_0 is FindResult
            &&& r->Ok_0->FindResult_0.deep_view() == matched
        } else {
            if matched.len() == 0 {
                r is Err && r->Err_0@.error == FoundryError::NotFound
            } else if matched.len() == 1 {
                &&& r is Ok
                &&& r->Ok_0 is FindResult
                &&& r->Ok_0->FindResult_0.deep_view() == matched
            } else {
                r is Err && r->Err_0@.error == FoundryError::MultipleMatches
            }
        }
    }
}

impl Action {
    /// Run this action against the given orchestrator.
    pub fn run<E: ExecutorTrait>(&self, exec: &mut E, compose: &DockerCompose) -> (r: Result<
        ActionResult,
        Failure,
    >)
        requires
            self matches Action::Find(q) ==> q.0.wf(),
        ensures
            match self {
                Action::Export => r is Err && r->Err_0@.error == FoundryError::UnhandledError,
                Action::Find(q) => spec_compose_action_find(*compose, q.0@, r),
                Action::Exec(opts) => opts.run_post(compose.instance@, r),
            },
    {
        match self {
            Action::Export => Err(
                Failure::new(
                    FoundryError::UnhandledError,
                    String::from_str("Exporting the configuration is not defined yet"),
                ),
            ),
            Action::Find(query) => {
                if query.0.find_all {
                    let found = match compose.find(exec, &query.0) {
                        Ok(v) => v,
                        Err(f) => {
                            return Err(f);
                        },
                    };
                    Ok(ActionResult::FindResult(found))
                } else {
                    let ghost q = query.0@;
                    let one = compose.find_one(exec, &query.0);
                    let ghost gone = one;
                    let res = match one {
                        Ok(inst) => {
                            let ghost gi = inst@;
                            let mut v: Vec<AppInstance> = Vec::new();
                            v.push(inst);
                            proof {
                                assert(v.deep_view() =~= seq![gi]);
                            }
                            Ok(ActionResult::FindResult(v))
                        },
                        Err(f) => Err(f),
                    };
                    proof {
                        if compose.config is None {
                            if exists|found: Seq<AppInstanceView>|
                                #[trigger] compose.find_post(q, Ok(found))
                                    && crate::container::spec_select_one(found, q.name, gone) {
                                let found = choose|found: Seq<AppInstanceView>|
                                    #[trigger] compose.find_post(q, Ok(found))
                                        && crate::container::spec_select_one(found, q.name, gone);
                                assert(false);
                            }
                            assert(gone is Err && compose.find_post(q, Err(gone->Err_0@)));
                        } else {
                            let found = choose|found: Seq<AppInstanceView>|
                                #[trigger] compose.find_post(q, Ok(found))
                                    && crate::container::spec_select_one(found, q.name, gone);
                            let matched = spec_compose_matches(compose.config->0@.names, q);
                            assert(found == matched);
                            if matched.len() == 1 {
                                assert(matched =~= seq![matched[0]]);
                            }
                        }
                        assert(spec_compose_action_find(*compose, q, res));
                    }
                    res
                }
            },
            Action::Exec(opts) => opts.run(exec, &compose.instance),
        }
    }
}

/// When the first container at position `i` carries the name and none
/// before it does, the search finds position `i`.
pub proof fn lemma_find_named_at(containers: Seq<DockerContainer>, name: Seq<char>, i: int)
    requires
        0 <= i < containers.len(),
        containers[i].instance@.name == name,
        forall|j: int| 0 <= j < i ==> (#[trigger] containers[j]).instance@.name != name,
    ensures
        DockerCompose::spec_find_named(containers, name) == Some(i),
    decreases i,
{
    if i == 0 {
    } else {
        lemma_find_named_at(containers.drop_first(), name, i - 1);
    }
}

/// When no container carries the name, the search finds nothing.
pub proof fn lemma_find_named_none(containers: Seq<DockerContainer>, name: Seq<char>)
    requires
        forall|j: int|
            0 <= j < containers.len() ==> (#[trigger] containers[j]).instance@.name != name,
    ensures
        DockerCompose::spec_find_named(containers, name) is None,
    decreases containers.len(),
{
    if containers.len() > 0 {
        lemma_find_named_none(containers.drop_first(), name);
    }
}

impl ContainerTrait for DockerCompose {
    open spec fn find_post(
        &self,
        query: AppQueryView,
        r: Result<Seq<AppInstanceView>, FailureView>,
    ) -> bool {
        if self.config is None {
            &&& r is Err
            &&& r->Err_0.error == FoundryError::ConfigurationError
        } else {
            &&& r is Ok
            &&& r->Ok_0 == spec_compose_matches(self.config->0@.names, query)
        }
    }

    /// Discover the configured services whose names satisfy the query,
    /// case-insensitively and through its alternate names. Purely a
    /// configuration lookup: no probing.
    fn find<E: ExecutorTrait>(&self, exec: &mut E, query: &AppQuery) -> (r: Result<
        Vec<AppInstance>,
        Failure,
    >) {
        let conf = match self.get_conf() {
            Ok(c) => c,
            Err(f) => {
                return Err(f);
            },
        };
        let names = conf.list_service_names();
        let mut out: Vec<AppInstance> = Vec::new();
        let mut i: usize = 0;
        while i < names.len()
            invariant
                i <= names@.len(),
                out.deep_view() =~= spec_compose_matches(
                    names.deep_view().take(i as int),
                    query@,
                ),
            decreases names@.len() - i,
        {
            let ghost prev = out.deep_view();
            if query_matches(query, &names[i]) {
                out.push(AppInstance::new(names[i].clone()));
            }
            proof {
                assert(names.deep_view().take(i as int + 1).drop_last() =~= names.deep_view().take(
                    i as int,
                ));
                assert(names.deep_view().take(i as int + 1).last() == names.deep_view()[i as int]);
                if spec_query_matches(query@, names.deep_view()[i as int]) {
                    assert(out.deep_view() =~= prev.push(spec_fresh_instance(
                        names.deep_view()[i as int],
                    )));
                    assert(spec_compose_matches(names.deep_view().take(i as int + 1), query@)
                        =~= prev.push(spec_fresh_instance(names.deep_view()[i as int])));
                } else {
                    assert(spec_compose_matches(names.deep_view().take(i as int + 1), query@)
                        =~= prev);
                }
            }
            i = i + 1;
        }
        proof {
            assert(names.deep_view().take(names@.len() as int) =~= names.deep_view());
            assert(out.deep_view() =~= spec_compose_matches(self.config->0@.names, query@));
        }
        Ok(out)
    }

    open spec fn forward_post(
        &self,
        to: AppInstanceView,
        message: MessageView,
        r: Result<Seq<char>, FailureView>,
    ) -> bool {
        match message {
            MessageView::Command(_) => {
                if self.instance@.config_file is None {
                    r is Err && r->Err_0.error == FoundryError::ConfigurationError
                } else {
                    exists|o: ExecOutcomeView| #[trigger] spec_compose_forward_interp(o, r)
                }
            },
            _ => r is Err && r->Err_0.error == FoundryError::Unreachable,
        }
    }

    /// Deliver a command message to the managed container named by the
    /// target: render it through `plan_forward` as an `exec` of the
    /// orchestrator's tool, run that invocation, and hand the outcome back
    /// as `interpret_forward` reports it.
    fn forward<E: ExecutorTrait>(&self, exec: &mut E, to: &AppInstance, message: &Message) -> (r:
        Result<String, Failure>) {
        let res = match self.plan_forward(to, message) {
            Err(f) => Err(f),
            Ok(invocation) => {
                let outcome = exec.execute(&invocation);
                let ghost gout = outcome@;
                let out = Self::interpret_forward(outcome);
                proof {
                    assert(spec_compose_forward_interp(gout, spec_str_result(out)));
                }
                out
            },
        };
        proof {
            assert(self.forward_post(to@, message@, spec_str_result(res)));
        }
        res
    }

    open spec fn cached_post(&self, r: Result<Seq<AppInstanceView>, FailureView>) -> bool {
        &&& r is Ok
        &&& r->Ok_0 == Seq::new(
            self.containers@.len(),
            |i: int| self.containers@[i].instance@,
        )
    }

    /// List the managed containers already built from the configuration; no
    /// new discovery.
    fn cached_apps(&self) -> (r: Result<Vec<AppInstance>, Failure>) {
        let mut out: Vec<AppInstance> = Vec::new();
        let mut i: usize = 0;
        while i < self.containers.len()
            invariant
                i <= self.containers@.len(),
                out.deep_view() =~= Seq::new(
                    self.containers@.len(),
                    |j: int| self.containers@[j].instance@,
                ).take(i as int),
            decreases self.containers@.len() - i,
        {
            let ghost prev = out.deep_view();
            out.push(self.containers[i].instance.duplicate());
            proof {
                assert(out.deep_view() =~= prev.push(self.containers@[i as int].instance@));
                assert(Seq::new(
                    self.containers@.len(),
                    |j: int| self.containers@[j].instance@,
                ).take(i as int + 1) =~= prev.push(self.containers@[i as int].instance@));
            }
            i = i + 1;
        }
        proof {
            assert(out.deep_view() =~= Seq::new(
                self.containers@.len(),
                |j: int| self.containers@[j].instance@,
            ));
        }
        Ok(out)
    }

    open spec fn spec_name(&self) -> Seq<char> {
        spec_render_name("Docker Compose"@, self.instance@.version)
    }

    /// The orchestrator's identity for diagnostics.
    fn get_name(&self) -> (r: String) {
        render_app_name("Docker Compose", &self.instance.version)
    }
}

impl crate::application::AppTrait for DockerCompose {
    open spec fn build_post(
        instance: AppInstanceView,
        parent: Option<ContainerNode>,
        r: Result<DockerCompose, Failure>,
    ) -> bool {
        &&& r is Ok ==> r->Ok_0.instance@ == (AppInstanceView {
            module_version: Some(r->Ok_0.instance@.module_version->0),
            ..instance
        }) && r->Ok_0.config is None && r->Ok_0.containers@.len() == 0
        &&& r is Err ==> r->Err_0@.error == FoundryError::ConversionError
    }

    fn build(instance: AppInstance, parent: Option<Rc<ContainerNode>>) -> (r: Result<
        DockerCompose,
        Failure,
    >) {
        DockerCompose::build(instance, parent)
    }

    open spec fn spec_app_name(&self) -> Seq<char> {
        spec_render_name("Docker Compose"@, self.instance@.version)
    }

    fn get_name(&self) -> (r: String) {
        render_app_name("Docker Compose", &self.instance.version)
    }

    open spec fn set_cli_post(
        &self,
        instance: AppInstanceView,
        r: Result<AppInstance, Failure>,
    ) -> bool {
        r is Err && r->Err_0@.error == FoundryError::UnhandledError
    }

    fn set_cli(&self, instance: AppInstance, container: Rc<ContainerNode>) -> (r: Result<
        AppInstance,
        Failure,
    >) {
        Err(
            Failure::new(
                FoundryError::UnhandledError,
                String::from_str(
                    "Figuring out command-line access is not defined for Docker Compose",
                ),
            ),
        )
    }
}

/// The orchestrator's command-line vocabulary.
#[derive(Clone, Copy, Debug, PartialEq, Eq, Structural)]
pub enum CliActions {
    /// Build or rebuild services.
    Build,
    /// Validate and view the configuration file.
    Config,
    /// Create services.
    Create,
    /// Stop and remove containers, networks, images, and volumes.
    Down,
    /// Receive real time events from containers.
    Events,
    /// Execute a command in a running container.
    Exec,
    /// Get help on a command.
    Help,
    /// List images.
    Images,
    /// Kill containers.
    Kill,
    /// View output from containers.
    Logs,
    /// Pause services.
    Pause,
    /// Print the public port for a port binding.
    Port,
    /// List containers.
    Ps,
    /// Pull service images.
    Pull,
    /// Push service images.
    Push,
    /// Restart services.
    Restart,
    /// Remove stopped containers.
    Rm,
    /// Run a one-off command.
    Run,
    /// Set the number of containers for a service.
    Scale,
    /// Start services.
    Start,
    /// Stop services.
    Stop,
    /// Display the running processes.
    Top,
    /// Unpause services.
    Unpause,
    /// Create and start containers.
    Up,
    /// Show the orchestrator's version information.
    Version,
}

} // verus!
