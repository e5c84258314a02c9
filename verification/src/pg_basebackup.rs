//! The backup-utility adapter.
//!
//! The backup tool runs against a database server that usually lives inside
//! a managed container, so its action is rendered as a self-contained
//! command message — effective user decided, argument list fixed, invocation
//! path taken from the target's command-line access — and forwarded through
//! the owning container chain.

use vstd::prelude::*;

use crate::action::ActionTrait;
use crate::application::{
    render_app_name, spec_link, spec_render_name, AppInstance, AppInstanceView,
};
use crate::container::{spec_str_result, ContainerNode, ContainerTrait};
use crate::error::{Failure, FailureView, FoundryError};
use crate::executor::ExecutorTrait;
use crate::message::{Cmd, CmdView, Message, MessageView};
use crate::shell::Shell;
use std::rc::Rc;

verus! {

/// The backup utility as an application, with the container through which
/// its commands are carried.
#[derive(Debug)]
pub struct PgBaseBackup {
    /// The utility's instance metadata.
    pub instance: AppInstance,
    /// The container that carries commands to the utility.
    pub parent: Rc<ContainerNode>,
}

/// The arguments the backup options render: the output directory when one
/// was chosen, nothing otherwise.
pub open spec fn spec_backup_args(pgdata: Option<Seq<char>>) -> Seq<Seq<char>> {
    match pgdata {
        None => Seq::empty(),
        Some(dir) => seq!["-D"@, dir],
    }
}

impl PgBaseBackup {
    /// Render the backup options as a message and forward it through the
    /// owning container, targeted at the utility's instance.
    pub fn run<E: ExecutorTrait>(&self, exec: &mut E, opts: &Options) -> (r: Result<
        String,
        Failure,
    >)
        ensures
            self.instance@.cli is None ==> r is Err && r->Err_0@.error
                == FoundryError::NotConfigured,
            self.instance@.cli is Some ==> (*self.parent).forward_post(
                self.instance@,
                MessageView::Command(
                    CmdView {
                        run_as: Some("postgres"@),
                        command: self.instance@.cli->0.path,
                        args: spec_backup_args(opts.pgdata.deep_view()),
                    },
                ),
                spec_str_result(r),
            ),
    {
        let messages = match opts.to_message(Some(&self.instance)) {
            Ok(m) => m,
            Err(f) => {
                return Err(f);
            },
        };
        proof {
            assert(messages.deep_view().len() == 1);
            assert(messages@.len() == 1);
        }
        let message = &messages[0];
        proof {
            assert(message@ == messages.deep_view()[0]);
            assert(message@ == MessageView::Command(
                CmdView {
                    run_as: Some("postgres"@),
                    command: self.instance@.cli->0.path,
                    args: spec_backup_args(opts.pgdata.deep_view()),
                },
            ));
        }
        let res = (&*self.parent).forward(exec, &self.instance, message);
        proof {
            assert((*self.parent).forward_post(
                self.instance@,
                message@,
                spec_str_result(res),
            ));
        }
        res
    }
}

impl crate::application::AppTrait for PgBaseBackup {
    open spec fn build_post(
        instance: AppInstanceView,
        parent: Option<ContainerNode>,
        r: Result<PgBaseBackup, Failure>,
    ) -> bool {
        &&& r is Ok ==> ({
            &&& r->Ok_0.instance@ == instance
            &&& match parent {
                Some(node) => *r->Ok_0.parent == node,
                None => (*r->Ok_0.parent) matches ContainerNode::Bash(b)
                    && crate::bash::spec_fresh_bash(b),
            }
        })
        &&& r is Err ==> r->Err_0@.error == FoundryError::ConversionError
    }

    /// Construct the adapter: the utility keeps the instance as given and
    /// forwards through the given parent, or through the local shell when
    /// none is given.
    fn build(instance: AppInstance, parent: Option<Rc<ContainerNode>>) -> (r: Result<
        PgBaseBackup,
        Failure,
    >) {
        let container: Rc<ContainerNode> = match parent {
            Some(x) => x,
            None => {
                let shell = match Shell::get_local_shell(None) {
                    Ok(s) => s,
                    Err(f) => {
                        return Err(f);
                    },
                };
                shell.running
            },
        };
        Ok(PgBaseBackup { instance, parent: container })
    }

    open spec fn spec_app_name(&self) -> Seq<char> {
        spec_render_name("pg_basebackup"@, self.instance@.version)
    }

    fn get_name(&self) -> (r: String) {
        render_app_name("pg_basebackup", &self.instance.version)
    }

    open spec fn set_cli_post(
        &self,
        instance: AppInstanceView,
        r: Result<AppInstance, Failure>,
    ) -> bool {
        r is Err && r->Err_0@.error == FoundryError::UnhandledError
    }

    fn set_cli(&self, instance: AppInstance, container: Rc<ContainerNode>) -> (r: Result<
        AppInstance,
        Failure,
    >) {
        Err(
            Failure::new(
                FoundryError::UnhandledError,
                String::from_str(
                    "Figuring out command-line access is not defined for pg_basebackup",
                ),
            ),
        )
    }
}

/// The actions the backup utility can run.
#[derive(Clone, Debug)]
pub enum Action {
    Run(Options),
}

/// The results of the backup utility's actions.
#[derive(Clone, Debug)]
pub enum ActionResult {
    Run(String),
}

impl Action {
    /// Run this action against the given backup utility: render and forward
    /// the backup exactly as the utility itself does, and wrap the raw
    /// output as this action's result.
    pub fn run<E: ExecutorTrait>(&self, exec: &mut E, backup: &PgBaseBackup) -> (r: Result<
        ActionResult,
        Failure,
    >)
        ensures
            match self {
                Action::Run(options) => {
                    if backup.instance@.cli is None {
                        r is Err && r->Err_0@.error == FoundryError::NotConfigured
                    } else {
                        exists|out: Result<Seq<char>, FailureView>|
                            {
                                &&& #[trigger] (*backup.parent).forward_post(
                                    backup.instance@,
                                    MessageView::Command(
                                        CmdView {
                                            run_as: Some("postgres"@),
                                            command: backup.instance@.cli->0.path,
                                            args: spec_backup_args(options.pgdata.deep_view()),
                                        },
                                    ),
                                    out,
                                )
                                &&& match out {
                                    Ok(s) => r is Ok && r->Ok_0 is Run && r->Ok_0->Run_0@ == s,
                                    Err(f) => r is Err && r->Err_0@ == f,
                                }
                            }
                    }
                },
            },
    {
        match self {
            Action::Run(options) => {
                let inner = backup.run(exec, options);
                let ghost gout = crate::container::spec_str_result(inner);
                let res = match inner {
                    Ok(s) => Ok(ActionResult::Run(s)),
                    Err(f) => Err(f),
                };
                proof {
                    if backup.instance@.cli is Some {
                        assert((*backup.parent).forward_post(
                            backup.instance@,
                            MessageView::Command(
                                CmdView {
                                    run_as: Some("postgres"@),
                                    command: backup.instance@.cli->0.path,
                                    args: spec_backup_args(options.pgdata.deep_view()),
                                },
                            ),
                            gout,
                        ));
                    }
                }
                res
            },
        }
    }
}

/// The command-line options that can be passed to the backup tool.
#[derive(Clone, Debug)]
pub struct Options {
    /// Receive the base backup into this directory.
    pub pgdata: Option<String>,
    /// Maximum transfer rate for the data directory.
    pub max_rate: Option<Rate>,
    /// Write a recovery configuration for replication.
    pub write_recovery_conf: bool,
    /// Relocate a tablespace from one directory to another.
    pub tablespace_mapping: Option<String>,
    /// Location for the write-ahead log directory.
    pub waldir: Option<String>,
    /// How required write-ahead log files are included.
    pub wal_method: Option<WalMethod>,
    /// How much and what kind of compression the output gets.
    pub compression: Option<Compression>,
    /// Fast or spread checkpointing.
    pub checkpoint: Option<Checkpoint>,
    /// Create a replication slot.
    pub create_slot: bool,
    /// The backup label.
    pub label: Option<String>,
    /// Do not clean up after errors.
    pub no_clean: bool,
    /// Do not wait for changes to be written safely to disk.
    pub no_sync: bool,
    /// Show progress information.
    pub progress: bool,
    /// The replication slot to use.
    pub slot: Option<String>,
    /// Output verbose messages.
    pub verbose: bool,
    /// Output version information, then exit.
    pub version: Option<bool>,
    /// Prevent creation of a temporary replication slot.
    pub no_slot: bool,
    /// Do not verify checksums.
    pub no_verify_checksums: bool,
    /// Connect as this database user.
    pub username: Option<String>,
    /// Never prompt for a password.
    pub no_password: bool,
    /// Force a password prompt.
    pub password: bool,
}

impl Options {
    /// Options that back up into the given directory, with every other
    /// choice left at its default.
    pub fn new(path: String) -> (r: Options)
        ensures
            r.pgdata.deep_view() == Some(path@),
            r.max_rate is None,
            r.write_recovery_conf == false,
            r.tablespace_mapping is None,
            r.waldir is None,
            r.wal_method is None,
            r.compression is None,
            r.checkpoint is None,
            r.create_slot == false,
            r.label is None,
            r.no_clean == false,
            r.no_sync == false,
            r.progress == false,
            r.slot is None,
            r.verbose == false,
            r.version is None,
            r.no_slot == false,
            r.no_verify_checksums == false,
            r.username is None,
            r.no_password == false,
            r.password == false,
    {
        Options {
            pgdata: Some(path),
            max_rate: None,
            write_recovery_conf: false,
            tablespace_mapping: None,
            waldir: None,
            wal_method: None,
            compression: None,
            checkpoint: None,
            create_slot: false,
            label: None,
            no_clean: false,
            no_sync: false,
            progress: false,
            slot: None,
            verbose: false,
            version: None,
            no_slot: false,
            no_verify_checksums: false,
            username: None,
            no_password: false,
            password: false,
        }
    }
}

/// The encoding of the output.
#[derive(Clone, Copy, Debug, PartialEq, Eq, Structural)]
pub enum Compression {
    /// Plain output, uncompressed.
    Plain,
    /// A tar archive.
    Tar,
    /// A tar archive compressed at the given level.
    Gzip(u8),
}

impl Default for Compression {
    /// Output is plain and uncompressed unless asked otherwise.
    fn default() -> (r: Compression)
        ensures
            r == Compression::Plain,
    {
        Compression::Plain
    }
}

/// A maximum transfer rate.
#[derive(Clone, Copy, Debug, PartialEq, Eq, Structural)]
pub enum Rate {
    /// Kilobytes per second.
    KbS(i32),
    /// Megabytes per second.
    MbS(i32),
}

/// How required write-ahead log files are included.
#[derive(Clone, Copy, Debug, PartialEq, Eq, Structural)]
pub enum WalMethod {
    /// Do not include write-ahead log files.
    Omit,
    Fetch,
    Stream,
}

/// Fast or spread checkpointing.
#[derive(Clone, Copy, Debug, PartialEq, Eq, Structural)]
pub enum Checkpoint {
    Fast,
    Spread,
}

impl ActionTrait for Options {
    type Response = ActionResult;

    open spec fn run_post(&self, target: AppInstanceView, r: Result<ActionResult, Failure>) -> bool {
        r is Err && r->Err_0@.error == FoundryError::UnhandledError
    }

    /// Running the backup directly is not defined; it always forwards to
    /// the owning container.
    fn run<E: ExecutorTrait>(&self, exec: &mut E, target: &AppInstance) -> (r: Result<
        ActionResult,
        Failure,
    >) {
        Err(
            Failure::new(
                FoundryError::UnhandledError,
                String::from_str("The backup runs only by forwarding to its owning container"),
            ),
        )
    }

    open spec fn msg_req(&self, target: Option<AppInstanceView>) -> bool {
        true
    }

    open spec fn msg_post(
        &self,
        target: Option<AppInstanceView>,
        r: Result<Vec<Message>, Failure>,
    ) -> bool {
        match target {
            None => {
                &&& r is Err
                &&& r->Err_0@.error == FoundryError::Unreachable
                &&& r->Err_0@.context == "The backup cannot be rendered without a target"@
            },
            Some(t) => {
                if t.cli is None {
                    r is Err && r->Err_0@.error == FoundryError::NotConfigured
                } else {
                    &&& r is Ok
                    &&& r->Ok_0.deep_view() == seq![
                        MessageView::Command(
                            CmdView {
                                run_as: Some("postgres"@),
                                command: t.cli->0.path,
                                args: spec_backup_args(self.pgdata.deep_view()),
                            },
                        ),
                    ]
                }
            },
        }
    }

    /// Render the backup as one self-contained message: the effective user
    /// is decided here, the argument list is fixed, and the invocation path
    /// comes from the target's command-line access.
    fn to_message(&self, target: Option<&AppInstance>) -> (r: Result<Vec<Message>, Failure>) {
        let t = match target {
            Some(t) => t,
            None => {
                return Err(
                    Failure::new(
                        FoundryError::Unreachable,
                        String::from_str("The backup cannot be rendered without a target"),
                    ),
                );
            },
        };
        let command = match t.get_command_path() {
            Ok(p) => p,
            Err(f) => {
                return Err(f);
            },
        };
        let mut args: Vec<String> = Vec::new();
        match &self.pgdata {
            None => {},
            Some(x) => {
                args.push(String::from_str("-D"));
                args.push(x.clone());
            },
        }
        proof {
            assert(args.deep_view() =~= spec_backup_args(self.pgdata.deep_view()));
        }
        let cmd = Message::Command(
            Cmd { run_as: Some(String::from_str("postgres")), command, args },
        );
        let mut out: Vec<Message> = Vec::new();
        out.push(cmd);
        proof {
            assert(out.deep_view() =~= seq![
                MessageView::Command(
                    CmdView {
                        run_as: Some("postgres"@),
                        command: t@.cli->0.path,
                        args: spec_backup_args(self.pgdata.deep_view()),
                    },
                ),
            ]);
        }
        Ok(out)
    }
}

} // verus!
