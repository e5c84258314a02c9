//! The process-executor collaborator.
//!
//! The routing core never launches a process itself. Every command it wants
//! run is rendered as an [`Invocation`] — a command path, its ordered
//! arguments, and an optional effective user — and handed to an executor.
//! The executor reports one [`ExecOutcome`]; the core is verified to handle
//! every outcome. A scripted executor is provided for exercising the core
//! without touching the system; a real one belongs with the process-spawning
//! code outside the core.

use vstd::prelude::*;

use crate::query::{clone_opt_string, clone_string_vec};

verus! {

/// The mathematical value of an [`Invocation`].
#[verifier::ext_equal]
pub ghost struct InvocationView {
    pub path: Seq<char>,
    pub args: Seq<Seq<char>>,
    pub run_as: Option<Seq<char>>,
}

/// One fully rendered command: where to find the executable, its ordered
/// arguments, and the user to run it as, when one was decided.
#[derive(Clone, Debug)]
pub struct Invocation {
    pub path: String,
    pub args: Vec<String>,
    pub run_as: Option<String>,
}

impl View for Invocation {
    type V = InvocationView;

    open spec fn view(&self) -> InvocationView {
        InvocationView {
            path: self.path@,
            args: self.args.deep_view(),
            run_as: self.run_as.deep_view(),
        }
    }
}

impl DeepView for Invocation {
    type V = InvocationView;

    open spec fn deep_view(&self) -> InvocationView {
        self.view()
    }
}

impl Invocation {
    /// A copy of this invocation with the same value.
    pub fn duplicate(&self) -> (r: Invocation)
        ensures
            r@ == self@,
    {
        let r = Invocation {
            path: self.path.clone(),
            args: clone_string_vec(&self.args),
            run_as: clone_opt_string(&self.run_as),
        };
        proof {
            assert(r@ =~= self@);
        }
        r
    }
}

/// The mathematical value of an [`ExecOutcome`].
#[verifier::ext_equal]
pub ghost enum ExecOutcomeView {
    Exited { success: bool, stdout: Seq<char> },
    BadEncoding { success: bool },
    LaunchFailed,
}

/// Everything a process run can come back as.
#[derive(Clone, Debug)]
pub enum ExecOutcome {
    /// The process ran to completion; `success` reports a zero exit status
    /// and `stdout` carries its decoded output.
    Exited { success: bool, stdout: String },
    /// The process ran but its output was not valid text.
    BadEncoding { success: bool },
    /// The process could not be launched or reached.
    LaunchFailed,
}

impl View for ExecOutcome {
    type V = ExecOutcomeView;

    open spec fn view(&self) -> ExecOutcomeView {
        match self {
            ExecOutcome::Exited { success, stdout } => ExecOutcomeView::Exited {
                success: *success,
                stdout: stdout@,
            },
            ExecOutcome::BadEncoding { success } => ExecOutcomeView::BadEncoding {
                success: *success,
            },
            ExecOutcome::LaunchFailed => ExecOutcomeView::LaunchFailed,
        }
    }
}

impl ExecOutcome {
    /// A copy of this outcome with the same value.
    pub fn duplicate(&self) -> (r: ExecOutcome)
        ensures
            r@ == self@,
    {
        match self {
            ExecOutcome::Exited { success, stdout } => ExecOutcome::Exited {
                success: *success,
                stdout: stdout.clone(),
            },
            ExecOutcome::BadEncoding { success } => ExecOutcome::BadEncoding { success: *success },
            ExecOutcome::LaunchFailed => ExecOutcome::LaunchFailed,
        }
    }
}

/// The contract of a process executor: hand it an invocation, receive one
/// outcome. Nothing is promised of the outcome; verified callers must handle
/// every one.
pub trait ExecutorTrait {
    /// Run the invocation and report what became of it.
    fn execute(&mut self, invocation: &Invocation) -> ExecOutcome;
}

/// An executor that replays a fixed script of outcomes, in order, and keeps
/// a log of every invocation it was handed. When the script runs dry it
/// reports that the process could not be launched.
#[derive(Debug)]
pub struct ScriptedExecutor {
    /// The outcomes still to be replayed, first next.
    pub outcomes: Vec<ExecOutcome>,
    /// How many outcomes have been replayed.
    pub pos: usize,
    /// Every invocation handed to this executor, in order.
    pub log: Vec<Invocation>,
}

impl ScriptedExecutor {
    /// An executor that will replay the given outcomes, in order.
    pub fn new(outcomes: Vec<ExecOutcome>) -> (r: ScriptedExecutor)
        ensures
            r.outcomes == outcomes,
            r.pos == 0,
            r.log@ == Seq::<Invocation>::empty(),
    {
        ScriptedExecutor { outcomes, pos: 0, log: Vec::new() }
    }
}

impl ExecutorTrait for ScriptedExecutor {
    fn execute(&mut self, invocation: &Invocation) -> ExecOutcome {
        self.log.push(invocation.duplicate());
        if self.pos < self.outcomes.len() {
            let r = self.outcomes[self.pos].duplicate();
            self.pos = self.pos + 1;
            r
        } else {
            ExecOutcome::LaunchFailed
        }
    }
}

} // verus!
