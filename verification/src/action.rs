//! The action-to-message protocol.
//!
//! Every concrete action implements two operations: `run`, which executes
//! immediately against a directly reachable application, and `to_message`,
//! which renders the same intended effect as transport-agnostic messages for
//! forwarding through a container chain. Which path is exercised is the
//! caller's decision; a rendered message must capture everything a
//! downstream, context-free executor needs.

use vstd::prelude::*;

use crate::application::{AppInstance, AppInstanceView};
use crate::error::Failure;
use crate::executor::ExecutorTrait;
use crate::message::Message;

verus! {

/// Options shared by every action request; none are defined yet.
#[derive(Clone, Debug)]
pub struct ActionOptions {}

/// The value of an optional target instance.
pub open spec fn spec_opt_target(target: Option<&AppInstance>) -> Option<AppInstanceView> {
    match target {
        None => None,
        Some(t) => Some(t@),
    }
}

/// The two-operation contract of a concrete action: execute directly, or
/// render as messages for forwarding. What each operation promises is
/// action-specific, stated by each action's spec methods.
pub trait ActionTrait: Sized {
    /// The response type of a direct run.
    type Response;

    /// What this action's `run` promises of its result.
    spec fn run_post(
        &self,
        target: AppInstanceView,
        r: Result<Self::Response, Failure>,
    ) -> bool;

    /// Execute the action immediately against the target application.
    fn run<E: ExecutorTrait>(&self, exec: &mut E, target: &AppInstance) -> (r: Result<
        Self::Response,
        Failure,
    >)
        ensures
            self.run_post(target@, r),
    ;

    /// What this action's `to_message` requires of its target.
    spec fn msg_req(&self, target: Option<AppInstanceView>) -> bool;

    /// What this action's `to_message` promises of its result.
    spec fn msg_post(
        &self,
        target: Option<AppInstanceView>,
        r: Result<Vec<Message>, Failure>,
    ) -> bool;

    /// Render the action as one or more self-contained messages.
    fn to_message(&self, target: Option<&AppInstance>) -> (r: Result<Vec<Message>, Failure>)
        requires
            self.msg_req(spec_opt_target(target)),
        ensures
            self.msg_post(spec_opt_target(target), r),
    ;
}

} // verus!
