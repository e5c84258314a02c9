//! The bootstrap shell.
//!
//! Most container trees start from the local shell. Deciding which shell to
//! use reads the preferred shell's path from the environment; that read
//! happens outside the core, which receives the value and extracts the
//! shell's name from it. Only the default shell is supported, so any other
//! preference falls back to it.

use vstd::prelude::*;

use crate::application::{spec_fresh_instance, AppInstance, LocalTrait};
use crate::bash::Bash;
use crate::container::ContainerNode;
use crate::error::{Failure, FoundryError};
use crate::text::shell_tail;
use std::rc::Rc;

verus! {

/// The shells a system might prefer.
#[derive(Clone, Copy, Debug, PartialEq, Eq, Structural)]
pub enum ShellType {
    Dash,
    Bash,
    Zsh,
}

/// A running bootstrap shell: which kind it is, its instance metadata, and
/// the routing node that runs it.
#[derive(Debug)]
pub struct Shell {
    pub shell_type: ShellType,
    pub instance: AppInstance,
    pub running: Rc<ContainerNode>,
}

impl Shell {
    /// The shell for the local system. The caller hands in the preferred
    /// shell's path as the environment reports it; whatever is preferred,
    /// only the default shell is currently supported, so the result always
    /// runs it. Fails with `ConversionError` exactly when the module's own
    /// version text cannot be parsed.
    pub fn get_local_shell(shell_env: Option<String>) -> (r: Result<Shell, Failure>)
        ensures
            (r is Ok) == (crate::version::semver_parse("0.1.0"@) is Some),
            r is Ok ==> ({
                &&& r->Ok_0.shell_type == ShellType::Bash
                &&& r->Ok_0.instance@ == spec_fresh_instance("bash"@)
                &&& (*r->Ok_0.running) matches ContainerNode::Bash(b)
                    && crate::bash::spec_fresh_bash(b)
            }),
            r is Err ==> r->Err_0@.error == FoundryError::ConversionError,
    {
        let _shell_name: Option<String> = match &shell_env {
            None => None,
            Some(cmd) => shell_tail(cmd.as_str()),
        };
        // Whatever shell the environment prefers, only the default one can
        // currently be run, so its adapter is built unconditionally.
        let shell_type = ShellType::Bash;
        let instance = match Bash::get_local() {
            Ok(i) => i,
            Err(f) => {
                return Err(f);
            },
        };
        let running = match Bash::build(instance.duplicate(), None) {
            Ok(b) => b,
            Err(f) => {
                return Err(f);
            },
        };
        Ok(Shell { shell_type, instance, running: Rc::new(ContainerNode::Bash(running)) })
    }
}

} // verus!
