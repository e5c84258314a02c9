//! The transport-agnostic command envelope.
//!
//! A [`Message`] is self-contained: the receiving container can interpret it
//! without reference to any sender-local state. Its shape — a tagged command
//! variant carrying user, command and arguments — is designed to survive an
//! encode/decode round trip unchanged, since every field is a plain string,
//! optional string, or ordered string sequence.

use vstd::prelude::*;

use crate::query::{clone_opt_string, clone_string_vec};

verus! {

/// The mathematical value of a [`Cmd`].
#[verifier::ext_equal]
pub ghost struct CmdView {
    pub run_as: Option<Seq<char>>,
    pub command: Seq<char>,
    pub args: Seq<Seq<char>>,
}

/// A command to run: an optional effective user, the command itself, and its
/// ordered arguments.
#[derive(Clone, Debug)]
pub struct Cmd {
    pub run_as: Option<String>,
    pub command: String,
    pub args: Vec<String>,
}

impl View for Cmd {
    type V = CmdView;

    open spec fn view(&self) -> CmdView {
        CmdView {
            run_as: self.run_as.deep_view(),
            command: self.command@,
            args: self.args.deep_view(),
        }
    }
}

impl Cmd {
    /// A copy of this command with the same value.
    pub fn duplicate(&self) -> (r: Cmd)
        ensures
            r@ == self@,
    {
        let r = Cmd {
            run_as: clone_opt_string(&self.run_as),
            command: self.command.clone(),
            args: clone_string_vec(&self.args),
        };
        proof {
            assert(r@ =~= self@);
        }
        r
    }
}

/// The mathematical value of a [`Message`].
#[verifier::ext_equal]
pub ghost enum MessageView {
    Command(CmdView),
    Rpc,
    Rest,
}

/// A generic message designed to be sent to a container.
#[derive(Clone, Debug)]
pub enum Message {
    /// For use in a remote shell, like one contained within a container.
    Command(Cmd),
    /// An RPC call; not yet given a payload.
    Rpc,
    /// A RESTful API call; not yet given a payload.
    Rest,
}

impl View for Message {
    type V = MessageView;

    open spec fn view(&self) -> MessageView {
        match self {
            Message::Command(c) => MessageView::Command(c@),
            Message::Rpc => MessageView::Rpc,
            Message::Rest => MessageView::Rest,
        }
    }
}

impl DeepView for Message {
    type V = MessageView;

    open spec fn deep_view(&self) -> MessageView {
        self.view()
    }
}

impl Message {
    /// A copy of this message with the same value.
    pub fn duplicate(&self) -> (r: Message)
        ensures
            r@ == self@,
    {
        match self {
            Message::Command(c) => Message::Command(c.duplicate()),
            Message::Rpc => Message::Rpc,
            Message::Rest => Message::Rest,
        }
    }
}

/// A generic message, as the routing-information snapshot names it.
#[derive(Clone, Debug)]
pub enum MessageValue {
    /// For use in a remote shell, like one contained within a container.
    Command(Cmd),
    /// An RPC call; not yet given a payload.
    Rpc,
    /// A RESTful API call; not yet given a payload.
    Rest,
}

/// Where to send a message.
#[derive(Clone, Debug)]
pub enum RoutingTarget {
    /// Everybody who cares about the message.
    Broadcast,
    /// The node's own children.
    Children,
}

/// Definition of where to send a message.
#[derive(Clone, Debug)]
pub struct RoutingInfo {
    pub targets: Vec<RoutingTarget>,
}

} // verus!
