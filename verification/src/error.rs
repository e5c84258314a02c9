//! The failure taxonomy of the foundry.
//!
//! Every operation of the routing core reports failure through a recoverable
//! value: an error kind drawn from a fixed taxonomy, together with a
//! human-readable context string naming the instance, container or action
//! involved.

use vstd::prelude::*;

verus! {

/// The fixed taxonomy of error kinds the routing core can report.
#[derive(Clone, Copy, Debug, PartialEq, Eq, Structural)]
pub enum FoundryError {
    /// A value could not be decoded into the expected shape.
    ConversionError,
    /// A loaded configuration is missing or invalid for the requested operation.
    ConfigurationError,
    /// A registration collision: the key is already in use.
    DuplicateKeyError,
    /// A query matched more than one instance where exactly one was required.
    MultipleMatches,
    /// A query matched nothing.
    NotFound,
    /// An operation was attempted before a required dependency was established.
    NotConfigured,
    /// The downstream process or container reported failure.
    RemoteError,
    /// A failure that the core does not further classify.
    UnhandledError,
    /// An internal invariant was violated; always a defect, never a normal outcome.
    Unreachable,
}

impl FoundryError {
    /// The fixed description of this error kind.
    pub open spec fn spec_message(self) -> Seq<char> {
        match self {
            FoundryError::ConversionError
                => "There was an error attempting to convert from one type to another"@,
            FoundryError::ConfigurationError
                => "The application has a problem with the configuration"@,
            FoundryError::DuplicateKeyError => "This item's key is already in use"@,
            FoundryError::MultipleMatches
                => "Received multiple instances when looking for a single unique response"@,
            FoundryError::NotFound => "The item you were looking for was not found"@,
            FoundryError::NotConfigured
                => "The operation needs a dependency that has not been established"@,
            FoundryError::RemoteError
                => "The downstream process or container reported a failure"@,
            FoundryError::UnhandledError
                => "We received an error that was not explicitly handled"@,
            FoundryError::Unreachable => "Got to a surprise option in a match statement"@,
        }
    }

    /// A short, stable description of the error kind.
    pub fn message(&self) -> (r: &'static str)
        ensures
            r@ == self.spec_message(),
    {
        match self {
            FoundryError::ConversionError
                => "There was an error attempting to convert from one type to another",
            FoundryError::ConfigurationError
                => "The application has a problem with the configuration",
            FoundryError::DuplicateKeyError => "This item's key is already in use",
            FoundryError::MultipleMatches
                => "Received multiple instances when looking for a single unique response",
            FoundryError::NotFound => "The item you were looking for was not found",
            FoundryError::NotConfigured
                => "The operation needs a dependency that has not been established",
            FoundryError::RemoteError
                => "The downstream process or container reported a failure",
            FoundryError::UnhandledError
                => "We received an error that was not explicitly handled",
            FoundryError::Unreachable => "Got to a surprise option in a match statement",
        }
    }
}

/// The mathematical value of a [`Failure`].
#[verifier::ext_equal]
pub ghost struct FailureView {
    pub error: FoundryError,
    pub context: Seq<char>,
}

/// An error kind together with the context in which it arose.
///
/// The context string is the core's only observability mechanism: it names the
/// instance, container or action involved so diagnostics are self-describing.
#[derive(Clone, Debug)]
pub struct Failure {
    pub error: FoundryError,
    pub context: String,
}

impl View for Failure {
    type V = FailureView;

    open spec fn view(&self) -> FailureView {
        FailureView { error: self.error, context: self.context@ }
    }
}

impl Failure {
    /// Wrap an error kind with the context in which it arose.
    pub fn new(error: FoundryError, context: String) -> (r: Failure)
        ensures
            r.error == error,
            r.context@ == context@,
    {
        Failure { error, context }
    }
}

} // verus!
