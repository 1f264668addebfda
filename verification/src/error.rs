//! The failures of the bridge and the host exceptions that report them.

use vstd::prelude::*;

verus! {

/// Why an entry point of the bridge did not complete.
#[derive(Clone, Copy, Debug, PartialEq, Eq, Structural)]
pub enum HostError {
    /// The target type is unknown to the host runtime.
    TypeResolution,
    /// The target type has no member of the wanted name and signature.
    MemberResolution,
    /// The host runtime could not make the type reference durable.
    ReferenceUpgrade,
    /// Handles were resolved, but the slot already held others.
    DoubleInitialization,
    /// The call bridge was entered while the slot was empty.
    NotInitialized,
    /// The argument of the downstream call could not be built in the host.
    ArgumentConstruction,
    /// The downstream call itself failed in the host.
    DownstreamInvocation,
}

/// A host exception to be created by the bridge: the class to instantiate and
/// the message it carries.
#[derive(Clone, Copy, Debug)]
pub struct Exception {
    pub class: &'static str,
    pub message: &'static str,
}

/// How a failure reaches the host.
#[derive(Clone, Copy, Debug)]
pub enum Signal {
    /// The host runtime already has an exception pending; it is left as it is
    /// and continues to be thrown when control returns to the host.
    Propagate,
    /// The bridge throws a new exception.
    Throw(Exception),
}

impl HostError {
    /// The class of the exception that reports this failure.
    pub open spec fn class_of(self) -> Seq<char> {
        match self {
            HostError::DoubleInitialization => "java/lang/IllegalStateException"@,
            _ => "java/lang/RuntimeException"@,
        }
    }

    /// The message of the exception that reports this failure.
    pub open spec fn message_of(self) -> Seq<char> {
        match self {
            HostError::TypeResolution => "Target type could not be resolved"@,
            HostError::MemberResolution => "Target member could not be resolved"@,
            HostError::ReferenceUpgrade => "Durable reference could not be created"@,
            HostError::DoubleInitialization => "initialize() may not be called twice"@,
            HostError::NotInitialized => "Native data not initialized; call initialize() first"@,
            HostError::ArgumentConstruction => "Call argument could not be constructed"@,
            HostError::DownstreamInvocation => "Downstream call failed"@,
        }
    }

    /// Whether this failure is one of the bootstrap's steps that run before
    /// anything is published: finding the type, finding the member, making the
    /// reference durable.
    pub open spec fn precedes_publication(self) -> bool {
        self is TypeResolution || self is MemberResolution || self is ReferenceUpgrade
    }

    /// The class of the exception that reports this failure.
    pub fn exception_class(self) -> (class: &'static str)
        ensures
            class@ == self.class_of(),
    {
        match self {
            HostError::DoubleInitialization => "java/lang/IllegalStateException",
            _ => "java/lang/RuntimeException",
        }
    }

    /// The message of the exception that reports this failure.
    pub fn message(self) -> (message: &'static str)
        ensures
            message@ == self.message_of(),
    {
        match self {
            HostError::TypeResolution => "Target type could not be resolved",
            HostError::MemberResolution => "Target member could not be resolved",
            HostError::ReferenceUpgrade => "Durable reference could not be created",
            HostError::DoubleInitialization => "initialize() may not be called twice",
            HostError::NotInitialized => "Native data not initialized; call initialize() first",
            HostError::ArgumentConstruction => "Call argument could not be constructed",
            HostError::DownstreamInvocation => "Downstream call failed",
        }
    }

    /// The exception that reports this failure.
    pub fn exception(self) -> (exception: Exception)
        ensures
            exception.reports(self),
    {
        Exception { class: self.exception_class(), message: self.message() }
    }

    /// Chooses how this failure reaches the host. An exception that the host
    /// runtime already has pending is never replaced: it is what the host
    /// raised for the very step that failed. Only where nothing is pending
    /// does the bridge throw an exception of its own.
    pub fn signal(self, pending: bool) -> (signal: Signal)
        ensures
            signal.delivers(self, pending),
    {
        if pending {
            Signal::Propagate
        } else {
            Signal::Throw(self.exception())
        }
    }
}

impl Exception {
    /// This exception has the class and the message that report `error`.
    pub open spec fn reports(self, error: HostError) -> bool {
        self.class@ == error.class_of() && self.message@ == error.message_of()
    }
}

impl Signal {
    /// This signal is the one that reports `error` when the host runtime has
    /// (`pending`) or has not an exception pending already.
    pub open spec fn delivers(self, error: HostError, pending: bool) -> bool {
        match self {
            Signal::Propagate => pending,
            Signal::Throw(exception) => !pending && exception.reports(error),
        }
    }
}

/// Reads the host's answer to the question whether an exception is pending.
/// Where the host could not answer, nothing is taken to be pending, so that
/// the bridge still tries to throw.
pub fn pending_in<E>(answer: Result<bool, E>) -> (pending: bool)
    ensures
        pending <==> answer == Ok::<bool, E>(true),
{
    match answer {
        Ok(pending) => pending,
        Err(_) => false,
    }
}

/// What reached the host after `signal` was thrown: the signal itself if the
/// host accepted the throw, nothing if it refused.
pub fn after_throw<E>(signal: Signal, answer: Result<(), E>) -> (raised: Option<Signal>)
    ensures
        answer is Ok ==> raised == Some(signal),
        answer is Err ==> raised is None,
{
    match answer {
        Ok(_) => Some(signal),
        Err(_) => None,
    }
}

} // verus!
