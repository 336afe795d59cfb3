//! Error values shared by every component.

use vstd::prelude::*;
use vstd::string::StringExecFns;

verus! {

/// The component class an error originates from.
#[derive(Clone, Copy, Debug, PartialEq, Eq, Structural)]
pub enum ErrorKind {
    /// Startup could not complete.
    Init,
    /// The protocol listener or its event loop failed.
    Wayland,
    /// The host system lacks a required capability.
    System,
    /// A GPU resource could not be created or used.
    Graphics,
    /// A per-tick operation failed; the next tick may succeed.
    Runtime,
}

/// An error with its class and a human-readable message.
#[derive(Clone, Debug, PartialEq, Eq)]
pub struct CompositorError {
    pub kind: ErrorKind,
    pub message: String,
}

impl CompositorError {
    /// Builds an error of the given class.
    pub fn new(kind: ErrorKind, message: &str) -> (e: Self)
        ensures
            e.kind == kind,
            e.message@ == message@,
    {
        CompositorError { kind, message: String::from_str(message) }
    }

    /// Builds an error whose message is a prefix followed by a detail,
    /// such as the name of the failed step and the cause.
    pub fn with_detail(kind: ErrorKind, prefix: &str, detail: &str) -> (e: Self)
        ensures
            e.kind == kind,
            e.message@ == prefix@ + detail@,
    {
        CompositorError { kind, message: String::from_str(prefix).concat(detail) }
    }

    pub fn init(message: &str) -> (e: Self)
        ensures
            e.kind == ErrorKind::Init,
            e.message@ == message@,
    {
        Self::new(ErrorKind::Init, message)
    }

    pub fn wayland(message: &str) -> (e: Self)
        ensures
            e.kind == ErrorKind::Wayland,
            e.message@ == message@,
    {
        Self::new(ErrorKind::Wayland, message)
    }

    pub fn system(message: &str) -> (e: Self)
        ensures
            e.kind == ErrorKind::System,
            e.message@ == message@,
    {
        Self::new(ErrorKind::System, message)
    }

    pub fn graphics(message: &str) -> (e: Self)
        ensures
            e.kind == ErrorKind::Graphics,
            e.message@ == message@,
    {
        Self::new(ErrorKind::Graphics, message)
    }

    pub fn runtime(message: &str) -> (e: Self)
        ensures
            e.kind == ErrorKind::Runtime,
            e.message@ == message@,
    {
        Self::new(ErrorKind::Runtime, message)
    }

    /// Whether the compositor may keep running after this error.
    ///
    /// Only per-tick and GPU resource errors are recoverable; the others
    /// leave the compositor without a component it cannot run without.
    pub open spec fn spec_is_recoverable(&self) -> bool {
        self.kind == ErrorKind::Runtime || self.kind == ErrorKind::Graphics
    }

    #[verifier::when_used_as_spec(spec_is_recoverable)]
    pub fn is_recoverable(&self) -> (r: bool)
        ensures
            r == self.spec_is_recoverable(),
    {
        match self.kind {
            ErrorKind::Runtime => true,
            ErrorKind::Graphics => true,
            _ => false,
        }
    }
}

/// A violation of the protocol by one client. The offending client is
/// disconnected; the store itself is left as it was before the request.
#[derive(Clone, Copy, Debug, PartialEq, Eq, Structural)]
pub enum ProtocolError {
    /// The request names a surface that does not exist (any more).
    UnknownSurface,
    /// A surface id was announced that is already in use.
    DuplicateSurface,
    /// A role was requested for a surface that already holds one.
    RoleAlreadyAssigned,
    /// A popup's positioner has an empty size or anchor rectangle.
    InvalidPositioner,
    /// A popup names a parent that holds no role.
    InvalidParent,
    /// A buffer was committed to a toplevel before the initial configure
    /// was acknowledged.
    UnconfiguredBuffer,
    /// An acknowledgement names a serial that was never sent.
    InvalidSerial,
    /// The request needs a role that the surface does not hold.
    WrongRole,
}

} // verus!
