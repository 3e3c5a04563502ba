//! The failure taxonomy shared by the resolver and the command layer.

use vstd::prelude::*;
use vstd::string::StringExecFns;

verus! {

/// Every way a single invocation can fail. All of these are terminal for the
/// invocation: the caller surfaces one human-readable message and exits.
#[derive(Debug, Clone, PartialEq, Eq)]
pub enum ResolutionError {
    /// No candidate workspace is available: the capacity bound was reached or
    /// every candidate name is already active.
    NoFreeWorkspace,
    /// The focused workspace is already empty and the policy forbids leaving it.
    CurrentWorkspaceEmpty,
    /// Under the force policy, the focused workspace is already the
    /// highest-priority empty slot, so moving could only lower its priority.
    AlreadySmallest,
    /// The snapshot did not contain exactly one focused workspace. The window
    /// manager guarantees this, so a violation is a fatal inconsistency.
    FocusInvariantViolated,
    /// A round trip with the window manager failed; the payload is the full
    /// message to show the user.
    TransportError(String),
    /// The window manager accepted the request but rejected one or more
    /// sub-commands; the payload is their error texts joined by newlines.
    CommandRejected(String),
}

/// The notification text each error is rendered to.
pub open spec fn message_text(e: ResolutionError) -> Seq<char> {
    match e {
        ResolutionError::NoFreeWorkspace => "No empty workspaces available."@,
        ResolutionError::CurrentWorkspaceEmpty => "The current workspace is empty."@,
        ResolutionError::AlreadySmallest => "This is already the smallest workspace."@,
        ResolutionError::FocusInvariantViolated => "There must always be one focused workspace."@,
        ResolutionError::TransportError(s) => s@,
        ResolutionError::CommandRejected(s) => "Unable to execute command.\n"@ + s@,
    }
}

impl ResolutionError {
    /// The human-readable message handed to the notification collaborator.
    pub fn message(&self) -> (r: String)
        ensures
            r@ == message_text(*self),
    {
        match self {
            ResolutionError::NoFreeWorkspace => String::from_str("No empty workspaces available."),
            ResolutionError::CurrentWorkspaceEmpty => String::from_str(
                "The current workspace is empty.",
            ),
            ResolutionError::AlreadySmallest => String::from_str(
                "This is already the smallest workspace.",
            ),
            ResolutionError::FocusInvariantViolated => String::from_str(
                "There must always be one focused workspace.",
            ),
            ResolutionError::TransportError(s) => s.clone(),
            ResolutionError::CommandRejected(s) => {
                let mut m = String::from_str("Unable to execute command.\n");
                m.append(s.as_str());
                m
            },
        }
    }
}

} // verus!
