//! The error taxonomy every operation shares. Failures are constructed at
//! the point of failure, propagated unchanged, and rendered as text only at
//! the outermost boundary.

use vstd::prelude::*;

verus! {

/// How a start/stop/restart/status request can fail.
///
/// `NotAuthorized` comes from the authorization check alone and never
/// reaches the runner or the status provider. `TransportFailure` means the
/// channel to the unit manager itself failed; the message is the channel's
/// own description of the fault. `NonZeroExit` means the operation ran and
/// reported failure, carrying the exit indicator and the captured
/// diagnostic text.
#[derive(Debug, Clone, PartialEq, Eq)]
pub enum OperationError {
    NotAuthorized,
    TransportFailure { message: String },
    NonZeroExit { status: String, stderr: String },
}

/// Ghost mirror of `OperationError`, with the texts as character sequences.
pub enum OperationErrorView {
    NotAuthorized,
    TransportFailure { message: Seq<char> },
    NonZeroExit { status: Seq<char>, stderr: Seq<char> },
}

impl View for OperationError {
    type V = OperationErrorView;

    open spec fn view(&self) -> OperationErrorView {
        match self {
            OperationError::NotAuthorized => OperationErrorView::NotAuthorized,
            OperationError::TransportFailure { message } => OperationErrorView::TransportFailure {
                message: message@,
            },
            OperationError::NonZeroExit { status, stderr } => OperationErrorView::NonZeroExit {
                status: status@,
                stderr: stderr@,
            },
        }
    }
}

impl DeepView for OperationError {
    type V = OperationErrorView;

    open spec fn deep_view(&self) -> OperationErrorView {
        self.view()
    }
}

/// The display text of an error: what a caller is finally shown.
pub open spec fn error_text(e: OperationErrorView) -> Seq<char> {
    match e {
        OperationErrorView::NotAuthorized => "Command is not allowed"@,
        OperationErrorView::TransportFailure { message } => message,
        OperationErrorView::NonZeroExit { status, stderr } => "process failed with "@ + status
            + "\n\n"@ + stderr,
    }
}

impl OperationError {
    /// Renders the error as the text shown to the caller.
    pub fn display_text(&self) -> (r: String)
        ensures
            r@ == error_text(self@),
    {
        match self {
            OperationError::NotAuthorized => "Command is not allowed".to_owned(),
            OperationError::TransportFailure { message } => message.clone(),
            OperationError::NonZeroExit { status, stderr } => "process failed with ".to_owned()
                .concat(status.as_str()).concat("\n\n").concat(stderr.as_str()),
        }
    }
}

} // verus!
