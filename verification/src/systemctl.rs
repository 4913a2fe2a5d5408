//! Classification of a finished runner invocation. Actually spawning the
//! process is I/O and lives outside the library; what comes back — did it
//! succeed, how did it exit, what did it write to its diagnostic stream —
//! is classified here.

use vstd::prelude::*;
use crate::errors::{OperationError, OperationErrorView};
use crate::process::to_str;

verus! {

/// The runner backed by the local `systemctl` binary. The library owns its
/// output classification; the invocation itself happens outside.
#[derive(Debug)]
pub struct SystemctlImpl;

impl SystemctlImpl {
    /// Classifies one finished invocation: success is silent, failure
    /// carries the exit indicator and the captured diagnostic bytes,
    /// decoded as text. The caller must hand over valid UTF-8 diagnostics,
    /// as the decoding does not return otherwise.
    pub fn respond(success: bool, status: String, stderr: Vec<u8>) -> (r: Result<
        (),
        OperationError,
    >)
        requires
            vstd::utf8::valid_utf8(stderr@),
        ensures
            success ==> r == Ok::<(), OperationError>(()),
            !success ==> (r matches Err(e) && e@ == (OperationErrorView::NonZeroExit {
                status: status@,
                stderr: vstd::utf8::decode_utf8(stderr@),
            })),
    {
        if success {
            Ok(())
        } else {
            Err(OperationError::NonZeroExit { status, stderr: to_str(stderr) })
        }
    }
}

} // verus!
