//! The slice of the host framework's shared vocabulary that the conversation
//! boundary needs: status codes, message styles, and item-type tags. All of
//! them are small integers fixed by the host ABI; values other than the ones
//! named here are carried through this crate untouched.

use vstd::prelude::*;

verus! {

/// A status code of the host framework's result vocabulary.
pub type PamResultCode = i32;

/// The outcome of a host-framework operation: a value on success, or the
/// status code reported for the failure.
pub type PamResult<T> = Result<T, PamResultCode>;

/// The designated success status.
pub const PAM_SUCCESS: PamResultCode = 0;

/// The status this side reports for boundary-contract violations and
/// malformed data (and that a buggy host may report on its own).
pub const PAM_SYSTEM_ERR: PamResultCode = 4;

/// The tag selecting how the host should present a message.
pub type PamMessageStyle = i32;

/// Prompt for text with echoing suppressed (e.g. a password).
pub const PAM_PROMPT_ECHO_OFF: PamMessageStyle = 1;

/// Prompt for text with echoing on.
pub const PAM_PROMPT_ECHO_ON: PamMessageStyle = 2;

/// Display an error message; no reply is expected.
pub const PAM_ERROR_MSG: PamMessageStyle = 3;

/// Display informational text; no reply is expected.
pub const PAM_TEXT_INFO: PamMessageStyle = 4;

/// Prompt for a yes/no/maybe style selection.
pub const PAM_RADIO_TYPE: PamMessageStyle = 5;

/// Exchange a binary blob with the client.
pub const PAM_BINARY_PROMPT: PamMessageStyle = 7;

/// A tag under which the host framework files and retrieves per-session
/// items.
pub type PamItemType = i32;

/// The item-type tag of the conversation capability itself.
pub const PAM_CONV: PamItemType = 5;

} // verus!
