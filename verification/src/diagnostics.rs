//! Diagnostic messages of the graphics API.

use vstd::prelude::*;

verus! {

/// The constant `gl::DEBUG_SEVERITY_NOTIFICATION` of the `gl` crate. The
/// contract gives it the value that the OpenGL registry assigns to it;
/// nothing verifies that the bindings agree.
#[verifier::external_body]
fn gl_notification_severity() -> (severity: u32)
    ensures
        severity == 0x826Bu32,
{
    gl::DEBUG_SEVERITY_NOTIFICATION
}

/// The severity of messages that are mere notifications.
pub open spec fn notification() -> u32 {
    0x826B
}

/// Whether a message of severity `severity` is passed on to the log:
/// every message is, except notifications.
pub fn is_reported(severity: u32) -> (reported: bool)
    ensures
        reported == (severity != notification()),
{
    severity != gl_notification_severity()
}

} // verus!
