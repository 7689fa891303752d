//! The one command exposed to the embedded web content: request a native
//! system notification. Delivery is the host framework's; this module
//! fixes what is sent and what the caller may observe.

use vstd::prelude::*;

verus! {

/// A notification to hand to the host framework's notification
/// subsystem: a title and a body, both taken verbatim from the caller.
#[derive(Debug)]
pub struct NotificationRequest {
    pub title: String,
    pub body: String,
}

/// The `show_notification` command: builds the request that the host
/// framework is asked to display, with the caller's title and body
/// unchanged. It has no error channel: whatever comes of delivery, the
/// caller sees plain success.
pub fn show_notification(title: String, body: String) -> (req: NotificationRequest)
    ensures
        req.title@ == title@,
        req.body@ == body@,
{
    NotificationRequest { title, body }
}

/// The delivery outcome is swallowed: no matter whether the underlying
/// notification succeeded, no error is surfaced to the caller.
pub fn surfaced_error(delivered: bool) -> (err: Option<String>)
    ensures
        err is None,
{
    let _ = delivered;
    None
}

} // verus!
