//! The notification command: what is handed to the host's notification
//! service.

use vstd::prelude::*;

verus! {

/// A request to show a system notification.
#[derive(Clone, Debug, PartialEq, Eq)]
pub struct Notification {
    pub title: String,
    pub body: String,
}

impl View for Notification {
    type V = (Seq<char>, Seq<char>);

    open spec fn view(&self) -> (Seq<char>, Seq<char>) {
        (self.title@, self.body@)
    }
}

/// Prepares the notification to dispatch. Every title and body is accepted,
/// empty ones too: whether and how it is displayed is for the host to decide,
/// and only a failure that the host reports reaches the caller.
pub fn send_notification(title: String, body: String) -> (notification: Notification)
    ensures
        notification@ == (title@, body@),
{
    Notification { title, body }
}

} // verus!
