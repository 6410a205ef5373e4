//! Toast notifications, as values: what to show, with what link and
//! timeout.  Handing a notification to the platform's notification service
//! happens outside this crate.

use vstd::prelude::*;

verus! {

/// A notification to show the user.  The timeout is carried in
/// milliseconds; `None` means the notification persists.
#[derive(Debug, Clone)]
pub struct ToastNotification {
    pub title: String,
    pub message: String,
    pub url: Option<String>,
    pub timeout_millis: Option<u64>,
}

/// A persistent notification that opens `url` when clicked.
pub fn persistent_toast_notification_with_click_to_open_url(
    title: &str,
    message: &str,
    url: &str,
) -> (r: ToastNotification)
    ensures
        r.title@ == title@,
        r.message@ == message@,
        r.url matches Some(u) && u@ == url@,
        r.timeout_millis is None,
{
    ToastNotification {
        title: title.to_owned(),
        message: message.to_owned(),
        url: Some(url.to_owned()),
        timeout_millis: None,
    }
}

/// A persistent notification without a link.
pub fn persistent_toast_notification(title: &str, message: &str) -> (r: ToastNotification)
    ensures
        r.title@ == title@,
        r.message@ == message@,
        r.url is None,
        r.timeout_millis is None,
{
    ToastNotification {
        title: title.to_owned(),
        message: message.to_owned(),
        url: None,
        timeout_millis: None,
    }
}

} // verus!
