//! The macOS backend: mapping from the unified notification model into the
//! request shape the native notification center expects, and the handle handed
//! back after a successful submission.

use crate::error::{Error, ErrorKind};
use crate::notification::{clone_opt_string, Notification};
use vstd::prelude::*;
use vstd::string::StringExecFns;

verus! {

/// A handle to a shown notification.
///
/// It wraps a copy of the notification that was submitted and, on desktops
/// that need it, keeps the underlying session alive so actions keep working.
#[derive(Debug, PartialEq)]
pub struct NotificationHandle {
    notification: Notification,
}

impl View for NotificationHandle {
    type V = Notification;

    /// The notification the handle wraps.
    closed spec fn view(&self) -> Notification {
        self.notification
    }
}

impl NotificationHandle {
    /// Wraps a submitted notification into a caller-owned handle.
    pub fn new(notification: Notification) -> (r: NotificationHandle)
        ensures
            r@ == notification,
    {
        NotificationHandle { notification }
    }

    /// Read access to the wrapped notification.
    pub fn notification(&self) -> (r: &Notification)
        ensures
            *r == self@,
    {
        &self.notification
    }

    /// Write access to the wrapped notification. Changing it does not re-send
    /// anything; the handle is a read/modify view, not an update mechanism.
    pub fn notification_mut(&mut self) -> (r: &mut Notification)
        ensures
            *r == old(self)@,
            final(self)@ == *final(r),
    {
        &mut self.notification
    }
}

/// The icon descriptor on platforms without a crop concept: a plain path.
#[derive(Debug, PartialEq)]
pub struct IconType(pub String);

impl IconType {
    /// Builds an icon descriptor from a plain path.
    pub fn from_path(path: &str) -> (r: Self)
        ensures
            r.0@ == path@,
    {
        IconType(String::from_str(path))
    }

    /// The path the descriptor holds.
    pub fn as_str(&self) -> (r: &str)
        ensures
            r@ == self.0@,
    {
        self.0.as_str()
    }
}

impl Clone for IconType {
    fn clone(&self) -> (r: Self)
        ensures
            r == *self,
    {
        IconType(self.0.clone())
    }
}

impl Default for IconType {
    fn default() -> (r: Self)
        ensures
            r.0@ == Seq::<char>::empty(),
    {
        IconType(String::new())
    }
}

/// The request shape the native notification center takes: the texts to show,
/// the sound to play, and — for scheduled delivery — the absolute delivery
/// time in whole seconds since the platform epoch.
///
/// Notification fields with no place in this shape (icon, image, identity,
/// timeout) have no native counterpart here and are silently omitted.
#[derive(Debug, PartialEq)]
pub struct MacRequest {
    /// Native title, taken verbatim from the summary.
    pub title: String,
    /// Native message text, taken verbatim from the body.
    pub message: String,
    /// Native subtitle; omitted when the notification has none.
    pub subtitle: Option<String>,
    /// Requested sound, passed through for the native registry to resolve; a
    /// name it cannot resolve means silence, not an error.
    pub sound: Option<String>,
    /// Absolute delivery time in seconds; absent for immediate delivery.
    pub delivery_date: Option<u64>,
}

/// The field-mapping rule of this backend: title, message, subtitle and sound
/// are carried over verbatim.
pub open spec fn request_matches(r: MacRequest, n: Notification) -> bool {
    &&& r.title == n.summary
    &&& r.message == n.body
    &&& r.subtitle == n.subtitle
    &&& r.sound == n.sound_name
}

/// Builds the native request for immediate delivery.
pub fn build_show_request(notification: &Notification) -> (r: MacRequest)
    ensures
        request_matches(r, *notification),
        r.delivery_date is None,
{
    MacRequest {
        title: notification.summary.clone(),
        message: notification.body.clone(),
        subtitle: clone_opt_string(&notification.subtitle),
        sound: clone_opt_string(&notification.sound_name),
        delivery_date: None,
    }
}

/// Builds the native request for scheduled delivery.
///
/// Any delivery time is accepted here, a past one included: whether and when
/// such a request fires is the native subsystem's decision alone.
pub fn build_schedule_request(notification: &Notification, delivery_date: u64) -> (r: MacRequest)
    ensures
        request_matches(r, *notification),
        r.delivery_date == Some(delivery_date),
{
    MacRequest {
        title: notification.summary.clone(),
        message: notification.body.clone(),
        subtitle: clone_opt_string(&notification.subtitle),
        sound: clone_opt_string(&notification.sound_name),
        delivery_date: Some(delivery_date),
    }
}

/// Turns the native subsystem's verdict on a submitted request into the
/// unified result: acceptance yields a handle wrapping exactly the submitted
/// notification, rejection yields the typed error and nothing else.
pub fn finish_send(notification: &Notification, outcome: Result<(), ErrorKind>) -> (r: Result<
    NotificationHandle,
    Error,
>)
    ensures
        outcome is Ok ==> (r matches Ok(h) && h@ == *notification),
        outcome matches Err(k) ==> (r matches Err(e) && e.kind == k),
{
    match outcome {
        Ok(()) => Ok(NotificationHandle::new(notification.clone())),
        Err(kind) => Err(Error::from_kind(kind)),
    }
}

/// Law: reading the wrapped notification back out of the handle returned for
/// an accepted submission yields the submitted notification, field for field.
pub proof fn lemma_send_round_trip(n: Notification, h: NotificationHandle, read: Notification)
    requires
        h@ == n,
        read == h@,
    ensures
        read == n,
        read.summary == n.summary,
        read.subtitle == n.subtitle,
        read.body == n.body,
        read.icon == n.icon,
        read.sound_name == n.sound_name,
        read.timeout == n.timeout,
        read.app_id == n.app_id,
        read.path_to_image == n.path_to_image,
{
}

} // verus!
