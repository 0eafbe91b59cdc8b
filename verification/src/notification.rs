//! The notification entity and its mathematical view.

use vstd::prelude::*;
use vstd::std_specs::cmp::PartialEqSpecImpl;

verus! {

/// What a notification is, as a mathematical value.
pub struct NotificationView {
    /// The notification ID.
    pub id: nat,
    /// The message to show.
    pub message: Seq<char>,
    /// Has the notification been acknowledged?
    pub ack: bool,
}

/// A notification.
#[derive(Debug)]
pub struct Notification {
    /// The notification ID.
    pub id: usize,
    /// The message to show.
    pub message: String,
    /// Has the notification been acknowledged?
    pub ack: bool,
}

impl View for Notification {
    type V = NotificationView;

    open spec fn view(&self) -> NotificationView {
        NotificationView { id: self.id as nat, message: self.message@, ack: self.ack }
    }
}

impl Clone for Notification {
    /// A copy with the same ID, message and acknowledgement flag.
    fn clone(&self) -> (copy: Self)
        ensures
            copy == *self,
    {
        Notification { id: self.id, message: self.message.clone(), ack: self.ack }
    }
}

impl PartialEq for Notification {
    /// Two notifications are equal when their IDs, messages and
    /// acknowledgement flags are.
    fn eq(&self, other: &Self) -> (equal: bool) {
        self.id == other.id && self.message == other.message && self.ack == other.ack
    }
}

impl PartialEqSpecImpl for Notification {
    open spec fn obeys_eq_spec() -> bool {
        true
    }

    open spec fn eq_spec(&self, other: &Self) -> bool {
        self@ == other@
    }
}

impl Eq for Notification {

}

/// The views of a sequence of notifications, in the same order.
pub open spec fn views(notifications: Seq<Notification>) -> Seq<NotificationView> {
    notifications.map_values(|n: Notification| n@)
}

/// The body of a request to create a notification.
#[derive(Debug)]
pub struct CreateNotificationPayload {
    /// The message to show.
    pub message: String,
}

impl View for CreateNotificationPayload {
    type V = Seq<char>;

    open spec fn view(&self) -> Seq<char> {
        self.message@
    }
}

impl Clone for CreateNotificationPayload {
    /// A copy with the same message.
    fn clone(&self) -> (copy: Self)
        ensures
            copy == *self,
    {
        CreateNotificationPayload { message: self.message.clone() }
    }
}

} // verus!
