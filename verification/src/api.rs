//! The request/response surface over the store.
//!
//! A request is one of the operations that a client can ask for, already
//! decoded from the wire; a response is what goes back. `handle` maps each
//! request to at most one store operation and its outcome to a response.

use crate::error::ErrorKind;
use crate::model;
use crate::notification::{views, CreateNotificationPayload, Notification, NotificationView};
use crate::store::AppState;
use vstd::prelude::*;

verus! {

/// A request, decoded from the wire.
#[derive(Debug)]
pub enum Request {
    /// The health check.
    Status,
    /// List all notifications.
    List,
    /// Create a notification from this body.
    Create(CreateNotificationPayload),
    /// Get the notification with this ID.
    Get(usize),
    /// Acknowledge the notification with this ID.
    Acknowledge(usize),
    /// Delete the notification with this ID.
    Delete(usize),
    /// A request whose path or body could not be decoded.
    Malformed,
}

/// What goes back to the client.
#[derive(Debug)]
pub enum Response {
    /// The payload of the health check.
    Status(&'static str),
    /// A single notification.
    Notification(Notification),
    /// All notifications, in insertion order.
    Notifications(Vec<Notification>),
    /// A failure that the client can address.
    Error(ErrorKind),
}

/// What a response is, as a mathematical value.
pub enum ResponseView {
    /// The payload of the health check.
    Status(Seq<char>),
    /// A single notification.
    Notification(NotificationView),
    /// All notifications, in insertion order.
    Notifications(Seq<NotificationView>),
    /// A failure that the client can address.
    Error(ErrorKind),
}

impl View for Response {
    type V = ResponseView;

    open spec fn view(&self) -> ResponseView {
        match *self {
            Response::Status(payload) => ResponseView::Status(payload@),
            Response::Notification(notification) => ResponseView::Notification(notification@),
            Response::Notifications(all) => ResponseView::Notifications(views(all@)),
            Response::Error(kind) => ResponseView::Error(kind),
        }
    }
}

impl Request {
    /// The store operation that the request maps to, if it maps to one.
    pub open spec fn operation(&self) -> Option<model::Operation> {
        match *self {
            Request::Status => None,
            Request::List => Some(model::Operation::List),
            Request::Create(payload) => Some(model::Operation::Create { message: payload@ }),
            Request::Get(id) => Some(model::Operation::Get { id: id as nat }),
            Request::Acknowledge(id) => Some(model::Operation::Acknowledge { id: id as nat }),
            Request::Delete(id) => Some(model::Operation::Delete { id: id as nat }),
            Request::Malformed => None,
        }
    }
}

/// The response that a single notification or its absence gives.
pub open spec fn one_or_not_found(notification: Option<NotificationView>) -> ResponseView {
    match notification {
        Some(n) => ResponseView::Notification(n),
        None => ResponseView::Error(ErrorKind::NotFound),
    }
}

/// The response that a request gets from a store.
pub open spec fn expected(store: Seq<NotificationView>, request: Request) -> ResponseView {
    match request {
        Request::Status => ResponseView::Status("ok"@),
        Request::List => ResponseView::Notifications(store),
        Request::Create(payload) => ResponseView::Notification(
            NotificationView { id: model::next_id(store), message: payload@, ack: false },
        ),
        Request::Get(id) => one_or_not_found(model::found(store, id as nat)),
        Request::Acknowledge(id) => one_or_not_found(
            model::found(model::acknowledged(store, id as nat), id as nat),
        ),
        Request::Delete(id) => one_or_not_found(model::found(store, id as nat)),
        Request::Malformed => ResponseView::Error(ErrorKind::InvalidInput),
    }
}

/// The store after a request.
pub open spec fn store_after(store: Seq<NotificationView>, request: Request) -> Seq<NotificationView> {
    match request.operation() {
        Some(operation) => model::step(store, operation),
        None => store,
    }
}

/// The payload of the health check.
pub fn status() -> (payload: &'static str)
    ensures
        payload@ == "ok"@,
{
    "ok"
}

/// Answers one request: performs the store operation that it maps to, if
/// any, and says what goes back. A request that could not be decoded never
/// reaches the store.
pub fn handle(state: &mut AppState, request: Request) -> (response: Response)
    requires
        old(state).wf(),
        request is Create ==> model::max_id(old(state)@) < usize::MAX,
    ensures
        final(state).wf(),
        final(state)@ == store_after(old(state)@, request),
        response@ == expected(old(state)@, request),
{
    match request {
        Request::Status => Response::Status(status()),
        Request::List => Response::Notifications(state.list()),
        Request::Create(payload) => Response::Notification(state.create(payload.message)),
        Request::Get(id) => respond(state.get(id)),
        Request::Acknowledge(id) => {
            proof {
                state.lemma_wf_view();
                model::lemma_acknowledged_is_found(state@, id as nat);
            }
            respond(state.acknowledge(id))
        },
        Request::Delete(id) => respond(state.delete(id)),
        Request::Malformed => Response::Error(ErrorKind::InvalidInput),
    }
}

/// The response for the outcome of a store operation on one notification.
fn respond(outcome: Result<Notification, ErrorKind>) -> (response: Response)
    ensures
        response@ == match outcome {
            Ok(notification) => ResponseView::Notification(notification@),
            Err(kind) => ResponseView::Error(kind),
        },
{
    match outcome {
        Ok(notification) => Response::Notification(notification),
        Err(kind) => Response::Error(kind),
    }
}

} // verus!
