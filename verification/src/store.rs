//! The notification store.

use crate::error::ErrorKind;
use crate::index_map;
use crate::index_map::entries;
use crate::model;
use crate::notification::{views, Notification, NotificationView};
use indexmap::IndexMap;
use vstd::prelude::*;

verus! {

/// The notifications of a sequence of key-value pairs, as views.
spec fn values_of(pairs: Seq<(usize, NotificationView)>) -> Seq<NotificationView> {
    pairs.map_values(|pair: (usize, NotificationView)| pair.1)
}

/// Every notification is stored under its own ID.
spec fn keyed_by_id(pairs: Seq<(usize, NotificationView)>) -> bool {
    forall|i: int| 0 <= i < pairs.len() ==> (#[trigger] pairs[i]).0 as nat == pairs[i].1.id
}

/// The state of the service: the notifications, in insertion order.
#[derive(Debug)]
pub struct AppState {
    /// The notifications, each under its ID.
    notifications: IndexMap<usize, Notification>,
}

impl View for AppState {
    type V = Seq<NotificationView>;

    closed spec fn view(&self) -> Seq<NotificationView> {
        values_of(entries(self.notifications))
    }
}

impl Default for AppState {
    /// A store that holds no notification.
    fn default() -> (state: Self)
        ensures
            state.wf(),
            state@ == Seq::<NotificationView>::empty(),
    {
        AppState::new()
    }
}

impl AppState {
    /// The store's invariant: every notification is stored under its own
    /// ID, and the IDs are positive and increase along the order.
    pub closed spec fn wf(&self) -> bool {
        &&& keyed_by_id(entries(self.notifications))
        &&& model::well_formed(values_of(entries(self.notifications)))
    }

    /// The view of a valid store is well-formed, so its IDs are pairwise
    /// distinct.
    pub proof fn lemma_wf_view(&self)
        requires
            self.wf(),
        ensures
            model::well_formed(self@),
            model::ids_distinct(self@),
    {
    }

    /// A store that holds no notification.
    pub fn new() -> (state: Self)
        ensures
            state.wf(),
            state@ == Seq::<NotificationView>::empty(),
    {
        AppState { notifications: index_map::empty_map() }
    }

    /// A snapshot of all notifications, in insertion order.
    pub fn list(&self) -> (all: Vec<Notification>)
        requires
            self.wf(),
        ensures
            views(all@) == self@,
            model::ids_distinct(views(all@)),
    {
        let found = index_map::values(&self.notifications);
        let mut all: Vec<Notification> = Vec::new();
        let mut i: usize = 0;
        while i < found.len()
            invariant
                0 <= i <= found.len(),
                all@.len() == i,
                forall|k: int| 0 <= k < i ==> (#[trigger] all@[k])@ == found@[k]@,
            decreases found.len() - i,
        {
            all.push(found[i].clone());
            i += 1;
        }
        all
    }

    /// Creates a notification with this message. Its ID is one more than the
    /// greatest ID in the store, or 1 when the store is empty; it is not
    /// acknowledged, and it comes last in the order.
    pub fn create(&mut self, message: String) -> (notification: Notification)
        requires
            old(self).wf(),
            model::max_id(old(self)@) < usize::MAX,
        ensures
            final(self).wf(),
            final(self)@ == model::created(old(self)@, message@),
            notification@ == (NotificationView {
                id: model::next_id(old(self)@),
                message: message@,
                ack: false,
            }),
    {
        proof {
            lemma_last_key_is_max_id(entries(self.notifications));
            model::lemma_step_keeps_well_formed(
                self@,
                model::Operation::Create { message: message@ },
            );
        }
        let id = index_map::last_key(&self.notifications).unwrap_or(0) + 1;
        let notification = Notification { id, message, ack: false };
        let previous = index_map::insert(&mut self.notifications, id, notification.clone());
        proof {
            let before = entries(old(self).notifications);
            if previous is Some {
                let i = choose|i: int|
                    0 <= i < before.len() && (#[trigger] before[i]).0 == id;
                assert(values_of(before)[i].id == id);
            }
            assert(values_of(before.push((id, notification@))) =~= values_of(before).push(
                notification@,
            ));
        }
        notification
    }

    /// Is there an ID left for one more notification? There is, unless the
    /// greatest ID in the store is the greatest that the machine can hold.
    pub fn can_create(&self) -> (room: bool)
        requires
            self.wf(),
        ensures
            room == (model::max_id(self@) < usize::MAX),
    {
        proof {
            lemma_last_key_is_max_id(entries(self.notifications));
        }
        index_map::last_key(&self.notifications).unwrap_or(0) < usize::MAX
    }

    /// Creates a notification as `create` does where an ID is left for it,
    /// and otherwise leaves the store as it is and returns nothing.
    pub fn try_create(&mut self, message: String) -> (result: Option<Notification>)
        requires
            old(self).wf(),
        ensures
            final(self).wf(),
            match result {
                Some(notification) => model::max_id(old(self)@) < usize::MAX && final(self)@
                    == model::created(old(self)@, message@) && notification@ == (
                NotificationView { id: model::next_id(old(self)@), message: message@, ack: false }),
                None => model::max_id(old(self)@) >= usize::MAX && final(self)@ == old(self)@,
            },
    {
        if self.can_create() {
            Some(self.create(message))
        } else {
            None
        }
    }

    /// A copy of the notification with this ID.
    pub fn get(&self, id: usize) -> (result: Result<Notification, ErrorKind>)
        requires
            self.wf(),
        ensures
            match result {
                Ok(notification) => model::found(self@, id as nat) == Some(notification@),
                Err(kind) => kind == ErrorKind::NotFound && model::found(self@, id as nat) is None,
            },
    {
        match index_map::get(&self.notifications, id) {
            Some(notification) => {
                proof {
                    let pairs = entries(self.notifications);
                    let i = choose|i: int|
                        0 <= i < pairs.len() && (#[trigger] pairs[i]).0 == id && notification@
                            == pairs[i].1;
                    lemma_key_finds_value(pairs, i);
                }
                Ok(notification.clone())
            },
            None => Err(ErrorKind::NotFound),
        }
    }

    /// Marks the notification with this ID as acknowledged and returns a copy
    /// of it. Acknowledging again changes nothing.
    pub fn acknowledge(&mut self, id: usize) -> (result: Result<Notification, ErrorKind>)
        requires
            old(self).wf(),
        ensures
            final(self).wf(),
            final(self)@ == model::acknowledged(old(self)@, id as nat),
            match result {
                Ok(notification) => model::found(old(self)@, id as nat) matches Some(before)
                    && notification@ == (NotificationView { ack: true, ..before }),
                Err(kind) => kind == ErrorKind::NotFound && model::found(old(self)@, id as nat)
                    is None && final(self)@ == old(self)@,
            },
    {
        proof {
            model::lemma_step_keeps_well_formed(
                self@,
                model::Operation::Acknowledge { id: id as nat },
            );
        }
        match index_map::get_mut(&mut self.notifications, id) {
            Some(notification) => {
                notification.ack = true;
                let copy = notification.clone();
                proof {
                    let before = entries(old(self).notifications);
                    let p = choose|i: int|
                        0 <= i < before.len() && (#[trigger] before[i]).0 == id
                            && entries(self.notifications) == before.update(i, (id, copy@))
                            && copy@ == (NotificationView { ack: true, ..before[i].1 });
                    lemma_key_finds_value(before, p);
                    assert(values_of(before.update(p, (id, copy@))) =~= values_of(before).update(
                        p,
                        copy@,
                    ));
                }
                Ok(copy)
            },
            None => Err(ErrorKind::NotFound),
        }
    }

    /// Removes the notification with this ID and returns it. The others keep
    /// their order.
    pub fn delete(&mut self, id: usize) -> (result: Result<Notification, ErrorKind>)
        requires
            old(self).wf(),
        ensures
            final(self).wf(),
            final(self)@ == model::deleted(old(self)@, id as nat),
            match result {
                Ok(notification) => model::found(old(self)@, id as nat) == Some(notification@),
                Err(kind) => kind == ErrorKind::NotFound && model::found(old(self)@, id as nat)
                    is None && final(self)@ == old(self)@,
            },
    {
        match index_map::shift_remove(&mut self.notifications, id) {
            Some(notification) => {
                proof {
                    let before = entries(old(self).notifications);
                    let p = choose|i: int|
                        0 <= i < before.len() && (#[trigger] before[i]).0 == id && notification@
                            == before[i].1 && entries(self.notifications) == before.remove(i);
                    lemma_key_finds_value(before, p);
                    assert(values_of(before.remove(p)) =~= values_of(before).remove(p));
                }
                Ok(notification)
            },
            None => Err(ErrorKind::NotFound),
        }
    }
}

/// In a well-formed store keyed by ID, the last key is the greatest ID.
proof fn lemma_last_key_is_max_id(pairs: Seq<(usize, NotificationView)>)
    requires
        keyed_by_id(pairs),
        model::well_formed(values_of(pairs)),
    ensures
        pairs.len() == 0 ==> model::max_id(values_of(pairs)) == 0,
        pairs.len() > 0 ==> model::max_id(values_of(pairs)) == pairs.last().0,
{
    if pairs.len() > 0 {
        model::lemma_max_id_is_last(values_of(pairs));
    }
}

/// In a well-formed store keyed by ID, the pair at a position is the one
/// that its key finds as an ID.
proof fn lemma_key_finds_value(pairs: Seq<(usize, NotificationView)>, i: int)
    requires
        keyed_by_id(pairs),
        model::well_formed(values_of(pairs)),
        0 <= i < pairs.len(),
    ensures
        model::contains_id(values_of(pairs), pairs[i].0 as nat),
        model::position(values_of(pairs), pairs[i].0 as nat) == i,
        model::found(values_of(pairs), pairs[i].0 as nat) == Some(pairs[i].1),
{
    model::lemma_position_is_unique(values_of(pairs), i);
}

} // verus!
