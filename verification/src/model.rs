//! The store as a mathematical object.
//!
//! A store is the sequence of its notifications in insertion order. The
//! functions here say what each operation makes of such a sequence, and the
//! proof functions state what holds of every store that the operations can
//! build.

use crate::notification::NotificationView;
use vstd::prelude::*;

verus! {

/// Does the store hold a notification with this ID?
pub open spec fn contains_id(store: Seq<NotificationView>, id: nat) -> bool {
    exists|i: int| 0 <= i < store.len() && (#[trigger] store[i]).id == id
}

/// A position at which the store holds a notification with this ID. In a
/// well-formed store there is at most one.
pub open spec fn position(store: Seq<NotificationView>, id: nat) -> int {
    choose|i: int| 0 <= i < store.len() && (#[trigger] store[i]).id == id
}

/// IDs are positive and strictly increase along the order; in particular no
/// two notifications share an ID.
pub open spec fn well_formed(store: Seq<NotificationView>) -> bool {
    &&& forall|i: int| 0 <= i < store.len() ==> (#[trigger] store[i]).id >= 1
    &&& forall|i: int, j: int|
        0 <= i < j < store.len() ==> (#[trigger] store[i]).id < (#[trigger] store[j]).id
}

/// No two notifications of the store share an ID.
pub open spec fn ids_distinct(store: Seq<NotificationView>) -> bool {
    forall|i: int, j: int|
        0 <= i < store.len() && 0 <= j < store.len() && i != j ==> (#[trigger] store[i]).id != (
        #[trigger] store[j]).id
}

/// The greatest ID in the store, or 0 when the store is empty.
pub open spec fn max_id(store: Seq<NotificationView>) -> nat
    decreases store.len(),
{
    if store.len() == 0 {
        0
    } else {
        let rest = max_id(store.drop_last());
        if store.last().id > rest {
            store.last().id
        } else {
            rest
        }
    }
}

/// The ID that the next created notification gets.
pub open spec fn next_id(store: Seq<NotificationView>) -> nat {
    max_id(store) + 1
}

/// The store after a notification with this message was created.
pub open spec fn created(store: Seq<NotificationView>, message: Seq<char>) -> Seq<NotificationView> {
    store.push(NotificationView { id: next_id(store), message, ack: false })
}

/// The notification with this ID, if the store holds one.
pub open spec fn found(store: Seq<NotificationView>, id: nat) -> Option<NotificationView> {
    if contains_id(store, id) {
        Some(store[position(store, id)])
    } else {
        None
    }
}

/// The store after the notification with this ID was acknowledged; the same
/// store when it holds no such notification.
pub open spec fn acknowledged(store: Seq<NotificationView>, id: nat) -> Seq<NotificationView> {
    if contains_id(store, id) {
        let i = position(store, id);
        store.update(i, NotificationView { ack: true, ..store[i] })
    } else {
        store
    }
}

/// The store after the notification with this ID was deleted; the same store
/// when it holds no such notification.
pub open spec fn deleted(store: Seq<NotificationView>, id: nat) -> Seq<NotificationView> {
    if contains_id(store, id) {
        store.remove(position(store, id))
    } else {
        store
    }
}

/// One operation on the store.
pub enum Operation {
    /// Read all notifications.
    List,
    /// Create a notification with this message.
    Create { message: Seq<char> },
    /// Read the notification with this ID.
    Get { id: nat },
    /// Acknowledge the notification with this ID.
    Acknowledge { id: nat },
    /// Delete the notification with this ID.
    Delete { id: nat },
}

/// The store after one operation.
pub open spec fn step(store: Seq<NotificationView>, operation: Operation) -> Seq<NotificationView> {
    match operation {
        Operation::List => store,
        Operation::Create { message } => created(store, message),
        Operation::Get { id } => store,
        Operation::Acknowledge { id } => acknowledged(store, id),
        Operation::Delete { id } => deleted(store, id),
    }
}

/// The store after a sequence of operations, applied first to last.
pub open spec fn run(store: Seq<NotificationView>, operations: Seq<Operation>) -> Seq<NotificationView>
    decreases operations.len(),
{
    if operations.len() == 0 {
        store
    } else {
        step(run(store, operations.drop_last()), operations.last())
    }
}

/// The store after one notification was created for each message, first to
/// last.
pub open spec fn created_all(store: Seq<NotificationView>, messages: Seq<Seq<char>>) -> Seq<NotificationView>
    decreases messages.len(),
{
    if messages.len() == 0 {
        store
    } else {
        created(created_all(store, messages.drop_last()), messages.last())
    }
}

/// No ID in the store exceeds `max_id`, and a store that is not empty holds
/// a notification with that ID.
pub proof fn lemma_max_id_is_greatest(store: Seq<NotificationView>)
    ensures
        forall|i: int| 0 <= i < store.len() ==> (#[trigger] store[i]).id <= max_id(store),
        store.len() > 0 ==> contains_id(store, max_id(store)),
    decreases store.len(),
{
    if store.len() > 0 {
        let front = store.drop_last();
        lemma_max_id_is_greatest(front);
        assert forall|i: int| 0 <= i < store.len() implies (#[trigger] store[i]).id <= max_id(
            store,
        ) by {
            if i < front.len() {
                assert(front[i] == store[i]);
            }
        }
        if front.len() > 0 && store.last().id <= max_id(front) {
            assert(store[position(front, max_id(front))].id == max_id(store));
        }
    }
}

/// In a well-formed store that is not empty, the greatest ID is that of the
/// notification created last.
pub proof fn lemma_max_id_is_last(store: Seq<NotificationView>)
    requires
        well_formed(store),
        store.len() > 0,
    ensures
        max_id(store) == store.last().id,
{
    lemma_max_id_is_greatest(store);
    assert(store[position(store, max_id(store))].id <= store.last().id);
}

/// In a well-formed store no two notifications share an ID.
pub proof fn lemma_well_formed_ids_distinct(store: Seq<NotificationView>)
    requires
        well_formed(store),
    ensures
        ids_distinct(store),
{
}

/// In a well-formed store, the notification at a position is the one that
/// its ID finds.
pub proof fn lemma_position_is_unique(store: Seq<NotificationView>, i: int)
    requires
        well_formed(store),
        0 <= i < store.len(),
    ensures
        contains_id(store, store[i].id),
        position(store, store[i].id) == i,
        found(store, store[i].id) == Some(store[i]),
{
}

/// After an acknowledgement, the ID finds the notification that it found
/// before, now acknowledged; an ID that found nothing still finds nothing.
pub proof fn lemma_acknowledged_is_found(store: Seq<NotificationView>, id: nat)
    requires
        well_formed(store),
    ensures
        found(store, id) is None ==> found(acknowledged(store, id), id) is None,
        found(store, id) matches Some(before) ==> found(acknowledged(store, id), id) == Some(
            (NotificationView { ack: true, ..before }),
        ),
{
    if contains_id(store, id) {
        lemma_position_is_unique(acknowledged(store, id), position(store, id));
    }
}

/// Every operation keeps a well-formed store well-formed.
pub proof fn lemma_step_keeps_well_formed(store: Seq<NotificationView>, operation: Operation)
    requires
        well_formed(store),
    ensures
        well_formed(step(store, operation)),
{
    if operation is Create {
        lemma_max_id_is_greatest(store);
    }
}

/// After any sequence of operations on a store that starts empty, the IDs in
/// the store are positive, increase along the order, and are pairwise
/// distinct.
pub proof fn lemma_ids_always_distinct(operations: Seq<Operation>)
    ensures
        well_formed(run(Seq::empty(), operations)),
        ids_distinct(run(Seq::empty(), operations)),
    decreases operations.len(),
{
    if operations.len() > 0 {
        lemma_ids_always_distinct(operations.drop_last());
        lemma_step_keeps_well_formed(
            run(Seq::empty(), operations.drop_last()),
            operations.last(),
        );
    }
}

/// Deleting a notification keeps the others in their order: those before it
/// stay in place, those after it move up by one, and its ID finds nothing
/// afterwards.
pub proof fn lemma_delete_keeps_order(store: Seq<NotificationView>, id: nat)
    requires
        well_formed(store),
        contains_id(store, id),
    ensures
        deleted(store, id).len() == store.len() - 1,
        forall|i: int|
            0 <= i < position(store, id) ==> #[trigger] deleted(store, id)[i] == store[i],
        forall|i: int|
            position(store, id) <= i < store.len() - 1 ==> #[trigger] deleted(store, id)[i]
                == store[i + 1],
        !contains_id(deleted(store, id), id),
{
}

/// Where a store holds exactly three notifications and the middle one is
/// deleted, the first and the last remain, in that order.
pub proof fn lemma_delete_middle_of_three(
    a: NotificationView,
    b: NotificationView,
    c: NotificationView,
)
    requires
        well_formed(seq![a, b, c]),
    ensures
        deleted(seq![a, b, c], b.id) == seq![a, c],
{
}

/// Acknowledging changes the acknowledgement flag of the one notification
/// that the ID finds, and nothing else.
pub proof fn lemma_acknowledge_changes_one_flag(store: Seq<NotificationView>, id: nat)
    requires
        contains_id(store, id),
    ensures
        acknowledged(store, id).len() == store.len(),
        acknowledged(store, id)[position(store, id)] == (NotificationView {
            ack: true,
            ..store[position(store, id)]
        }),
        forall|i: int|
            0 <= i < store.len() && i != position(store, id) ==> #[trigger] acknowledged(
                store,
                id,
            )[i] == store[i],
{
}

/// Acknowledging a notification that is already acknowledged leaves the
/// store as it is.
pub proof fn lemma_acknowledge_again_changes_nothing(store: Seq<NotificationView>, id: nat)
    requires
        found(store, id) matches Some(notification) && notification.ack,
    ensures
        acknowledged(store, id) == store,
{
}

/// Acknowledging twice in a row gives the same store as acknowledging once.
pub proof fn lemma_acknowledge_is_idempotent(store: Seq<NotificationView>, id: nat)
    requires
        well_formed(store),
    ensures
        acknowledged(acknowledged(store, id), id) == acknowledged(store, id),
{
    lemma_acknowledged_is_found(store, id);
}

/// No operation takes an acknowledgement back: a notification that is
/// acknowledged, and that the store still holds after one more operation, is
/// still acknowledged and otherwise unchanged.
pub proof fn lemma_acknowledgement_is_kept(
    store: Seq<NotificationView>,
    operation: Operation,
    id: nat,
)
    requires
        well_formed(store),
        found(store, id) matches Some(notification) && notification.ack,
        contains_id(step(store, operation), id),
    ensures
        found(step(store, operation), id) == found(store, id),
{
}

/// An ID that finds nothing is not found by any read, and acknowledging or
/// deleting it leaves the store as it is.
pub proof fn lemma_absent_id_changes_nothing(store: Seq<NotificationView>, id: nat)
    requires
        !contains_id(store, id),
    ensures
        found(store, id) is None,
        acknowledged(store, id) == store,
        deleted(store, id) == store,
{
}

/// A well-formed store holds no notification under 0, none under an ID above
/// its greatest, and none under an ID that was just deleted.
pub proof fn lemma_unassigned_or_deleted_id_is_absent(store: Seq<NotificationView>, id: nat)
    requires
        well_formed(store),
    ensures
        id == 0 || id > max_id(store) ==> !contains_id(store, id),
        !contains_id(deleted(store, id), id),
{
    lemma_max_id_is_greatest(store);
}

/// Creating a notification, deleting it, and creating another gives the
/// second the ID that the first had: the deleted ID was the greatest, so it
/// is assigned again.
pub proof fn lemma_id_reused_after_deleting_last(
    store: Seq<NotificationView>,
    first: Seq<char>,
    second: Seq<char>,
)
    requires
        well_formed(store),
    ensures
        created(store, first).last().id == next_id(store),
        deleted(created(store, first), next_id(store)) == store,
        created(deleted(created(store, first), next_id(store)), second).last().id == next_id(
            store,
        ),
{
    lemma_step_keeps_well_formed(store, Operation::Create { message: first });
    lemma_position_is_unique(created(store, first), store.len() as int);
}

/// However many notifications are created in a row, each gets an ID of its
/// own, one above the one before, starting one above the greatest ID that the
/// store held; all of them are in the store afterwards, in the order of their
/// creation, behind the notifications that the store held, which are
/// unchanged.
pub proof fn lemma_creates_get_consecutive_ids(
    store: Seq<NotificationView>,
    messages: Seq<Seq<char>>,
)
    ensures
        created_all(store, messages).len() == store.len() + messages.len(),
        max_id(created_all(store, messages)) == max_id(store) + messages.len(),
        forall|i: int| 0 <= i < store.len() ==> #[trigger] created_all(store, messages)[i] == store[i],
        forall|k: int|
            0 <= k < messages.len() ==> #[trigger] created_all(store, messages)[store.len() + k]
                == (NotificationView { id: max_id(store) + 1 + k as nat, message: messages[k], ack: false }),
        well_formed(store) ==> well_formed(created_all(store, messages)) && ids_distinct(
            created_all(store, messages),
        ),
    decreases messages.len(),
{
    if messages.len() > 0 {
        let front = created_all(store, messages.drop_last());
        lemma_creates_get_consecutive_ids(store, messages.drop_last());
        assert(created_all(store, messages).drop_last() =~= front);
    }
}

} // verus!
