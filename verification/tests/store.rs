use ntf_srv::error::ErrorKind;
use ntf_srv::notification::Notification;
use ntf_srv::store::AppState;

fn notification(id: usize, message: &str, ack: bool) -> Notification {
    Notification { id, message: message.to_string(), ack }
}

fn ids(state: &AppState) -> Vec<usize> {
    state.list().iter().map(|n| n.id).collect()
}

#[test]
fn new_store_is_empty() {
    assert_eq!(AppState::new().list(), Vec::new());
    assert_eq!(AppState::default().list(), Vec::new());
}

#[test]
fn first_id_is_one() {
    let mut state = AppState::new();
    assert_eq!(state.create("hello".to_string()), notification(1, "hello", false));
}

#[test]
fn next_id_is_one_above_the_greatest() {
    let mut state = AppState::new();
    for _ in 0..5 {
        state.create(String::new());
    }
    state.delete(2).unwrap();
    state.delete(4).unwrap();
    assert_eq!(ids(&state), vec![1, 3, 5]);
    assert_eq!(state.create("six".to_string()), notification(6, "six", false));
    assert_eq!(ids(&state), vec![1, 3, 5, 6]);
}

#[test]
fn create_appends_in_insertion_order() {
    let mut state = AppState::new();
    state.create("a".to_string());
    state.create("b".to_string());
    state.create("c".to_string());
    assert_eq!(
        state.list(),
        vec![notification(1, "a", false), notification(2, "b", false), notification(3, "c", false)]
    );
}

#[test]
fn create_accepts_any_message() {
    let mut state = AppState::new();
    assert_eq!(state.create(String::new()), notification(1, "", false));
    let long = "\u{1F514} ".repeat(1000);
    assert_eq!(state.create(long.clone()).message, long);
}

#[test]
fn list_has_no_side_effect() {
    let mut state = AppState::new();
    state.create("a".to_string());
    let first = state.list();
    let second = state.list();
    assert_eq!(first, second);
    assert_eq!(first.len(), 1);
}

#[test]
fn list_returns_copies() {
    let mut state = AppState::new();
    state.create("a".to_string());
    let mut snapshot = state.list();
    snapshot[0].ack = true;
    snapshot[0].message.push('!');
    assert_eq!(state.list(), vec![notification(1, "a", false)]);
}

#[test]
fn get_returns_the_notification() {
    let mut state = AppState::new();
    state.create("a".to_string());
    state.create("b".to_string());
    assert_eq!(state.get(2), Ok(notification(2, "b", false)));
    assert_eq!(state.get(1), Ok(notification(1, "a", false)));
}

#[test]
fn get_on_empty_store_is_not_found() {
    assert_eq!(AppState::new().get(42), Err(ErrorKind::NotFound));
}

#[test]
fn acknowledge_sets_the_flag_in_place() {
    let mut state = AppState::new();
    state.create("a".to_string());
    state.create("b".to_string());
    state.create("c".to_string());
    assert_eq!(state.acknowledge(2), Ok(notification(2, "b", true)));
    assert_eq!(
        state.list(),
        vec![notification(1, "a", false), notification(2, "b", true), notification(3, "c", false)]
    );
    assert_eq!(state.get(2), Ok(notification(2, "b", true)));
}

#[test]
fn acknowledge_twice_is_the_same_as_once() {
    let mut state = AppState::new();
    state.create("a".to_string());
    state.create("b".to_string());
    let once = state.acknowledge(1);
    let after_once = state.list();
    let twice = state.acknowledge(1);
    assert_eq!(once, Ok(notification(1, "a", true)));
    assert_eq!(twice, once);
    assert_eq!(state.list(), after_once);
}

#[test]
fn acknowledgement_survives_other_operations() {
    let mut state = AppState::new();
    state.create("a".to_string());
    state.create("b".to_string());
    state.acknowledge(2).unwrap();
    state.create("c".to_string());
    state.delete(1).unwrap();
    state.acknowledge(3).unwrap();
    assert_eq!(state.get(2), Ok(notification(2, "b", true)));
}

#[test]
fn delete_returns_the_removed_notification() {
    let mut state = AppState::new();
    state.create("a".to_string());
    assert_eq!(state.delete(1), Ok(notification(1, "a", false)));
    assert_eq!(state.list(), Vec::new());
}

#[test]
fn delete_middle_keeps_order_of_the_rest() {
    let mut state = AppState::new();
    state.create("a".to_string());
    state.create("b".to_string());
    state.create("c".to_string());
    assert_eq!(state.delete(2), Ok(notification(2, "b", false)));
    assert_eq!(state.list(), vec![notification(1, "a", false), notification(3, "c", false)]);
}

#[test]
fn delete_first_and_last_keep_order_of_the_rest() {
    let mut state = AppState::new();
    for message in ["a", "b", "c", "d"] {
        state.create(message.to_string());
    }
    state.delete(1).unwrap();
    assert_eq!(ids(&state), vec![2, 3, 4]);
    state.delete(4).unwrap();
    assert_eq!(ids(&state), vec![2, 3]);
}

#[test]
fn unknown_id_is_not_found_and_changes_nothing() {
    let mut state = AppState::new();
    state.create("a".to_string());
    state.create("b".to_string());
    let before = state.list();
    for id in [0, 3, 42, usize::MAX] {
        assert_eq!(state.get(id), Err(ErrorKind::NotFound));
        assert_eq!(state.acknowledge(id), Err(ErrorKind::NotFound));
        assert_eq!(state.delete(id), Err(ErrorKind::NotFound));
        assert_eq!(state.list(), before);
    }
}

#[test]
fn deleted_id_is_not_found_and_changes_nothing() {
    let mut state = AppState::new();
    state.create("a".to_string());
    state.create("b".to_string());
    state.delete(1).unwrap();
    let before = state.list();
    assert_eq!(state.get(1), Err(ErrorKind::NotFound));
    assert_eq!(state.acknowledge(1), Err(ErrorKind::NotFound));
    assert_eq!(state.delete(1), Err(ErrorKind::NotFound));
    assert_eq!(state.list(), before);
    assert_eq!(before, vec![notification(2, "b", false)]);
}

#[test]
fn greatest_id_is_assigned_again_after_its_deletion() {
    let mut state = AppState::new();
    assert_eq!(state.create("first".to_string()).id, 1);
    assert_eq!(state.create("second".to_string()).id, 2);
    assert_eq!(state.delete(2).unwrap().id, 2);
    assert_eq!(state.create("third".to_string()), notification(2, "third", false));
}

#[test]
fn reused_id_starts_unacknowledged() {
    let mut state = AppState::new();
    state.create("first".to_string());
    state.acknowledge(1).unwrap();
    state.delete(1).unwrap();
    assert_eq!(state.create("again".to_string()), notification(1, "again", false));
    assert_eq!(state.get(1), Ok(notification(1, "again", false)));
}

#[test]
fn lower_id_is_not_assigned_again() {
    let mut state = AppState::new();
    state.create("a".to_string());
    state.create("b".to_string());
    state.delete(1).unwrap();
    assert_eq!(state.create("c".to_string()).id, 3);
}

#[test]
fn ids_stay_distinct_over_mixed_operations() {
    let mut state = AppState::new();
    for round in 0..20usize {
        state.create(format!("n{round}"));
        state.create(format!("m{round}"));
        let listed = ids(&state);
        let victim = listed[round % listed.len()];
        state.delete(victim).unwrap();
        let _ = state.acknowledge(round);
        let mut seen = ids(&state);
        let count = seen.len();
        seen.sort();
        seen.dedup();
        assert_eq!(seen.len(), count);
        assert_eq!(seen, ids(&state));
    }
}

#[test]
fn many_creates_get_distinct_ids_and_all_are_listed() {
    let mut state = AppState::new();
    state.create("before".to_string());
    let created: Vec<Notification> = (0..100).map(|k| state.create(format!("m{k}"))).collect();
    let expected: Vec<Notification> =
        (0..100).map(|k| notification(k + 2, &format!("m{k}"), false)).collect();
    assert_eq!(created, expected);
    let listed = state.list();
    assert_eq!(listed.len(), 101);
    assert_eq!(listed[0], notification(1, "before", false));
    assert_eq!(listed[1..], expected[..]);
}

#[test]
fn can_create_on_an_ordinary_store() {
    let mut state = AppState::new();
    assert!(state.can_create());
    state.create("a".to_string());
    assert!(state.can_create());
}

#[test]
fn try_create_creates_where_an_id_is_left() {
    let mut state = AppState::new();
    assert_eq!(state.try_create("a".to_string()), Some(notification(1, "a", false)));
    assert_eq!(state.try_create("b".to_string()), Some(notification(2, "b", false)));
    assert_eq!(state.list(), vec![notification(1, "a", false), notification(2, "b", false)]);
}

#[test]
fn end_to_end_scenario() {
    let mut state = AppState::new();
    assert_eq!(state.create("hello".to_string()), notification(1, "hello", false));
    assert_eq!(state.list(), vec![notification(1, "hello", false)]);
    assert_eq!(state.acknowledge(1), Ok(notification(1, "hello", true)));
    assert_eq!(state.delete(1), Ok(notification(1, "hello", true)));
    assert_eq!(state.list(), Vec::new());
}

#[test]
fn notification_equality_compares_all_fields() {
    assert_eq!(notification(1, "a", false), notification(1, "a", false));
    assert_ne!(notification(1, "a", false), notification(2, "a", false));
    assert_ne!(notification(1, "a", false), notification(1, "b", false));
    assert_ne!(notification(1, "a", false), notification(1, "a", true));
}

#[test]
fn notification_clone_keeps_all_fields() {
    let seven = notification(7, "seven", true);
    assert_eq!(seven.clone(), seven);
}
