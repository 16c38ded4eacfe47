use claim_graph::signals::{
    run_dedup, run_window, AfterFirst, CellState, Load, MapDedup, MapWindow, SignalBag, ValueGate,
};

#[test]
fn cell_set_always_notifies() {
    let mut cell = CellState::new(5u64);
    assert_eq!(cell.value, 5);
    assert_eq!(cell.notifications, 0);
    cell.set(5);
    cell.set(7);
    assert_eq!(cell.value, 7);
    assert_eq!(cell.notifications, 2);
    cell.trigger_subscribers();
    assert_eq!(cell.value, 7);
    assert_eq!(cell.notifications, 3);
}

#[test]
fn cell_set_if_changed_suppresses_equal_writes() {
    let mut cell = CellState::new(5u64);
    cell.set_if_changed(5);
    assert_eq!(cell.notifications, 0);
    cell.set_if_changed(6);
    assert_eq!((cell.value, cell.notifications), (6, 1));
    cell.set_if_changed(6);
    assert_eq!((cell.value, cell.notifications), (6, 1));
}

#[test]
fn cell_update_if_changed() {
    let mut cell = CellState::new(10u64);
    cell.update_if_changed(|v: &u64| *v);
    assert_eq!(cell.notifications, 0);
    cell.update_if_changed(|v: &u64| *v + 1);
    assert_eq!((cell.value, cell.notifications), (11, 1));
}

#[test]
fn cell_flip() {
    let mut cell = CellState::new(false);
    cell.flip();
    assert_eq!((cell.value, cell.notifications), (true, 1));
    cell.flip();
    assert_eq!((cell.value, cell.notifications), (false, 2));
}

#[test]
fn modify_commits_once() {
    let mut cell = CellState::new(10u64);
    let mut handle = cell.modify();
    handle.value += 5;
    handle.value += 5;
    assert_eq!((cell.value, cell.notifications), (10, 0));
    handle.commit(&mut cell);
    assert_eq!((cell.value, cell.notifications), (20, 1));
}

#[test]
fn dedup_fires_only_on_change() {
    // The memo starts out exposing 1; of the source values 1,1,2,2,2,3 only
    // the changes to 2 and to 3 notify, so subscribers see 1, 2, 3 once each.
    let fired = run_dedup(1u64, &vec![1, 1, 2, 2, 2, 3]);
    assert_eq!(fired, vec![false, false, true, false, false, true]);
}

#[test]
fn dedup_same_value_twice_fires_at_most_once() {
    let mut state = MapDedup::new(0u64);
    assert!(state.step(4));
    assert!(!state.step(4));
    assert!(state.step(5));
    assert!(!state.step(5));
}

#[test]
fn window_reducer_argument_pairs() {
    // A source holding 5 and then updating to 5 and 7 hands the reducer
    // (None, 5), (Some(5), 5), (Some(5), 7), in that order.
    let pairs = run_window(5u64, &vec![5, 7]);
    assert_eq!(pairs, vec![(None, 5), (Some(5), 5), (Some(5), 7)]);
}

#[test]
fn window_slides_over_source_values() {
    let mut state = MapWindow::new(1u64);
    assert_eq!(state.step(2), 1);
    assert_eq!(state.step(2), 2);
    assert_eq!(state.step(9), 2);
    assert_eq!(state.prev, 9);
}

#[test]
fn value_gate_keeps_and_skips() {
    let mut gate = ValueGate::new(10u64);
    gate.keep_if(11, false);
    assert_eq!(gate.accepted, 10);
    gate.keep_if(12, true);
    assert_eq!(gate.accepted, 12);
    gate.skip_if(13, true);
    assert_eq!(gate.accepted, 12);
    gate.skip_if(14, false);
    assert_eq!(gate.accepted, 14);
}

#[test]
fn after_first_suppresses_initial_echo() {
    let mut gate = AfterFirst::new();
    assert!(!gate.step());
    assert!(gate.step());
    assert!(gate.step());
}

#[test]
fn signal_bag_aggregates_in_registration_order() {
    let mut bag: SignalBag<u64> = SignalBag::new();
    let sum = |values: &Vec<u64>| values.iter().sum::<u64>();
    assert_eq!(bag.map(&sum), 0);
    assert!(bag.push(3));
    assert!(bag.push(4));
    assert_eq!(bag.map(&sum), 7);
    let order = |values: &Vec<u64>| values.clone();
    assert_eq!(bag.map(&order), vec![3, 4]);
    assert!(bag.source_changed(0, 10));
    assert_eq!(bag.map(&sum), 14);
    assert_eq!(bag.map(&order), vec![10, 4]);
}

#[test]
fn load_states() {
    let a: Load<u64> = Load::Loading;
    let b = Load::Ready(3u64);
    assert_ne!(a, b);
    assert_eq!(b, Load::Ready(3));
}
