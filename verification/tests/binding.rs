use claim_graph::binding::{BindingLock, DoubleBind};

#[test]
fn double_bind_round_trip_stability() {
    let to_child = |x: &u64| *x * 2;
    let to_parent = |y: &u64| *y / 2;
    let mut bind = DoubleBind::new(3u64, &to_child);
    assert_eq!(bind.parent.value, 3);
    assert_eq!(bind.child.value, 6);
    assert_eq!(bind.lock, BindingLock::Idle);
    assert_eq!((bind.parent.notifications, bind.child.notifications), (0, 0));

    // Setting the parent propagates to the child exactly once; the echo the
    // child write produces is suppressed, so the parent is not rewritten.
    assert!(bind.set_parent(4, &to_child, &to_parent));
    assert_eq!(bind.parent.value, 4);
    assert_eq!(bind.child.value, 8);
    assert_eq!((bind.parent.notifications, bind.child.notifications), (1, 1));
    assert_eq!(bind.lock, BindingLock::Idle);

    // Setting the child propagates to the parent exactly once, again with
    // the returning echo suppressed; no loop, both sides settle.
    assert!(bind.set_child(10, &to_child, &to_parent));
    assert_eq!(bind.parent.value, 5);
    assert_eq!(bind.child.value, 10);
    assert_eq!((bind.parent.notifications, bind.child.notifications), (2, 2));
    assert_eq!(bind.lock, BindingLock::Idle);
}

#[test]
fn double_bind_subscriber_echo_is_suppressed() {
    let to_child = |x: &u64| *x + 100;
    let to_parent = |y: &u64| *y - 100;
    let mut bind = DoubleBind::new(1u64, &to_child);

    // A child notification arriving while the parent direction holds the
    // lock is the propagation's own echo: nothing is written back.
    bind.lock = BindingLock::ReactingToParent;
    assert!(!bind.child_changed(&to_parent));
    assert_eq!(bind.parent.value, 1);
    assert_eq!(bind.parent.notifications, 0);

    // Symmetrically for a parent notification during a child reaction.
    bind.lock = BindingLock::ReactingToChild;
    assert!(!bind.parent_changed(&to_child));
    assert_eq!(bind.child.value, 101);
    assert_eq!(bind.child.notifications, 0);

    // At rest, a subscriber notification does propagate.
    bind.lock = BindingLock::Idle;
    assert!(bind.child_changed(&to_parent));
    assert_eq!(bind.parent.value, 1);
    assert_eq!(bind.parent.notifications, 1);
}
