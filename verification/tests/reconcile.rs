use claim_graph::reconcile::{
    finish_restore, first_visible, first_visible_element, plan_restore, FrameCoalescer, RestoreStep,
};

#[test]
fn coalescer_schedules_once_per_frame() {
    let mut fc = FrameCoalescer::new();
    assert!(fc.on_scroll());
    assert!(!fc.on_scroll());
    assert!(!fc.on_scroll());
    fc.on_frame();
    assert!(fc.on_scroll());
}

#[test]
fn scroll_burst_coalesces_to_one_evaluation() {
    let mut fc = FrameCoalescer::new();
    assert_eq!(fc.scroll_burst(5), 1);
    assert_eq!(fc.scroll_burst(3), 0);
    fc.on_frame();
    assert_eq!(fc.scroll_burst(1), 1);
    let mut idle = FrameCoalescer::new();
    assert_eq!(idle.scroll_burst(0), 0);
}

#[test]
fn scan_picks_first_visible_card() {
    // Three cards of width 100, scrolled so the first peeks out before the
    // window and the second is fully inside.
    let ids: Vec<u128> = vec![11, 22, 33];
    let boxes: Vec<(i64, i64)> = vec![(-40, 60), (60, 160), (160, 260)];
    let (id, index) = first_visible_element(&ids, &boxes, 200);
    assert_eq!((id, index), (11, 0));
    assert_eq!(first_visible(&boxes, 200), Some(0));

    // Scrolled further: the first card is gone, the second peeks.
    let boxes: Vec<(i64, i64)> = vec![(-140, -40), (-40, 60), (60, 160)];
    let (id, index) = first_visible_element(&ids, &boxes, 200);
    assert_eq!((id, index), (22, 1));
}

#[test]
fn scan_reports_nothing_visible() {
    let boxes: Vec<(i64, i64)> = vec![(-300, -200), (-200, -100)];
    assert_eq!(first_visible(&boxes, 100), None);
    let empty: Vec<(i64, i64)> = Vec::new();
    assert_eq!(first_visible(&empty, 100), None);
}

#[test]
fn restoration_arithmetic() {
    // The card moved 30 pixels down and the page is scrolled: a plain
    // scroll correction restores it.
    assert_eq!(
        plan_restore(120, 150, 400),
        RestoreStep::ScrollBy { delta: 30 }
    );
    // The card moved up past what the scroll offset allows: the spacer must
    // make up the missing height first.
    assert_eq!(
        plan_restore(150, 20, 50),
        RestoreStep::WidenSpacer { height: 80 }
    );
    // The boundary: a restoring scroll to exactly offset zero still widens.
    assert_eq!(
        plan_restore(100, 50, 50),
        RestoreStep::WidenSpacer { height: 0 }
    );
    assert_eq!(finish_restore(150, 100), -50);
    assert_eq!(finish_restore(100, 150), 50);
}
