use writer::app::MyApp;
use writer::coalesce::ChangeCoalescer;
use writer::undo::UndoHistory;

fn s(x: &str) -> String {
    x.to_string()
}

#[test]
fn one_change_is_committed_after_the_window() {
    let mut c = ChangeCoalescer::new();
    let mut h = UndoHistory::new(10);
    c.observe(&mut h, &s("a"), &s("ab"), 0);
    assert!(c.is_pending());
    for t in [100, 300, 500] {
        c.observe(&mut h, &s("ab"), &s("ab"), t);
        assert!(!h.can_undo());
    }
    c.observe(&mut h, &s("ab"), &s("ab"), 600);
    assert!(!c.is_pending());
    assert_eq!(h.peek_undo(), Some(&s("a")));
    assert_eq!(h.undo(s("ab")), Some(s("a")));
    assert!(!h.can_undo());
}

#[test]
fn a_burst_is_one_entry() {
    let mut c = ChangeCoalescer::new();
    let mut h = UndoHistory::new(10);
    c.observe(&mut h, &s(""), &s("a"), 0);
    c.observe(&mut h, &s("a"), &s("ab"), 100);
    c.observe(&mut h, &s("ab"), &s("abc"), 200);
    c.observe(&mut h, &s("abc"), &s("abcd"), 300);
    c.observe(&mut h, &s("abcd"), &s("abcd"), 700);
    assert!(!h.can_undo());
    c.observe(&mut h, &s("abcd"), &s("abcd"), 850);
    assert_eq!(h.undo(s("abcd")), Some(s("")));
    assert!(!h.can_undo());
}

#[test]
fn a_change_after_the_window_starts_a_new_entry() {
    let mut c = ChangeCoalescer::new();
    let mut h = UndoHistory::new(10);
    c.observe(&mut h, &s("a"), &s("ab"), 0);
    c.observe(&mut h, &s("ab"), &s("abc"), 501);
    assert_eq!(h.peek_undo(), Some(&s("a")));
    assert!(c.is_pending());
    c.observe(&mut h, &s("abc"), &s("abc"), 1002);
    assert_eq!(h.undo(s("abc")), Some(s("ab")));
}

#[test]
fn exactly_the_window_is_not_enough() {
    let mut c = ChangeCoalescer::new();
    let mut h = UndoHistory::new(10);
    c.observe(&mut h, &s("a"), &s("b"), 1000);
    c.observe(&mut h, &s("b"), &s("b"), 1500);
    assert!(c.is_pending());
    assert!(!h.can_undo());
    c.observe(&mut h, &s("b"), &s("b"), 1501);
    assert!(h.can_undo());
}

#[test]
fn a_clock_going_back_counts_as_no_time() {
    let mut c = ChangeCoalescer::new();
    let mut h = UndoHistory::new(10);
    c.observe(&mut h, &s("a"), &s("b"), 1000);
    c.observe(&mut h, &s("b"), &s("b"), 10);
    assert!(c.is_pending());
    assert!(!h.can_undo());
}

#[test]
fn undo_during_pending_drops_the_burst() {
    let mut app = MyApp::new();
    let before = app.text.clone();
    app.text = s("typed");
    app.track_edit(before, 0);
    assert!(app.coalescer.is_pending());
    app.handle_undo();
    assert!(!app.coalescer.is_pending());
    assert!(!app.undo_history.can_undo());
    assert!(!app.undo_history.can_redo());
    assert_eq!(app.text, "typed");
    app.track_edit(s("typed"), 2000);
    assert!(!app.undo_history.can_undo());
}

#[test]
fn discard_goes_idle() {
    let mut c = ChangeCoalescer::new();
    let mut h = UndoHistory::new(10);
    c.observe(&mut h, &s("a"), &s("b"), 0);
    c.discard();
    assert!(!c.is_pending());
    c.flush(&mut h);
    assert!(!h.can_undo());
}
