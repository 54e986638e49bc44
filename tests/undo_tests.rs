use writer::undo::UndoHistory;

#[test]
fn test_new_history() {
    let history = UndoHistory::new(10);
    assert!(!history.can_undo());
    assert!(!history.can_redo());
}

#[test]
fn test_push_and_undo() {
    let mut history = UndoHistory::new(10);
    
    // Push initial state
    history.push("state1".to_string());
    assert!(history.can_undo());
    assert!(!history.can_redo());

    // Undo should return the previous state
    let result = history.undo("state2".to_string());
    assert_eq!(result, Some("state1".to_string()));
    assert!(!history.can_undo());
    assert!(history.can_redo());
}

#[test]
fn test_undo_redo_sequence() {
    let mut history = UndoHistory::new(10);
    
    history.push("state1".to_string());
    history.push("state2".to_string());
    
    // Undo to state2
    let result = history.undo("state3".to_string());
    assert_eq!(result, Some("state2".to_string()));
    
    // Undo to state1
    let result = history.undo("state2".to_string());
    assert_eq!(result, Some("state1".to_string()));
    
    // Redo to state2
    let result = history.redo("state1".to_string());
    assert_eq!(result, Some("state2".to_string()));
    
    // Redo to state3
    let result = history.redo("state2".to_string());
    assert_eq!(result, Some("state3".to_string()));
}

#[test]
fn test_push_clears_redo() {
    let mut history = UndoHistory::new(10);
    
    history.push("state1".to_string());
    history.push("state2".to_string());
    history.undo("state3".to_string());
    
    assert!(history.can_redo());
    
    // Making a new change should clear redo stack
    history.push("state4".to_string());
    assert!(!history.can_redo());
}

#[test]
fn test_capacity_limit() {
    let mut history = UndoHistory::new(3);
    
    history.push("state1".to_string());
    history.push("state2".to_string());
    history.push("state3".to_string());
    history.push("state4".to_string()); // Should remove state1
    
    // Stack now has: [state2, state3, state4]
    // Undo with current state5 should give us state4
    let result = history.undo("state5".to_string());
    assert_eq!(result, Some("state4".to_string()));
    
    // Stack: [state2, state3], Redo: [state5]
    // Undo with current state4 should give us state3
    let result = history.undo("state4".to_string());
    assert_eq!(result, Some("state3".to_string()));
    
    // Stack: [state2], Redo: [state5, state4]
    // Undo with current state3 should give us state2
    let result = history.undo("state3".to_string());
    assert_eq!(result, Some("state2".to_string()));
    
    // Stack: [], Redo: [state5, state4, state3]
    // No more undo available
    let result = history.undo("state2".to_string());
    assert_eq!(result, None);
}

#[test]
fn test_clear() {
    let mut history = UndoHistory::new(10);
    
    history.push("state1".to_string());
    history.push("state2".to_string());
    history.undo("state3".to_string());
    
    assert!(history.can_undo());
    assert!(history.can_redo());
    
    history.clear();
    
    assert!(!history.can_undo());
    assert!(!history.can_redo());
}

#[test]
fn test_undo_empty_stack() {
    let mut history = UndoHistory::new(10);
    let result = history.undo("current".to_string());
    assert_eq!(result, None);
}

#[test]
fn test_redo_empty_stack() {
    let mut history = UndoHistory::new(10);
    let result = history.redo("current".to_string());
    assert_eq!(result, None);
}

#[test]
fn full_stack_keeps_the_newest() {
    let mut history = UndoHistory::new(2);
    for t in ["a", "b", "c", "d", "e"] {
        history.push(t.to_string());
    }
    assert_eq!(history.undo("f".to_string()), Some("e".to_string()));
    assert_eq!(history.undo("e".to_string()), Some("d".to_string()));
    assert_eq!(history.undo("d".to_string()), None);
}

#[test]
fn redo_stack_is_bounded_too() {
    let mut history = UndoHistory::new(2);
    history.push("a".to_string());
    history.push("b".to_string());
    history.undo("c".to_string());
    history.undo("b".to_string());
    history.push("x".to_string());
    history.push("y".to_string());
    history.undo("z".to_string());
    history.undo("y".to_string());
    assert_eq!(history.redo("x".to_string()), Some("y".to_string()));
    assert_eq!(history.redo("y".to_string()), Some("z".to_string()));
    assert_eq!(history.redo("z".to_string()), None);
}

#[test]
fn undo_then_redo_restores() {
    let mut history = UndoHistory::new(3);
    history.push("one".to_string());
    history.push("two".to_string());
    let back = history.undo("three".to_string()).unwrap();
    assert_eq!(back, "two");
    assert_eq!(history.redo(back), Some("three".to_string()));
    assert_eq!(history.peek_undo(), Some(&"two".to_string()));
    assert!(!history.can_redo());
}

#[test]
fn peek_leaves_the_stack() {
    let mut history = UndoHistory::default();
    assert_eq!(history.peek_undo(), None);
    history.push("x".to_string());
    assert_eq!(history.peek_undo(), Some(&"x".to_string()));
    assert!(history.can_undo());
}
