use writer::input::{Key, Shortcuts};
use writer::menu::MenuAction;

#[test]
fn command_z_is_undo() {
    let s = Shortcuts::from_keys(true, false, &vec![Key::Z]);
    assert!(s.undo);
    assert!(!s.redo);
}

#[test]
fn shift_command_z_and_command_y_are_redo() {
    let s = Shortcuts::from_keys(true, true, &vec![Key::Z]);
    assert!(!s.undo);
    assert!(s.redo);
    let s = Shortcuts::from_keys(true, false, &vec![Key::Y]);
    assert!(s.redo);
}

#[test]
fn keys_without_command_do_nothing() {
    let s = Shortcuts::from_keys(false, false, &vec![Key::Z, Key::S, Key::O]);
    assert_eq!(s, Shortcuts::default());
}

#[test]
fn several_keys_at_once() {
    let s = Shortcuts::from_keys(true, false, &vec![Key::S, Key::F, Key::G, Key::N, Key::O, Key::Q]);
    assert!(s.save_file && s.toggle_find && s.go_to_line && s.new_file && s.open_file && s.quit_app);
    assert!(!s.undo && !s.redo);
}

#[test]
fn menu_actions_compare() {
    assert_ne!(MenuAction::Undo, MenuAction::Redo);
    assert_eq!(MenuAction::Nothing, MenuAction::Nothing);
}
