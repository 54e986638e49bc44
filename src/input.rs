use vstd::prelude::*;

verus! {

/// The keys that take part in the editor's shortcuts.
#[derive(PartialEq, Eq, Structural, Clone, Copy, Debug)]
pub enum Key {
    N,
    O,
    S,
    Q,
    F,
    Z,
    Y,
    G,
}

/// The shortcuts triggered during one frame.
#[derive(PartialEq, Eq, Structural, Clone, Copy, Debug)]
pub struct Shortcuts {
    pub undo: bool,
    pub redo: bool,
    pub toggle_find: bool,
    pub new_file: bool,
    pub open_file: bool,
    pub save_file: bool,
    pub quit_app: bool,
    pub go_to_line: bool,
}

/// The shortcuts that the command modifier, the shift modifier and the keys
/// pressed in `pressed` trigger: command with N, O, S, Q, F or G; command
/// with Z for undo, unless shift is held; command with Y, or with shift
/// and Z, for redo.
pub open spec fn shortcuts_for(command: bool, shift: bool, pressed: Seq<Key>) -> Shortcuts {
    Shortcuts {
        undo: command && !shift && pressed.contains(Key::Z),
        redo: command && (pressed.contains(Key::Y) || (shift && pressed.contains(Key::Z))),
        toggle_find: command && pressed.contains(Key::F),
        new_file: command && pressed.contains(Key::N),
        open_file: command && pressed.contains(Key::O),
        save_file: command && pressed.contains(Key::S),
        quit_app: command && pressed.contains(Key::Q),
        go_to_line: command && pressed.contains(Key::G),
    }
}

fn was_pressed(pressed: &Vec<Key>, key: Key) -> (r: bool)
    ensures
        r == pressed@.contains(key),
{
    let mut i: usize = 0;
    while i < pressed.len()
        invariant
            i <= pressed@.len(),
            forall|j: int| 0 <= j < i ==> pressed@[j] != key,
        decreases pressed@.len() - i,
    {
        if pressed[i] == key {
            return true;
        }
        i = i + 1;
    }
    false
}

impl Shortcuts {
    /// No shortcut at all.
    pub fn none() -> (r: Self)
        ensures
            r == shortcuts_for(false, false, Seq::empty()),
    {
        Shortcuts {
            undo: false,
            redo: false,
            toggle_find: false,
            new_file: false,
            open_file: false,
            save_file: false,
            quit_app: false,
            go_to_line: false,
        }
    }

    /// The shortcuts that a frame's modifiers and pressed keys trigger.
    pub fn from_keys(command: bool, shift: bool, pressed: &Vec<Key>) -> (r: Self)
        ensures
            r == shortcuts_for(command, shift, pressed@),
    {
        if !command {
            return Shortcuts::none();
        }
        let z = was_pressed(pressed, Key::Z);
        Shortcuts {
            undo: !shift && z,
            redo: was_pressed(pressed, Key::Y) || (shift && z),
            toggle_find: was_pressed(pressed, Key::F),
            new_file: was_pressed(pressed, Key::N),
            open_file: was_pressed(pressed, Key::O),
            save_file: was_pressed(pressed, Key::S),
            quit_app: was_pressed(pressed, Key::Q),
            go_to_line: was_pressed(pressed, Key::G),
        }
    }
}

impl Default for Shortcuts {
    fn default() -> (r: Self)
        ensures
            r == shortcuts_for(false, false, Seq::empty()),
    {
        Shortcuts::none()
    }
}

} // verus!
