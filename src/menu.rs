use vstd::prelude::*;

verus! {

/// Actions that can be triggered from the menu.
#[derive(PartialEq, Eq, Structural, Clone, Copy, Debug)]
pub enum MenuAction {
    Nothing,
    New,
    Open,
    Save,
    SaveAs,
    Quit,
    Find,
    Undo,
    Redo,
    ToggleLineNumbers,
    ToggleSyntaxHighlighting,
    GoToLine,
}

} // verus!
