use vstd::prelude::*;

verus! {

/// The user's answer to the quit confirmation dialog.
#[derive(PartialEq, Eq, Structural, Clone, Copy, Debug)]
pub enum QuitAction {
    Undecided,
    Save,
    DontSave,
    Cancel,
}

/// The user's answer to the open-file confirmation dialog.
#[derive(PartialEq, Eq, Structural, Clone, Copy, Debug)]
pub enum OpenAction {
    Undecided,
    Save,
    DontSave,
    Cancel,
}

/// What the shell does after an answer to the quit dialog.
#[derive(PartialEq, Eq, Structural, Clone, Copy, Debug)]
pub enum QuitStep {
    /// Keep running.
    Stay,
    /// Save the document, then close the window if that worked.
    SaveThenClose,
    /// Close the window.
    Close,
}

/// What the shell does after an answer to the open-file dialog.
#[derive(PartialEq, Eq, Structural, Clone, Copy, Debug)]
pub enum OpenStep {
    /// Nothing more.
    Stay,
    /// Save the document, then let the user pick a file if that worked.
    SaveThenPick,
    /// Let the user pick a file to open.
    Pick,
}

} // verus!
