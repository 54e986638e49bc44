use crate::actions::{OpenAction, OpenStep, QuitAction, QuitStep};
use crate::coalesce::ChangeCoalescer;
use crate::search::{occurrences, SearchModel, SearchState};
use crate::undo::UndoHistory;
use vstd::prelude::*;

verus! {

/// Which dialog, if any, the editor is waiting on. Only one can be open.
#[derive(PartialEq, Eq, Structural, Clone, Copy, Debug)]
pub enum AppState {
    Idle,
    AwaitingSaveBeforeQuit,
    AwaitingSaveBeforeOpen,
    ShowingError,
}

/// Why a file could not be opened or saved.
#[derive(Debug, PartialEq, Eq)]
pub enum FileError {
    /// The document has never been saved, so there is no path to save to.
    NoPath,
    /// Reading or writing failed, with the system's message.
    Io(String),
}

/// The search state after recomputing its matches against `text`.
pub open spec fn recomputed(s: SearchModel, text: Seq<char>) -> SearchModel {
    SearchModel {
        show_bar: s.show_bar,
        query: s.query,
        results: occurrences(text, s.query),
        current: if occurrences(text, s.query).len() > 0 {
            Some(0int)
        } else {
            None
        },
    }
}

/// One open document and everything the editor keeps about it.
pub struct MyApp {
    pub text: String,
    pub show_about_window: bool,
    pub filename: Option<String>,
    pub file_path: Option<String>,
    pub is_dirty: bool,
    pub last_saved_text: String,
    pub state: AppState,
    pub error_message: String,
    pub search: SearchState,
    pub undo_history: UndoHistory,
    pub coalescer: ChangeCoalescer,
}

impl MyApp {
    pub open spec fn wf(&self) -> bool {
        &&& self.undo_history.wf()
        &&& self.search.wf()
    }

    /// Everything but the text, its history and its search is as in `other`.
    pub open spec fn same_shell(&self, other: &MyApp) -> bool {
        &&& self.show_about_window == other.show_about_window
        &&& self.filename == other.filename
        &&& self.file_path == other.file_path
        &&& self.is_dirty == other.is_dirty
        &&& self.last_saved_text == other.last_saved_text
        &&& self.state == other.state
        &&& self.error_message == other.error_message
    }

    /// An empty, unnamed document with no history.
    pub fn new() -> (r: Self)
        ensures
            r.wf(),
            r.text@.len() == 0,
            r.last_saved_text@.len() == 0,
            r.filename.is_none(),
            r.file_path.is_none(),
            !r.is_dirty,
            !r.show_about_window,
            r.state == AppState::Idle,
            r.undo_history@.undos.len() == 0,
            r.undo_history@.redos.len() == 0,
            r.coalescer == ChangeCoalescer::Idle,
            r.search@.query.len() == 0,
    {
        MyApp {
            text: String::new(),
            show_about_window: false,
            filename: None,
            file_path: None,
            is_dirty: false,
            last_saved_text: String::new(),
            state: AppState::Idle,
            error_message: String::new(),
            search: SearchState::new(),
            undo_history: UndoHistory::default(),
            coalescer: ChangeCoalescer::new(),
        }
    }

    /// Loads a document, given what reading the file at `path` gave. On
    /// success the history is cleared and the search runs on the new text.
    pub fn open_file(&mut self, path: String, filename: String, read: Result<String, String>) -> (r:
        Result<(), FileError>)
        requires
            old(self).wf(),
        ensures
            final(self).wf(),
            match read {
                Ok(contents) => {
                    &&& r == Ok::<(), FileError>(())
                    &&& final(self).text == contents
                    &&& final(self).last_saved_text == contents
                    &&& final(self).filename == Some(filename)
                    &&& final(self).file_path == Some(path)
                    &&& !final(self).is_dirty
                    &&& final(self).undo_history@ == old(self).undo_history@.cleared()
                    &&& final(self).coalescer == ChangeCoalescer::Idle
                    &&& final(self).search@ == recomputed(old(self).search@, contents@)
                    &&& final(self).show_about_window == old(self).show_about_window
                    &&& final(self).state == old(self).state
                    &&& final(self).error_message == old(self).error_message
                },
                Err(e) => r == Err::<(), FileError>(FileError::Io(e)) && *final(self) == *old(self),
            },
    {
        match read {
            Ok(contents) => {
                self.text = contents.clone();
                self.last_saved_text = contents;
                self.filename = Some(filename);
                self.file_path = Some(path);
                self.is_dirty = false;
                self.undo_history.clear();
                self.coalescer.discard();
                self.search.update_results(self.text.as_str());
                Ok(())
            },
            Err(e) => Err(FileError::Io(e)),
        }
    }

    /// Completes a save to the document's own path, given what writing the
    /// text there gave. A document without a path was not written:
    /// the answer is `NoPath`, and the caller saves it under a new name.
    pub fn save_file(&mut self, written: Result<(), String>) -> (r: Result<(), FileError>)
        ensures
            old(self).file_path.is_none() ==> r == Err::<(), FileError>(FileError::NoPath)
                && *final(self) == *old(self),
            old(self).file_path.is_some() ==> match written {
                Ok(_) => {
                    &&& r == Ok::<(), FileError>(())
                    &&& final(self).last_saved_text == old(self).text
                    &&& !final(self).is_dirty
                    &&& final(self).text == old(self).text
                    &&& final(self).filename == old(self).filename
                    &&& final(self).file_path == old(self).file_path
                    &&& final(self).state == old(self).state
                    &&& final(self).error_message == old(self).error_message
                    &&& final(self).show_about_window == old(self).show_about_window
                    &&& final(self).search == old(self).search
                    &&& final(self).undo_history == old(self).undo_history
                    &&& final(self).coalescer == old(self).coalescer
                },
                Err(e) => r == Err::<(), FileError>(FileError::Io(e)) && *final(self) == *old(self),
            },
    {
        if self.file_path.is_none() {
            return Err(FileError::NoPath);
        }
        match written {
            Ok(_) => {
                self.last_saved_text = self.text.clone();
                self.is_dirty = false;
                Ok(())
            },
            Err(e) => Err(FileError::Io(e)),
        }
    }

    /// Completes a save under a new `path`, given what writing the text there
    /// gave; on success the document takes that path and name.
    pub fn save_file_as(&mut self, path: String, filename: String, written: Result<(), String>) -> (r:
        Result<(), FileError>)
        ensures
            match written {
                Ok(_) => {
                    &&& r == Ok::<(), FileError>(())
                    &&& final(self).last_saved_text == old(self).text
                    &&& !final(self).is_dirty
                    &&& final(self).filename == Some(filename)
                    &&& final(self).file_path == Some(path)
                    &&& final(self).text == old(self).text
                    &&& final(self).state == old(self).state
                    &&& final(self).error_message == old(self).error_message
                    &&& final(self).show_about_window == old(self).show_about_window
                    &&& final(self).search == old(self).search
                    &&& final(self).undo_history == old(self).undo_history
                    &&& final(self).coalescer == old(self).coalescer
                },
                Err(e) => r == Err::<(), FileError>(FileError::Io(e)) && *final(self) == *old(self),
            },
    {
        match written {
            Ok(_) => {
                self.last_saved_text = self.text.clone();
                self.filename = Some(filename);
                self.file_path = Some(path);
                self.is_dirty = false;
                Ok(())
            },
            Err(e) => Err(FileError::Io(e)),
        }
    }

    /// Shows `message` in the error dialog.
    pub fn show_error(&mut self, message: String)
        ensures
            final(self).state == AppState::ShowingError,
            final(self).error_message == message,
            final(self).text == old(self).text,
            final(self).filename == old(self).filename,
            final(self).file_path == old(self).file_path,
            final(self).is_dirty == old(self).is_dirty,
            final(self).last_saved_text == old(self).last_saved_text,
            final(self).show_about_window == old(self).show_about_window,
            final(self).search == old(self).search,
            final(self).undo_history == old(self).undo_history,
            final(self).coalescer == old(self).coalescer,
    {
        self.error_message = message;
        self.state = AppState::ShowingError;
    }

    /// Closes whichever dialog is open.
    pub fn close_dialog(&mut self)
        ensures
            final(self).state == AppState::Idle,
            final(self).same_shell_but_state(old(self)),
    {
        self.state = AppState::Idle;
    }

    /// Everything but the dialog state is as in `other`.
    pub open spec fn same_shell_but_state(&self, other: &MyApp) -> bool {
        &&& self.text == other.text
        &&& self.show_about_window == other.show_about_window
        &&& self.filename == other.filename
        &&& self.file_path == other.file_path
        &&& self.is_dirty == other.is_dirty
        &&& self.last_saved_text == other.last_saved_text
        &&& self.error_message == other.error_message
        &&& self.search == other.search
        &&& self.undo_history == other.undo_history
        &&& self.coalescer == other.coalescer
    }

    /// The user asked to open a file. With unsaved changes the open-file
    /// dialog asks first and the answer is `false`; otherwise the answer is
    /// `true`: pick a file now.
    pub fn handle_open_action(&mut self) -> (r: bool)
        ensures
            r == !old(self).is_dirty,
            final(self).state == (if old(self).is_dirty {
                AppState::AwaitingSaveBeforeOpen
            } else {
                old(self).state
            }),
            final(self).same_shell_but_state(old(self)),
    {
        if self.is_dirty {
            self.state = AppState::AwaitingSaveBeforeOpen;
            false
        } else {
            true
        }
    }

    /// The user asked to quit. With unsaved changes the quit dialog asks
    /// first and the answer is `false`; otherwise the answer is `true`:
    /// close now.
    pub fn handle_quit_action(&mut self) -> (r: bool)
        ensures
            r == !old(self).is_dirty,
            final(self).state == (if old(self).is_dirty {
                AppState::AwaitingSaveBeforeQuit
            } else {
                old(self).state
            }),
            final(self).same_shell_but_state(old(self)),
    {
        if self.is_dirty {
            self.state = AppState::AwaitingSaveBeforeQuit;
            false
        } else {
            true
        }
    }

    /// Takes the user's answer to the quit dialog.
    pub fn answer_quit(&mut self, action: QuitAction) -> (r: QuitStep)
        ensures
            action == QuitAction::Undecided ==> r == QuitStep::Stay && *final(self) == *old(self),
            action == QuitAction::Save ==> r == QuitStep::SaveThenClose && final(self).state
                == AppState::Idle && final(self).same_shell_but_state(old(self)),
            action == QuitAction::DontSave ==> {
                &&& r == QuitStep::Close
                &&& final(self).state == AppState::Idle
                &&& !final(self).is_dirty
                &&& final(self).text == old(self).text
                &&& final(self).last_saved_text == old(self).last_saved_text
            },
            action == QuitAction::Cancel ==> r == QuitStep::Stay && final(self).state
                == AppState::Idle && final(self).same_shell_but_state(old(self)),
    {
        match action {
            QuitAction::Undecided => QuitStep::Stay,
            QuitAction::Save => {
                self.state = AppState::Idle;
                QuitStep::SaveThenClose
            },
            QuitAction::DontSave => {
                self.state = AppState::Idle;
                self.is_dirty = false;
                QuitStep::Close
            },
            QuitAction::Cancel => {
                self.state = AppState::Idle;
                QuitStep::Stay
            },
        }
    }

    /// Takes the user's answer to the open-file dialog.
    pub fn answer_open(&mut self, action: OpenAction) -> (r: OpenStep)
        ensures
            action == OpenAction::Undecided ==> r == OpenStep::Stay && *final(self) == *old(self),
            action != OpenAction::Undecided ==> final(self).state == AppState::Idle
                && final(self).same_shell_but_state(old(self)),
            action == OpenAction::Save ==> r == OpenStep::SaveThenPick,
            action == OpenAction::DontSave ==> r == OpenStep::Pick,
            action == OpenAction::Cancel ==> r == OpenStep::Stay,
    {
        match action {
            OpenAction::Undecided => OpenStep::Stay,
            OpenAction::Save => {
                self.state = AppState::Idle;
                OpenStep::SaveThenPick
            },
            OpenAction::DontSave => {
                self.state = AppState::Idle;
                OpenStep::Pick
            },
            OpenAction::Cancel => {
                self.state = AppState::Idle;
                OpenStep::Stay
            },
        }
    }

    /// Undoes the last change. A pending burst of edits is dropped, never
    /// committed, whether or not there was anything to undo.
    pub fn handle_undo(&mut self)
        requires
            old(self).wf(),
        ensures
            final(self).wf(),
            final(self).coalescer == ChangeCoalescer::Idle,
            final(self).undo_history@ == old(self).undo_history@.undone(old(self).text).0,
            final(self).text == match old(self).undo_history@.undone(old(self).text).1 {
                Some(t) => t,
                None => old(self).text,
            },
            final(self).search@ == (if old(self).undo_history@.undos.len() > 0 {
                recomputed(old(self).search@, final(self).text@)
            } else {
                old(self).search@
            }),
            final(self).same_shell(old(self)),
    {
        self.coalescer.discard();
        if let Some(previous_text) = self.undo_history.undo(self.text.clone()) {
            self.text = previous_text;
            self.search.update_results(self.text.as_str());
        }
    }

    /// Redoes the last undone change. A pending burst of edits is dropped,
    /// never committed, whether or not there was anything to redo.
    pub fn handle_redo(&mut self)
        requires
            old(self).wf(),
        ensures
            final(self).wf(),
            final(self).coalescer == ChangeCoalescer::Idle,
            final(self).undo_history@ == old(self).undo_history@.redone(old(self).text).0,
            final(self).text == match old(self).undo_history@.redone(old(self).text).1 {
                Some(t) => t,
                None => old(self).text,
            },
            final(self).search@ == (if old(self).undo_history@.redos.len() > 0 {
                recomputed(old(self).search@, final(self).text@)
            } else {
                old(self).search@
            }),
            final(self).same_shell(old(self)),
    {
        self.coalescer.discard();
        if let Some(next_text) = self.undo_history.redo(self.text.clone()) {
            self.text = next_text;
            self.search.update_results(self.text.as_str());
        }
    }

    /// Commits a pending burst of edits to the history at once.
    pub fn save_undo_state(&mut self)
        requires
            old(self).wf(),
        ensures
            final(self).wf(),
            final(self).coalescer == ChangeCoalescer::Idle,
            final(self).undo_history@ == match old(self).coalescer {
                ChangeCoalescer::Pending { text, .. } => old(self).undo_history@.pushed(text),
                ChangeCoalescer::Idle => old(self).undo_history@,
            },
            final(self).text == old(self).text,
            final(self).search == old(self).search,
            final(self).same_shell(old(self)),
    {
        self.coalescer.flush(&mut self.undo_history);
    }

    /// Takes note of one frame: the text was `previous_text` before the user
    /// could edit it and is `text` now; the clock reads `now_ms`. Marks the
    /// document dirty when it differs from what was saved, lets the
    /// coalescer decide what enters the history, and reruns the search on
    /// changed text.
    pub fn track_edit(&mut self, previous_text: String, now_ms: u64)
        requires
            old(self).wf(),
        ensures
            final(self).wf(),
            final(self).text == old(self).text,
            final(self).is_dirty == (old(self).is_dirty || old(self).text@
                != old(self).last_saved_text@),
            final(self).coalescer == old(self).coalescer.after_tick(
                previous_text,
                old(self).text@ != previous_text@,
                now_ms,
            ),
            final(self).undo_history@ == match old(self).coalescer.committed(now_ms) {
                Some(t) => old(self).undo_history@.pushed(t),
                None => old(self).undo_history@,
            },
            final(self).search@ == (if old(self).text@ != previous_text@ {
                recomputed(old(self).search@, old(self).text@)
            } else {
                old(self).search@
            }),
            final(self).show_about_window == old(self).show_about_window,
            final(self).filename == old(self).filename,
            final(self).file_path == old(self).file_path,
            final(self).last_saved_text == old(self).last_saved_text,
            final(self).state == old(self).state,
            final(self).error_message == old(self).error_message,
    {
        if !self.text.eq(&self.last_saved_text) {
            self.is_dirty = true;
        }
        let changed = !self.text.eq(&previous_text);
        self.coalescer.observe(&mut self.undo_history, &previous_text, &self.text, now_ms);
        if changed {
            self.search.update_results(self.text.as_str());
        }
    }
}

impl Default for MyApp {
    fn default() -> (r: Self)
        ensures
            r.wf(),
            r.text@.len() == 0,
            r.filename.is_none(),
            r.file_path.is_none(),
            !r.is_dirty,
            r.state == AppState::Idle,
            r.coalescer == ChangeCoalescer::Idle,
    {
        MyApp::new()
    }
}

} // verus!
