//! Where the buffer is saved. Writing the bytes is left to the caller: this
//! module decides whether a path is known, or whether one must be asked for.

use vstd::prelude::*;
use crate::events::{AppEvent, FocusableComponent};

verus! {

/// A request to save the buffer.
#[derive(Clone, Debug, PartialEq, Eq)]
pub enum FileEvent {
    /// Save to the current path.
    Save,
    /// Save to this path, which becomes the current one.
    SaveAs(String),
}

/// What saving comes to.
#[derive(Clone, Debug, PartialEq, Eq)]
pub enum SaveAction {
    /// Write the buffer's text to this path.
    WriteTo(String),
    /// No path is known yet: ask for one.
    AskForPath,
}

/// The file being edited.
#[derive(Debug)]
pub struct File {
    /// Path of the file on disk, if it has one.
    pub path: Option<String>,
}

/// What saving to `path` comes to.
pub open spec fn save_action(path: Option<String>) -> SaveAction {
    match path {
        Some(p) => SaveAction::WriteTo(p),
        None => SaveAction::AskForPath,
    }
}

impl SaveAction {
    /// The events that follow: focus on the file name prompt when a path
    /// must be asked for, nothing otherwise.
    pub fn follow_up_events(&self) -> (r: Vec<AppEvent>)
        ensures
            r@ == (match self {
                SaveAction::AskForPath => seq![AppEvent::ChangeFocus(FocusableComponent::FilenamePrompt)],
                SaveAction::WriteTo(_) => Seq::<AppEvent>::empty(),
            }),
    {
        let mut r: Vec<AppEvent> = Vec::new();
        if let SaveAction::AskForPath = self {
            r.push(AppEvent::ChangeFocus(FocusableComponent::FilenamePrompt));
        }
        assert(r@ =~= (match self {
            SaveAction::AskForPath => seq![AppEvent::ChangeFocus(FocusableComponent::FilenamePrompt)],
            SaveAction::WriteTo(_) => Seq::<AppEvent>::empty(),
        }));
        r
    }
}

impl Default for File {
    fn default() -> (r: File)
        ensures
            r.path is None,
    {
        File::new(None)
    }
}

impl File {
    /// A file with the given path, if any.
    pub fn new(path: Option<String>) -> (r: File)
        ensures
            r.path == path,
    {
        File { path }
    }

    /// Handles a save request: `SaveAs` first makes its path the current
    /// one; then the buffer is to be written to the current path, or a path
    /// asked for when there is none.
    pub fn handle_event(&mut self, event: FileEvent) -> (r: SaveAction)
        ensures
            final(self).path == (match event {
                FileEvent::Save => old(self).path,
                FileEvent::SaveAs(p) => Some(p),
            }),
            r == save_action(final(self).path),
    {
        match event {
            FileEvent::Save => {},
            FileEvent::SaveAs(path) => {
                self.path = Some(path);
            },
        }
        self.save_file()
    }

    /// What saving to the current path comes to.
    fn save_file(&self) -> (r: SaveAction)
        ensures
            r == save_action(self.path),
    {
        match &self.path {
            Some(path) => SaveAction::WriteTo(path.clone()),
            None => SaveAction::AskForPath,
        }
    }
}

} // verus!
