//! The events that flow through the editor's single queue.

use vstd::prelude::*;
use crate::buffer::BufferEvent;
use crate::cursor::CursorEvent;
use crate::file::FileEvent;
use crate::modes::EditorMode;

verus! {

/// The part of the screen that receives key presses.
#[derive(Debug, Clone, Copy, PartialEq, Eq, Structural)]
pub enum FocusableComponent {
    /// The text area, where the active mode interprets keys.
    Editor,
    /// The prompt that asks for a file name before saving.
    FilenamePrompt,
}

/// An event of the editor: an edit, a cursor movement, a file operation, or
/// a change of focus, mode or running state.
#[derive(Clone, Debug, PartialEq, Eq)]
pub enum AppEvent {
    /// Changes the buffer's text.
    Buffer(BufferEvent),
    /// Moves or places the cursor.
    Cursor(CursorEvent),
    /// Saves the buffer.
    File(FileEvent),
    /// Gives the key presses to another component.
    ChangeFocus(FocusableComponent),
    /// Switches the active mode.
    ChangeToMode(EditorMode),
    /// Stops the editor.
    Quit,
}

} // verus!
