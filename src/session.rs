//! The editor's state and the dispatch of its events. The loop that reads
//! keys, runs the queue and paints the screen lives outside the library:
//! it hands each event to [`App`] and acts on what comes back.

use vstd::prelude::*;
use crate::buffer::{edited, follow_ups, Buffer};
use crate::cursor::{moved, Cursor};
use crate::events::{AppEvent, FocusableComponent};
use crate::file::{save_action, File, FileEvent, SaveAction};
use crate::modes::{mode_events, EditorMode, Key};
use crate::position::Position;
use crate::prompt::{prompt_events, prompt_input, FilenamePrompt};

verus! {

/// The whole editing session.
#[derive(Debug)]
pub struct App {
    /// False once the editor has been asked to quit.
    pub running: bool,
    /// The component that receives key presses.
    pub focus: FocusableComponent,
    /// The file name prompt.
    pub filename_prompt: FilenamePrompt,
    /// The active mode.
    pub mode: EditorMode,
    /// The cursor.
    pub cursor: Cursor,
    /// The text.
    pub buffer: Buffer,
    /// Where the text is saved.
    pub file: File,
}

/// What applying an event asks of the loop that runs the editor.
#[derive(Debug)]
pub struct Reaction {
    /// Events to put on the queue, in order.
    pub follow_ups: Vec<AppEvent>,
    /// A path to write the buffer's text to, now.
    pub write_to: Option<String>,
}

/// Whether applying an event of this kind needs room for one more character.
pub open spec fn grows_text(event: AppEvent) -> bool {
    match event {
        AppEvent::Buffer(e) => !(e is DeleteChar),
        _ => false,
    }
}

impl App {
    /// A session on `initial_text`, saved to `maybe_path` if given: normal
    /// mode, the cursor at the start, the editor focused.
    pub fn new(initial_text: String, maybe_path: Option<String>) -> (r: App)
        ensures
            r.running,
            r.focus == FocusableComponent::Editor,
            r.filename_prompt.input@ == Seq::<char>::empty(),
            r.mode == EditorMode::Normal,
            r.cursor.position == (Position { line: 0, col: 0 }),
            r.buffer@ == initial_text@,
            r.file.path == maybe_path,
    {
        App {
            running: true,
            focus: FocusableComponent::Editor,
            filename_prompt: FilenamePrompt::new(),
            mode: EditorMode::Normal,
            cursor: Cursor::new(),
            buffer: Buffer::new(initial_text),
            file: File::new(maybe_path),
        }
    }

    /// Periodic hook; nothing happens on a tick yet.
    pub fn tick(&self) {
    }

    /// Stops the session.
    pub fn quit(&mut self)
        ensures
            !final(self).running,
            final(self).mode == old(self).mode,
            final(self).focus == old(self).focus,
            final(self).cursor.position == old(self).cursor.position,
            final(self).buffer@ == old(self).buffer@,
            final(self).file.path == old(self).file.path,
            final(self).filename_prompt.input == old(self).filename_prompt.input,
    {
        self.running = false;
    }

    /// Interprets a key press: the prompt takes it when focused, otherwise
    /// the active mode turns it into events at the cursor's position. Only
    /// the prompt's input can change.
    pub fn handle_key(&mut self, key: Key) -> (r: Vec<AppEvent>)
        ensures
            old(self).focus == FocusableComponent::FilenamePrompt ==> r@ == prompt_events(
                old(self).filename_prompt.input,
                key,
            ) && final(self).filename_prompt.input@ == prompt_input(
                old(self).filename_prompt.input@,
                key,
            ),
            old(self).focus == FocusableComponent::Editor ==> r@ == mode_events(
                old(self).mode,
                key,
                old(self).cursor.position,
            ) && final(self).filename_prompt.input == old(self).filename_prompt.input,
            final(self).running == old(self).running,
            final(self).focus == old(self).focus,
            final(self).mode == old(self).mode,
            final(self).cursor.position == old(self).cursor.position,
            final(self).buffer@ == old(self).buffer@,
            final(self).file.path == old(self).file.path,
    {
        match self.focus {
            FocusableComponent::FilenamePrompt => self.filename_prompt.handle_key(key),
            FocusableComponent::Editor => self.mode.handle_key(key, self.cursor.position),
        }
    }

    /// Applies one event and says what the loop must do next. Cursor events
    /// move the cursor against the current text; buffer events edit the
    /// text and return the cursor events that follow; file events return
    /// the path to write to, or focus on the prompt when none is known;
    /// the rest change the focus, the mode or the running state.
    pub fn handle_app_event(&mut self, event: AppEvent) -> (r: Reaction)
        requires
            grows_text(event) ==> old(self).buffer@.len() < usize::MAX,
        ensures
            final(self).cursor.position == (match event {
                AppEvent::Cursor(e) => moved(old(self).buffer@, old(self).cursor.position, e),
                _ => old(self).cursor.position,
            }),
            final(self).buffer@ == (match event {
                AppEvent::Buffer(e) => edited(old(self).buffer@, e),
                _ => old(self).buffer@,
            }),
            final(self).file.path == (match event {
                AppEvent::File(FileEvent::SaveAs(p)) => Some(p),
                _ => old(self).file.path,
            }),
            final(self).focus == (match event {
                AppEvent::ChangeFocus(c) => c,
                _ => old(self).focus,
            }),
            final(self).mode == (match event {
                AppEvent::ChangeToMode(m) => m,
                _ => old(self).mode,
            }),
            final(self).running == (old(self).running && !(event is Quit)),
            final(self).filename_prompt.input == old(self).filename_prompt.input,
            r.follow_ups@ == (match event {
                AppEvent::Buffer(e) => follow_ups(old(self).buffer@, e),
                AppEvent::File(_) => match save_action(final(self).file.path) {
                    SaveAction::AskForPath => seq![
                        AppEvent::ChangeFocus(FocusableComponent::FilenamePrompt),
                    ],
                    SaveAction::WriteTo(_) => Seq::<AppEvent>::empty(),
                },
                _ => Seq::<AppEvent>::empty(),
            }),
            r.write_to == (match event {
                AppEvent::File(_) => final(self).file.path,
                _ => None,
            }),
    {
        match event {
            AppEvent::Cursor(cursor_event) => {
                let follow_ups = self.cursor.handle_event(cursor_event, &self.buffer);
                Reaction { follow_ups, write_to: None }
            },
            AppEvent::Buffer(buffer_event) => {
                let follow_ups = self.buffer.handle_event(buffer_event);
                Reaction { follow_ups, write_to: None }
            },
            AppEvent::File(file_event) => {
                let action = self.file.handle_event(file_event);
                let follow_ups = action.follow_up_events();
                let write_to = match action {
                    SaveAction::WriteTo(path) => Some(path),
                    SaveAction::AskForPath => None,
                };
                Reaction { follow_ups, write_to }
            },
            AppEvent::ChangeFocus(component) => {
                self.focus = component;
                Reaction { follow_ups: Vec::new(), write_to: None }
            },
            AppEvent::ChangeToMode(new_mode) => {
                self.change_mode(new_mode);
                Reaction { follow_ups: Vec::new(), write_to: None }
            },
            AppEvent::Quit => {
                self.quit();
                Reaction { follow_ups: Vec::new(), write_to: None }
            },
        }
    }

    /// Makes `new_mode` the active mode.
    pub fn change_mode(&mut self, new_mode: EditorMode)
        ensures
            final(self).mode == new_mode,
            final(self).running == old(self).running,
            final(self).focus == old(self).focus,
            final(self).cursor.position == old(self).cursor.position,
            final(self).buffer@ == old(self).buffer@,
            final(self).file.path == old(self).file.path,
            final(self).filename_prompt.input == old(self).filename_prompt.input,
    {
        self.mode = new_mode;
    }
}

} // verus!
