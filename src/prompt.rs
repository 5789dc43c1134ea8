//! The prompt that asks for a file name before the first save.

use vstd::prelude::*;
use crate::events::{AppEvent, FocusableComponent};
use crate::file::FileEvent;
use crate::modes::{Key, KeyCode};

verus! {

/// The file name prompt and what has been typed into it.
#[derive(Debug)]
pub struct FilenamePrompt {
    /// The file name typed so far.
    pub input: String,
}

/// Relies on `String::push`: the character is appended.
#[verifier::external_body]
fn push_char(s: &mut String, c: char)
    ensures
        final(s)@ == old(s)@.push(c),
{
    s.push(c)
}

/// Relies on `String::pop`: the last character is removed and returned,
/// or `None` when the string is empty.
#[verifier::external_body]
fn pop_char(s: &mut String) -> (r: Option<char>)
    ensures
        old(s)@.len() == 0 ==> r is None && final(s)@ == old(s)@,
        old(s)@.len() > 0 ==> r == Some(old(s)@.last()) && final(s)@ == old(s)@.drop_last(),
{
    s.pop()
}

/// What the prompt holds after the key press, having held `input`.
pub open spec fn prompt_input(input: Seq<char>, key: Key) -> Seq<char> {
    match key.code {
        KeyCode::Esc => Seq::<char>::empty(),
        KeyCode::Enter => Seq::<char>::empty(),
        KeyCode::Backspace => if input.len() == 0 {
            input
        } else {
            input.drop_last()
        },
        KeyCode::Char(c) => input.push(c),
        _ => input,
    }
}

/// The events the key press emits, the prompt holding `input`.
pub open spec fn prompt_events(input: String, key: Key) -> Seq<AppEvent> {
    match key.code {
        KeyCode::Esc => seq![AppEvent::ChangeFocus(FocusableComponent::Editor)],
        KeyCode::Enter => if input@.len() == 0 {
            seq![]
        } else {
            seq![
                AppEvent::File(FileEvent::SaveAs(input)),
                AppEvent::ChangeFocus(FocusableComponent::Editor),
            ]
        },
        _ => seq![],
    }
}

impl Default for FilenamePrompt {
    fn default() -> (r: FilenamePrompt)
        ensures
            r.input@ == Seq::<char>::empty(),
    {
        FilenamePrompt::new()
    }
}

impl FilenamePrompt {
    /// A prompt with nothing typed.
    pub fn new() -> (r: FilenamePrompt)
        ensures
            r.input@ == Seq::<char>::empty(),
    {
        FilenamePrompt { input: String::new() }
    }

    /// Esc clears the input and gives focus back to the editor; Enter, when
    /// something was typed, asks to save under that name, clears the input
    /// and gives focus back; Backspace removes the last character; a
    /// character is appended. Other keys do nothing.
    pub fn handle_key(&mut self, key: Key) -> (r: Vec<AppEvent>)
        ensures
            final(self).input@ == prompt_input(old(self).input@, key),
            r@ == prompt_events(old(self).input, key),
    {
        let mut events: Vec<AppEvent> = Vec::new();
        match key.code {
            KeyCode::Esc => {
                self.input = String::new();
                events.push(AppEvent::ChangeFocus(FocusableComponent::Editor));
            },
            KeyCode::Enter => {
                if !self.input.as_str().is_empty() {
                    let path = self.input.clone();
                    self.input = String::new();
                    events.push(AppEvent::File(FileEvent::SaveAs(path)));
                    events.push(AppEvent::ChangeFocus(FocusableComponent::Editor));
                }
            },
            KeyCode::Backspace => {
                let _ = pop_char(&mut self.input);
            },
            KeyCode::Char(c) => {
                push_char(&mut self.input, c);
            },
            _ => {},
        }
        assert(events@ =~= prompt_events(old(self).input, key));
        assert(self.input@ =~= prompt_input(old(self).input@, key));
        events
    }
}

} // verus!
