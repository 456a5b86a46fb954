//! The chat box: the text being written, and whether keys go to it.
use vstd::prelude::*;
use crate::channels::{App, DisplayMode};
use crate::json::{push_char, pop_char};
use crate::wrapper::{send_message as post_for, OutgoingMessage, spec_send_url};

verus! {

/// Where key presses go: to navigation (`Normal`) or into the chat box
/// (`Editing`).
#[derive(PartialEq, Eq, Structural, Clone, Copy, Debug)]
pub enum InputMode {
    Normal,
    Editing,
}

/// The other input mode.
pub open spec fn toggled(mode: InputMode) -> InputMode {
    match mode {
        InputMode::Normal => InputMode::Editing,
        InputMode::Editing => InputMode::Normal,
    }
}

/// The state of the chat box.
#[derive(Debug)]
pub struct ChatBox {
    /// The text in the box.
    pub input: String,
    /// Where key presses go.
    pub input_mode: InputMode,
}

impl ChatBox {
    /// An empty chat box in `Normal` mode.
    pub fn new() -> (r: ChatBox)
        ensures
            r.input@ == Seq::<char>::empty(),
            r.input_mode == InputMode::Normal,
    {
        ChatBox { input: String::new(), input_mode: InputMode::Normal }
    }

    /// Switches between `Normal` and `Editing`.
    pub fn toggle(&mut self)
        ensures
            final(self).input_mode == toggled(old(self).input_mode),
            final(self).input == old(self).input,
    {
        if self.input_mode == InputMode::Normal {
            self.input_mode = InputMode::Editing;
        } else {
            self.input_mode = InputMode::Normal;
        }
    }

    /// Sends the text of the box. With a guild open, the box is emptied and
    /// the returned post carries its text to the selected channel; with the
    /// guilds shown, the box only leaves `Editing` and nothing is posted.
    pub fn send_message(&mut self, app: &App) -> (r: Option<OutgoingMessage>)
        requires
            app.mode == DisplayMode::ChannelMode ==> app.has_channel(),
        ensures
            app.mode == DisplayMode::GuildMode ==> {
                &&& r is None
                &&& final(self).input_mode == InputMode::Normal
                &&& final(self).input == old(self).input
            },
            app.mode == DisplayMode::ChannelMode ==> {
                &&& r matches Some(post) && post.content@ == old(self).input@ && post.url@
                    == spec_send_url(app.spec_channel().id@)
                &&& final(self).input@ == Seq::<char>::empty()
                &&& final(self).input_mode == old(self).input_mode
            },
    {
        match app.mode {
            DisplayMode::GuildMode => {
                self.input_mode = InputMode::Normal;
                None
            },
            DisplayMode::ChannelMode => {
                let input_copy = self.input.clone();
                self.input = String::new();
                Some(post_for(app, &input_copy))
            },
        }
    }

    /// Adds `c` at the end of the text.
    pub fn type_char(&mut self, c: char)
        ensures
            final(self).input@ == old(self).input@.push(c),
            final(self).input_mode == old(self).input_mode,
    {
        push_char(&mut self.input, c);
    }

    /// Removes the last character of the text, if there is one.
    pub fn backspace(&mut self)
        ensures
            final(self).input@ == (if old(self).input@.len() == 0 {
                old(self).input@
            } else {
                old(self).input@.drop_last()
            }),
            final(self).input_mode == old(self).input_mode,
    {
        let _ = pop_char(&mut self.input);
    }
}

/// Toggling twice gives back the mode one started from.
pub proof fn lemma_toggle_twice(mode: InputMode)
    ensures
        toggled(toggled(mode)) == mode,
        toggled(mode) != mode,
{
}

/// Typing a character and deleting it gives back the text one started from.
pub proof fn lemma_backspace_undoes_type(text: Seq<char>, c: char)
    ensures
        text.push(c).drop_last() == text,
        text.push(c).len() != 0,
{
    assert(text.push(c).drop_last() =~= text);
}

} // verus!
