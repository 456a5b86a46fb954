//! What the terminal interface decides: the command each key press gives in
//! each input mode, and the text of the lists it draws.
use vstd::prelude::*;
use vstd::string::*;
use crate::chat_box::InputMode;
use crate::channels::{App, DisplayMode};
use crate::data::{Guild, Channel, Msg};

verus! {

/// A key press, as far as the interface tells keys apart.
#[derive(PartialEq, Eq, Structural, Clone, Copy, Debug)]
pub enum Key {
    Char(char),
    Left,
    Right,
    Up,
    Down,
    Enter,
    Esc,
    Backspace,
    Other,
}

/// What the interface does for a key press.
#[derive(PartialEq, Eq, Structural, Clone, Copy, Debug)]
pub enum Command {
    /// Leave the program.
    Quit,
    /// Switch the chat box between `Normal` and `Editing`.
    ToggleInput,
    /// Clear the selection of the list shown.
    Unselect,
    /// Move the selection down.
    Next,
    /// Move the selection up.
    Previous,
    /// Open the selected guild or channel.
    EnterGuild,
    /// Go back to the guilds.
    LeaveGuild,
    /// Send the text of the chat box.
    Send,
    /// Add the character to the chat box.
    TypeChar(char),
    /// Remove the last character of the chat box.
    DeleteChar,
    /// Nothing.
    Ignore,
}

/// The command for `key` in `mode`. In `Normal` mode: `q` quits, `e` starts
/// editing, Left unselects, Down and Up move, Enter opens, Esc goes back. In
/// `Editing` mode: Enter sends, Esc stops editing, a character is typed,
/// Backspace deletes. Any other key does nothing.
pub fn command_for(mode: InputMode, key: Key) -> (r: Command)
    ensures
        r == (match mode {
            InputMode::Normal => match key {
                Key::Char(c) => if c == 'q' {
                    Command::Quit
                } else if c == 'e' {
                    Command::ToggleInput
                } else {
                    Command::Ignore
                },
                Key::Left => Command::Unselect,
                Key::Down => Command::Next,
                Key::Up => Command::Previous,
                Key::Enter => Command::EnterGuild,
                Key::Esc => Command::LeaveGuild,
                _ => Command::Ignore,
            },
            InputMode::Editing => match key {
                Key::Enter => Command::Send,
                Key::Esc => Command::ToggleInput,
                Key::Char(c) => Command::TypeChar(c),
                Key::Backspace => Command::DeleteChar,
                _ => Command::Ignore,
            },
        }),
{
    match mode {
        InputMode::Normal => match key {
            Key::Char('q') => Command::Quit,
            Key::Char('e') => Command::ToggleInput,
            Key::Left => Command::Unselect,
            Key::Down => Command::Next,
            Key::Up => Command::Previous,
            Key::Enter => Command::EnterGuild,
            Key::Esc => Command::LeaveGuild,
            _ => Command::Ignore,
        },
        InputMode::Editing => match key {
            Key::Enter => Command::Send,
            Key::Esc => Command::ToggleInput,
            Key::Char(c) => Command::TypeChar(c),
            Key::Backspace => Command::DeleteChar,
            _ => Command::Ignore,
        },
    }
}

/// What opening asks for: the channels of the selected guild (by its index
/// among the guilds), the messages of the selected channel (by its index
/// among the channels), or nothing.
#[derive(PartialEq, Eq, Structural, Clone, Copy, Debug)]
pub enum EnterAction {
    LoadChannels(usize),
    LoadMessages(usize),
    Stay,
}

/// What Enter opens: with the guilds shown, the selected guild; with a guild
/// open, the selected channel; nothing where nothing is selected.
pub fn enter_action(app: &App) -> (r: EnterAction)
    requires
        app.wf(),
    ensures
        r == (match app.mode {
            DisplayMode::GuildMode => match app.guilds.selected {
                Some(i) => EnterAction::LoadChannels(i),
                None => EnterAction::Stay,
            },
            DisplayMode::ChannelMode => match app.items.selected {
                Some(i) => EnterAction::LoadMessages(i),
                None => EnterAction::Stay,
            },
        }),
        r matches EnterAction::LoadChannels(i) ==> i < app.guilds.items@.len(),
        r matches EnterAction::LoadMessages(i) ==> i < app.items.items@.len(),
{
    match app.mode {
        DisplayMode::GuildMode => match app.guilds.selected {
            Some(i) => EnterAction::LoadChannels(i),
            None => EnterAction::Stay,
        },
        DisplayMode::ChannelMode => match app.items.selected {
            Some(i) => EnterAction::LoadMessages(i),
            None => EnterAction::Stay,
        },
    }
}

/// The texts of a sequence of strings.
pub open spec fn texts(strings: Seq<String>) -> Seq<Seq<char>> {
    strings.map_values(|s: String| s@)
}

/// The names of `guilds`, in order.
pub fn guild_names(guilds: &Vec<Guild>) -> (r: Vec<String>)
    ensures
        texts(r@) == guilds@.map_values(|g: Guild| g.name@),
{
    let mut names: Vec<String> = Vec::new();
    let mut i: usize = 0;
    while i < guilds.len()
        invariant
            i <= guilds.len(),
            texts(names@) == guilds@.take(i as int).map_values(|g: Guild| g.name@),
        decreases guilds.len() - i,
    {
        let ghost before = names@;
        names.push(guilds[i].name.clone());
        proof {
            assert(texts(names@) =~= texts(before).push(guilds@[i as int].name@));
            assert(guilds@.take(i + 1) == guilds@.take(i as int).push(guilds@[i as int]));
            assert(guilds@.take(i + 1).map_values(|g: Guild| g.name@) =~= guilds@.take(
                i as int,
            ).map_values(|g: Guild| g.name@).push(guilds@[i as int].name@));
        }
        i = i + 1;
    }
    assert(guilds@.take(guilds.len() as int) == guilds@);
    names
}

/// The names of `channels`, in order.
pub fn channel_names(channels: &Vec<Channel>) -> (r: Vec<String>)
    ensures
        texts(r@) == channels@.map_values(|c: Channel| c.name@),
{
    let mut names: Vec<String> = Vec::new();
    let mut i: usize = 0;
    while i < channels.len()
        invariant
            i <= channels.len(),
            texts(names@) == channels@.take(i as int).map_values(|c: Channel| c.name@),
        decreases channels.len() - i,
    {
        let ghost before = names@;
        names.push(channels[i].name.clone());
        proof {
            assert(texts(names@) =~= texts(before).push(channels@[i as int].name@));
            assert(channels@.take(i + 1) == channels@.take(i as int).push(channels@[i as int]));
            assert(channels@.take(i + 1).map_values(|c: Channel| c.name@) =~= channels@.take(
                i as int,
            ).map_values(|c: Channel| c.name@).push(channels@[i as int].name@));
        }
        i = i + 1;
    }
    assert(channels@.take(channels.len() as int) == channels@);
    names
}

/// The entries of the left-hand list: the names of the guilds, or, while a
/// guild is open, those of its channels.
pub fn sidebar_names(app: &App) -> (r: Vec<String>)
    ensures
        app.mode == DisplayMode::GuildMode ==> texts(r@) == app.guilds.items@.map_values(
            |g: Guild| g.name@,
        ),
        app.mode == DisplayMode::ChannelMode ==> texts(r@) == app.items.items@.map_values(
            |c: Channel| c.name@,
        ),
{
    match app.mode {
        DisplayMode::GuildMode => guild_names(&app.guilds.items),
        DisplayMode::ChannelMode => channel_names(&app.items.items),
    }
}

/// The line of the chat that shows `m`: its author's name, a colon and a
/// space, then its text.
pub open spec fn spec_message_line(m: Msg) -> Seq<char> {
    m.user.name@ + ": "@ + m.content@
}

/// The line of a message holds its author's name, then `": "`, then the whole
/// of its text, character for character, line breaks included.
pub proof fn lemma_message_line_holds_whole_text(m: Msg)
    ensures
        spec_message_line(m).len() == m.user.name@.len() + 2 + m.content@.len(),
        spec_message_line(m).take(m.user.name@.len() as int) == m.user.name@,
        spec_message_line(m)[m.user.name@.len() as int] == ':',
        spec_message_line(m)[m.user.name@.len() + 1int] == ' ',
        forall|k: int|
            0 <= k < m.content@.len() ==> #[trigger] spec_message_line(m)[m.user.name@.len() + 2int + k]
                == m.content@[k],
{
    reveal_strlit(": ");
    let line = spec_message_line(m);
    assert(line.take(m.user.name@.len() as int) =~= m.user.name@);
}

/// The line that shows `m`.
pub fn message_line(m: &Msg) -> (r: String)
    ensures
        r@ == spec_message_line(*m),
        r@ == m.user.name@ + ": "@ + m.content@,
{
    let mut line = m.user.name.clone();
    line.append(": ");
    line.append(m.content.as_str());
    line
}

/// The lines of the chat for `messages` in an area `height` rows high: all
/// of them while fewer than `height`, otherwise the last `height - 2`, the
/// rows inside the area's border.
pub open spec fn spec_message_lines(messages: Seq<Msg>, height: int) -> Seq<Seq<char>> {
    let all = messages.map_values(|m: Msg| spec_message_line(m));
    if height > all.len() {
        all
    } else {
        all.subrange(all.len() - height + 2, all.len() as int)
    }
}

/// The lines of the chat for `messages` in an area `height` rows high.
pub fn message_lines(messages: &Vec<Msg>, height: u16) -> (r: Vec<String>)
    requires
        height > messages@.len() || height >= 2,
    ensures
        texts(r@) == spec_message_lines(messages@, height as int),
{
    let len = messages.len();
    let height_rows = height as usize;
    let start: usize = if height_rows > len {
        0
    } else {
        len - height_rows + 2
    };
    let ghost all = messages@.map_values(|m: Msg| spec_message_line(m));
    let mut lines: Vec<String> = Vec::new();
    let mut i: usize = start;
    while i < len
        invariant
            start <= i <= len,
            len == messages@.len(),
            all == messages@.map_values(|m: Msg| spec_message_line(m)),
            texts(lines@) == all.subrange(start as int, i as int),
        decreases len - i,
    {
        let ghost before = lines@;
        lines.push(message_line(&messages[i]));
        proof {
            assert(texts(lines@) =~= texts(before).push(all[i as int]));
            assert(all.subrange(start as int, i + 1) =~= all.subrange(start as int, i as int).push(
                all[i as int],
            ));
        }
        i = i + 1;
    }
    assert(height_rows > len ==> all.subrange(0, len as int) =~= all);
    lines
}

/// The text shown where no channel's messages are.
pub open spec fn spec_advert() -> Seq<char> {
    "Check my other projects on https://github.com/DvorakDwarf"@
}

/// The lines of the chat area: those of the messages shown, or the advert
/// where none are.
pub fn chat_lines(messages: &Option<Vec<Msg>>, height: u16) -> (r: Vec<String>)
    requires
        messages matches Some(m) ==> height > m@.len() || height >= 2,
    ensures
        match messages {
            Some(m) => texts(r@) == spec_message_lines(m@, height as int),
            None => texts(r@) == seq![spec_advert()],
        },
{
    match messages {
        Some(m) => message_lines(m, height),
        None => {
            let mut lines: Vec<String> = Vec::new();
            lines.push(String::from_str("Check my other projects on https://github.com/DvorakDwarf"));
            assert(texts(lines@) =~= seq![spec_advert()]);
            lines
        },
    }
}

/// Where the cursor stands while editing: one column past the text, whose
/// length in bytes is `input_len`, counted as a `u16`, inside the input area
/// whose corner is (`x`, `y`), on the line below its border.
pub fn cursor_position(x: u16, y: u16, input_len: usize) -> (r: (u16, u16))
    requires
        x + (input_len as u16) + 1 <= u16::MAX,
        y + 1 <= u16::MAX,
    ensures
        r.0 == x + (input_len as u16) + 1,
        r.1 == y + 1,
{
    let cut: u16 = input_len as u16;
    (x + cut + 1, y + 1)
}

} // verus!
