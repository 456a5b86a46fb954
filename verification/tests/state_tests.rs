use disrust::channels::{App, DisplayMode, StatefulList};
use disrust::chat_box::{ChatBox, InputMode};
use disrust::data::{Channel, Guild, Msg, User};
use disrust::gateway::GatewayResponse;
use disrust::gui::{
    channel_names, chat_lines, command_for, cursor_position, enter_action, guild_names, message_line, EnterAction,
    message_lines, sidebar_names, Command, Key,
};
use disrust::wrapper::send_message as post_for;

fn guild(id: &str, name: &str) -> Guild {
    Guild { id: id.to_string(), name: name.to_string(), channels: Vec::new() }
}

fn channel(id: &str, name: &str) -> Channel {
    Channel { id: id.to_string(), name: name.to_string(), channel_type: "0".to_string() }
}

fn msg(channel_id: &str, author: &str, content: &str) -> Msg {
    Msg {
        channel_id: channel_id.to_string(),
        user: User { id: "1".to_string(), name: author.to_string() },
        content: content.to_string(),
    }
}

fn app_in_channel() -> App {
    let mut app = App::new(vec![guild("1", "Rust")]);
    app.guilds.next();
    app.enter_guild(vec![channel("10", "general"), channel("11", "help")]);
    app.next();
    app
}

#[test]
fn chat_box_starts_empty_and_normal() {
    let cbox = ChatBox::new();
    assert_eq!(cbox.input, "");
    assert_eq!(cbox.input_mode, InputMode::Normal);
}

#[test]
fn toggle_twice_gives_back_the_mode() {
    let mut cbox = ChatBox::new();
    cbox.toggle();
    assert_eq!(cbox.input_mode, InputMode::Editing);
    cbox.toggle();
    assert_eq!(cbox.input_mode, InputMode::Normal);
}

#[test]
fn typing_and_deleting() {
    let mut cbox = ChatBox::new();
    cbox.type_char('h');
    cbox.type_char('é');
    assert_eq!(cbox.input, "hé");
    cbox.backspace();
    assert_eq!(cbox.input, "h");
    cbox.backspace();
    cbox.backspace();
    assert_eq!(cbox.input, "");
}

#[test]
fn sending_in_guild_mode_stops_editing() {
    let app = App::new(vec![guild("1", "Rust")]);
    let mut cbox = ChatBox::new();
    cbox.toggle();
    cbox.type_char('x');
    assert!(cbox.send_message(&app).is_none());
    assert_eq!(cbox.input_mode, InputMode::Normal);
    assert_eq!(cbox.input, "x");
}

#[test]
fn sending_in_channel_mode_posts_and_clears() {
    let app = app_in_channel();
    let mut cbox = ChatBox::new();
    cbox.toggle();
    for c in "hello".chars() {
        cbox.type_char(c);
    }
    let post = cbox.send_message(&app).unwrap();
    assert_eq!(post.url, "https://discord.com/api/v9/channels/10/messages");
    assert_eq!(post.content, "hello");
    assert_eq!(cbox.input, "");
    assert_eq!(cbox.input_mode, InputMode::Editing);
}

#[test]
fn send_message_addresses_the_selected_channel() {
    let mut app = app_in_channel();
    app.next();
    let post = post_for(&app, &"yo".to_string());
    assert_eq!(post.url, "https://discord.com/api/v9/channels/11/messages");
    assert_eq!(post.content, "yo");
}

#[test]
fn list_selection_wraps_around() {
    let mut list = StatefulList::with_items(vec![1, 2, 3]);
    assert_eq!(list.selected, None);
    list.next();
    assert_eq!(list.selected, Some(0));
    list.next();
    list.next();
    assert_eq!(list.selected, Some(2));
    list.next();
    assert_eq!(list.selected, Some(0));
    list.previous();
    assert_eq!(list.selected, Some(2));
    list.unselect();
    assert_eq!(list.selected, None);
    list.previous();
    assert_eq!(list.selected, Some(0));
    assert_eq!(list.selected_item(), Some(&1));
}

#[test]
fn previous_undoes_next() {
    let mut list = StatefulList::with_items(vec!['a', 'b', 'c', 'd']);
    for start in 0..4 {
        list.selected = Some(start);
        list.next();
        list.previous();
        assert_eq!(list.selected, Some(start));
        list.previous();
        list.next();
        assert_eq!(list.selected, Some(start));
    }
}

#[test]
fn empty_list_keeps_no_selection() {
    let mut list: StatefulList<u8> = StatefulList::with_items(Vec::new());
    list.next();
    assert_eq!(list.selected, None);
    list.previous();
    assert_eq!(list.selected, None);
}

#[test]
fn app_moves_the_list_shown() {
    let mut app = App::new(vec![guild("1", "Rust"), guild("2", "Verus")]);
    assert_eq!(app.mode, DisplayMode::GuildMode);
    app.next();
    app.next();
    assert_eq!(app.guilds.selected, Some(1));
    assert_eq!(app.selected_guild().unwrap().name, "Verus");
    assert!(app.selected_channel().is_none());
    assert_eq!(app.get_current_title(), "Verus");
    app.enter_guild(vec![channel("10", "general")]);
    assert_eq!(app.mode, DisplayMode::ChannelMode);
    assert_eq!(app.get_current_title(), "");
    app.next();
    assert_eq!(app.items.selected, Some(0));
    assert_eq!(app.guilds.selected, Some(1));
    assert_eq!(app.get_channel().name, "general");
    assert_eq!(app.get_current_title(), "general");
    app.unselect();
    assert_eq!(app.items.selected, None);
    app.leave_guild();
    assert_eq!(app.mode, DisplayMode::GuildMode);
    assert!(app.get_messages().is_none());
}

#[test]
fn gateway_messages_reach_the_open_channel() {
    let mut app = app_in_channel();
    app.show_messages(vec![msg("10", "alice", "first")]);
    app.react_to_gateway(&GatewayResponse::msg_create(msg("10", "bob", "second")));
    app.react_to_gateway(&GatewayResponse::msg_create(msg("99", "carol", "elsewhere")));
    app.react_to_gateway(&GatewayResponse::ready(Vec::new()));
    let shown = app.get_messages().unwrap();
    let texts: Vec<&str> = shown.iter().map(|m| m.content.as_str()).collect();
    assert_eq!(texts, vec!["first", "second"]);
}

#[test]
fn gateway_messages_wait_for_a_shown_channel() {
    let mut app = app_in_channel();
    app.react_to_gateway(&GatewayResponse::msg_create(msg("10", "bob", "second")));
    assert!(app.get_messages().is_none());
}

#[test]
fn keys_in_normal_mode() {
    let m = InputMode::Normal;
    assert_eq!(command_for(m, Key::Char('q')), Command::Quit);
    assert_eq!(command_for(m, Key::Char('e')), Command::ToggleInput);
    assert_eq!(command_for(m, Key::Char('x')), Command::Ignore);
    assert_eq!(command_for(m, Key::Left), Command::Unselect);
    assert_eq!(command_for(m, Key::Down), Command::Next);
    assert_eq!(command_for(m, Key::Up), Command::Previous);
    assert_eq!(command_for(m, Key::Enter), Command::EnterGuild);
    assert_eq!(command_for(m, Key::Esc), Command::LeaveGuild);
    assert_eq!(command_for(m, Key::Right), Command::Ignore);
    assert_eq!(command_for(m, Key::Backspace), Command::Ignore);
}

#[test]
fn keys_in_editing_mode() {
    let m = InputMode::Editing;
    assert_eq!(command_for(m, Key::Enter), Command::Send);
    assert_eq!(command_for(m, Key::Esc), Command::ToggleInput);
    assert_eq!(command_for(m, Key::Char('q')), Command::TypeChar('q'));
    assert_eq!(command_for(m, Key::Backspace), Command::DeleteChar);
    assert_eq!(command_for(m, Key::Up), Command::Ignore);
}

#[test]
fn sidebar_shows_guilds_then_channels() {
    let mut app = App::new(vec![guild("1", "Rust"), guild("2", "Verus")]);
    assert_eq!(sidebar_names(&app), vec!["Rust".to_string(), "Verus".to_string()]);
    app.enter_guild(vec![channel("10", "general")]);
    assert_eq!(sidebar_names(&app), vec!["general".to_string()]);
    assert_eq!(guild_names(&Vec::new()), Vec::<String>::new());
    assert_eq!(channel_names(&vec![channel("1", "a"), channel("2", "b")]), vec!["a", "b"]);
}

#[test]
fn message_lines_show_author_and_text() {
    assert_eq!(message_line(&msg("1", "alice", "hi")), "alice: hi");
    let msgs = vec![msg("1", "a", "1"), msg("1", "b", "2"), msg("1", "c", "3")];
    assert_eq!(message_lines(&msgs, 10), vec!["a: 1", "b: 2", "c: 3"]);
}

#[test]
fn message_lines_keep_the_last_ones_when_the_area_is_full() {
    let msgs: Vec<Msg> = (0..10).map(|i| msg("1", "u", &i.to_string())).collect();
    assert_eq!(message_lines(&msgs, 5), vec!["u: 7", "u: 8", "u: 9"]);
    assert_eq!(
        message_lines(&msgs, 10),
        vec!["u: 2", "u: 3", "u: 4", "u: 5", "u: 6", "u: 7", "u: 8", "u: 9"]
    );
    assert_eq!(message_lines(&msgs, 3), vec!["u: 9"]);
    assert_eq!(message_lines(&msgs, 2), Vec::<String>::new());
    assert_eq!(message_lines(&msgs, 11).len(), 10);
}

#[test]
fn chat_lines_advertise_without_messages() {
    assert_eq!(
        chat_lines(&None, 20),
        vec!["Check my other projects on https://github.com/DvorakDwarf"]
    );
    assert_eq!(chat_lines(&Some(vec![msg("1", "a", "b")]), 20), vec!["a: b"]);
}

#[test]
fn cursor_stands_past_the_text() {
    assert_eq!(cursor_position(10, 30, 5), (16, 31));
    assert_eq!(cursor_position(0, 0, 0), (1, 1));
    assert_eq!(cursor_position(2, 0, 65536 + 4), (7, 1));
}

#[test]
fn enter_opens_what_is_selected() {
    let mut app = App::new(vec![guild("1", "Rust"), guild("2", "Verus")]);
    assert_eq!(enter_action(&app), EnterAction::Stay);
    app.next();
    app.next();
    assert_eq!(enter_action(&app), EnterAction::LoadChannels(1));
    app.enter_guild(vec![channel("10", "general")]);
    assert_eq!(enter_action(&app), EnterAction::Stay);
    app.next();
    assert_eq!(enter_action(&app), EnterAction::LoadMessages(0));
}

#[test]
fn queued_responses_arrive_in_order() {
    let mut app = app_in_channel();
    app.show_messages(Vec::new());
    let queue = vec![
        GatewayResponse::msg_create(msg("10", "a", "1")),
        GatewayResponse::msg_create(msg("11", "b", "elsewhere")),
        GatewayResponse::ready(Vec::new()),
        GatewayResponse::msg_create(msg("10", "c", "2")),
        GatewayResponse::msg_create(msg("10", "d", "3")),
    ];
    for response in &queue {
        app.react_to_gateway(response);
    }
    let shown = app.get_messages().unwrap();
    let texts: Vec<&str> = shown.iter().map(|m| m.content.as_str()).collect();
    assert_eq!(texts, vec!["1", "2", "3"]);
}
