//! The records the client shows: users, guilds, channels and messages, and
//! how each is read from a JSON object of Discord's API.
use vstd::prelude::*;
use crate::json::{JsonValue, spec_get, spec_field_text, field_text};

verus! {

/// A Discord user.
#[derive(Debug)]
pub struct User {
    pub id: String,
    pub name: String,
}

/// A channel of a guild; `channel_type` is Discord's channel type number,
/// in decimal.
#[derive(Debug)]
pub struct Channel {
    pub id: String,
    pub name: String,
    pub channel_type: String,
}

/// A guild (a server) and the channels the client has loaded for it.
#[derive(Debug)]
pub struct Guild {
    pub id: String,
    pub name: String,
    pub channels: Vec<Channel>,
}

/// A chat message.
#[derive(Debug)]
pub struct Msg {
    pub channel_id: String,
    pub user: User,
    pub content: String,
}

/// The abstract value of a `User`.
pub struct UserView {
    pub id: Seq<char>,
    pub name: Seq<char>,
}

/// The abstract value of a `Channel`.
pub struct ChannelView {
    pub id: Seq<char>,
    pub name: Seq<char>,
    pub channel_type: Seq<char>,
}

/// The abstract value of a `Guild`.
pub struct GuildView {
    pub id: Seq<char>,
    pub name: Seq<char>,
    pub channels: Seq<ChannelView>,
}

/// The abstract value of a `Msg`.
pub struct MsgView {
    pub channel_id: Seq<char>,
    pub user: UserView,
    pub content: Seq<char>,
}

impl View for User {
    type V = UserView;

    open spec fn view(&self) -> UserView {
        UserView { id: self.id@, name: self.name@ }
    }
}

impl View for Channel {
    type V = ChannelView;

    open spec fn view(&self) -> ChannelView {
        ChannelView { id: self.id@, name: self.name@, channel_type: self.channel_type@ }
    }
}

/// The views of a sequence of channels.
pub open spec fn channel_views(channels: Seq<Channel>) -> Seq<ChannelView> {
    channels.map_values(|c: Channel| c@)
}

impl View for Guild {
    type V = GuildView;

    open spec fn view(&self) -> GuildView {
        GuildView { id: self.id@, name: self.name@, channels: channel_views(self.channels@) }
    }
}

impl View for Msg {
    type V = MsgView;

    open spec fn view(&self) -> MsgView {
        MsgView { channel_id: self.channel_id@, user: self.user@, content: self.content@ }
    }
}

/// The views of a sequence of guilds.
pub open spec fn guild_views(guilds: Seq<Guild>) -> Seq<GuildView> {
    guilds.map_values(|g: Guild| g@)
}

/// The views of a sequence of messages.
pub open spec fn msg_views(msgs: Seq<Msg>) -> Seq<MsgView> {
    msgs.map_values(|m: Msg| m@)
}

/// The views of a sequence of users.
pub open spec fn user_views(users: Seq<User>) -> Seq<UserView> {
    users.map_values(|u: User| u@)
}

/// `v[key]`: the member `key` of an object, and `Null` where there is none.
pub open spec fn spec_member(v: JsonValue, key: Seq<char>) -> JsonValue {
    match spec_get(v, key) {
        Some(found) => found,
        None => JsonValue::Null,
    }
}

/// The user that a JSON user object describes.
pub open spec fn spec_user(v: JsonValue) -> UserView {
    UserView { id: spec_field_text(v, "id"@), name: spec_field_text(v, "username"@) }
}

/// The channel that a JSON channel object describes.
pub open spec fn spec_channel(v: JsonValue) -> ChannelView {
    ChannelView {
        id: spec_field_text(v, "id"@),
        name: spec_field_text(v, "name"@),
        channel_type: spec_field_text(v, "type"@),
    }
}

/// The guild that a partial JSON guild object describes, with no channel
/// loaded yet.
pub open spec fn spec_guild(v: JsonValue) -> GuildView {
    GuildView { id: spec_field_text(v, "id"@), name: spec_field_text(v, "name"@), channels: seq![] }
}

/// The message that a JSON message object describes; its author is the
/// member `author`.
pub open spec fn spec_msg(v: JsonValue) -> MsgView {
    MsgView {
        channel_id: spec_field_text(v, "channel_id"@),
        user: spec_user(spec_member(v, "author"@)),
        content: spec_field_text(v, "content"@),
    }
}

/// A message is read from its own members: its author is the user of its
/// member `author` (the id of `author.id`, the name of `author.username`),
/// its text that of `content` and its channel that of `channel_id`, whatever
/// other members it has.
pub proof fn lemma_message_is_read_from_its_own_members(v: JsonValue)
    ensures
        spec_msg(v).user.id == spec_field_text(spec_member(v, "author"@), "id"@),
        spec_msg(v).user.name == spec_field_text(spec_member(v, "author"@), "username"@),
        spec_msg(v).content == spec_field_text(v, "content"@),
        spec_msg(v).channel_id == spec_field_text(v, "channel_id"@),
{
}

/// The elements of a JSON array; none for any other value.
pub open spec fn spec_elements(v: JsonValue) -> Seq<JsonValue> {
    match v {
        JsonValue::Array(items) => items@,
        _ => seq![],
    }
}

/// `v[key]` (see `spec_member`).
pub fn member<'a>(v: &'a JsonValue, key: &str) -> (r: Option<&'a JsonValue>)
    ensures
        match r {
            Some(found) => spec_member(*v, key@) == *found,
            None => spec_member(*v, key@) == JsonValue::Null,
        },
{
    v.get(key)
}

impl Channel {
    /// A copy of this channel.
    pub fn duplicate(&self) -> (r: Channel)
        ensures
            r@ == self@,
    {
        Channel {
            id: self.id.clone(),
            name: self.name.clone(),
            channel_type: self.channel_type.clone(),
        }
    }

    /// Reads a channel from a JSON channel object.
    pub fn from(v: &JsonValue) -> (r: Channel)
        ensures
            r@ == spec_channel(*v),
    {
        Channel {
            id: field_text(v, "id"),
            name: field_text(v, "name"),
            channel_type: field_text(v, "type"),
        }
    }
}

impl User {
    /// A copy of this user.
    pub fn duplicate(&self) -> (r: User)
        ensures
            r@ == self@,
    {
        User { id: self.id.clone(), name: self.name.clone() }
    }

    /// Reads a user from a JSON user object.
    pub fn from(v: &JsonValue) -> (r: User)
        ensures
            r@ == spec_user(*v),
    {
        User { id: field_text(v, "id"), name: field_text(v, "username") }
    }
}

impl Msg {
    /// A copy of this message.
    pub fn duplicate(&self) -> (r: Msg)
        ensures
            r@ == self@,
    {
        Msg {
            channel_id: self.channel_id.clone(),
            user: self.user.duplicate(),
            content: self.content.clone(),
        }
    }

    /// Reads a message from a JSON message object.
    pub fn from(v: &JsonValue) -> (r: Msg)
        ensures
            r@ == spec_msg(*v),
            r.user.id@ == spec_field_text(spec_member(*v, "author"@), "id"@),
            r.user.name@ == spec_field_text(spec_member(*v, "author"@), "username"@),
            r.content@ == spec_field_text(*v, "content"@),
            r.channel_id@ == spec_field_text(*v, "channel_id"@),
    {
        let user = match member(v, "author") {
            Some(author) => User::from(author),
            None => User::from(&JsonValue::Null),
        };
        Msg { channel_id: field_text(v, "channel_id"), user, content: field_text(v, "content") }
    }
}

impl Guild {
    /// Reads a guild, with no channel loaded, from a partial JSON guild object.
    pub fn from_partial(v: &JsonValue) -> (r: Guild)
        ensures
            r@ == spec_guild(*v),
    {
        let r = Guild { id: field_text(v, "id"), name: field_text(v, "name"), channels: Vec::new() };
        assert(channel_views(r.channels@) == Seq::<ChannelView>::empty());
        r
    }

    /// The guilds of a gateway `READY` payload: the elements of its member
    /// `guilds`, each read as a partial guild object.
    pub fn from_list(d: &JsonValue) -> (r: Vec<Guild>)
        ensures
            guild_views(r@) == spec_elements(spec_member(*d, "guilds"@)).map_values(
                |g: JsonValue| spec_guild(g),
            ),
    {
        let mut list: Vec<Guild> = Vec::new();
        match member(d, "guilds") {
            Some(JsonValue::Array(items)) => {
                let mut i: usize = 0;
                while i < items.len()
                    invariant
                        i <= items.len(),
                        guild_views(list@) == items@.take(i as int).map_values(
                            |g: JsonValue| spec_guild(g),
                        ),
                    decreases items.len() - i,
                {
                    let guild = Guild::from_partial(&items[i]);
                    let ghost before = list@;
                    list.push(guild);
                    assert(guild_views(list@) =~= guild_views(before).push(guild@));
                    assert(items@.take(i + 1) == items@.take(i as int).push(items@[i as int]));
                    assert(items@.take(i + 1).map_values(|g: JsonValue| spec_guild(g))
                        =~= items@.take(i as int).map_values(|g: JsonValue| spec_guild(g)).push(
                        spec_guild(items@[i as int]),
                    ));
                    i = i + 1;
                }
                assert(items@.take(items.len() as int) == items@);
            },
            _ => {},
        }
        list
    }
}

} // verus!
