//! Discord's REST API as the client uses it: the address of each request,
//! and what the client makes of each reply.
use vstd::prelude::*;
use vstd::string::*;
use crate::json::{JsonValue, spec_lookup, spec_text, text_of, str_eq};
use crate::data::{
    Guild,
    Channel,
    Msg,
    User,
    ChannelView,
    guild_views,
    channel_views,
    msg_views,
    user_views,
    spec_guild,
    spec_channel,
    spec_msg,
    spec_user,
    spec_elements,
};
use crate::channels::App;

verus! {

/// The number of elements of an array.
pub fn get_length(list: &JsonValue) -> (r: usize)
    requires
        list is Array,
    ensures
        r == spec_elements(*list).len(),
{
    match list.array_len() {
        Some(n) => n,
        None => 0,
    }
}

/// The text of the member `key` of `list[index]`, or, where that has none,
/// of the member `key` of `list` itself: a string as it is, a number in
/// decimal. Where neither has the member, the error `"bruh"`.
pub fn get(list: &JsonValue, index: usize, key: &str) -> (r: Result<String, &'static str>)
    requires
        spec_lookup(*list, index as int, key@) matches Some(v) ==> spec_text(v) is Some,
    ensures
        match spec_lookup(*list, index as int, key@) {
            Some(v) => r matches Ok(t) && spec_text(v) == Some(t@),
            None => r matches Err(e) && e@ == "bruh"@,
        },
{
    let first = match list.at(index) {
        Some(item) => item.get(key),
        None => None,
    };
    let value = match first {
        Some(v) => Some(v),
        None => list.get(key),
    };
    match value {
        None => Err("bruh"),
        Some(v) => match text_of(v) {
            Some(t) => Ok(t),
            None => Err("bruh"),
        },
    }
}

/// The address of the list of the user's guilds.
pub fn guilds_url() -> (r: String)
    ensures
        r@ == "https://discord.com/api/v9/users/@me/guilds"@,
{
    String::from_str("https://discord.com/api/v9/users/@me/guilds")
}

/// The address of the list of the channels of `server`.
pub fn channels_url(server: &Guild) -> (r: String)
    ensures
        r@ == "https://discord.com/api/v9/guilds/"@ + server.id@ + "/channels"@,
{
    let mut r = String::from_str("https://discord.com/api/v9/guilds/");
    r.append(server.id.as_str());
    r.append("/channels");
    r
}

/// The address of the last 80 messages of `channel`.
pub fn messages_url(channel: &Channel) -> (r: String)
    ensures
        r@ == "https://discord.com/api/v9/channels/"@ + channel.id@ + "/messages?limit=80"@,
{
    let mut r = String::from_str("https://discord.com/api/v9/channels/");
    r.append(channel.id.as_str());
    r.append("/messages?limit=80");
    r
}

/// The address of the list of the user's relationships.
pub fn friends_url() -> (r: String)
    ensures
        r@ == "https://discord.com/api/v9/users/@me/relationships"@,
{
    String::from_str("https://discord.com/api/v9/users/@me/relationships")
}

/// The guilds of the reply to `guilds_url`: each element read as a partial
/// guild.
pub fn guilds(response: &JsonValue) -> (r: Vec<Guild>)
    requires
        response is Array,
    ensures
        guild_views(r@) == spec_elements(*response).map_values(|g: JsonValue| spec_guild(g)),
{
    let mut server_list: Vec<Guild> = Vec::new();
    let len = get_length(response);
    let mut i: usize = 0;
    while i < len
        invariant
            i <= len,
            response is Array,
            len == spec_elements(*response).len(),
            guild_views(server_list@) == spec_elements(*response).take(i as int).map_values(
                |g: JsonValue| spec_guild(g),
            ),
        decreases len - i,
    {
        let item = response.at(i).unwrap();
        let guild = Guild::from_partial(item);
        let ghost before = server_list@;
        server_list.push(guild);
        proof {
            let items = spec_elements(*response);
            assert(guild_views(server_list@) =~= guild_views(before).push(guild@));
            assert(items.take(i + 1) == items.take(i as int).push(items[i as int]));
            assert(items.take(i + 1).map_values(|g: JsonValue| spec_guild(g)) =~= items.take(
                i as int,
            ).map_values(|g: JsonValue| spec_guild(g)).push(spec_guild(items[i as int])));
        }
        i = i + 1;
    }
    assert(spec_elements(*response).take(len as int) == spec_elements(*response));
    server_list
}

/// The channel types the client does not list: voice (2), category (4),
/// announcement thread (10), public thread (11), private thread (12), stage
/// (13), directory (14) and forum (15).
pub open spec fn is_ignored_type(t: Seq<char>) -> bool {
    t == "2"@ || t == "4"@ || t == "10"@ || t == "11"@ || t == "12"@ || t == "13"@ || t
        == "14"@ || t == "15"@
}

/// The channel is one the client lists.
pub open spec fn is_listed(c: ChannelView) -> bool {
    !is_ignored_type(c.channel_type)
}

/// Whether the client leaves out channels of type `t`.
pub fn is_ignored_channel_type(t: &str) -> (r: bool)
    ensures
        r == is_ignored_type(t@),
{
    str_eq(t, "2") || str_eq(t, "4") || str_eq(t, "10") || str_eq(t, "11") || str_eq(t, "12")
        || str_eq(t, "13") || str_eq(t, "14") || str_eq(t, "15")
}

/// The channels of the reply to `channels_url`, in the reply's order,
/// without those of an ignored type.
pub fn channels(response: &JsonValue) -> (r: Vec<Channel>)
    requires
        response is Array,
    ensures
        channel_views(r@) == spec_elements(*response).map_values(|c: JsonValue| spec_channel(c)).filter(
            |c: ChannelView| is_listed(c),
        ),
        forall|i: int|
            0 <= i < spec_elements(*response).len() && !seq!["2"@, "4"@, "10"@, "11"@, "12"@, "13"@, "14"@, "15"@].contains(
                #[trigger] spec_channel(spec_elements(*response)[i]).channel_type,
            ) ==> channel_views(r@).contains(spec_channel(spec_elements(*response)[i])),
        forall|j: int|
            0 <= j < r@.len() ==> !seq!["2"@, "4"@, "10"@, "11"@, "12"@, "13"@, "14"@, "15"@].contains(#[trigger] r@[j].channel_type@),
{
    let mut channel_list: Vec<Channel> = Vec::new();
    let len = get_length(response);
    let mut i: usize = 0;
    while i < len
        invariant
            i <= len,
            response is Array,
            len == spec_elements(*response).len(),
            channel_views(channel_list@) == spec_elements(*response).take(i as int).map_values(
                |c: JsonValue| spec_channel(c),
            ).filter(|c: ChannelView| is_listed(c)),
        decreases len - i,
    {
        let item = response.at(i).unwrap();
        let channel = Channel::from(item);
        let ghost before = channel_list@;
        let ghost items = spec_elements(*response);
        let ghost mapped = items.take(i + 1).map_values(|c: JsonValue| spec_channel(c));
        proof {
            assert(items.take(i + 1) == items.take(i as int).push(items[i as int]));
            assert(mapped.drop_last() =~= items.take(i as int).map_values(
                |c: JsonValue| spec_channel(c),
            ));
            assert(mapped.last() == channel@);
            reveal_with_fuel(Seq::filter, 1);
        }
        if !is_ignored_channel_type(channel.channel_type.as_str()) {
            channel_list.push(channel);
            assert(channel_views(channel_list@) =~= channel_views(before).push(mapped.last()));
        }
        i = i + 1;
    }
    assert(spec_elements(*response).take(len as int) == spec_elements(*response));
    proof {
        lemma_channels_keep_listed_types(spec_elements(*response));
        let read = spec_elements(*response).map_values(|c: JsonValue| spec_channel(c));
        assert forall|i: int|
            0 <= i < spec_elements(*response).len() && !seq!["2"@, "4"@, "10"@, "11"@, "12"@, "13"@, "14"@, "15"@].contains(
                #[trigger] spec_channel(spec_elements(*response)[i]).channel_type,
            ) implies channel_views(channel_list@).contains(spec_channel(spec_elements(*response)[i])) by {
            assert(read[i] == spec_channel(spec_elements(*response)[i]));
        }
        assert forall|j: int| 0 <= j < channel_list@.len() implies !seq!["2"@, "4"@, "10"@, "11"@, "12"@, "13"@, "14"@, "15"@].contains(
            #[trigger] channel_list@[j].channel_type@,
        ) by {
            assert(channel_views(channel_list@)[j] == channel_list@[j]@);
        }
    }
    channel_list
}

/// The channels that `channels` keeps from a reply are exactly those whose
/// type is none of 2, 4, 10, 11, 12, 13, 14 and 15: none of those types is
/// kept, and every channel of another type is (a media channel, type 16,
/// among them).
pub proof fn lemma_channels_keep_listed_types(reply: Seq<JsonValue>)
    ensures
        ({
            let read = reply.map_values(|c: JsonValue| spec_channel(c));
            let kept = read.filter(|c: ChannelView| is_listed(c));
            let ignored = seq!["2"@, "4"@, "10"@, "11"@, "12"@, "13"@, "14"@, "15"@];
            &&& forall|i: int| 0 <= i < kept.len() ==> !ignored.contains(#[trigger] kept[i].channel_type)
            &&& forall|i: int| 0 <= i < read.len() && !ignored.contains(read[i].channel_type) ==> #[trigger] kept.contains(read[i])
            &&& forall|c: ChannelView| #[trigger] kept.contains(c) ==> read.contains(c)
        }),
{
    broadcast use vstd::seq_lib::group_filter_ensures;
    broadcast use vstd::seq::Seq::lemma_filter_contains_rev;
    let read = reply.map_values(|c: JsonValue| spec_channel(c));
    let kept = read.filter(|c: ChannelView| is_listed(c));
    let ignored = seq!["2"@, "4"@, "10"@, "11"@, "12"@, "13"@, "14"@, "15"@];
    assert forall|t: Seq<char>| ignored.contains(t) <==> #[trigger] is_ignored_type(t) by {
        if is_ignored_type(t) {
            if t == "2"@ { assert(ignored[0] == t); }
            else if t == "4"@ { assert(ignored[1] == t); }
            else if t == "10"@ { assert(ignored[2] == t); }
            else if t == "11"@ { assert(ignored[3] == t); }
            else if t == "12"@ { assert(ignored[4] == t); }
            else if t == "13"@ { assert(ignored[5] == t); }
            else if t == "14"@ { assert(ignored[6] == t); }
            else { assert(ignored[7] == t); }
        }
    }
    assert forall|i: int| 0 <= i < kept.len() implies !ignored.contains(
        #[trigger] kept[i].channel_type,
    ) by {
        assert(is_listed(kept[i]));
        assert(!is_ignored_type(kept[i].channel_type));
    }
    assert forall|i: int| 0 <= i < read.len() && !ignored.contains(read[i].channel_type) implies #[trigger] kept.contains(read[i]) by {
        assert(!is_ignored_type(read[i].channel_type));
        assert(is_listed(read[i]));
    }
}

/// The first channel of `channels` named `title`, or the error
/// `"Could not find channel"` where none is.
pub fn find_channel(channels: &Vec<Channel>, title: &str) -> (r: Result<Channel, &'static str>)
    ensures
        match r {
            Ok(c) => exists|i: int|
                0 <= i < channels@.len() && c@ == channels@[i]@ && channels@[i].name@ == title@
                    && forall|j: int| 0 <= j < i ==> channels@[j].name@ != title@,
            Err(e) => e@ == "Could not find channel"@ && forall|j: int|
                0 <= j < channels@.len() ==> channels@[j].name@ != title@,
        },
{
    let mut i: usize = 0;
    while i < channels.len()
        invariant
            i <= channels.len(),
            forall|j: int| 0 <= j < i ==> channels@[j].name@ != title@,
        decreases channels.len() - i,
    {
        if str_eq(channels[i].name.as_str(), title) {
            return Ok(channels[i].duplicate());
        }
        i = i + 1;
    }
    Err("Could not find channel")
}

/// The reply to `messages_url` is an error: it, or its first element, has a
/// member `code`.
pub open spec fn is_access_error(response: JsonValue) -> bool {
    spec_lookup(response, 0, "code"@) is Some
}

/// The messages of the reply to `messages_url`, oldest first: Discord lists
/// them newest first. A reply that carries an error `code` gives the error
/// `"ACCESS DENIED"`.
pub fn messages(response: &JsonValue) -> (r: Result<Vec<Msg>, &'static str>)
    requires
        spec_lookup(*response, 0, "code"@) matches Some(v) ==> spec_text(v) is Some,
        !is_access_error(*response) ==> response is Array,
    ensures
        is_access_error(*response) ==> (r matches Err(e) && e@ == "ACCESS DENIED"@),
        !is_access_error(*response) ==> (r matches Ok(list) && msg_views(list@) == spec_elements(
            *response,
        ).map_values(|m: JsonValue| spec_msg(m)).reverse()),
{
    let potential_panic = get(response, 0, "code");
    match potential_panic {
        Ok(_) => {
            return Err("ACCESS DENIED");
        },
        Err(_) => {},
    }
    let mut message_list: Vec<Msg> = Vec::new();
    let len = get_length(response);
    let ghost forward = spec_elements(*response).map_values(|m: JsonValue| spec_msg(m));
    let mut i: usize = 0;
    while i < len
        invariant
            i <= len,
            response is Array,
            len == spec_elements(*response).len(),
            forward == spec_elements(*response).map_values(|m: JsonValue| spec_msg(m)),
            msg_views(message_list@) == forward.reverse().take(i as int),
        decreases len - i,
    {
        let item = response.at(len - 1 - i).unwrap();
        let msg = Msg::from(item);
        let ghost before = message_list@;
        message_list.push(msg);
        proof {
            assert(msg_views(message_list@) =~= msg_views(before).push(msg@));
            assert(forward.reverse().take(i + 1) =~= forward.reverse().take(i as int).push(
                forward[len - 1 - i],
            ));
        }
        i = i + 1;
    }
    assert(forward.reverse().take(len as int) =~= forward.reverse());
    Ok(message_list)
}

/// The users of the reply to `friends_url`.
pub fn friends(response: &JsonValue) -> (r: Vec<User>)
    requires
        response is Array,
    ensures
        user_views(r@) == spec_elements(*response).map_values(|u: JsonValue| spec_user(u)),
{
    let mut friends_list: Vec<User> = Vec::new();
    let len = get_length(response);
    let mut i: usize = 0;
    while i < len
        invariant
            i <= len,
            response is Array,
            len == spec_elements(*response).len(),
            user_views(friends_list@) == spec_elements(*response).take(i as int).map_values(
                |u: JsonValue| spec_user(u),
            ),
        decreases len - i,
    {
        let item = response.at(i).unwrap();
        let user = User::from(item);
        let ghost before = friends_list@;
        friends_list.push(user);
        proof {
            let items = spec_elements(*response);
            assert(user_views(friends_list@) =~= user_views(before).push(user@));
            assert(items.take(i + 1) == items.take(i as int).push(items[i as int]));
            assert(items.take(i + 1).map_values(|u: JsonValue| spec_user(u)) =~= items.take(
                i as int,
            ).map_values(|u: JsonValue| spec_user(u)).push(spec_user(items[i as int])));
        }
        i = i + 1;
    }
    assert(spec_elements(*response).take(len as int) == spec_elements(*response));
    friends_list
}

/// A message to post: the address to post it to, and the form field
/// `content`.
#[derive(Debug)]
pub struct OutgoingMessage {
    pub url: String,
    pub content: String,
}

/// The address that takes the messages posted to the channel `channel_id`.
pub open spec fn spec_send_url(channel_id: Seq<char>) -> Seq<char> {
    "https://discord.com/api/v9/channels/"@ + channel_id + "/messages"@
}

/// The post that sends `input` to the selected channel.
pub fn send_message(app: &App, input: &String) -> (r: OutgoingMessage)
    requires
        app.has_channel(),
    ensures
        r.url@ == spec_send_url(app.spec_channel().id@),
        r.content@ == input@,
{
    let channel_id = &app.get_channel().id;
    let mut url = String::from_str("https://discord.com/api/v9/channels/");
    url.append(channel_id.as_str());
    url.append("/messages");
    OutgoingMessage { url, content: input.clone() }
}

} // verus!
